use clap_file::IoError;
use clap_file::NamedFile;
use clap_file::NamedFileParser;
use clap_file::file::read_capacity;

fn not_found() -> std::io::Error {
    std::io::Error::new(std::io::ErrorKind::NotFound, "No such file or directory")
}

#[test]
fn parse_success_pairs_handle_with_verbatim_path() {
    let cmd = clap::Command::new("prog");
    let opened: Result<u32, std::io::Error> = Ok(7);
    let named = NamedFileParser
        .parse(&cmd, None, String::from("/tmp/a.txt"), opened)
        .ok().unwrap();
    assert_eq!(named.path().as_str(), "/tmp/a.txt");
    assert_eq!(*named.file(), 7);
}

#[test]
fn parse_keeps_unnormalized_path() {
    let cmd = clap::Command::new("prog");
    let raw = String::from("./sub/../a.txt");
    let opened: Result<u32, std::io::Error> = Ok(0);
    let named = NamedFileParser.parse(&cmd, None, raw.clone(), opened).ok().unwrap();
    assert_eq!(named.path(), &raw);
}

#[test]
fn parse_failure_message_contains_path() {
    let cmd = clap::Command::new("prog");
    let opened: Result<u32, std::io::Error> = Err(not_found());
    let err = NamedFileParser
        .parse(&cmd, None, String::from("/tmp/missing.txt"), opened)
        .err().unwrap();
    let rendered = err.error.to_string();
    assert!(rendered.contains("/tmp/missing.txt"));
    assert!(rendered.contains("Could not open file"));
}

#[test]
fn parse_failure_message_names_declared_argument() {
    let cmd = clap::Command::new("prog");
    let arg = clap::Arg::new("input").value_name("input");
    let opened: Result<u32, std::io::Error> = Err(not_found());
    let err = NamedFileParser
        .parse(&cmd, Some(&arg), String::from("/tmp/missing.txt"), opened)
        .err().unwrap();
    let rendered = err.error.to_string();
    assert!(rendered.contains("input"));
    assert!(rendered.contains("/tmp/missing.txt"));
}

#[test]
fn parse_failure_without_value_name_omits_argument_clause() {
    let cmd = clap::Command::new("prog");
    let arg = clap::Arg::new("input");
    let opened: Result<u32, std::io::Error> = Err(not_found());
    let err = NamedFileParser
        .parse(&cmd, Some(&arg), String::from("/tmp/missing.txt"), opened)
        .err().unwrap();
    let rendered = err.error.to_string();
    assert!(rendered.contains("Could not open file: \"/tmp/missing.txt\""));
    assert!(!rendered.contains("specified at"));
}

#[test]
fn parse_ref_behaves_like_parse() {
    let cmd = clap::Command::new("prog");
    let opened: Result<u32, std::io::Error> = Ok(3);
    let named = NamedFileParser
        .parse_ref(&cmd, None, "/tmp/a.txt", opened)
        .ok().unwrap();
    assert_eq!(named.path().as_str(), "/tmp/a.txt");
    assert_eq!(*named.file(), 3);
}

#[test]
fn render_open_error_without_argument_name() {
    let message = NamedFileParser::render_open_error(
        &None,
        &String::from("/tmp/x"),
        &String::from("No such file or directory"),
    );
    assert_eq!(
        message,
        "Could not open file: \"/tmp/x\"\nNo such file or directory\n"
    );
}

#[test]
fn render_open_error_with_argument_name() {
    let message = NamedFileParser::render_open_error(
        &Some(String::from("input")),
        &String::from("/tmp/x"),
        &String::from("No such file or directory"),
    );
    assert_eq!(
        message,
        "Could not open file specified at input: \"/tmp/x\"\nNo such file or directory\n"
    );
}

#[test]
fn read_passes_bytes_through_unchanged() {
    let named = NamedFile { file: (), path: String::from("/tmp/a.txt") };
    let bytes = named.read(Ok(vec![b'h', b'e', b'l', b'l', b'o'])).ok().unwrap();
    assert_eq!(bytes, vec![104u8, 101, 108, 108, 111]);
}

#[test]
fn read_of_drained_handle_is_empty_not_an_error() {
    let named = NamedFile { file: (), path: String::from("/tmp/a.txt") };
    let bytes = named.read(Ok(Vec::new())).ok().unwrap();
    assert!(bytes.is_empty());
}

#[test]
fn read_annotates_failure_with_path() {
    let named = NamedFile { file: (), path: String::from("/tmp/a.txt") };
    let err = named.read(Err(not_found())).err().unwrap();
    assert_eq!(err.path().as_str(), "/tmp/a.txt");
    assert_eq!(err.io_error().kind(), std::io::ErrorKind::NotFound);
}

#[test]
fn read_to_string_passes_text_through_unchanged() {
    let named = NamedFile { file: (), path: String::from("/tmp/a.txt") };
    let text = named.read_to_string(Ok(String::from("hello"))).ok().unwrap();
    assert_eq!(text, "hello");
}

#[test]
fn read_to_string_annotates_decode_failure_while_bytes_still_pass() {
    // The same file: its bytes are not valid text, so the text read's outcome
    // is an error while an independent byte read's outcome is the raw bytes.
    let named = NamedFile { file: (), path: String::from("/tmp/raw.bin") };
    let invalid = std::io::Error::new(
        std::io::ErrorKind::InvalidData,
        "stream did not contain valid UTF-8",
    );
    let err = named.read_to_string(Err(invalid)).err().unwrap();
    assert_eq!(err.path().as_str(), "/tmp/raw.bin");
    assert_eq!(err.io_error().kind(), std::io::ErrorKind::InvalidData);

    let bytes = named.read(Ok(vec![0xff, 0xfe])).ok().unwrap();
    assert_eq!(bytes, vec![0xff, 0xfe]);
}

#[test]
fn io_error_message_combines_path_and_cause() {
    let err = IoError::new(String::from("/tmp/x"), not_found());
    assert_eq!(
        err.message(),
        "Encountered an error while opening the file at /tmp/x: No such file or directory"
    );
}

#[test]
fn io_error_unwraps_to_the_underlying_failure() {
    let err = IoError::new(String::from("/tmp/x"), not_found());
    assert_eq!(err.path().as_str(), "/tmp/x");
    let inner = err.into_io_error();
    assert_eq!(inner.kind(), std::io::ErrorKind::NotFound);
}

#[test]
fn read_capacity_uses_reported_size_as_hint() {
    assert_eq!(read_capacity(Some(42)), 42);
    assert_eq!(read_capacity(Some(0)), 0);
    assert_eq!(read_capacity(None), 0);
}

#[test]
fn value_parser_is_the_named_file_parser() {
    let parser = NamedFile::<u32>::value_parser();
    let cmd = clap::Command::new("prog");
    let opened: Result<u32, std::io::Error> = Ok(1);
    let named = parser.parse(&cmd, None, String::from("a"), opened).ok().unwrap();
    assert_eq!(named.path().as_str(), "a");
}
