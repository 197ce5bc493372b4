//! The value-parser strategy that turns a raw command-line argument into a
//! `NamedFile`, with framework-formatted, path-annotated errors.

use vstd::prelude::*;
use vstd::string::StringExecFns;

use crate::error::io_error_text;
use crate::file::NamedFile;
use crate::text::contains_substring;
use crate::text::lemma_concat_extract;

verus! {

/// The framework's command definition; opaque here, used only to attach its
/// standard error formatting.
#[verifier::external_type_specification]
#[verifier::external_body]
pub struct ExClapCommand(clap::Command);

/// The framework's descriptor of one declared argument; opaque here, used
/// only to extract a human-readable name for error messages.
#[verifier::external_type_specification]
#[verifier::external_body]
pub struct ExClapArg(clap::Arg);

/// The framework-formatted validation error that `parse` reports. It holds
/// the framework's own error value in its one public field, for handing back
/// to the framework. That value's type cannot be declared to the verifier
/// (its formatter type parameter is bound by a framework trait), so this
/// wrapper is opaque as a whole.
#[verifier::external_body]
pub struct FrameworkError {
    pub error: clap::Error,
}

/// Relies on `clap::Error::raw` with `ErrorKind::ValueValidation`: wraps the
/// message as an unformatted validation-failure error. Nothing is assumed of
/// the result.
#[verifier::external_body]
fn raw_validation_error(message: String) -> FrameworkError {
    FrameworkError { error: clap::Error::raw(clap::error::ErrorKind::ValueValidation, message) }
}

/// Relies on `clap::Error::with_cmd`: applies the command's formatting to the
/// error. Nothing is assumed of the result.
#[verifier::external_body]
fn error_with_cmd(err: FrameworkError, cmd: &clap::Command) -> FrameworkError {
    FrameworkError { error: err.error.with_cmd(cmd) }
}

/// Relies on `clap::Arg::get_value_names`: the first declared value name of
/// the argument, when it has one. Nothing is assumed of the result.
#[verifier::external_body]
fn arg_value_name(arg: &clap::Arg) -> Option<String> {
    arg.get_value_names().and_then(|names| names.first()).map(|name| name.as_str().to_owned())
}

/// The message reported when the file named by an argument cannot be opened:
/// the argument's name when one is available, then the attempted path
/// verbatim in quotes, then the low-level cause.
pub open spec fn open_error_message(
    arg_name: Option<Seq<char>>,
    path: Seq<char>,
    cause: Seq<char>,
) -> Seq<char> {
    match arg_name {
        Some(name) => "Could not open file specified at "@ + name + ": \""@ + path + "\"\n"@
            + cause + "\n"@,
        None => "Could not open file: \""@ + path + "\"\n"@ + cause + "\n"@,
    }
}

/// Every open-failure message contains the attempted path, verbatim.
pub proof fn lemma_open_error_message_contains_path(
    arg_name: Option<Seq<char>>,
    path: Seq<char>,
    cause: Seq<char>,
)
    ensures
        contains_substring(open_error_message(arg_name, path, cause), path),
{
    let m = open_error_message(arg_name, path, cause);
    match arg_name {
        Some(name) => {
            let a = "Could not open file specified at "@ + name + ": \""@;
            let c = "\"\n"@ + cause + "\n"@;
            assert(m =~= a + path + c);
            lemma_concat_extract(m, a, path, c);
        },
        None => {
            let a = "Could not open file: \""@;
            let c = "\"\n"@ + cause + "\n"@;
            assert(m =~= a + path + c);
            lemma_concat_extract(m, a, path, c);
        },
    }
}

/// When the argument's name is available, the open-failure message contains
/// that name word for word, besides the attempted path.
pub proof fn lemma_open_error_message_names_arg(name: Seq<char>, path: Seq<char>, cause: Seq<char>)
    ensures
        contains_substring(open_error_message(Some(name), path, cause), name),
        contains_substring(open_error_message(Some(name), path, cause), path),
{
    let m = open_error_message(Some(name), path, cause);
    let a = "Could not open file specified at "@;
    let c = ": \""@ + path + "\"\n"@ + cause + "\n"@;
    assert(m =~= a + name + c);
    lemma_concat_extract(m, a, name, c);
    lemma_open_error_message_contains_path(Some(name), path, cause);
}

/// A parser for `NamedFile` values: a stateless strategy that interprets the
/// raw argument text as a filesystem path, with no normalization, globbing or
/// tilde-expansion, and pairs the handle the caller opened with that path.
#[derive(Copy, Clone, Debug)]
pub struct NamedFileParser;

impl NamedFileParser {
    /// Renders the open-failure message for an attempted path: with the
    /// argument's name when one is given, without it otherwise.
    pub fn render_open_error(arg_name: &Option<String>, path: &String, cause: &String) -> (m:
        String)
        ensures
            m@ == open_error_message(arg_name.deep_view(), path@, cause@),
            contains_substring(m@, path@),
    {
        let mut m: String;
        match arg_name {
            Some(name) => {
                m = "Could not open file specified at ".to_owned();
                m.append(name.as_str());
                m.append(": \"");
            },
            None => {
                m = "Could not open file: \"".to_owned();
            },
        }
        m.append(path.as_str());
        m.append("\"\n");
        m.append(cause.as_str());
        m.append("\n");
        proof {
            lemma_open_error_message_contains_path(arg_name.deep_view(), path@, cause@);
        }
        m
    }

    /// Parses one occurrence of the argument, given the raw argument text and
    /// the outcome of the single open-for-read attempt the caller made on
    /// that text at its edge.
    ///
    /// Succeeds exactly when the open did, and then pairs the opened handle
    /// with the raw text verbatim (not canonicalized). On failure it reports
    /// a validation-failure error in the command's formatting, whose message
    /// is `open_error_message` for the attempted path, the argument's first
    /// declared value name (when `arg` carries one) and the failure's own
    /// description.
    pub fn parse<T>(
        &self,
        cmd: &clap::Command,
        arg: Option<&clap::Arg>,
        value: String,
        opened: Result<T, std::io::Error>,
    ) -> (r: Result<NamedFile<T>, FrameworkError>)
        ensures
            r is Ok <==> opened is Ok,
            opened is Ok ==> r->Ok_0.file == opened->Ok_0 && r->Ok_0.path@ == value@,
    {
        match opened {
            Ok(file) => Ok(NamedFile { file, path: value }),
            Err(err) => {
                let cause = io_error_text(&err);
                let arg_name = match arg {
                    Some(arg) => arg_value_name(arg),
                    None => None,
                };
                let message = Self::render_open_error(&arg_name, &value, &cause);
                Err(error_with_cmd(raw_validation_error(message), cmd))
            },
        }
    }

    /// `parse`, taking the raw argument text borrowed.
    pub fn parse_ref<T>(
        &self,
        cmd: &clap::Command,
        arg: Option<&clap::Arg>,
        value: &str,
        opened: Result<T, std::io::Error>,
    ) -> (r: Result<NamedFile<T>, FrameworkError>)
        ensures
            r is Ok <==> opened is Ok,
            opened is Ok ==> r->Ok_0.file == opened->Ok_0 && r->Ok_0.path@ == value@,
    {
        self.parse(cmd, arg, value.to_owned(), opened)
    }
}

} // verus!
