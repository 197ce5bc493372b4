//! Lets a command-line argument parser accept "open this file for me" as a
//! first-class argument type.
//!
//! The crate pairs an open file handle with the path string that produced it
//! (`NamedFile`), offers whole-file reads whose failures are annotated with
//! that path (`IoError`), and turns a raw argument plus the outcome of the
//! single open attempt into either the value or a framework-formatted error
//! (`NamedFileParser`). The one filesystem open and the bulk reads themselves
//! happen at the caller's edge; this crate states and checks everything that
//! is decided about their outcomes.

pub mod error;
pub mod file;
pub mod parser;
pub mod text;

pub use error::IoError;
pub use file::NamedFile;
pub use parser::NamedFileParser;
