//! What can go wrong between configuring a loop and reading its answers.
use vstd::prelude::*;

verus! {

/// `std::io::Error`, carried as it is: creating the working directory,
/// writing the script, copying, starting the shell and writing to its input.
#[verifier::external_type_specification]
#[verifier::external_body]
pub struct ExIoError(std::io::Error);

/// `std::string::FromUtf8Error`, carried as it is.
#[verifier::external_type_specification]
#[verifier::external_body]
pub struct ExFromUtf8Error(std::string::FromUtf8Error);

/// Why a [`crate::ConfigBuilder`] refused to build.
#[derive(Debug, PartialEq, Eq, Structural)]
pub enum ConfigBuilderError {
    /// The script would have no file name inside the working directory.
    EmptyScriptFileName,
    /// An empty end-of-output marker would end every answer after its first byte.
    EmptyEof,
}

/// Every failure the library reports.
#[derive(Debug)]
pub enum Error {
    /// Copying a directory into the working directory exited with this code
    /// (`None` when a signal ended it); the message names the paths and holds
    /// what the copy wrote to standard error.
    CommandFailed(Option<i32>, String),
    /// An I/O failure of the host.
    IoError(std::io::Error),
    /// Bytes that were meant to be text were not UTF-8.
    Utf8Error(std::string::FromUtf8Error),
    /// The configuration was refused when it was built.
    ConfigBuilderError(ConfigBuilderError),
    /// Standard output closed before the end-of-output marker came; these are
    /// the bytes that came before.
    UnexpectedEof(Vec<u8>),
}

} // verus!
