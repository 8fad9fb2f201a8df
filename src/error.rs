use vstd::prelude::*;

verus! {

/// Errors from std that the library carries through without looking inside.
#[verifier::external_type_specification]
#[verifier::external_body]
pub struct ExIoError(std::io::Error);

#[verifier::external_type_specification]
#[verifier::external_body]
pub struct ExFromUtf8Error(std::string::FromUtf8Error);

/// Why a job could not be prepared or did not succeed.
#[derive(Debug)]
pub enum YoutubeDLError {
    /// The download directory could not be prepared, or the tool could not be launched.
    IOError(std::io::Error),
    /// What the tool printed was not valid UTF-8.
    UTF8Error(std::string::FromUtf8Error),
    /// The tool ran and exited with a failure; this holds what it wrote to standard error.
    Failure(String),
}

/// Relies on std::io::Error::other: an error of kind `Other` that carries the message.
#[verifier::external_body]
pub(crate) fn other_io_error(msg: &str) -> std::io::Error {
    std::io::Error::other(msg)
}

} // verus!
