//! Classified failures of one macro-expansion run.

use vstd::prelude::*;

verus! {

/// The standard I/O error type, declared so that values of it can be carried
/// inside [`Error`]. Verus treats such a value as opaque.
#[verifier::external_type_specification]
#[verifier::external_body]
pub struct ExIoError(std::io::Error);

/// The standard UTF-8 decoding error type, declared so that values of it can
/// be carried inside [`Error`]. Verus treats such a value as opaque.
#[verifier::external_type_specification]
#[verifier::external_body]
pub struct ExUtf8Error(std::str::Utf8Error);

/// Possible errors that can occur while expanding and pretty printing a
/// package's source.
#[derive(Debug)]
pub enum Error {
    /// Creating the scratch directory or running the driver process failed.
    Io(std::io::Error),
    /// A captured output stream of the driver was not valid UTF-8 text.
    Utf8(std::str::Utf8Error),
    /// The driver ran but produced no expanded source; carries the driver's
    /// diagnostic (standard-error) text for display.
    Compile(String),
}

impl From<std::io::Error> for Error {
    /// Wraps an underlying I/O failure.
    fn from(err: std::io::Error) -> (r: Error) {
        Error::Io(err)
    }
}

impl vstd::std_specs::convert::FromSpecImpl<std::io::Error> for Error {
    open spec fn obeys_from_spec() -> bool {
        true
    }

    open spec fn from_spec(err: std::io::Error) -> Error {
        Error::Io(err)
    }
}

impl From<std::str::Utf8Error> for Error {
    /// Wraps an underlying UTF-8 decoding failure.
    fn from(err: std::str::Utf8Error) -> (r: Error) {
        Error::Utf8(err)
    }
}

impl vstd::std_specs::convert::FromSpecImpl<std::str::Utf8Error> for Error {
    open spec fn obeys_from_spec() -> bool {
        true
    }

    open spec fn from_spec(err: std::str::Utf8Error) -> Error {
        Error::Utf8(err)
    }
}

} // verus!
