use vstd::prelude::*;
use vstd::string::StringExecFns;

verus! {

/// The error type of `serde_json`, carried through unchanged.
#[verifier::external_type_specification]
#[verifier::external_body]
pub struct ExJsonError(serde_json::Error);

/// The error type of std's I/O, carried through unchanged.
#[verifier::external_type_specification]
#[verifier::external_body]
pub struct ExIoError(std::io::Error);

/// The error of the `validators` host parser, carried through unchanged.
#[verifier::external_type_specification]
#[verifier::external_body]
pub struct ExHostError(validators::errors::HostError);

/// The error of `tokio`'s timeouts, carried through unchanged.
#[verifier::external_type_specification]
#[verifier::external_body]
pub struct ExElapsed(tokio::time::error::Elapsed);

/// What can go wrong while building a directory or looking something up.
#[derive(Debug)]
pub enum WhoIsError {
    /// The directory source is not well-formed JSON.
    SerdeJsonError(serde_json::Error),
    /// Name resolution, connecting, writing or reading failed.
    IOError(std::io::Error),
    /// A host or address string is not well-formed.
    HostError(validators::errors::HostError),
    /// A network phase exceeded its time limit.
    Elapsed(tokio::time::error::Elapsed),
    /// The directory source is malformed, or no server is known for the
    /// target.
    MapError(&'static str),
}

impl WhoIsError {
    /// A text that describes the error; for a directory error, its message.
    pub fn message(&self) -> (r: String)
        ensures
            (self matches WhoIsError::MapError(m) ==> r@ == m@),
    {
        match self {
            WhoIsError::SerdeJsonError(error) => error.to_string(),
            WhoIsError::IOError(error) => error.to_string(),
            WhoIsError::HostError(error) => error.to_string(),
            WhoIsError::Elapsed(error) => error.to_string(),
            WhoIsError::MapError(text) => String::from_str(text),
        }
    }
}

impl From<serde_json::Error> for WhoIsError {
    fn from(error: serde_json::Error) -> (r: Self) {
        WhoIsError::SerdeJsonError(error)
    }
}

impl vstd::std_specs::convert::FromSpecImpl<serde_json::Error> for WhoIsError {
    open spec fn obeys_from_spec() -> bool {
        true
    }

    open spec fn from_spec(v: serde_json::Error) -> Self {
        WhoIsError::SerdeJsonError(v)
    }
}

impl From<std::io::Error> for WhoIsError {
    fn from(error: std::io::Error) -> (r: Self) {
        WhoIsError::IOError(error)
    }
}

impl vstd::std_specs::convert::FromSpecImpl<std::io::Error> for WhoIsError {
    open spec fn obeys_from_spec() -> bool {
        true
    }

    open spec fn from_spec(v: std::io::Error) -> Self {
        WhoIsError::IOError(v)
    }
}

impl From<validators::errors::HostError> for WhoIsError {
    fn from(error: validators::errors::HostError) -> (r: Self) {
        WhoIsError::HostError(error)
    }
}

impl vstd::std_specs::convert::FromSpecImpl<validators::errors::HostError> for WhoIsError {
    open spec fn obeys_from_spec() -> bool {
        true
    }

    open spec fn from_spec(v: validators::errors::HostError) -> Self {
        WhoIsError::HostError(v)
    }
}

impl From<tokio::time::error::Elapsed> for WhoIsError {
    fn from(error: tokio::time::error::Elapsed) -> (r: Self) {
        WhoIsError::Elapsed(error)
    }
}

impl vstd::std_specs::convert::FromSpecImpl<tokio::time::error::Elapsed> for WhoIsError {
    open spec fn obeys_from_spec() -> bool {
        true
    }

    open spec fn from_spec(v: tokio::time::error::Elapsed) -> Self {
        WhoIsError::Elapsed(v)
    }
}

} // verus!
