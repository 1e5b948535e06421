//! The error of an initialization call, and the outside error types it wraps.

use vstd::prelude::*;

verus! {

#[verifier::external_type_specification]
#[verifier::external_body]
pub struct ExFromEnvError(tracing_subscriber::filter::FromEnvError);

#[verifier::external_type_specification]
#[verifier::external_body]
pub struct ExIoError(std::io::Error);

/// Why logging could not be initialized.
#[derive(Debug)]
pub enum Error {
    /// The `RUST_LOG` environment variable is unset or does not parse as a filter.
    Env(tracing_subscriber::filter::FromEnvError),
    /// The journald socket could not be opened or does not answer.
    Journal(std::io::Error),
}

impl Error {
    /// A one-line summary of the failure.
    pub fn message(&self) -> (r: String)
        ensures
            r@ == error_message(*self),
    {
        match self {
            Error::Env(_) => String::from_str("can't parse `RUST_LOG` environment variable"),
            Error::Journal(_) => String::from_str("can't connect to journald"),
        }
    }

    /// The filter parser's error, where that is the cause.
    pub fn env_cause(&self) -> (r: Option<&tracing_subscriber::filter::FromEnvError>)
        ensures
            match *self {
                Error::Env(e) => r == Some(&e),
                Error::Journal(_) => r is None,
            },
    {
        match self {
            Error::Env(e) => Some(e),
            Error::Journal(_) => None,
        }
    }

    /// The I/O error met on the journald socket, where that is the cause.
    pub fn journal_cause(&self) -> (r: Option<&std::io::Error>)
        ensures
            match *self {
                Error::Env(_) => r is None,
                Error::Journal(e) => r == Some(&e),
            },
    {
        match self {
            Error::Env(_) => None,
            Error::Journal(e) => Some(e),
        }
    }
}

/// The summary that [`Error::message`] gives for each kind of failure.
pub open spec fn error_message(e: Error) -> Seq<char> {
    match e {
        Error::Env(_) => "can't parse `RUST_LOG` environment variable"@,
        Error::Journal(_) => "can't connect to journald"@,
    }
}

} // verus!
