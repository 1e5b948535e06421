//! What an initialization installs, decided from what the outside calls gave.
//!
//! The filter parsed from `RUST_LOG` comes first; on the journal path the
//! journald layer comes next, and only after a filter that parsed. A
//! [`Pipeline`] exists only once every fallible step succeeded, so a failure
//! leaves nothing to install, and the journal path never falls back to
//! standard output.

use crate::error::Error;
use vstd::prelude::*;

verus! {

/// Where the log records go, with what that destination needs.
pub enum Sink {
    /// The system journal, through an open journald layer.
    Journal(tracing_journald::Layer),
    /// Formatted lines on standard output.
    Stdout,
}

/// A filter and the sink it governs: what becomes the global subscriber.
pub struct Pipeline {
    pub filter: tracing_subscriber::EnvFilter,
    pub sink: Sink,
}

/// The filter step: a parsed filter is kept, the parser's error becomes
/// [`Error::Env`] unchanged.
pub open spec fn filter_plan(
    parsed: Result<tracing_subscriber::EnvFilter, tracing_subscriber::filter::FromEnvError>,
) -> Result<tracing_subscriber::EnvFilter, Error> {
    match parsed {
        Ok(f) => Ok(f),
        Err(e) => Err(Error::Env(e)),
    }
}

/// The stdout path: the parsed filter over standard output, or the filter error.
pub open spec fn stdout_plan(
    parsed: Result<tracing_subscriber::EnvFilter, tracing_subscriber::filter::FromEnvError>,
) -> Result<Pipeline, Error> {
    match parsed {
        Ok(f) => Ok(Pipeline { filter: f, sink: Sink::Stdout }),
        Err(e) => Err(Error::Env(e)),
    }
}

/// The journal path once the filter parsed: the filter over the journald layer,
/// or the I/O error of the connection attempt.
pub open spec fn journal_plan(
    filter: tracing_subscriber::EnvFilter,
    connected: std::io::Result<tracing_journald::Layer>,
) -> Result<Pipeline, Error> {
    match connected {
        Ok(l) => Ok(Pipeline { filter: filter, sink: Sink::Journal(l) }),
        Err(e) => Err(Error::Journal(e)),
    }
}

/// What a call returns once its plan is known: success when there was a
/// pipeline to install, the plan's error otherwise.
pub open spec fn outcome(plan: Result<Pipeline, Error>) -> Result<(), Error> {
    match plan {
        Ok(_) => Ok(()),
        Err(e) => Err(e),
    }
}

/// The filter step on what the parser gave.
pub fn filter_from(
    parsed: Result<tracing_subscriber::EnvFilter, tracing_subscriber::filter::FromEnvError>,
) -> (r: Result<tracing_subscriber::EnvFilter, Error>)
    ensures
        r == filter_plan(parsed),
{
    match parsed {
        Ok(f) => Ok(f),
        Err(e) => Err(Error::Env(e)),
    }
}

/// The pipeline of the stdout path, from what the filter parser gave.
pub fn stdout_pipeline(
    parsed: Result<tracing_subscriber::EnvFilter, tracing_subscriber::filter::FromEnvError>,
) -> (r: Result<Pipeline, Error>)
    ensures
        r == stdout_plan(parsed),
{
    match filter_from(parsed) {
        Ok(f) => Ok(Pipeline { filter: f, sink: Sink::Stdout }),
        Err(e) => Err(e),
    }
}

/// The pipeline of the journal path, from a filter that parsed and what the
/// journald connection attempt gave.
pub fn journal_pipeline(
    filter: tracing_subscriber::EnvFilter,
    connected: std::io::Result<tracing_journald::Layer>,
) -> (r: Result<Pipeline, Error>)
    ensures
        r == journal_plan(filter, connected),
{
    match connected {
        Ok(l) => Ok(Pipeline { filter, sink: Sink::Journal(l) }),
        Err(e) => Err(Error::Journal(e)),
    }
}

/// With a filter that parses, the stdout path has a standard-output pipeline on
/// that very filter, and so succeeds.
pub proof fn lemma_valid_filter_stdout_succeeds(f: tracing_subscriber::EnvFilter)
    ensures
        stdout_plan(Ok(f)) == Ok::<Pipeline, Error>(Pipeline { filter: f, sink: Sink::Stdout }),
        outcome(stdout_plan(Ok(f))) == Ok::<(), Error>(()),
{
}

/// An unset or malformed filter fails both paths with the parser's error and
/// leaves nothing to install: the journal path stops at the filter step, before
/// any journald connection.
pub proof fn lemma_rejected_filter_fails_both_paths(e: tracing_subscriber::filter::FromEnvError)
    ensures
        stdout_plan(Err(e)) == Err::<Pipeline, Error>(Error::Env(e)),
        outcome(stdout_plan(Err(e))) == Err::<(), Error>(Error::Env(e)),
        filter_plan(Err(e)) == Err::<tracing_subscriber::EnvFilter, Error>(Error::Env(e)),
{
}

/// Without journald the journal path fails with the connection's I/O error and
/// leaves nothing to install; with it, the pipeline writes to the journal and
/// never to standard output.
pub proof fn lemma_journal_path_has_no_fallback(
    f: tracing_subscriber::EnvFilter,
    connected: std::io::Result<tracing_journald::Layer>,
)
    ensures
        connected matches Err(e) ==> journal_plan(f, connected) == Err::<Pipeline, Error>(
            Error::Journal(e),
        ) && outcome(journal_plan(f, connected)) == Err::<(), Error>(Error::Journal(e)),
        connected matches Ok(l) ==> journal_plan(f, connected) == Ok::<Pipeline, Error>(
            Pipeline { filter: f, sink: Sink::Journal(l) },
        ) && outcome(journal_plan(f, connected)) == Ok::<(), Error>(()),
        !(journal_plan(f, connected) matches Ok(Pipeline { sink: Sink::Stdout, .. })),
{
}

} // verus!
