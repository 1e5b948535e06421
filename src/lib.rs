//! Installs a process-wide `tracing` subscriber whose filter comes from the
//! `RUST_LOG` environment variable, writing either to the system journal or to
//! standard output.
//!
//! What a call installs and returns is decided in [`pipeline`] and in
//! [`finish_stdout`] and [`finish_journal`], from the results of the outside
//! calls; the entry points make those calls and hand the results on.
//!
//! Initialization is meant to happen once per process. A later call returns as
//! the first one would, but the subscriber installed first stays in place.

use vstd::prelude::*;

pub mod error;
pub mod pipeline;
mod backend;

pub use error::Error;

use crate::backend::{install_journal, install_stdout};
use crate::pipeline::{
    filter_from, journal_pipeline, journal_plan, outcome, stdout_pipeline, stdout_plan, Pipeline,
    Sink,
};

verus! {

/// Initializes logging from `RUST_LOG`: into the journal when `to_journal` is
/// true, through [`init_journal`], and to standard output otherwise, through
/// [`init_stdout`]. A second initialization in the same process returns as the
/// first would and leaves the first subscriber in place.
pub fn init(to_journal: bool) -> (r: Result<(), Error>)
    ensures
        !to_journal ==> r is Ok || r matches Err(Error::Env(_)),
{
    if to_journal {
        init_journal()
    } else {
        init_stdout()
    }
}

/// Initializes logging into the journal, filtered by `RUST_LOG`: the filter is
/// parsed first and its error returned at once; only then is journald tried,
/// and [`finish_journal`] decides the rest. A second initialization in the same
/// process returns as the first would and leaves the first subscriber in place.
pub fn init_journal() -> (r: Result<(), Error>)
    ensures
        r is Ok || r matches Err(Error::Env(_)) || r matches Err(Error::Journal(_)),
{
    match env_filter() {
        Err(e) => Err(e),
        Ok(f) => finish_journal(f, tracing_journald::layer()),
    }
}

/// Initializes logging to standard output, filtered by `RUST_LOG`, with
/// [`finish_stdout`] deciding on what the filter parser gave. A second
/// initialization in the same process returns as the first would and leaves
/// the first subscriber in place.
pub fn init_stdout() -> (r: Result<(), Error>)
    ensures
        r is Ok || r matches Err(Error::Env(_)),
{
    finish_stdout(tracing_subscriber::EnvFilter::try_from_default_env())
}

/// Finishes the stdout path on what the filter parser gave: a filter that
/// parsed is installed over standard output and the call succeeds; the
/// parser's error comes back as [`Error::Env`] and nothing is installed.
pub fn finish_stdout(
    parsed: Result<tracing_subscriber::EnvFilter, tracing_subscriber::filter::FromEnvError>,
) -> (r: Result<(), Error>)
    ensures
        r == outcome(stdout_plan(parsed)),
        r is Ok <==> parsed is Ok,
        parsed matches Err(e) ==> r == Err::<(), Error>(Error::Env(e)),
{
    install_planned(stdout_pipeline(parsed))
}

/// Finishes the journal path on a filter that parsed and what the journald
/// connection attempt gave: with a layer, the filter over it is installed and
/// the call succeeds; the connection's I/O error comes back as
/// [`Error::Journal`], and nothing is installed, standard output included.
pub fn finish_journal(
    filter: tracing_subscriber::EnvFilter,
    connected: std::io::Result<tracing_journald::Layer>,
) -> (r: Result<(), Error>)
    ensures
        r == outcome(journal_plan(filter, connected)),
        r is Ok <==> connected is Ok,
        connected matches Err(e) ==> r == Err::<(), Error>(Error::Journal(e)),
{
    install_planned(journal_pipeline(filter, connected))
}

/// Parses the filter from `RUST_LOG`, the parser's error becoming [`Error::Env`].
fn env_filter() -> (r: Result<tracing_subscriber::EnvFilter, Error>)
    ensures
        r is Ok || r matches Err(Error::Env(_)),
{
    filter_from(tracing_subscriber::EnvFilter::try_from_default_env())
}

/// Installs the planned pipeline, if there is one, and returns the call's result.
/// Whether the registry took it is not part of the result: where a subscriber
/// was set before, that one stays.
fn install_planned(plan: Result<Pipeline, Error>) -> (r: Result<(), Error>)
    ensures
        r == outcome(plan),
{
    match plan {
        Ok(p) => {
            let _accepted = install(p);
            Ok(())
        },
        Err(e) => Err(e),
    }
}

/// Hands the pipeline to the global registry, over the sink it names. Gives
/// whether the registry took it.
fn install(p: Pipeline) -> (accepted: bool) {
    match p.sink {
        Sink::Journal(layer) => install_journal(p.filter, layer),
        Sink::Stdout => install_stdout(p.filter),
    }
}

} // verus!
