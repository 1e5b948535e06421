//! The outside calls: parsing the filter, opening the journald socket, and
//! handing a subscriber to the global registry.

use tracing_subscriber::layer::SubscriberExt;
use tracing_subscriber::util::SubscriberInitExt;
use vstd::prelude::*;

verus! {

#[verifier::external_type_specification]
#[verifier::external_body]
pub struct ExEnvFilter(tracing_subscriber::EnvFilter);

#[verifier::external_type_specification]
#[verifier::external_body]
pub struct ExJournalLayer(tracing_journald::Layer);

/// Relies on `EnvFilter::try_from_default_env`, which parses `RUST_LOG` as it is
/// when called: an error when the variable is unset or holds an invalid
/// directive. What comes back depends on the environment, so nothing is promised
/// of it.
pub assume_specification[ tracing_subscriber::EnvFilter::try_from_default_env ]() -> Result<
    tracing_subscriber::EnvFilter,
    tracing_subscriber::filter::FromEnvError,
>;

/// Relies on `tracing_journald::layer`, which opens a datagram socket and sends
/// an empty payload to journald, failing with the I/O error when that cannot be
/// done. What comes back depends on the machine, so nothing is promised of it.
pub assume_specification[ tracing_journald::layer ]() -> std::io::Result<tracing_journald::Layer>;

/// Relies on `Registry::with` and `SubscriberInitExt::try_init`: layers the
/// filter and the journald layer over a registry and tries to make that the
/// global default subscriber. Gives whether `try_init` accepted it; it refuses
/// when a global subscriber is already set. That depends on the process, so
/// nothing is promised of it.
#[verifier::external_body]
pub(crate) fn install_journal(
    filter: tracing_subscriber::EnvFilter,
    layer: tracing_journald::Layer,
) -> (accepted: bool) {
    tracing_subscriber::registry().with(filter).with(layer).try_init().is_ok()
}

/// Relies on `fmt().with_env_filter` and `SubscriberBuilder::try_init`: builds a
/// formatter to standard output governed by the filter and tries to make it the
/// global default subscriber. Gives whether `try_init` accepted it; it refuses
/// when a global subscriber is already set. That depends on the process, so
/// nothing is promised of it.
#[verifier::external_body]
pub(crate) fn install_stdout(filter: tracing_subscriber::EnvFilter) -> (accepted: bool) {
    tracing_subscriber::fmt().with_env_filter(filter).try_init().is_ok()
}

} // verus!
