use journal_env_logger::{init, init_stdout, Error};
use tracing_subscriber::filter::FromEnvError;
use tracing_subscriber::EnvFilter;

fn parse_error() -> FromEnvError {
    FromEnvError::from(EnvFilter::try_new("app=loudest").unwrap_err())
}

#[test]
fn messages_name_the_failed_step() {
    let env = Error::Env(parse_error());
    assert_eq!(env.message(), "can't parse `RUST_LOG` environment variable");
    let journal = Error::Journal(std::io::Error::new(std::io::ErrorKind::NotFound, "no socket"));
    assert_eq!(journal.message(), "can't connect to journald");
}

#[test]
fn causes_are_kept() {
    let env = Error::Env(parse_error());
    assert!(env.env_cause().is_some());
    assert!(env.journal_cause().is_none());
    let journal = Error::Journal(std::io::Error::new(std::io::ErrorKind::NotFound, "no socket"));
    assert!(journal.env_cause().is_none());
    assert_eq!(journal.journal_cause().unwrap().kind(), std::io::ErrorKind::NotFound);
}

#[test]
fn stdout_never_reports_journald() {
    assert!(!matches!(init_stdout(), Err(Error::Journal(_))));
}

#[test]
fn dispatch_to_stdout_never_reports_journald() {
    assert!(!matches!(init(false), Err(Error::Journal(_))));
}
