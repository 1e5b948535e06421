use journal_env_logger::pipeline::{filter_from, journal_pipeline, stdout_pipeline, Sink};
use journal_env_logger::{finish_journal, finish_stdout, Error};
use std::io;
use tracing_subscriber::filter::FromEnvError;
use tracing_subscriber::EnvFilter;

fn parse_error() -> FromEnvError {
    FromEnvError::from(EnvFilter::try_new("app=loudest").unwrap_err())
}

fn filter(text: &str) -> EnvFilter {
    EnvFilter::try_new(text).unwrap()
}

fn no_socket() -> io::Error {
    io::Error::new(io::ErrorKind::NotFound, "no journald socket")
}

#[test]
fn filter_step_keeps_a_parsed_filter() {
    let f = filter_from(Ok(filter("warn"))).unwrap();
    assert_eq!(f.to_string(), "warn");
}

#[test]
fn filter_step_wraps_the_parser_error() {
    let e = parse_error();
    let text = e.to_string();
    match filter_from(Err(e)) {
        Err(Error::Env(inner)) => assert_eq!(inner.to_string(), text),
        _ => panic!("expected the filter error"),
    }
}

#[test]
fn stdout_pipeline_writes_to_stdout_with_the_filter() {
    let p = stdout_pipeline(Ok(filter("app=debug,warn"))).ok().unwrap();
    assert!(matches!(p.sink, Sink::Stdout));
    assert_eq!(p.filter.to_string(), filter("app=debug,warn").to_string());
}

#[test]
fn stdout_pipeline_fails_on_a_rejected_filter() {
    assert!(matches!(stdout_pipeline(Err(parse_error())), Err(Error::Env(_))));
}

#[test]
fn journal_pipeline_without_journald_fails_with_the_io_error() {
    match journal_pipeline(filter("info"), Err(no_socket())) {
        Err(Error::Journal(e)) => {
            assert_eq!(e.kind(), io::ErrorKind::NotFound);
            assert_eq!(e.to_string(), "no journald socket");
        }
        _ => panic!("expected the journald error"),
    }
}

#[test]
fn finish_stdout_with_warn_succeeds() {
    assert!(finish_stdout(Ok(filter("warn"))).is_ok());
}

#[test]
fn finish_stdout_twice_still_succeeds() {
    assert!(finish_stdout(Ok(filter("warn"))).is_ok());
    assert!(finish_stdout(Ok(filter("info"))).is_ok());
}

#[test]
fn finish_stdout_reports_the_filter_error() {
    assert!(matches!(finish_stdout(Err(parse_error())), Err(Error::Env(_))));
}

#[test]
fn finish_journal_without_journald_reports_it() {
    match finish_journal(filter("warn"), Err(no_socket())) {
        Err(Error::Journal(e)) => assert_eq!(e.kind(), io::ErrorKind::NotFound),
        _ => panic!("expected the journald error"),
    }
}
