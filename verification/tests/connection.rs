use log_ingest::acceptor::{listening_notice, on_accept, AcceptAction, AcceptEvent, LISTEN_ADDRESS};
use log_ingest::connection::{
    action_for, invalid_json_diagnostic, process_line, Action, Connection, ReadEvent,
};
use log_ingest::json::{read_fields, InvalidJson, LineFields};
use log_ingest::level::SeverityLevel;
use log_ingest::pattern::Classifier;
use log_ingest::record::LogRecord;

fn classifier() -> Classifier {
    Classifier::new().expect("the level pattern compiles")
}

fn record(source: &str, message: &str, level: SeverityLevel) -> LogRecord {
    LogRecord { source_name: source.to_string(), message: message.to_string(), level }
}

fn line(text: &str) -> ReadEvent {
    ReadEvent::Line(text.to_string())
}

#[test]
fn end_to_end_line_is_forwarded() {
    let action = process_line(
        "10.0.0.1:5000",
        r#"{"container_name":"svc1","message":"something is fine here"}"#,
        &classifier(),
    );
    assert_eq!(
        action,
        Action::Forward(record("svc1", "something is fine here", SeverityLevel::Trace))
    );
}

#[test]
fn line_without_message_is_skipped() {
    assert_eq!(
        process_line("p", r#"{"container_name":"svc1"}"#, &classifier()),
        Action::Skip
    );
    assert_eq!(process_line("p", "42", &classifier()), Action::Skip);
}

#[test]
fn line_that_is_no_json_is_reported() {
    assert_eq!(
        process_line("10.0.0.1:5000", "not-json", &classifier()),
        Action::Report(
            "Invalid JSON from 10.0.0.1:5000: expected ident at line 1 column 2".to_string()
        )
    );
}

#[test]
fn diagnostic_names_peer_and_reason() {
    assert_eq!(
        invalid_json_diagnostic("[::1]:9", "EOF while parsing"),
        "Invalid JSON from [::1]:9: EOF while parsing"
    );
    assert_eq!(invalid_json_diagnostic("", ""), "Invalid JSON from : ");
}

#[test]
fn fields_decide_the_action() {
    let c = classifier();
    let read = Ok(LineFields {
        container_name: Some("db".to_string()),
        message: None,
        msg: Some("INFO ready".to_string()),
    });
    assert_eq!(
        action_for("p", &read, &c),
        Action::Forward(record("db", "INFO ready", SeverityLevel::Info))
    );
    let read = Err(InvalidJson { reason: "why".to_string() });
    assert_eq!(action_for("p", &read, &c), Action::Report("Invalid JSON from p: why".to_string()));
    let read = read_fields("{}");
    assert_eq!(action_for("p", &read, &c), Action::Skip);
}

#[test]
fn invalid_line_does_not_stop_the_next_one() {
    let c = classifier();
    let mut connection = Connection::new("peer:1".to_string());
    let first = connection.step(&line("not-json"), &c);
    assert!(matches!(first, Action::Report(_)));
    assert!(connection.is_open());
    let second = connection.step(&line(r#"{"container_name":"a","msg":"debug info"}"#), &c);
    assert_eq!(second, Action::Forward(record("a", "debug info", SeverityLevel::Debug)));
    assert!(connection.is_open());
}

#[test]
fn end_of_stream_closes() {
    let c = classifier();
    let mut connection = Connection::new("peer:1".to_string());
    assert_eq!(connection.peer(), "peer:1");
    assert!(connection.is_open());
    assert_eq!(connection.step(&ReadEvent::EndOfStream, &c), Action::Close);
    assert!(!connection.is_open());
    assert_eq!(connection.step(&line(r#"{"message":"late"}"#), &c), Action::Close);
    assert!(!connection.is_open());
    assert_eq!(connection.peer(), "peer:1");
}

#[test]
fn failed_read_closes() {
    let c = classifier();
    let mut connection = Connection::new("peer:2".to_string());
    assert_eq!(connection.step(&ReadEvent::Failed, &c), Action::Close);
    assert!(!connection.is_open());
    assert_eq!(connection.step(&ReadEvent::EndOfStream, &c), Action::Close);
}

#[test]
fn one_connection_closing_leaves_the_other_alone() {
    let c = classifier();
    let mut a = Connection::new("a:1".to_string());
    let mut b = Connection::new("b:2".to_string());
    assert_eq!(
        b.step(&line(r#"{"message":"one"}"#), &c),
        Action::Forward(record("unknown_container", "one", SeverityLevel::Trace))
    );
    assert_eq!(a.step(&ReadEvent::Failed, &c), Action::Close);
    assert!(!a.is_open());
    assert!(b.is_open());
    assert_eq!(
        b.step(&line(r#"{"message":"two warn"}"#), &c),
        Action::Forward(record("unknown_container", "two warn", SeverityLevel::Warn))
    );
}

#[test]
fn events_are_answered_in_order() {
    let c = classifier();
    let mut connection = Connection::new("peer:3".to_string());
    let events = vec![
        line(r#"{"container_name":"x","message":"first error"}"#),
        line("not-json"),
        line(r#"{"container_name":"x"}"#),
        line(r#"{"container_name":"x","msg":"second info"}"#),
        ReadEvent::EndOfStream,
        line(r#"{"container_name":"x","msg":"never"}"#),
    ];
    let actions = connection.step_all(&events, &c);
    assert_eq!(
        actions,
        vec![
            Action::Forward(record("x", "first error", SeverityLevel::Error)),
            Action::Report(
                "Invalid JSON from peer:3: expected ident at line 1 column 2".to_string()
            ),
            Action::Skip,
            Action::Forward(record("x", "second info", SeverityLevel::Info)),
            Action::Close,
            Action::Close,
        ]
    );
    assert!(!connection.is_open());
    let mut fresh = Connection::new("peer:4".to_string());
    assert_eq!(fresh.step_all(&Vec::new(), &c), Vec::new());
    assert!(fresh.is_open());
}

#[test]
fn accepted_peer_is_served() {
    match on_accept(AcceptEvent::Connected("192.168.0.9:41000".to_string())) {
        AcceptAction::Serve(connection) => {
            assert_eq!(connection.peer(), "192.168.0.9:41000");
            assert!(connection.is_open());
        }
        other => panic!("expected a connection, got {:?}", other),
    }
}

#[test]
fn failed_accept_is_reported() {
    assert_eq!(
        on_accept(AcceptEvent::Failed("too many open files".to_string())),
        AcceptAction::Report("Failed to accept TCP connection: too many open files".to_string())
    );
}

#[test]
fn receiver_listens_on_port_9000() {
    assert_eq!(LISTEN_ADDRESS, "0.0.0.0:9000");
    assert_eq!(listening_notice(), "TCP log receiver listening on 0.0.0.0:9000");
}
