use log_ingest::json::{read_fields, InvalidJson, LineFields};
use log_ingest::level::SeverityLevel;
use log_ingest::pattern::Classifier;
use log_ingest::record::{extract, make_record, record_at_level, LogRecord};

fn text(s: &str) -> Option<String> {
    Some(s.to_string())
}

#[test]
fn reads_the_three_fields() {
    let fields =
        read_fields(r#"{"container_name":"svc1","message":"a","msg":"b","other":1}"#).unwrap();
    assert_eq!(
        fields,
        LineFields { container_name: text("svc1"), message: text("a"), msg: text("b") }
    );
}

#[test]
fn missing_fields_are_nothing() {
    let fields = read_fields(r#"{"level":"x"}"#).unwrap();
    assert_eq!(fields, LineFields { container_name: None, message: None, msg: None });
}

#[test]
fn fields_that_hold_no_string_are_nothing() {
    let fields =
        read_fields(r#"{"container_name":7,"message":["error"],"msg":{"a":"b"}}"#).unwrap();
    assert_eq!(fields, LineFields { container_name: None, message: None, msg: None });
    let fields = read_fields(r#"{"container_name":null,"message":true,"msg":"kept"}"#).unwrap();
    assert_eq!(fields, LineFields { container_name: None, message: None, msg: text("kept") });
}

#[test]
fn documents_that_are_no_object_have_no_fields() {
    let nothing = LineFields { container_name: None, message: None, msg: None };
    assert_eq!(read_fields("123").unwrap(), nothing);
    assert_eq!(read_fields(r#""message""#).unwrap(), nothing);
    assert_eq!(read_fields(r#"["message","msg"]"#).unwrap(), nothing);
    assert_eq!(read_fields("null").unwrap(), nothing);
}

#[test]
fn escapes_are_resolved() {
    let fields = read_fields(r#"{"message":"line\tone \"quoted\" é"}"#).unwrap();
    assert_eq!(fields.message, text("line\tone \"quoted\" \u{e9}"));
}

#[test]
fn text_that_is_no_json_gives_the_parser_words() {
    assert_eq!(
        read_fields("not-json"),
        Err(InvalidJson { reason: "expected ident at line 1 column 2".to_string() })
    );
    assert!(read_fields("").is_err());
    assert!(read_fields(r#"{"message":"x""#).is_err());
    assert!(read_fields(r#"{"message":"x"} trailing"#).is_err());
}

#[test]
fn message_goes_before_msg() {
    let fields =
        LineFields { container_name: text("c"), message: text("first"), msg: text("second") };
    assert_eq!(extract(&fields), Some(("c".to_string(), "first".to_string())));
}

#[test]
fn msg_stands_in_for_message() {
    let with_msg = LineFields { container_name: text("c"), message: None, msg: text("same text") };
    let with_message =
        LineFields { container_name: text("c"), message: text("same text"), msg: None };
    assert_eq!(extract(&with_msg), extract(&with_message));
    assert_eq!(extract(&with_msg), Some(("c".to_string(), "same text".to_string())));
    let classifier = Classifier::new().unwrap();
    assert_eq!(make_record(&with_msg, &classifier), make_record(&with_message, &classifier));
}

#[test]
fn msg_is_read_where_message_holds_no_string() {
    let fields = read_fields(r#"{"message":5,"msg":"debug me"}"#).unwrap();
    let classifier = Classifier::new().unwrap();
    assert_eq!(
        make_record(&fields, &classifier),
        Some(LogRecord {
            source_name: "unknown_container".to_string(),
            message: "debug me".to_string(),
            level: SeverityLevel::Debug,
        })
    );
}

#[test]
fn missing_source_is_unknown_container() {
    let fields = LineFields { container_name: None, message: text("m"), msg: None };
    assert_eq!(extract(&fields), Some(("unknown_container".to_string(), "m".to_string())));
    let fields = read_fields(r#"{"message":"m"}"#).unwrap();
    assert_eq!(extract(&fields), Some(("unknown_container".to_string(), "m".to_string())));
}

#[test]
fn line_without_message_has_no_record() {
    let fields = LineFields { container_name: text("c"), message: None, msg: None };
    assert_eq!(extract(&fields), None);
    assert_eq!(record_at_level(&fields, SeverityLevel::Error), None);
    assert_eq!(make_record(&fields, &Classifier::new().unwrap()), None);
}

#[test]
fn record_takes_the_given_level() {
    let fields = LineFields { container_name: text("c"), message: text("an error"), msg: None };
    assert_eq!(
        record_at_level(&fields, SeverityLevel::Info),
        Some(LogRecord {
            source_name: "c".to_string(),
            message: "an error".to_string(),
            level: SeverityLevel::Info,
        })
    );
}

#[test]
fn level_depends_on_the_message_only() {
    let classifier = Classifier::new().unwrap();
    let a = LineFields { container_name: text("one"), message: text("disk warning"), msg: None };
    let b = LineFields { container_name: None, message: None, msg: text("disk warning") };
    let c = LineFields {
        container_name: text("error"),
        message: text("disk warning"),
        msg: text("error"),
    };
    let level = |f: &LineFields| make_record(f, &classifier).unwrap().level;
    assert_eq!(level(&a), SeverityLevel::Warn);
    assert_eq!(level(&b), SeverityLevel::Warn);
    assert_eq!(level(&c), SeverityLevel::Warn);
}

#[test]
fn empty_message_is_a_message() {
    let fields = read_fields(r#"{"message":""}"#).unwrap();
    assert_eq!(
        make_record(&fields, &Classifier::new().unwrap()),
        Some(LogRecord {
            source_name: "unknown_container".to_string(),
            message: String::new(),
            level: SeverityLevel::Trace,
        })
    );
}
