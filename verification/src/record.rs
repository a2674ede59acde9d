//! From the fields of a line to the record that is forwarded.

use crate::json::{FieldsModel, LineFields};
use crate::level::SeverityLevel;
use crate::pattern::{message_level, Classifier};
use vstd::prelude::*;

verus! {

/// The source name of a line that names none.
pub const UNKNOWN_SOURCE: &'static str = "unknown_container";

/// One classified line: who said it, what was said, and how severe it is.
#[derive(Clone, Debug, PartialEq, Eq)]
pub struct LogRecord {
    pub source_name: String,
    pub message: String,
    pub level: SeverityLevel,
}

/// `LogRecord` as mathematics.
pub struct RecordModel {
    pub source_name: Seq<char>,
    pub message: Seq<char>,
    pub level: SeverityLevel,
}

impl View for LogRecord {
    type V = RecordModel;

    open spec fn view(&self) -> RecordModel {
        RecordModel { source_name: self.source_name@, message: self.message@, level: self.level }
    }
}

/// The view of an optional record.
pub open spec fn record_view(record: Option<LogRecord>) -> Option<RecordModel> {
    match record {
        Some(r) => Some(r@),
        None => None,
    }
}

/// The view of an optional pair of texts.
pub open spec fn pair_view(pair: Option<(String, String)>) -> Option<(Seq<char>, Seq<char>)> {
    match pair {
        Some((a, b)) => Some((a@, b@)),
        None => None,
    }
}

/// The message of a line: the text of `message`, and where that is missing
/// the text of `msg`.
pub open spec fn chosen_message(fields: FieldsModel) -> Option<Seq<char>> {
    match fields.message {
        Some(text) => Some(text),
        None => fields.msg,
    }
}

/// The source of a line: the text of `container_name`, and where that is
/// missing the name for an unknown source.
pub open spec fn chosen_source(fields: FieldsModel) -> Seq<char> {
    match fields.container_name {
        Some(name) => name,
        None => UNKNOWN_SOURCE@,
    }
}

/// Source and message of a line; nothing for a line without a message.
pub open spec fn extracted(fields: FieldsModel) -> Option<(Seq<char>, Seq<char>)> {
    match chosen_message(fields) {
        Some(message) => Some((chosen_source(fields), message)),
        None => None,
    }
}

/// The record of a line, given the level of its message.
pub open spec fn record_with_level(fields: FieldsModel, level: SeverityLevel) -> Option<
    RecordModel,
> {
    match extracted(fields) {
        Some((source_name, message)) => Some(RecordModel { source_name, message, level }),
        None => None,
    }
}

/// The record of a line: source, message, and the level of the message.
/// A line without a message has none.
pub open spec fn record_of(fields: FieldsModel) -> Option<RecordModel> {
    match chosen_message(fields) {
        Some(message) => record_with_level(fields, message_level(message)),
        None => None,
    }
}

/// Source and message of a line. There is a pair exactly where `message` or
/// `msg` holds a text; `message` goes first. The source is the text of
/// `container_name`, or "unknown_container" without one.
pub fn extract(fields: &LineFields) -> (pair: Option<(String, String)>)
    ensures
        pair_view(pair) == extracted(fields@),
        pair.is_some() == (fields.message.is_some() || fields.msg.is_some()),
{
    let message = match &fields.message {
        Some(text) => text.clone(),
        None => match &fields.msg {
            Some(text) => text.clone(),
            None => {
                return None;
            },
        },
    };
    let source_name = match &fields.container_name {
        Some(name) => name.clone(),
        None => UNKNOWN_SOURCE.to_owned(),
    };
    Some((source_name, message))
}

/// The record of a line whose message has the given level; nothing for a
/// line without a message.
pub fn record_at_level(fields: &LineFields, level: SeverityLevel) -> (record: Option<LogRecord>)
    ensures
        record_view(record) == record_with_level(fields@, level),
{
    match extract(fields) {
        Some((source_name, message)) => Some(LogRecord { source_name, message, level }),
        None => None,
    }
}

/// The record of a line: its source, its message, and the level that the
/// classifier gives to the message. There is a record exactly where
/// `message` or `msg` holds a text.
pub fn make_record(fields: &LineFields, classifier: &Classifier) -> (record: Option<LogRecord>)
    ensures
        record_view(record) == record_of(fields@),
        record.is_some() == (fields.message.is_some() || fields.msg.is_some()),
{
    match extract(fields) {
        Some((source_name, message)) => {
            let level = classifier.classify(message.as_str());
            Some(LogRecord { source_name, message, level })
        },
        None => None,
    }
}

/// The level of a record is that of its message: two lines with the same
/// message have the same level, whatever their source and whichever of the
/// two message fields holds the text.
pub proof fn lemma_level_depends_on_message_only(a: FieldsModel, b: FieldsModel)
    requires
        chosen_message(a) is Some,
        chosen_message(a) == chosen_message(b),
    ensures
        record_of(a) is Some,
        record_of(b) is Some,
        record_of(a)->0.level == record_of(b)->0.level,
        record_of(a)->0.level == message_level(chosen_message(a)->0),
{
}

/// A text under `msg` alone gives the record that the same text under
/// `message` alone gives.
pub proof fn lemma_msg_stands_in_for_message(source: Option<Seq<char>>, text: Seq<char>)
    ensures
        record_of(FieldsModel { container_name: source, message: None, msg: Some(text) })
            == record_of(FieldsModel { container_name: source, message: Some(text), msg: None }),
{
}

/// A line without a source is attributed to "unknown_container".
pub proof fn lemma_missing_source_is_unknown(fields: FieldsModel)
    requires
        fields.container_name is None,
        chosen_message(fields) is Some,
    ensures
        record_of(fields) is Some,
        record_of(fields)->0.source_name == "unknown_container"@,
{
}

/// A record keeps the message as it came.
pub proof fn lemma_record_keeps_message(fields: FieldsModel)
    requires
        chosen_message(fields) is Some,
    ensures
        record_of(fields) is Some,
        record_of(fields)->0.message == chosen_message(fields)->0,
        fields.container_name is Some ==> record_of(fields)->0.source_name
            == fields.container_name->0,
{
}

} // verus!
