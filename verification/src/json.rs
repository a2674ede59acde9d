//! Reading the fields of one line of JSON text.
//!
//! Parsing is the `serde_json` crate's. This module asks it for the three
//! string fields that the library knows and keeps them as plain values. What
//! is stated of the crate here is believed, not proved.

use serde_json::Value;
use vstd::prelude::*;

verus! {

/// `serde_json::Value`, a parsed document. Its inside is not looked at.
#[verifier::external_type_specification]
#[verifier::external_body]
pub struct ExValue(Value);

/// `serde_json::Error`, the reason for which a text was not parsed.
#[verifier::external_type_specification]
#[verifier::external_body]
pub struct ExJsonError(serde_json::Error);

/// What `serde_json::from_str` makes of a text: the document, or the reason
/// for which the text is no JSON.
pub uninterp spec fn parsed(text: Seq<char>) -> Result<Value, serde_json::Error>;

/// What `Value::get` finds under a key: the member of that name where the
/// document is an object that has one, else nothing.
pub uninterp spec fn member(doc: Value, key: Seq<char>) -> Option<Value>;

/// What `Value::as_str` gives: the text where the value is a string, else
/// nothing.
pub uninterp spec fn as_text(value: Value) -> Option<Seq<char>>;

/// The text that `serde_json::Error` shows for itself.
pub uninterp spec fn error_text(error: serde_json::Error) -> Seq<char>;

/// Calls `serde_json::from_str` for a `Value`. The same text gives the same
/// document, or the same error, every time.
#[verifier::external_body]
fn parse(text: &str) -> (r: Result<Value, serde_json::Error>)
    ensures
        r == parsed(text@),
{
    serde_json::from_str::<Value>(text)
}

/// Calls `Value::get` with a string key.
#[verifier::external_body]
fn get<'a>(doc: &'a Value, key: &str) -> (found: Option<&'a Value>)
    ensures
        found.is_some() == member(*doc, key@).is_some(),
        found matches Some(value) ==> member(*doc, key@) == Some(*value),
{
    doc.get(key)
}

/// Calls `Value::as_str`.
#[verifier::external_body]
fn text_of<'a>(value: &'a Value) -> (text: Option<&'a str>)
    ensures
        text.is_some() == as_text(*value).is_some(),
        text matches Some(s) ==> as_text(*value) == Some(s@),
{
    value.as_str()
}

/// Formats a `serde_json::Error` by its `Display`.
#[verifier::external_body]
fn show(error: &serde_json::Error) -> (text: String)
    ensures
        text@ == error_text(*error),
{
    error.to_string()
}

/// The name of the field that holds the source of a line.
pub const SOURCE_KEY: &'static str = "container_name";

/// The name of the field that holds the message.
pub const MESSAGE_KEY: &'static str = "message";

/// The name of the field that is read where `message` holds no text.
pub const SHORT_MESSAGE_KEY: &'static str = "msg";

/// What the library reads of one parsed line: for each of the three fields
/// its text, where the line is an object that has the field with a string
/// value, and nothing otherwise.
#[derive(Clone, Debug, PartialEq, Eq)]
pub struct LineFields {
    pub container_name: Option<String>,
    pub message: Option<String>,
    pub msg: Option<String>,
}

/// `LineFields` as mathematics.
pub struct FieldsModel {
    pub container_name: Option<Seq<char>>,
    pub message: Option<Seq<char>>,
    pub msg: Option<Seq<char>>,
}

/// The text of an optional string.
pub open spec fn text_view(field: Option<String>) -> Option<Seq<char>> {
    match field {
        Some(s) => Some(s@),
        None => None,
    }
}

impl View for LineFields {
    type V = FieldsModel;

    open spec fn view(&self) -> FieldsModel {
        FieldsModel {
            container_name: text_view(self.container_name),
            message: text_view(self.message),
            msg: text_view(self.msg),
        }
    }
}

/// A line that is no JSON, with the parser's account of it.
#[derive(Clone, Debug, PartialEq, Eq)]
pub struct InvalidJson {
    pub reason: String,
}

/// The text under `key` in a document: that of the member of that name where
/// it is a string.
pub open spec fn member_text(doc: Value, key: Seq<char>) -> Option<Seq<char>> {
    match member(doc, key) {
        Some(value) => as_text(value),
        None => None,
    }
}

/// The three fields of a document.
pub open spec fn fields_of(doc: Value) -> FieldsModel {
    FieldsModel {
        container_name: member_text(doc, SOURCE_KEY@),
        message: member_text(doc, MESSAGE_KEY@),
        msg: member_text(doc, SHORT_MESSAGE_KEY@),
    }
}

/// What reading a line gives: its three fields, or the parser's account of
/// why the line is no JSON.
pub open spec fn line_fields(line: Seq<char>) -> Result<FieldsModel, Seq<char>> {
    match parsed(line) {
        Ok(doc) => Ok(fields_of(doc)),
        Err(error) => Err(error_text(error)),
    }
}

fn string_member(doc: &Value, key: &str) -> (text: Option<String>)
    ensures
        text_view(text) == member_text(*doc, key@),
{
    match get(doc, key) {
        Some(value) => match text_of(value) {
            Some(s) => Some(s.to_owned()),
            None => None,
        },
        None => None,
    }
}

/// The view of what `read_fields` returns.
pub open spec fn read_view(r: Result<LineFields, InvalidJson>) -> Result<FieldsModel, Seq<char>> {
    match r {
        Ok(fields) => Ok(fields@),
        Err(fault) => Err(fault.reason@),
    }
}

/// Parses one line and reads its three fields. A line that is no JSON gives
/// the parser's words. A line that is JSON always gives fields: a document
/// that is no object, or lacks a field, or holds another kind of value under
/// it, has nothing in that place.
pub fn read_fields(line: &str) -> (r: Result<LineFields, InvalidJson>)
    ensures
        read_view(r) == line_fields(line@),
{
    match parse(line) {
        Ok(doc) => {
            let container_name = string_member(&doc, SOURCE_KEY);
            let message = string_member(&doc, MESSAGE_KEY);
            let msg = string_member(&doc, SHORT_MESSAGE_KEY);
            Ok(LineFields { container_name, message, msg })
        },
        Err(error) => Err(InvalidJson { reason: show(&error) }),
    }
}

} // verus!
