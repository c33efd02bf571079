//! JSON documents from the kernel's debugfs files, carried through the
//! library as serde_json values.

use vstd::prelude::*;

verus! {

/// A JSON document; the library carries it without looking inside.
#[verifier::external_type_specification]
#[verifier::external_body]
pub struct ExJsonValue(serde_json::Value);

/// What `serde_json::from_str::<serde_json::Value>` makes of `text`: the
/// document it builds, or the text of the error it reports (its `Display`).
pub uninterp spec fn json_parse(text: Seq<char>) -> Result<serde_json::Value, Seq<char>>;

/// The document `text` parses to, if it parses.
pub open spec fn json_document(text: Seq<char>) -> Option<serde_json::Value> {
    match json_parse(text) {
        Ok(v) => Some(v),
        Err(_) => None,
    }
}

/// Whether `serde_json::from_str::<serde_json::Value>` accepts `text`.
pub open spec fn json_accepts(text: Seq<char>) -> bool {
    json_parse(text) is Ok
}

/// The text of the error with which serde_json refuses `text`.
pub open spec fn json_refusal(text: Seq<char>) -> Seq<char> {
    match json_parse(text) {
        Ok(_) => Seq::empty(),
        Err(message) => message,
    }
}

/// Calls `serde_json::from_str::<serde_json::Value>`, and on a refusal
/// `to_string` (`Display`) of its error. Claimed: the document, or the
/// error's text, depends on the text alone.
#[verifier::external_body]
pub(crate) fn parse_value(text: &str) -> (r: Result<serde_json::Value, String>)
    ensures
        match r {
            Ok(v) => json_parse(text@) == Ok::<serde_json::Value, Seq<char>>(v),
            Err(message) => json_parse(text@) == Err::<serde_json::Value, Seq<char>>(message@),
        },
{
    match serde_json::from_str(text) {
        Ok(value) => Ok(value),
        Err(error) => Err(error.to_string()),
    }
}

/// The member `key` of `value`, as `serde_json::Value::get` finds it (a
/// copy): `None` when `value` is not an object or has no such member.
pub uninterp spec fn json_member(value: serde_json::Value, key: Seq<char>) -> Option<serde_json::Value>;

/// Calls `serde_json::Value::get` with a string key and copies what it
/// finds. Claimed: the result depends on the value and the key alone.
#[verifier::external_body]
pub(crate) fn member(value: &serde_json::Value, key: &str) -> (r: Option<serde_json::Value>)
    ensures
        r == json_member(*value, key@),
{
    value.get(key).cloned()
}

/// The text of `value`, as `serde_json::Value::as_str` gives it: `Some`
/// exactly when `value` is a JSON string.
pub uninterp spec fn json_string(value: serde_json::Value) -> Option<Seq<char>>;

/// Calls `serde_json::Value::as_str` and copies the text. Claimed: the
/// result depends on the value alone.
#[verifier::external_body]
pub(crate) fn string_of(value: &serde_json::Value) -> (r: Option<String>)
    ensures
        match r {
            Some(s) => json_string(*value) == Some(s@),
            None => json_string(*value) is None,
        },
{
    match value.as_str() {
        Some(s) => Some(s.to_owned()),
        None => None,
    }
}

/// The text of an empty JSON object.
pub open spec fn empty_object_text() -> Seq<char> {
    "{}"@
}

/// Builds `serde_json::Value::Object` of an empty `serde_json::Map`.
/// Claimed: it is the document that an empty JSON object's text parses to.
#[verifier::external_body]
pub(crate) fn empty_object() -> (r: serde_json::Value)
    ensures
        json_document(empty_object_text()) == Some(r),
{
    serde_json::Value::Object(serde_json::Map::new())
}

/// The compact text `serde_json::to_string` writes for `value`, or `None`
/// where it reports an error.
pub uninterp spec fn json_text(value: serde_json::Value) -> Option<Seq<char>>;

/// Calls `serde_json::to_string` on a document. Claimed: the result depends
/// on the document alone; the error's report is dropped.
#[verifier::external_body]
pub(crate) fn compact_text(value: &serde_json::Value) -> (r: Option<String>)
    ensures
        match r {
            Some(s) => json_text(*value) == Some(s@),
            None => json_text(*value) is None,
        },
{
    match serde_json::to_string(value) {
        Ok(text) => Some(text),
        Err(_) => None,
    }
}

/// The line an event is shown as: its compact JSON text, or `{}` where it
/// cannot be written.
pub open spec fn event_line_text(event: serde_json::Value) -> Seq<char> {
    match json_text(event) {
        Some(text) => text,
        None => empty_object_text(),
    }
}

/// Events shown one per line, separated by `'\n'`.
pub open spec fn ndjson(events: Seq<serde_json::Value>) -> Seq<char>
    decreases events.len(),
{
    if events.len() == 0 {
        Seq::empty()
    } else if events.len() == 1 {
        event_line_text(events[0])
    } else {
        ndjson(events.drop_last()) + "\n"@ + event_line_text(events.last())
    }
}

/// Shows events as newline-delimited JSON: each event's compact text (or
/// `{}` where it cannot be written), separated by `'\n'`.
pub fn events_ndjson(events: &Vec<serde_json::Value>) -> (r: String)
    ensures
        r@ == ndjson(events@),
{
    let mut out = String::new();
    let mut i: usize = 0;
    while i < events.len()
        invariant
            i <= events@.len(),
            out@ == ndjson(events@.take(i as int)),
        decreases events@.len() - i,
    {
        let ghost before = events@.take(i as int);
        let ghost after = events@.take(i + 1);
        assert(after.drop_last() =~= before);
        assert(after.last() == events@[i as int]);
        if i > 0 {
            out.append("\n");
        }
        match compact_text(&events[i]) {
            Some(text) => out.append(text.as_str()),
            None => out.append("{}"),
        }
        assert(out@ =~= ndjson(after));
        i = i + 1;
    }
    assert(events@.take(events@.len() as int) =~= events@);
    out
}

/// Parses the contents `raw` of the JSON file at `path`; a document that
/// does not parse is reported with the file's path.
pub fn parse_json_file(path: &str, raw: &str) -> (r: Result<serde_json::Value, crate::error::CiluxError>)
    ensures
        r is Ok == json_accepts(raw@),
        r matches Ok(v) ==> json_document(raw@) == Some(v),
        r matches Err(e) ==> e matches crate::error::CiluxError::ParseFile { path: p, cause } && p@ == path@
            && cause@ == json_refusal(raw@),
{
    match parse_value(raw) {
        Ok(value) => Ok(value),
        Err(cause) => Err(crate::error::CiluxError::ParseFile { path: path.to_owned(), cause }),
    }
}

/// Parses one event line; a line that does not parse is reported with its text.
pub fn parse_event_line(line: &str) -> (r: Result<serde_json::Value, crate::error::CiluxError>)
    ensures
        r is Ok == json_accepts(line@),
        r matches Ok(v) ==> json_document(line@) == Some(v),
        r matches Err(e) ==> e matches crate::error::CiluxError::ParseEventLine { line: l, cause } && l@ == line@
            && cause@ == json_refusal(line@),
{
    match parse_value(line) {
        Ok(value) => Ok(value),
        Err(cause) => Err(crate::error::CiluxError::ParseEventLine { line: line.to_owned(), cause }),
    }
}

} // verus!
