//! What the dictionary import reads of JSON documents.
use vstd::prelude::*;

use crate::error::CJDicError;

verus! {

/// What is read of one JSON value.
pub struct JsonField {
    /// The value, when it is a string (`Value::as_str`).
    pub text: Option<String>,
    /// The value, when it is an integer that fits in an `i64` (`Value::as_i64`).
    pub integer: Option<i64>,
    /// The members of an object, in the order of its map, each with its value when that is a
    /// string; empty for anything but an object.
    pub members: Vec<(String, Option<String>)>,
    /// The value written as compact JSON (`serde_json::to_string`).
    pub json: String,
}

/// The view of a `JsonField`: its text, its integer, its members and its JSON.
pub type FieldView = (Option<Seq<char>>, Option<i64>, Seq<(Seq<char>, Option<Seq<char>>)>, Seq<char>);

pub open spec fn opt_view(o: Option<String>) -> Option<Seq<char>> {
    match o {
        Some(s) => Some(s@),
        None => None,
    }
}

pub open spec fn member_view(m: (String, Option<String>)) -> (Seq<char>, Option<Seq<char>>) {
    (m.0@, opt_view(m.1))
}

pub open spec fn field_view(f: JsonField) -> FieldView {
    (opt_view(f.text), f.integer, f.members@.map_values(|m: (String, Option<String>)| member_view(m)), f.json@)
}

pub open spec fn row_view(row: Vec<JsonField>) -> Seq<FieldView> {
    row@.map_values(|f: JsonField| field_view(f))
}

pub open spec fn rows_view(rows: Seq<Vec<JsonField>>) -> Seq<Seq<FieldView>> {
    rows.map_values(|r: Vec<JsonField>| row_view(r))
}

/// What `serde_json::from_str::<Value>` makes of a text, read as a `JsonField`; `None`
/// where it reports an error.
pub uninterp spec fn serde_json_value(text: Seq<char>) -> Option<(Option<Seq<char>>, Option<i64>, Seq<(Seq<char>, Option<Seq<char>>)>, Seq<char>)>;

/// What `serde_json::from_str::<Vec<Value>>` makes of a text, each element read as the
/// `JsonField`s of its own elements (none for an element that is not an array); `None`
/// where it reports an error.
pub uninterp spec fn serde_json_rows(text: Seq<char>) -> Option<Seq<Seq<(Option<Seq<char>>, Option<i64>, Seq<(Seq<char>, Option<Seq<char>>)>, Seq<char>)>>>;

/// `serde_json::from_str::<serde_json::Value>`, with the value read as a `JsonField`
/// (`as_str`, `as_i64`, the object's members with `as_str` of each, `to_string`). Claimed
/// here: it succeeds exactly where `serde_json_value` is `Some` and then returns that; the
/// text of its error is left unsaid.
#[verifier::external_body]
pub(crate) fn parse_json_value(text: &str) -> (r: Result<JsonField, String>)
    ensures
        r is Ok <==> serde_json_value(text@) is Some,
        r matches Ok(f) ==> serde_json_value(text@) == Some(field_view(f)),
{
    let v: serde_json::Value = serde_json::from_str(text).map_err(|e| e.to_string())?;
    let members = v.as_object().map_or(Vec::new(), |m| {
        m.iter().map(|(k, x)| (k.clone(), x.as_str().map(String::from))).collect()
    });
    Ok(JsonField { text: v.as_str().map(String::from), integer: v.as_i64(), members, json: v.to_string() })
}

/// `serde_json::from_str::<Vec<serde_json::Value>>`, each element read as the `JsonField`s
/// of its own elements. Claimed here: it succeeds exactly where `serde_json_rows` is `Some`
/// and then returns that; the text of its error is left unsaid.
#[verifier::external_body]
pub(crate) fn parse_json_rows(text: &str) -> (r: Result<Vec<Vec<JsonField>>, String>)
    ensures
        r is Ok <==> serde_json_rows(text@) is Some,
        r matches Ok(rows) ==> serde_json_rows(text@) == Some(rows_view(rows@)),
{
    let rows: Vec<serde_json::Value> = serde_json::from_str(text).map_err(|e| e.to_string())?;
    let field = |v: &serde_json::Value| JsonField {
        text: v.as_str().map(String::from),
        integer: v.as_i64(),
        members: v.as_object().map_or(Vec::new(), |m| m.iter().map(|(k, x)| (k.clone(), x.as_str().map(String::from))).collect()),
        json: v.to_string(),
    };
    Ok(rows.iter().map(|e| e.as_array().map_or(Vec::new(), |a| a.iter().map(field).collect())).collect())
}

/// Reads a JSON document; text that is no JSON is a `Serialization` error.
pub fn read_json_value(text: &str) -> (r: Result<JsonField, CJDicError>)
    ensures
        r is Ok <==> serde_json_value(text@) is Some,
        r matches Ok(f) ==> serde_json_value(text@) == Some(field_view(f)),
        r matches Err(e) ==> e is Serialization,
{
    match parse_json_value(text) {
        Ok(f) => Ok(f),
        Err(m) => Err(CJDicError::Serialization(m)),
    }
}

/// Reads a JSON array of rows; text that is not a JSON array is a `Serialization` error.
pub fn read_json_rows(text: &str) -> (r: Result<Vec<Vec<JsonField>>, CJDicError>)
    ensures
        r is Ok <==> serde_json_rows(text@) is Some,
        r matches Ok(rows) ==> serde_json_rows(text@) == Some(rows_view(rows@)),
        r matches Err(e) ==> e is Serialization,
{
    match parse_json_rows(text) {
        Ok(rows) => Ok(rows),
        Err(m) => Err(CJDicError::Serialization(m)),
    }
}

} // verus!
