//! The boundary to the JSON parser: a shallow shape for one parsed
//! document, and trusted wrappers around `serde_json`.

use vstd::prelude::*;
use crate::event::{Value, ValueView};

verus! {

/// Shallow shape of one parsed JSON document: its top-level members when it
/// is an object, otherwise its single value. Nested arrays and objects are
/// kept as their rendered text.
#[derive(Clone, PartialEq, Eq, Debug)]
pub enum JsonTop {
    Object(Vec<(String, Value)>),
    Other(Value),
}

/// Mathematical shape of a `JsonTop`.
#[verifier::ext_equal]
pub enum JsonTopView {
    Object(Seq<(Seq<char>, ValueView)>),
    Other(ValueView),
}

impl View for JsonTop {
    type V = JsonTopView;

    open spec fn view(&self) -> JsonTopView {
        match self {
            JsonTop::Object(members) => JsonTopView::Object(members.deep_view()),
            JsonTop::Other(value) => JsonTopView::Other(value.deep_view()),
        }
    }
}

impl DeepView for JsonTop {
    type V = JsonTopView;

    open spec fn deep_view(&self) -> JsonTopView {
        self.view()
    }
}

/// What parsing a byte payload as one JSON document yields: `None` on a
/// syntax failure, otherwise the document's shallow shape. The result
/// depends on the bytes alone.
pub uninterp spec fn json_top_of(bytes: Seq<u8>) -> Option<JsonTopView>;

/// What parsing a text record as one JSON document yields; the result
/// depends on the characters alone.
pub uninterp spec fn json_top_of_text(text: Seq<char>) -> Option<JsonTopView>;

/// Relies on `serde_json::from_slice` and `serde_json::Value`: parses one
/// JSON document from bytes; an empty input is a syntax failure. Top-level
/// members are kept one level deep, nested values as their rendered text.
#[verifier::external_body]
pub(crate) fn parse_json_bytes(bytes: &[u8]) -> (r: Option<JsonTop>)
    ensures
        r.deep_view() == json_top_of(bytes@),
        bytes@.len() == 0 ==> r is None,
{
    let sh = |v: serde_json::Value| match v {
        serde_json::Value::Null => Value::Null,
        serde_json::Value::Bool(b) => Value::Bool(b),
        serde_json::Value::Number(n) => Value::Num(n.to_string()),
        serde_json::Value::String(s) => Value::Str(s),
        other => Value::Composite(other.to_string()),
    };
    match serde_json::from_slice::<serde_json::Value>(bytes) {
        Err(_) => None,
        Ok(serde_json::Value::Object(m)) => Some(JsonTop::Object(
            m.into_iter().map(|(k, v)| (k, sh(v))).collect(),
        )),
        Ok(v) => Some(JsonTop::Other(sh(v))),
    }
}

/// Relies on `serde_json::from_str` and `serde_json::Value`: parses one
/// JSON document from text, shaped as `parse_json_bytes` shapes it.
#[verifier::external_body]
pub(crate) fn parse_json_text(text: &str) -> (r: Option<JsonTop>)
    ensures
        r.deep_view() == json_top_of_text(text@),
        text@.len() == 0 ==> r is None,
{
    let sh = |v: serde_json::Value| match v {
        serde_json::Value::Null => Value::Null,
        serde_json::Value::Bool(b) => Value::Bool(b),
        serde_json::Value::Number(n) => Value::Num(n.to_string()),
        serde_json::Value::String(s) => Value::Str(s),
        other => Value::Composite(other.to_string()),
    };
    match serde_json::from_str::<serde_json::Value>(text) {
        Err(_) => None,
        Ok(serde_json::Value::Object(m)) => Some(JsonTop::Object(
            m.into_iter().map(|(k, v)| (k, sh(v))).collect(),
        )),
        Ok(v) => Some(JsonTop::Other(sh(v))),
    }
}

} // verus!
