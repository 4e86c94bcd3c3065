//! JSON documents that are kept as `serde_json` parsed them, so that one
//! can be written back with a member changed and everything else as it
//! was.

use vstd::prelude::*;

use crate::error::ValetError;
use crate::json::parse_document;
use crate::json::parsed_document;
use crate::json::tree_of;
use crate::json::value_model;
use crate::json::JsonModel;
use crate::json::JsonValue;

verus! {

/// The text that `serde_json` writes for a parsed value.
pub uninterp spec fn written_value(value: serde_json::Value) -> Seq<char>;

/// Assignment to `value[outer][inner]`, by `serde_json`'s `IndexMut`: at
/// each of the two steps null becomes an object without members, and a
/// member that is not there is added at the end. It panics where a step
/// meets anything but an object or null; the contract leaves those values
/// out.
#[verifier::external_body]
fn assign_nested(value: &mut serde_json::Value, outer: &str, inner: &str, new: serde_json::Value)
    requires
        value_model(*old(value)).accepts_nested(outer@),
    ensures
        value_model(*final(value)) == value_model(*old(value)).with_nested(
            outer@,
            inner@,
            value_model(new),
        ),
{
    value[outer][inner] = new;
}

/// `serde_json::Value::from` on a string slice: the JSON string of that
/// text.
#[verifier::external_body]
fn text_value(text: &str) -> (value: serde_json::Value)
    ensures
        value_model(value) == JsonModel::String(text@),
{
    serde_json::Value::from(text)
}

/// `serde_json::Value::from` on a `bool`: the JSON value `true` or `false`.
#[verifier::external_body]
fn flag_value(flag: bool) -> (value: serde_json::Value)
    ensures
        value_model(value) == JsonModel::Bool(flag),
{
    serde_json::Value::from(flag)
}

/// `to_string` of a `serde_json::Value`: the value as JSON text. The
/// contract only names the result.
#[verifier::external_body]
fn write_value(value: &serde_json::Value) -> (text: String)
    ensures
        text@ == written_value(*value),
{
    value.to_string()
}

/// A JSON document, whole.
#[derive(Debug)]
pub struct JsonDocument {
    value: serde_json::Value,
}

impl View for JsonDocument {
    type V = JsonModel;

    closed spec fn view(&self) -> JsonModel {
        value_model(self.value)
    }
}

/// Whether `text` is what some document that holds `model` is written as.
pub open spec fn is_text_of(text: Seq<char>, model: JsonModel) -> bool {
    exists|document: JsonDocument| #[trigger] document.text() == text && document@ == model
}

/// Whether a member can be written into the member `outer` of `tree`.
fn accepts_nested(tree: &JsonValue, outer: &str) -> (accepted: bool)
    ensures
        accepted == tree@.accepts_nested(outer@),
{
    match tree {
        JsonValue::Null => true,
        JsonValue::Object(_) => match tree.get(outer) {
            None => true,
            Some(JsonValue::Null) => true,
            Some(JsonValue::Object(_)) => true,
            Some(_) => false,
        },
        _ => false,
    }
}

impl JsonDocument {
    /// The text of the document.
    pub closed spec fn text(&self) -> Seq<char> {
        written_value(self.value)
    }

    /// Parses `bytes` as one JSON document.
    pub fn parse(bytes: &[u8]) -> (result: Result<JsonDocument, ValetError>)
        ensures
            match parsed_document(bytes@) {
                Some(model) => result is Ok && result->Ok_0@ == model,
                None => result == Err::<JsonDocument, ValetError>(ValetError::FormatError),
            },
    {
        match parse_document(bytes) {
            Ok(value) => Ok(JsonDocument { value }),
            Err(_) => Err(ValetError::FormatError),
        }
    }

    /// The document as a tree of plain values.
    pub fn tree(&self) -> (tree: JsonValue)
        ensures
            tree@ == self@,
            tree@.well_formed(),
    {
        tree_of(&self.value)
    }

    /// Sets the member `inner` of the member `outer` to the string `text`.
    /// On the way null counts as an object without members, and a member
    /// that is not there is added at the end. Where the document or its
    /// member `outer` is anything but an object or null, nothing changes
    /// and a format error is reported.
    pub fn set_nested_text(&mut self, outer: &str, inner: &str, text: &str) -> (result: Result<
        (),
        ValetError,
    >)
        ensures
            old(self)@.accepts_nested(outer@) ==> result is Ok && final(self)@ == old(
                self,
            )@.with_nested(outer@, inner@, JsonModel::String(text@)),
            !old(self)@.accepts_nested(outer@) ==> result == Err::<(), ValetError>(
                ValetError::FormatError,
            ) && *final(self) == *old(self),
    {
        let tree = tree_of(&self.value);
        if accepts_nested(&tree, outer) {
            assign_nested(&mut self.value, outer, inner, text_value(text));
            Ok(())
        } else {
            Err(ValetError::FormatError)
        }
    }

    /// Sets the member `inner` of the member `outer` to `flag`, as
    /// `set_nested_text` sets it to a string.
    pub fn set_nested_flag(&mut self, outer: &str, inner: &str, flag: bool) -> (result: Result<
        (),
        ValetError,
    >)
        ensures
            old(self)@.accepts_nested(outer@) ==> result is Ok && final(self)@ == old(
                self,
            )@.with_nested(outer@, inner@, JsonModel::Bool(flag)),
            !old(self)@.accepts_nested(outer@) ==> result == Err::<(), ValetError>(
                ValetError::FormatError,
            ) && *final(self) == *old(self),
    {
        let tree = tree_of(&self.value);
        if accepts_nested(&tree, outer) {
            assign_nested(&mut self.value, outer, inner, flag_value(flag));
            Ok(())
        } else {
            Err(ValetError::FormatError)
        }
    }

    /// The document as JSON text.
    pub fn to_text(&self) -> (text: String)
        ensures
            text@ == self.text(),
            is_text_of(text@, self@),
    {
        let text = write_value(&self.value);
        assert(self.text() == text@);
        text
    }
}

} // verus!
