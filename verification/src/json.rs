//! JSON documents as trees of plain values.
//!
//! Reading a document from bytes and writing a text as a JSON string literal
//! are left to `serde_json`; what a document means to this crate is decided
//! here, on the tree.

use vstd::prelude::*;
use crate::text::{decimal_u64, parse_decimal, text_eq};

verus! {

/// A JSON value. A number keeps the text that `serde_json` prints for it.
#[derive(Debug)]
pub enum JsonValue {
    Null,
    Bool(bool),
    Number(String),
    Text(String),
    List(Vec<JsonValue>),
    Object(Vec<JsonMember>),
}

/// One member of a JSON object.
#[derive(Debug)]
pub struct JsonMember {
    pub key: String,
    pub value: JsonValue,
}

/// `serde_json::Value`, of which the verifier knows the name alone.
#[verifier::external_type_specification]
#[verifier::external_body]
pub struct ExValue(serde_json::Value);

/// The tree that `serde_json::from_slice` reads from `bytes` as a
/// `serde_json::Value`, or `None` where it reports an error.
pub uninterp spec fn json_document(bytes: Seq<u8>) -> Option<JsonValue>;

/// The JSON string literal, quotes and escapes included, that
/// `serde_json::to_string` writes for `text`.
pub uninterp spec fn json_string_literal(text: Seq<char>) -> Seq<char>;

/// Turns a `serde_json::Value` into a tree of this crate, variant by variant:
/// a number becomes its printed text, an object its members in the order in
/// which `serde_json` walks them.
#[verifier::external_body]
fn tree_of(value: serde_json::Value) -> (tree: JsonValue) {
    match value {
        serde_json::Value::Null => JsonValue::Null,
        serde_json::Value::Bool(flag) => JsonValue::Bool(flag),
        serde_json::Value::Number(number) => JsonValue::Number(number.to_string()),
        serde_json::Value::String(text) => JsonValue::Text(text),
        serde_json::Value::Array(items) => JsonValue::List(items.into_iter().map(tree_of).collect()),
        serde_json::Value::Object(members) => JsonValue::Object(
            members.into_iter().map(|(key, value)| JsonMember { key, value: tree_of(value) }).collect(),
        ),
    }
}

/// Calls `serde_json::from_slice` for a `serde_json::Value` and turns what it
/// reads into a tree. The result is the document of `bytes`, or `None`
/// where `serde_json` reports an error.
#[verifier::external_body]
pub(crate) fn read_document(bytes: &[u8]) -> (document: Option<JsonValue>)
    ensures
        document == json_document(bytes@),
{
    match serde_json::from_slice::<serde_json::Value>(bytes) {
        Ok(value) => Some(tree_of(value)),
        Err(_) => None,
    }
}

/// Calls `serde_json::to_string` on a text. The result is the JSON string
/// literal of `text`.
#[verifier::external_body]
pub(crate) fn write_string_literal(text: &str) -> (literal: String)
    ensures
        literal@ == json_string_literal(text@),
{
    match serde_json::to_string(text) {
        Ok(literal) => literal,
        Err(_) => String::new(),
    }
}

/// The value of the first member named `key`.
pub open spec fn member_named(members: Seq<JsonMember>, key: Seq<char>) -> Option<JsonValue>
    decreases members.len(),
{
    if members.len() == 0 {
        None
    } else if members[0].key@ == key {
        Some(members[0].value)
    } else {
        member_named(members.drop_first(), key)
    }
}

impl JsonValue {
    /// The text of a JSON string.
    pub open spec fn text(self) -> Option<Seq<char>> {
        match self {
            JsonValue::Text(text) => Some(text@),
            _ => None,
        }
    }

    /// The truth value of a JSON boolean.
    pub open spec fn flag(self) -> Option<bool> {
        match self {
            JsonValue::Bool(flag) => Some(flag),
            _ => None,
        }
    }

    /// The value under `key` in a JSON object: that of the first member of
    /// that name.
    pub open spec fn field(self, key: Seq<char>) -> Option<JsonValue> {
        match self {
            JsonValue::Object(members) => member_named(members@, key),
            _ => None,
        }
    }

    /// The value under `key`, unless there is none or it is `null`.
    pub open spec fn present(self, key: Seq<char>) -> Option<JsonValue> {
        match self.field(key) {
            Some(JsonValue::Null) => None,
            other => other,
        }
    }

    /// The text under `key`, where the value there is a JSON string.
    pub open spec fn text_field(self, key: Seq<char>) -> Option<Seq<char>> {
        match self.field(key) {
            Some(value) => value.text(),
            None => None,
        }
    }

    /// The text under `key`, where a member that is missing or `null` counts
    /// as the empty text; `None` where the value there is no JSON string.
    pub open spec fn text_or_empty(self, key: Seq<char>) -> Option<Seq<char>> {
        match self.present(key) {
            None => Some(Seq::empty()),
            Some(value) => value.text(),
        }
    }

    /// The truth value under `key`, where a member that is missing or `null`
    /// counts as `false`; `None` where the value there is no JSON boolean.
    pub open spec fn flag_or_false(self, key: Seq<char>) -> Option<bool> {
        match self.present(key) {
            None => Some(false),
            Some(value) => value.flag(),
        }
    }

    /// The number under `key`, where a member that is missing or `null`
    /// counts as 0; `None` where the value there is no JSON number written as
    /// an unsigned decimal that fits in 64 bits.
    pub open spec fn number_or_zero(self, key: Seq<char>) -> Option<u64> {
        match self.present(key) {
            None => Some(0),
            Some(JsonValue::Number(digits)) => decimal_u64(digits@),
            Some(_) => None,
        }
    }

    /// Whether this is a JSON object.
    pub fn is_object(&self) -> (object: bool)
        ensures
            object == (self is Object),
    {
        match self {
            JsonValue::Object(_) => true,
            _ => false,
        }
    }

    /// The value under `key` in a JSON object.
    pub fn get(&self, key: &str) -> (value: Option<&JsonValue>)
        ensures
            match value {
                Some(found) => self.field(key@) == Some(*found),
                None => self.field(key@) is None,
            },
    {
        match self {
            JsonValue::Object(members) => {
                let mut i: usize = 0;
                assert(members@.skip(0) =~= members@);
                while i < members.len()
                    invariant
                        i <= members@.len(),
                        self.field(key@) == member_named(members@.skip(i as int), key@),
                    decreases members@.len() - i,
                {
                    assert(members@.skip(i as int).drop_first() =~= members@.skip(i + 1));
                    if text_eq(members[i].key.as_str(), key) {
                        return Some(&members[i].value);
                    }
                    i += 1;
                }
                None
            },
            _ => None,
        }
    }
}

impl JsonValue {
    /// The value under `key`, unless there is none or it is `null`.
    pub fn get_present(&self, key: &str) -> (value: Option<&JsonValue>)
        ensures
            match value {
                Some(found) => self.present(key@) == Some(*found),
                None => self.present(key@) is None,
            },
    {
        match self.get(key) {
            Some(JsonValue::Null) => None,
            other => other,
        }
    }

    /// A copy of the text under `key`.
    pub fn get_text(&self, key: &str) -> (text: Option<String>)
        ensures
            match text {
                Some(t) => self.text_field(key@) == Some(t@),
                None => self.text_field(key@) is None,
            },
    {
        match self.get(key) {
            Some(JsonValue::Text(text)) => Some(text.clone()),
            _ => None,
        }
    }

    /// The text under `key`, or the empty text where the member is missing
    /// or `null`.
    pub fn get_text_or_empty(&self, key: &str) -> (text: Option<String>)
        ensures
            match text {
                Some(t) => self.text_or_empty(key@) == Some(t@),
                None => self.text_or_empty(key@) is None,
            },
    {
        match self.get_present(key) {
            None => Some(String::new()),
            Some(JsonValue::Text(text)) => Some(text.clone()),
            Some(_) => None,
        }
    }

    /// The truth value under `key`, or `false` where the member is missing
    /// or `null`.
    pub fn get_flag_or_false(&self, key: &str) -> (flag: Option<bool>)
        ensures
            flag == self.flag_or_false(key@),
    {
        match self.get_present(key) {
            None => Some(false),
            Some(JsonValue::Bool(flag)) => Some(*flag),
            Some(_) => None,
        }
    }

    /// The unsigned number under `key`, or 0 where the member is missing or
    /// `null`.
    pub fn get_number_or_zero(&self, key: &str) -> (number: Option<u64>)
        ensures
            number == self.number_or_zero(key@),
    {
        match self.get_present(key) {
            None => Some(0),
            Some(JsonValue::Number(digits)) => parse_decimal(digits.as_str()),
            Some(_) => None,
        }
    }
}

} // verus!
