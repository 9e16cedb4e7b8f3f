//! A plain model of the JSON payloads the two browser protocols exchange.
//!
//! Protocol responses and push events reach the library as a [`JsonValue`] —
//! a tree of plain values the verifier can see into — and payloads the
//! library builds (capabilities, command envelopes) leave it the same way.
//! The boundary that reads bytes off the wire converts between this model
//! and its own parsed representation. Numbers are modeled as 64-bit
//! integers; the protocol fields this library reads (ids, flags, names)
//! are integral.

use vstd::prelude::*;

use crate::text::str_eq;

verus! {

/// A JSON value as the protocol logic reads and builds it.
#[derive(Debug, PartialEq, Eq)]
pub enum JsonValue {
    /// JSON `null`.
    Null,
    /// A boolean.
    Bool(bool),
    /// An integral number.
    Int(i64),
    /// A string.
    Str(String),
    /// An array.
    Arr(Vec<JsonValue>),
    /// An object: fields in order, looked up by first match.
    Obj(Vec<(String, JsonValue)>),
}

/// Look `key` up in `fields`, from position `i` on: the first match wins.
pub open spec fn spec_obj_get_from(
    fields: Seq<(String, JsonValue)>,
    key: Seq<char>,
    i: int,
) -> Option<JsonValue>
    decreases fields.len() - i,
{
    if i < 0 || i >= fields.len() {
        None
    } else if fields[i].0@ == key {
        Some(fields[i].1)
    } else {
        spec_obj_get_from(fields, key, i + 1)
    }
}

/// The member of object `v` named `key`: its first field with that name,
/// and nothing when `v` is no object or has no such field.
pub open spec fn spec_get(v: JsonValue, key: Seq<char>) -> Option<JsonValue> {
    match v {
        JsonValue::Obj(fields) => spec_obj_get_from(fields@, key, 0),
        _ => None,
    }
}

impl JsonValue {
    /// The member named `key`, when this value is an object that has one.
    pub fn get<'a>(&'a self, key: &str) -> (r: Option<&'a JsonValue>)
        ensures
            match r {
                Some(m) => spec_get(*self, key@) == Some(*m),
                None => spec_get(*self, key@) is None,
            },
    {
        match self {
            JsonValue::Obj(fields) => {
                proof {
                    assert(spec_get(*self, key@) == spec_obj_get_from(fields@, key@, 0));
                }
                let mut i: usize = 0;
                while i < fields.len()
                    invariant
                        i <= fields@.len(),
                        spec_get(*self, key@) == spec_obj_get_from(fields@, key@, 0),
                        spec_obj_get_from(fields@, key@, 0) == spec_obj_get_from(
                            fields@,
                            key@,
                            i as int,
                        ),
                    decreases fields@.len() - i,
                {
                    if str_eq(fields[i].0.as_str(), key) {
                        proof {
                            reveal_with_fuel(spec_obj_get_from, 2);
                            assert(spec_obj_get_from(fields@, key@, i as int) == Some(
                                fields@[i as int].1,
                            ));
                        }
                        return Some(&fields[i].1);
                    }
                    i = i + 1;
                }
                None
            },
            _ => None,
        }
    }

    /// The characters of this value, when it is a string.
    pub fn as_str<'a>(&'a self) -> (r: Option<&'a str>)
        ensures
            r is Some <==> self is Str,
            self matches JsonValue::Str(s) ==> (r matches Some(t) && t@ == s@),
    {
        match self {
            JsonValue::Str(s) => Some(s.as_str()),
            _ => None,
        }
    }

    /// The number held by this value, when it is one.
    pub fn as_i64(&self) -> (r: Option<i64>)
        ensures
            r is Some <==> self is Int,
            self matches JsonValue::Int(n) ==> r == Some(*n),
    {
        match self {
            JsonValue::Int(n) => Some(*n),
            _ => None,
        }
    }

    /// The boolean held by this value, when it is one.
    pub fn as_bool(&self) -> (r: Option<bool>)
        ensures
            r is Some <==> self is Bool,
            self matches JsonValue::Bool(b) ==> r == Some(*b),
    {
        match self {
            JsonValue::Bool(b) => Some(*b),
            _ => None,
        }
    }

    /// The elements of this value, when it is an array.
    pub fn as_array<'a>(&'a self) -> (r: Option<&'a Vec<JsonValue>>)
        ensures
            r is Some <==> self is Arr,
            self matches JsonValue::Arr(items) ==> (r matches Some(v) && v@ == items@),
    {
        match self {
            JsonValue::Arr(items) => Some(items),
            _ => None,
        }
    }

    /// Whether this value is JSON `null`.
    pub fn is_null(&self) -> (r: bool)
        ensures
            r == (self is Null),
    {
        match self {
            JsonValue::Null => true,
            _ => false,
        }
    }

    /// The member named `key` read as a string, when there is one.
    pub fn get_str<'a>(&'a self, key: &str) -> (r: Option<&'a str>)
        ensures
            match r {
                Some(t) => spec_get(*self, key@) matches Some(m) && m matches JsonValue::Str(s)
                    && s@ == t@,
                None => !(spec_get(*self, key@) matches Some(m) && m is Str),
            },
    {
        match self.get(key) {
            Some(m) => m.as_str(),
            None => None,
        }
    }
}

/// What `serde_json` renders a string as: the quoted, escaped JSON form of
/// exactly those characters. Stated by name; the rendering itself is the
/// outside crate's.
pub uninterp spec fn json_quoted(s: Seq<char>) -> Seq<char>;

/// Relies on `serde_json::to_string` on a string slice: it returns the JSON
/// string literal for it — quoted and escaped — and depends on the
/// characters alone. Serializing a string slice cannot fail.
#[verifier::external_body]
pub fn json_string_literal(s: &str) -> (r: String)
    ensures
        r@ == json_quoted(s@),
{
    match serde_json::to_string(s) {
        Ok(text) => text,
        Err(_) => String::new(),
    }
}

} // verus!
