//! The upstream document model.
//!
//! The provider answers with an open-ended JSON value; the gateway never
//! trusts its shape. This module holds the gateway's own model of such a
//! value and schema-checking accessors over it: each traversal step yields
//! a typed result or nothing, never a panic.
//!
//! A numeric leaf is carried opaquely, as the bit pattern of its 64-bit
//! wire value: the gateway does no arithmetic on rates, it only passes
//! them through.

use vstd::prelude::*;

use crate::codes::bytes_eq;

verus! {

/// A JSON-like value as fetched from the upstream provider.
///
/// Object members are kept in document order; a lookup takes the first
/// member with the wanted key.
#[derive(Debug)]
pub enum JsonValue {
    Null,
    Bool(bool),
    /// A number, as the bit pattern of its 64-bit wire value.
    Number(u64),
    Text(Vec<u8>),
    Array(Vec<JsonValue>),
    Object(Vec<(Vec<u8>, JsonValue)>),
}

/// The first member of `entries` whose key is `key`, if any.
pub open spec fn spec_find(entries: Seq<(Vec<u8>, JsonValue)>, key: Seq<u8>) -> Option<JsonValue>
    decreases entries.len(),
{
    if entries.len() == 0 {
        None
    } else if entries[0].0@ == key {
        Some(entries[0].1)
    } else {
        spec_find(entries.drop_first(), key)
    }
}

impl JsonValue {
    /// The member of this value at `key`, if this value is an object that
    /// has one.
    pub open spec fn spec_get(self, key: Seq<u8>) -> Option<JsonValue> {
        match self {
            JsonValue::Object(entries) => spec_find(entries@, key),
            _ => None,
        }
    }

    /// The numeric payload, if this value is a number.
    pub open spec fn spec_number(self) -> Option<u64> {
        match self {
            JsonValue::Number(bits) => Some(bits),
            _ => None,
        }
    }

    /// The text payload, if this value is text.
    pub open spec fn spec_text(self) -> Option<Seq<u8>> {
        match self {
            JsonValue::Text(bytes) => Some(bytes@),
            _ => None,
        }
    }

    /// Look a key up in this value, if it is an object.
    pub fn get<'a>(&'a self, key: &Vec<u8>) -> (r: Option<&'a JsonValue>)
        ensures
            match r {
                Some(v) => self.spec_get(key@) == Some(*v),
                None => self.spec_get(key@) is None,
            },
    {
        match self {
            JsonValue::Object(entries) => find_entry(entries, key),
            _ => None,
        }
    }

    /// Whether this value is an object.
    pub fn is_object(&self) -> (r: bool)
        ensures
            r == (self is Object),
    {
        match self {
            JsonValue::Object(_) => true,
            _ => false,
        }
    }

    /// The numeric payload, if any.
    pub fn as_number(&self) -> (r: Option<u64>)
        ensures
            r == self.spec_number(),
    {
        match self {
            JsonValue::Number(bits) => Some(*bits),
            _ => None,
        }
    }

    /// The text payload, if any.
    pub fn as_text<'a>(&'a self) -> (r: Option<&'a Vec<u8>>)
        ensures
            match r {
                Some(bytes) => self.spec_text() == Some(bytes@),
                None => self.spec_text() is None,
            },
    {
        match self {
            JsonValue::Text(bytes) => Some(bytes),
            _ => None,
        }
    }

    /// The members, if this value is an object.
    pub fn members<'a>(&'a self) -> (r: Option<&'a Vec<(Vec<u8>, JsonValue)>>)
        ensures
            match r {
                Some(entries) => *self == JsonValue::Object(*entries),
                None => !(self is Object),
            },
    {
        match self {
            JsonValue::Object(entries) => Some(entries),
            _ => None,
        }
    }
}

/// The first member with key `key`, scanning in document order.
fn find_entry<'a>(entries: &'a Vec<(Vec<u8>, JsonValue)>, key: &Vec<u8>) -> (r: Option<
    &'a JsonValue,
>)
    ensures
        match r {
            Some(v) => spec_find(entries@, key@) == Some(*v),
            None => spec_find(entries@, key@) is None,
        },
{
    let mut i: usize = 0;
    proof {
        assert(entries@.skip(0) =~= entries@);
    }
    while i < entries.len()
        invariant
            i <= entries.len(),
            spec_find(entries@, key@) == spec_find(entries@.skip(i as int), key@),
        decreases entries.len() - i,
    {
        let entry = &entries[i];
        if bytes_eq(&entry.0, key) {
            proof {
                assert(entries@.skip(i as int)[0] == entries@[i as int]);
            }
            return Some(&entry.1);
        }
        proof {
            assert(entries@.skip(i as int).drop_first() =~= entries@.skip(i as int + 1));
            assert(entries@.skip(i as int)[0] == entries@[i as int]);
        }
        i = i + 1;
    }
    proof {
        assert(entries@.skip(i as int).len() == 0);
    }
    None
}

} // verus!
