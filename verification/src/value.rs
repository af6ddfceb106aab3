//! The values a store holds and the pairs its iteration hands out.

use vstd::prelude::*;
use vstd::string::StringExecFns;

verus! {

/// A scalar held under a key. A value is never changed in place: writing a
/// key again replaces the whole value.
#[derive(Clone, Debug, PartialEq, PartialOrd)]
pub enum Value {
    /// Text.
    Text(String),
    /// Raw bytes.
    Binary(Vec<u8>),
    /// A signed integer.
    Integer(i64),
    /// A double-precision number, held by its IEEE 754 bit pattern.
    Float(u64),
    /// A truth value.
    Bool(bool),
}

/// What a [`Value`] is, mathematically.
pub enum ValueView {
    Text(Seq<char>),
    Binary(Seq<u8>),
    Integer(i64),
    Float(u64),
    Bool(bool),
}

impl View for Value {
    type V = ValueView;

    open spec fn view(&self) -> ValueView {
        match *self {
            Value::Text(s) => ValueView::Text(s@),
            Value::Binary(b) => ValueView::Binary(b@),
            Value::Integer(i) => ValueView::Integer(i),
            Value::Float(bits) => ValueView::Float(bits),
            Value::Bool(b) => ValueView::Bool(b),
        }
    }
}

/// The view of a value that may be absent.
pub open spec fn view_of(v: Option<Value>) -> Option<ValueView> {
    match v {
        Some(value) => Some(value@),
        None => None,
    }
}

impl From<String> for Value {
    fn from(s: String) -> (ret: Value) {
        Value::Text(s)
    }
}

impl vstd::std_specs::convert::FromSpecImpl<String> for Value {
    open spec fn obeys_from_spec() -> bool {
        true
    }

    open spec fn from_spec(s: String) -> Value {
        Value::Text(s)
    }
}

impl<'a> From<&'a str> for Value {
    /// The text `s`, owned.
    fn from(s: &'a str) -> (ret: Value)
        ensures
            ret@ == ValueView::Text(s@),
    {
        Value::Text(String::from_str(s))
    }
}

/// No spec function builds an owned string, so this conversion is stated by
/// the `ensures` of `from` alone.
impl<'a> vstd::std_specs::convert::FromSpecImpl<&'a str> for Value {
    open spec fn obeys_from_spec() -> bool {
        false
    }

    open spec fn from_spec(s: &'a str) -> Value {
        arbitrary()
    }
}

impl From<i64> for Value {
    fn from(i: i64) -> (ret: Value) {
        Value::Integer(i)
    }
}

impl vstd::std_specs::convert::FromSpecImpl<i64> for Value {
    open spec fn obeys_from_spec() -> bool {
        true
    }

    open spec fn from_spec(i: i64) -> Value {
        Value::Integer(i)
    }
}

/// A key with its value: what iterating over a table yields.
#[derive(Clone, Debug, PartialEq, PartialOrd)]
pub struct Kvpair {
    pub key: String,
    pub value: Value,
}

impl View for Kvpair {
    type V = (Seq<char>, ValueView);

    open spec fn view(&self) -> (Seq<char>, ValueView) {
        (self.key@, self.value@)
    }
}

impl Kvpair {
    /// Pairs `key` with `value`.
    pub fn new(key: String, value: Value) -> (pair: Kvpair)
        ensures
            pair.key == key,
            pair.value == value,
            pair@ == (key@, value@),
    {
        Kvpair { key, value }
    }
}

} // verus!
