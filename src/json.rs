//! A JSON value tree, as handed over by a deserializer, and the few
//! accessors that the decoder reads it through.
use vstd::prelude::*;
use vstd::string::StringSliceAdditionalSpecFns;

verus! {

/// A JSON number.
#[derive(Debug, Clone, Copy, PartialEq, Eq, Structural)]
pub enum Number {
    /// A non-negative integer.
    PosInt(u64),
    /// A negative integer.
    NegInt(i64),
    /// A number with a fraction or an exponent, held as the bit pattern of
    /// its IEEE 754 double.
    Float(u64),
}

/// A JSON value.
#[derive(Debug)]
pub enum Json {
    Null,
    Bool(bool),
    Number(Number),
    String(String),
    Array(Vec<Json>),
    /// The members of an object, in document order. Where a name repeats,
    /// the first member with it is the one that is read.
    Object(Vec<(String, Json)>),
}

impl Json {
    /// The boolean this value holds, if it is one.
    pub open spec fn bool_value(self) -> Option<bool> {
        match self {
            Json::Bool(b) => Some(b),
            _ => None,
        }
    }

    /// The unsigned integer this value holds, if it is one.
    pub open spec fn u64_value(self) -> Option<u64> {
        match self {
            Json::Number(Number::PosInt(n)) => Some(n),
            _ => None,
        }
    }

    /// The text this value holds, if it is a string.
    pub open spec fn text_value(self) -> Option<Seq<char>> {
        match self {
            Json::String(s) => Some(s@),
            _ => None,
        }
    }

    pub fn as_bool(&self) -> (r: Option<bool>)
        ensures
            r == self.bool_value(),
    {
        match self {
            Json::Bool(b) => Some(*b),
            _ => None,
        }
    }

    pub fn as_u64(&self) -> (r: Option<u64>)
        ensures
            r == self.u64_value(),
    {
        match self {
            Json::Number(Number::PosInt(n)) => Some(*n),
            _ => None,
        }
    }

    pub fn as_str(&self) -> (r: Option<&str>)
        ensures
            r is Some <==> self.text_value() is Some,
            r matches Some(s) ==> self.text_value() == Some(s@),
    {
        match self {
            Json::String(s) => Some(s.as_str()),
            _ => None,
        }
    }
}

/// Whether `entries` has a member named `key`.
pub open spec fn has_key(entries: Seq<(String, Json)>, key: Seq<char>) -> bool {
    exists|i: int| 0 <= i < entries.len() && (#[trigger] entries[i]).0@ == key
}

/// The position of the first member of `entries` named `key`.
pub open spec fn key_index(entries: Seq<(String, Json)>, key: Seq<char>) -> int
    recommends
        has_key(entries, key),
{
    choose|i: int|
        0 <= i < entries.len() && (#[trigger] entries[i]).0@ == key && forall|j: int|
            0 <= j < i ==> (#[trigger] entries[j]).0@ != key
}

/// The value of the first member of `entries` named `key`, if any.
pub open spec fn member(entries: Seq<(String, Json)>, key: Seq<char>) -> Option<Json> {
    if has_key(entries, key) {
        Some(entries[key_index(entries, key)].1)
    } else {
        None
    }
}

/// Whether two strings hold the same characters.
pub fn same_text(a: &str, b: &str) -> (r: bool)
    ensures
        r == (a@ == b@),
{
    let x = a.as_bytes();
    let y = b.as_bytes();
    proof {
        vstd::utf8::encode_utf8_decode_utf8(a@);
        vstd::utf8::encode_utf8_decode_utf8(b@);
    }
    if x.len() != y.len() {
        return false;
    }
    let mut i: usize = 0;
    while i < x.len()
        invariant
            x@ == a.spec_bytes(),
            y@ == b.spec_bytes(),
            x@.len() == y@.len(),
            0 <= i <= x@.len(),
            forall|j: int| 0 <= j < i ==> x@[j] == y@[j],
        decreases x@.len() - i,
    {
        if x[i] != y[i] {
            assert(x@[i as int] != y@[i as int]);
            return false;
        }
        i = i + 1;
    }
    assert(x@ =~= y@);
    proof {
        vstd::utf8::encode_utf8_decode_utf8(a@);
        vstd::utf8::encode_utf8_decode_utf8(b@);
    }
    true
}

/// Finds the position of the first member of `entries` named `key`.
pub fn find_key(entries: &Vec<(String, Json)>, key: &str) -> (r: Option<usize>)
    ensures
        r is None <==> !has_key(entries@, key@),
        r matches Some(i) ==> i == key_index(entries@, key@) && i < entries@.len() && member(
            entries@,
            key@,
        ) == Some(entries@[i as int].1),
{
    let mut i: usize = 0;
    while i < entries.len()
        invariant
            0 <= i <= entries@.len(),
            forall|j: int| 0 <= j < i ==> (#[trigger] entries@[j]).0@ != key@,
        decreases entries@.len() - i,
    {
        if same_text(entries[i].0.as_str(), key) {
            let ghost k = choose|k: int|
                0 <= k < entries@.len() && (#[trigger] entries@[k]).0@ == key@ && forall|j: int|
                    0 <= j < k ==> (#[trigger] entries@[j]).0@ != key@;
            assert(0 <= k < entries@.len() && entries@[k].0@ == key@ && forall|j: int|
                    0 <= j < k ==> (#[trigger] entries@[j]).0@ != key@) by {
                assert(entries@[i as int].0@ == key@);
            }
            assert(k == i) by {
                if k < i {
                    assert(entries@[k].0@ != key@);
                } else if k > i {
                    assert(entries@[i as int].0@ != key@);
                }
            }
            return Some(i);
        }
        i = i + 1;
    }
    None
}

} // verus!
