//! A JSON document as the library reads it.
//!
//! The variants follow the JSON data model: numbers keep the three forms a
//! JSON reader distinguishes (a non-negative integer, a negative integer,
//! anything else kept by its IEEE-754 bits), and an object keeps its members
//! in order.
use vstd::prelude::*;

verus! {

/// A JSON value.
pub enum Json {
    Null,
    Bool(bool),
    /// A non-negative integer.
    PosInt(u64),
    /// A negative integer.
    NegInt(i64),
    /// A number that is not an integer, by the bits of its `f64`.
    Float(u64),
    Str(String),
    Array(Vec<Json>),
    /// The members of an object, in order.
    Object(Vec<(String, Json)>),
}

/// The value of the first member named `key`.
pub open spec fn lookup(entries: Seq<(String, Json)>, key: Seq<char>) -> Option<Json>
    decreases entries.len(),
{
    if entries.len() == 0 {
        None
    } else if entries[0].0@ == key {
        Some(entries[0].1)
    } else {
        lookup(entries.drop_first(), key)
    }
}

impl Json {
    /// The member `key` of an object; nothing for any other value.
    pub open spec fn field(self, key: Seq<char>) -> Option<Json> {
        match self {
            Json::Object(entries) => lookup(entries@, key),
            _ => None,
        }
    }

    /// The value as an `i64`, where it is an integer that fits.
    pub open spec fn int_value(self) -> Option<i64> {
        match self {
            Json::PosInt(u) => if u <= i64::MAX { Some(u as i64) } else { None },
            Json::NegInt(i) => Some(i),
            _ => None,
        }
    }

    /// The value as a `u64`, where it is a non-negative integer.
    pub open spec fn uint_value(self) -> Option<u64> {
        match self {
            Json::PosInt(u) => Some(u),
            _ => None,
        }
    }

    /// The text of a string value.
    pub open spec fn text_value(self) -> Option<Seq<char>> {
        match self {
            Json::Str(s) => Some(s@),
            _ => None,
        }
    }

    /// The elements of an array value.
    pub open spec fn items(self) -> Option<Seq<Json>> {
        match self {
            Json::Array(v) => Some(v@),
            _ => None,
        }
    }

    /// The member `key` of an object.
    pub fn get(&self, key: &str) -> (r: Option<&Json>)
        ensures
            match r {
                Some(v) => self.field(key@) == Some(*v),
                None => self.field(key@) is None,
            },
    {
        match self {
            Json::Object(entries) => {
                let k = String::from_str(key);
                let n = entries.len();
                let mut i: usize = 0;
                assert(entries@.subrange(0, n as int) =~= entries@);
                while i < n
                    invariant
                        n == entries@.len(),
                        k@ == key@,
                        i <= n,
                        self.field(key@) == lookup(entries@, key@),
                        lookup(entries@, key@) == lookup(entries@.subrange(i as int, n as int), key@),
                    decreases n - i,
                {
                    assert(entries@.subrange(i as int, n as int).drop_first()
                        =~= entries@.subrange(i + 1, n as int));
                    let e = &entries[i];
                    if e.0 == k {
                        assert(entries@.subrange(i as int, n as int)[0] == entries@[i as int]);
                        return Some(&e.1);
                    }
                    i = i + 1;
                }
                None
            },
            _ => None,
        }
    }

    /// The value as an `i64`, where it is an integer that fits.
    pub fn as_i64(&self) -> (r: Option<i64>)
        ensures
            r == self.int_value(),
    {
        match self {
            Json::PosInt(u) => if *u <= 9223372036854775807u64 { Some(*u as i64) } else { None },
            Json::NegInt(i) => Some(*i),
            _ => None,
        }
    }

    /// The value as a `u64`, where it is a non-negative integer.
    pub fn as_u64(&self) -> (r: Option<u64>)
        ensures
            r == self.uint_value(),
    {
        match self {
            Json::PosInt(u) => Some(*u),
            _ => None,
        }
    }

    /// The text of a string value.
    pub fn as_str(&self) -> (r: Option<&str>)
        ensures
            match r {
                Some(s) => self.text_value() == Some(s@),
                None => self.text_value() is None,
            },
    {
        match self {
            Json::Str(s) => Some(s.as_str()),
            _ => None,
        }
    }

    /// The elements of an array value.
    pub fn as_array(&self) -> (r: Option<&Vec<Json>>)
        ensures
            match r {
                Some(v) => self.items() == Some(v@),
                None => self.items() is None,
            },
    {
        match self {
            Json::Array(v) => Some(v),
            _ => None,
        }
    }
}

} // verus!
