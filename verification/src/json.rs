//! The tree-structured wire value that requests and responses are made of.
//!
//! The remote service speaks JSON; the transport layer outside this library
//! parses and serializes the text, and hands values across this boundary in
//! the `JsonValue` shape below.  A number is carried as it is read through
//! the two accessors the protocol needs: `as_uint` holds the value as an
//! unsigned integer where the number is one, and `bits` holds the value as
//! an IEEE 754 binary64 real, by its raw bit pattern.  A number written by
//! this library is an integer exactly when `as_uint` is `Some`; the `bits`
//! field of such a written integer is not consulted and is set to zero.

use vstd::prelude::*;

verus! {

/// A tree-structured value, the library's picture of one JSON value.
#[derive(Debug)]
pub enum JsonValue {
    Null,
    Bool { b: bool },
    Number { as_uint: Option<u64>, bits: u64 },
    Text { s: String },
    List { items: Vec<JsonValue> },
    Object { entries: Vec<(String, JsonValue)> },
}

impl JsonValue {
    /// Deep structural equality: same shape, same scalars, key and text
    /// contents equal as character sequences.
    pub open spec fn eqv(self, other: JsonValue) -> bool
        decreases self,
    {
        match (self, other) {
            (JsonValue::Null, JsonValue::Null) => true,
            (JsonValue::Bool { b }, JsonValue::Bool { b: b2 }) => b == b2,
            (
                JsonValue::Number { as_uint, bits },
                JsonValue::Number { as_uint: as_uint2, bits: bits2 },
            ) => as_uint == as_uint2 && bits == bits2,
            (JsonValue::Text { s }, JsonValue::Text { s: s2 }) => s@ == s2@,
            (JsonValue::List { items }, JsonValue::List { items: items2 }) => {
                &&& items@.len() == items2@.len()
                &&& forall|i: int|
                    0 <= i < items@.len() ==> (#[trigger] items@[i]).eqv(items2@[i])
            },
            (JsonValue::Object { entries }, JsonValue::Object { entries: entries2 }) => {
                &&& entries@.len() == entries2@.len()
                &&& forall|i: int|
                    0 <= i < entries@.len() ==> (#[trigger] entries@[i]).0@ == entries2@[i].0@
                        && entries@[i].1.eqv(entries2@[i].1)
            },
            _ => false,
        }
    }

    /// The first entry of `entries` at or after position `i` whose key reads
    /// `key`, if any.
    pub open spec fn spec_find_from(
        entries: Seq<(String, JsonValue)>,
        key: Seq<char>,
        i: int,
    ) -> Option<JsonValue>
        decreases entries.len() - i,
    {
        if i < 0 || i >= entries.len() {
            None
        } else if entries[i].0@ == key {
            Some(entries[i].1)
        } else {
            Self::spec_find_from(entries, key, i + 1)
        }
    }

    /// The value under `key`, if `self` is an object with such an entry; the
    /// first entry wins when a key repeats.
    pub open spec fn spec_get(self, key: Seq<char>) -> Option<JsonValue> {
        match self {
            JsonValue::Object { entries } => Self::spec_find_from(entries@, key, 0),
            _ => None,
        }
    }

    /// Looks `key` up in an object value, returning the first match.
    #[verifier::loop_isolation(false)]
    pub fn find<'a>(&'a self, key: &str) -> (r: Option<&'a JsonValue>)
        ensures
            match r {
                Some(v) => self.spec_get(key@) == Some(*v),
                None => self.spec_get(key@) is None,
            },
    {
        match self {
            JsonValue::Object { entries } => {
                let n = entries.len();
                let mut i: usize = 0;
                while i < n
                    invariant
                        n == entries.len(),
                        0 <= i <= n,
                        Self::spec_find_from(entries@, key@, 0) == Self::spec_find_from(
                            entries@,
                            key@,
                            i as int,
                        ),
                    decreases n - i,
                {
                    let e = &entries[i];
                    if string_eq_str(&e.0, key) {
                        proof {
                            assert(Self::spec_find_from(entries@, key@, i as int) == Some(
                                entries@[i as int].1,
                            ));
                        }
                        return Some(&e.1);
                    }
                    i = i + 1;
                }
                proof {
                    assert(Self::spec_find_from(entries@, key@, n as int) is None);
                }
                None
            },
            _ => None,
        }
    }

    /// A deep copy: the result is structurally equal to the original.
    #[verifier::loop_isolation(false)]
    pub fn duplicate(&self) -> (r: JsonValue)
        ensures
            r.eqv(*self),
        decreases *self,
    {
        match self {
            JsonValue::Null => JsonValue::Null,
            JsonValue::Bool { b } => JsonValue::Bool { b: *b },
            JsonValue::Number { as_uint, bits } => JsonValue::Number {
                as_uint: *as_uint,
                bits: *bits,
            },
            JsonValue::Text { s } => JsonValue::Text { s: s.clone() },
            JsonValue::List { items } => {
                let n = items.len();
                let mut out: Vec<JsonValue> = Vec::new();
                let mut i: usize = 0;
                while i < n
                    invariant
                        n == items.len(),
                        0 <= i <= n,
                        out@.len() == i,
                        forall|j: int| 0 <= j < i ==> (#[trigger] out@[j]).eqv(items@[j]),
                    decreases n - i,
                {
                    let d = items[i].duplicate();
                    out.push(d);
                    i = i + 1;
                }
                JsonValue::List { items: out }
            },
            JsonValue::Object { entries } => {
                let n = entries.len();
                let mut out: Vec<(String, JsonValue)> = Vec::new();
                let mut i: usize = 0;
                while i < n
                    invariant
                        n == entries.len(),
                        0 <= i <= n,
                        out@.len() == i,
                        forall|j: int|
                            0 <= j < i ==> (#[trigger] out@[j]).0@ == entries@[j].0@
                                && out@[j].1.eqv(entries@[j].1),
                    decreases n - i,
                {
                    let e = &entries[i];
                    let d = e.1.duplicate();
                    out.push((e.0.clone(), d));
                    i = i + 1;
                }
                JsonValue::Object { entries: out }
            },
        }
    }
}

/// Character-for-character comparison of an owned key with a borrowed one.
pub fn string_eq_str(a: &String, b: &str) -> (r: bool)
    ensures
        r == (a@ == b@),
{
    let bs: String = b.to_owned();
    *a == bs
}

} // verus!
