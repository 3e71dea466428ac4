//! The untyped shape of one feed record before normalization.
//!
//! Upstream producers disagree on field types: booleans arrive as strings,
//! numbers as strings, resources as bare strings or as objects, and several
//! fields carry historical alias names. A `RawRecord` holds the fields as
//! tagged values so the normalizer can state its coercion rules exactly;
//! the caller that parses the feed converts its tree into this shape.

use vstd::prelude::*;
use crate::text::eq_str;

verus! {

/// One untyped field value as the feed delivered it.
#[derive(Debug, Clone, PartialEq)]
pub enum RawValue {
    /// The field was not present in the record.
    Absent,
    /// The field was present with a null value.
    Null,
    /// A native boolean.
    Bool(bool),
    /// A non-negative integer number.
    Num(u64),
    /// A string.
    Str(String),
    /// An array whose elements are all strings.
    List(Vec<String>),
    /// An object; `url` holds its `url` member when that member is a
    /// string, and `text` the object's serialized form for fields that are
    /// carried through verbatim.
    Object { url: Option<String>, text: String },
    /// Any other value, carried as its serialized form.
    Other(String),
}

/// One key/value binding of a raw record.
#[derive(Debug, Clone, PartialEq)]
pub struct RawField {
    pub key: String,
    pub value: RawValue,
}

/// One untyped record: an ordered sequence of key/value bindings.
#[derive(Debug, Clone, PartialEq)]
pub struct RawRecord {
    pub fields: Vec<RawField>,
}

/// The index of the first binding of `k`, or `-1` when `k` is not bound.
pub open spec fn key_find(fields: Seq<RawField>, k: Seq<char>) -> int
    decreases fields.len(),
{
    if fields.len() == 0 {
        -1
    } else if fields[0].key@ == k {
        0
    } else {
        let r = key_find(fields.drop_first(), k);
        if r < 0 {
            -1
        } else {
            r + 1
        }
    }
}

/// The value bound to `k`, or `Absent` when `k` is not bound. The first
/// binding of a key wins.
pub open spec fn lookup1(fields: Seq<RawField>, k: Seq<char>) -> RawValue {
    if key_find(fields, k) >= 0 {
        fields[key_find(fields, k)].value
    } else {
        RawValue::Absent
    }
}

/// The value of the logical field whose primary name is `k1` and whose
/// accepted alias is `k2`: a binding of the primary name takes precedence
/// over one of the alias.
pub open spec fn lookup2(fields: Seq<RawField>, k1: Seq<char>, k2: Seq<char>) -> RawValue {
    if key_find(fields, k1) >= 0 {
        lookup1(fields, k1)
    } else {
        lookup1(fields, k2)
    }
}

/// The raw value a borrowed lookup result stands for.
pub open spec fn ov(o: Option<&RawValue>) -> RawValue {
    match o {
        Some(v) => *v,
        None => RawValue::Absent,
    }
}

pub proof fn lemma_key_find_at(fields: Seq<RawField>, k: Seq<char>, i: int)
    requires
        0 <= i < fields.len(),
        fields[i].key@ == k,
        forall|j: int| 0 <= j < i ==> (#[trigger] fields[j]).key@ != k,
    ensures
        key_find(fields, k) == i,
    decreases fields.len(),
{
    if i > 0 {
        assert(fields[0].key@ != k);
        assert forall|j: int| 0 <= j < i - 1 implies (#[trigger] fields.drop_first()[j]).key@ != k by {
            assert(fields[j + 1].key@ != k);
        }
        lemma_key_find_at(fields.drop_first(), k, i - 1);
        assert(fields.drop_first()[i - 1] == fields[i]);
    }
}

pub proof fn lemma_key_find_none(fields: Seq<RawField>, k: Seq<char>)
    requires
        forall|j: int| 0 <= j < fields.len() ==> (#[trigger] fields[j]).key@ != k,
    ensures
        key_find(fields, k) == -1,
    decreases fields.len(),
{
    if fields.len() > 0 {
        assert(fields[0].key@ != k);
        assert forall|j: int| 0 <= j < fields.len() - 1 implies (#[trigger] fields.drop_first()[j]).key@ != k by {
            assert(fields[j + 1].key@ != k);
        }
        lemma_key_find_none(fields.drop_first(), k);
    }
}

impl RawRecord {
    /// Finds the first binding of `k`, if any; a missing binding stands
    /// for `Absent`.
    pub fn get1(&self, k: &str) -> (r: Option<&RawValue>)
        ensures
            ov(r) == lookup1(self.fields@, k@),
            r is Some ==> key_find(self.fields@, k@) >= 0,
            r is None ==> key_find(self.fields@, k@) == -1,
    {
        let n = self.fields.len();
        for i in 0..n
            invariant
                n == self.fields@.len(),
                forall|j: int| 0 <= j < i ==> (#[trigger] self.fields@[j]).key@ != k@,
        {
            if eq_str(self.fields[i].key.as_str(), k) {
                proof {
                    lemma_key_find_at(self.fields@, k@, i as int);
                }
                return Some(&self.fields[i].value);
            }
        }
        proof {
            lemma_key_find_none(self.fields@, k@);
        }
        None
    }

    /// Looks a logical field up under its primary name `k1`, falling back
    /// to the alias `k2`; the primary name takes precedence.
    pub fn get2(&self, k1: &str, k2: &str) -> (r: Option<&RawValue>)
        ensures
            ov(r) == lookup2(self.fields@, k1@, k2@),
    {
        match self.get1(k1) {
            Some(v) => Some(v),
            None => match self.get1(k2) {
                Some(v) => Some(v),
                None => None,
            },
        }
    }
}

} // verus!
