//! Tolerant field coercions: each function turns one raw field value into
//! its well-typed form, or reports exactly why it cannot.
//!
//! The rules, stated once and applied uniformly by the normalizer:
//! an optional string that is empty or whitespace-only becomes absent; an
//! optional number accepts a native number or a numeric string; a tri-state
//! boolean accepts a native boolean or a word from `true/yes/1/false/no/0`
//! in any case; a resource accepts a bare string or an object with a `url`
//! member; a missing collection becomes the empty sequence.

use vstd::prelude::*;
use crate::raw::{ov, RawValue};
use crate::text::{
    all_digits, dec_val, eq_ci, eq_ignore_case, is_blank, is_digit, is_ws, parse_u64, ws_only,
};

verus! {

/// Why one field of a record failed coercion.
#[derive(Debug, Clone, PartialEq)]
pub enum MalformedKind {
    /// A string that no boolean reading accepts; carries the string.
    BadBoolean(String),
    /// A non-empty, non-numeric string in a numeric field, or a number too
    /// large for 64 bits; carries the string.
    BadNumber(String),
    /// A required field that is missing or null.
    MissingField,
    /// A value whose type no reading of the field accepts.
    WrongType,
}

/// A record that failed normalization: the offending field and the reason.
#[derive(Debug, Clone, PartialEq)]
pub struct MalformedRecord {
    pub field: String,
    pub kind: MalformedKind,
}

/// The view of an optional string.
pub open spec fn ovw(o: Option<String>) -> Option<Seq<char>> {
    match o {
        Some(s) => Some(s@),
        None => None,
    }
}

/// The views of a sequence of strings.
pub open spec fn svw(v: Seq<String>) -> Seq<Seq<char>> {
    v.map_values(|s: String| s@)
}

/// Copies a vector of strings; the copy has the same views.
pub fn clone_strings(v: &Vec<String>) -> (r: Vec<String>)
    ensures
        svw(r@) == svw(v@),
{
    let mut r: Vec<String> = Vec::new();
    let n = v.len();
    for i in 0..n
        invariant
            n == v@.len(),
            r@.len() == i,
            forall|k: int| 0 <= k < i ==> (#[trigger] r@[k])@ == v@[k]@,
    {
        r.push(v[i].clone());
    }
    proof {
        assert(svw(r@) =~= svw(v@));
    }
    r
}

// --- optional string: empty or whitespace-only means absent -------------

/// Whether an optional string field accepts the raw value.
pub open spec fn opt_str_ok(v: RawValue) -> bool {
    match v {
        RawValue::Absent | RawValue::Null | RawValue::Str(_) => true,
        _ => false,
    }
}

/// The normalized value of an optional string field.
pub open spec fn opt_str_val(v: RawValue) -> Option<Seq<char>> {
    match v {
        RawValue::Str(s) => if ws_only(s@) {
            None
        } else {
            Some(s@)
        },
        _ => None,
    }
}

/// Coerces an optional string field: absent, null, empty and
/// whitespace-only all normalize to `None`; any other string is kept as
/// it is; any other type is refused.
pub fn empty_is_none(o: Option<&RawValue>) -> (r: Result<Option<String>, MalformedKind>)
    ensures
        r.is_ok() == opt_str_ok(ov(o)),
        r matches Ok(x) ==> ovw(x) == opt_str_val(ov(o)),
        r matches Err(k) ==> k == MalformedKind::WrongType,
{
    match o {
        None => Ok(None),
        Some(v) => match v {
            RawValue::Absent | RawValue::Null => Ok(None),
            RawValue::Str(s) => if is_blank(s.as_str()) {
                Ok(None)
            } else {
                Ok(Some(s.clone()))
            },
            _ => Err(MalformedKind::WrongType),
        },
    }
}

// --- tri-state boolean ---------------------------------------------------

/// The strings read as `true`: `true`, `yes`, `1`, ignoring ASCII case.
pub open spec fn is_truthy(s: Seq<char>) -> bool {
    eq_ci(s, "true"@) || eq_ci(s, "yes"@) || eq_ci(s, "1"@)
}

/// The strings read as `false`: `false`, `no`, `0`, ignoring ASCII case.
pub open spec fn is_falsy(s: Seq<char>) -> bool {
    eq_ci(s, "false"@) || eq_ci(s, "no"@) || eq_ci(s, "0"@)
}

/// Whether a tri-state boolean field accepts the raw value.
pub open spec fn tri_ok(v: RawValue) -> bool {
    match v {
        RawValue::Absent | RawValue::Null | RawValue::Bool(_) => true,
        RawValue::Str(s) => s@.len() == 0 || is_truthy(s@) || is_falsy(s@),
        _ => false,
    }
}

/// The normalized value of a tri-state boolean field.
pub open spec fn tri_val(v: RawValue) -> Option<bool> {
    match v {
        RawValue::Bool(b) => Some(b),
        RawValue::Str(s) => if is_truthy(s@) {
            Some(true)
        } else if is_falsy(s@) {
            Some(false)
        } else {
            None
        },
        _ => None,
    }
}

/// The error a tri-state boolean field reports for the raw value.
pub open spec fn tri_err(v: RawValue, k: MalformedKind) -> bool {
    match v {
        RawValue::Str(s) => k matches MalformedKind::BadBoolean(t) && t@ == s@,
        _ => k == MalformedKind::WrongType,
    }
}

/// Coerces a tri-state boolean field: a native boolean is kept; a string
/// is matched, ignoring ASCII case, against `true`/`yes`/`1` and
/// `false`/`no`/`0`; the empty string, null and absence normalize to
/// unknown; any other string or type is refused.
pub fn flexible_bool(o: Option<&RawValue>) -> (r: Result<Option<bool>, MalformedKind>)
    ensures
        r.is_ok() == tri_ok(ov(o)),
        r matches Ok(b) ==> b == tri_val(ov(o)),
        r matches Err(k) ==> tri_err(ov(o), k),
{
    match o {
        None => Ok(None),
        Some(v) => match v {
            RawValue::Absent | RawValue::Null => Ok(None),
            RawValue::Bool(b) => Ok(Some(*b)),
            RawValue::Str(s) => {
                if s.as_str().unicode_len() == 0 {
                    proof {
                        reveal_strlit("true");
                        reveal_strlit("yes");
                        reveal_strlit("1");
                        reveal_strlit("false");
                        reveal_strlit("no");
                        reveal_strlit("0");
                    }
                    Ok(None)
                } else if eq_ignore_case(s.as_str(), "true") || eq_ignore_case(s.as_str(), "yes")
                    || eq_ignore_case(s.as_str(), "1") {
                    Ok(Some(true))
                } else if eq_ignore_case(s.as_str(), "false") || eq_ignore_case(s.as_str(), "no")
                    || eq_ignore_case(s.as_str(), "0") {
                    Ok(Some(false))
                } else {
                    Err(MalformedKind::BadBoolean(s.clone()))
                }
            },
            _ => Err(MalformedKind::WrongType),
        },
    }
}

// --- optional number -----------------------------------------------------

/// A minus sign followed by at least one digit.
pub open spec fn neg_int(s: Seq<char>) -> bool {
    s.len() >= 2 && s[0] == '-' && forall|i: int| 1 <= i < s.len() ==> is_digit(#[trigger] s[i])
}

/// The digits of a numeric string: an optional leading plus sign is
/// dropped, as integer parsing accepts one.
pub open spec fn digits_part(s: Seq<char>) -> Seq<char> {
    if s.len() > 0 && s[0] == '+' {
        s.subrange(1, s.len() as int)
    } else {
        s
    }
}

/// Whether an optional numeric field accepts the raw value.
pub open spec fn num_ok(v: RawValue) -> bool {
    match v {
        RawValue::Absent | RawValue::Null | RawValue::Num(_) => true,
        RawValue::Str(s) => ws_only(s@) || neg_int(s@) || (all_digits(digits_part(s@)) && dec_val(
            digits_part(s@),
        ) < 0x1_0000_0000_0000_0000),
        _ => false,
    }
}

/// The normalized value of an optional numeric field: a negative numeric
/// string normalizes to absent, as an out-of-range magnitude for a
/// non-negative counter.
pub open spec fn num_val(v: RawValue) -> Option<u64> {
    match v {
        RawValue::Num(n) => Some(n),
        RawValue::Str(s) => if !ws_only(s@) && !neg_int(s@) && all_digits(digits_part(s@))
            && dec_val(digits_part(s@)) < 0x1_0000_0000_0000_0000 {
            Some(dec_val(digits_part(s@)) as u64)
        } else {
            None
        },
        _ => None,
    }
}

/// The error an optional numeric field reports for the raw value.
pub open spec fn num_err(v: RawValue, k: MalformedKind) -> bool {
    match v {
        RawValue::Str(s) => k matches MalformedKind::BadNumber(t) && t@ == s@,
        _ => k == MalformedKind::WrongType,
    }
}

/// Coerces an optional numeric field: a native number is kept; a
/// whitespace-only string normalizes to absent, as does a negative
/// numeric string; a non-negative numeric string, with an optional
/// leading plus sign, is parsed; any other non-empty string, a number
/// over 64 bits, and any other type are refused.
pub fn optional_u64(o: Option<&RawValue>) -> (r: Result<Option<u64>, MalformedKind>)
    ensures
        r.is_ok() == num_ok(ov(o)),
        r matches Ok(n) ==> n == num_val(ov(o)),
        r matches Err(k) ==> num_err(ov(o), k),
{
    match o {
        None => Ok(None),
        Some(v) => match v {
            RawValue::Absent | RawValue::Null => Ok(None),
            RawValue::Num(n) => Ok(Some(*n)),
            RawValue::Str(s) => {
                if is_blank(s.as_str()) {
                    Ok(None)
                } else if is_negative_int(s.as_str()) {
                    Ok(None)
                } else {
                    let n = s.as_str().unicode_len();
                    let t = if n > 0 && s.as_str().get_char(0) == '+' {
                        s.as_str().substring_char(1, n)
                    } else {
                        s.as_str()
                    };
                    proof {
                        assert(t@ == digits_part(s@));
                    }
                    match parse_u64(t) {
                        Some(n) => Ok(Some(n)),
                        None => Err(MalformedKind::BadNumber(s.clone())),
                    }
                }
            },
            _ => Err(MalformedKind::WrongType),
        },
    }
}

/// True when `s` is a minus sign followed by at least one digit.
fn is_negative_int(s: &str) -> (r: bool)
    ensures
        r == neg_int(s@),
{
    let n = s.unicode_len();
    if n < 2 {
        return false;
    }
    if s.get_char(0) != '-' {
        return false;
    }
    for i in 1..n
        invariant
            n == s@.len(),
            n >= 2,
            s@[0] == '-',
            forall|k: int| 1 <= k < i ==> is_digit(#[trigger] s@[k]),
    {
        let d = s.get_char(i) as u32;
        if d < 48 || d > 57 {
            assert(!is_digit(s@[i as int]));
            return false;
        }
        assert(is_digit(s@[i as int]));
    }
    true
}

// --- required string -----------------------------------------------------

/// Whether a required string field accepts the raw value.
pub open spec fn req_str_ok(v: RawValue) -> bool {
    v is Str
}

/// The value of a required string field.
pub open spec fn req_str_val(v: RawValue) -> Seq<char> {
    match v {
        RawValue::Str(s) => s@,
        _ => Seq::empty(),
    }
}

/// The error a required string field reports for the raw value.
pub open spec fn req_str_err(v: RawValue, k: MalformedKind) -> bool {
    match v {
        RawValue::Absent | RawValue::Null => k == MalformedKind::MissingField,
        _ => k == MalformedKind::WrongType,
    }
}

/// Coerces a required string field: only a string is accepted; absence and
/// null report a missing field.
pub fn required_string(o: Option<&RawValue>) -> (r: Result<String, MalformedKind>)
    ensures
        r.is_ok() == req_str_ok(ov(o)),
        r matches Ok(s) ==> s@ == req_str_val(ov(o)),
        r matches Err(k) ==> req_str_err(ov(o), k),
{
    match o {
        None => Err(MalformedKind::MissingField),
        Some(v) => match v {
            RawValue::Str(s) => Ok(s.clone()),
            RawValue::Absent | RawValue::Null => Err(MalformedKind::MissingField),
            _ => Err(MalformedKind::WrongType),
        },
    }
}

// --- collection of strings -----------------------------------------------

/// Whether a collection field accepts the raw value.
pub open spec fn list_ok(v: RawValue) -> bool {
    match v {
        RawValue::Absent | RawValue::Null | RawValue::List(_) => true,
        _ => false,
    }
}

/// The normalized value of a collection field: a missing or null
/// collection is the empty sequence.
pub open spec fn list_val(v: RawValue) -> Seq<Seq<char>> {
    match v {
        RawValue::List(l) => svw(l@),
        _ => Seq::empty(),
    }
}

/// Coerces a collection field: an array of strings is kept; absence and
/// null normalize to the empty collection; any other type is refused.
pub fn string_list(o: Option<&RawValue>) -> (r: Result<Vec<String>, MalformedKind>)
    ensures
        r.is_ok() == list_ok(ov(o)),
        r matches Ok(l) ==> svw(l@) == list_val(ov(o)),
        r matches Err(k) ==> k == MalformedKind::WrongType,
{
    match o {
        None => {
            proof {
                assert(svw(Seq::<String>::empty()) =~= Seq::<Seq<char>>::empty());
            }
            Ok(Vec::new())
        },
        Some(v) => match v {
            RawValue::Absent | RawValue::Null => {
                proof {
                    assert(svw(Seq::<String>::empty()) =~= Seq::<Seq<char>>::empty());
                }
                Ok(Vec::new())
            },
            RawValue::List(l) => Ok(clone_strings(l)),
            _ => Err(MalformedKind::WrongType),
        },
    }
}

// --- resource ------------------------------------------------------------

/// The normalized value of a resource field, which may arrive as a bare
/// string or as an object with a `url` member; every other shape, and an
/// empty or whitespace-only location, normalizes to absent.
pub open spec fn res_val(v: RawValue) -> Option<Seq<char>> {
    match v {
        RawValue::Str(s) => if ws_only(s@) {
            None
        } else {
            Some(s@)
        },
        RawValue::Object { url, text: _ } => match url {
            Some(u) => if ws_only(u@) {
                None
            } else {
                Some(u@)
            },
            None => None,
        },
        _ => None,
    }
}

/// Coerces a resource field; this coercion never fails.
pub fn normalize_resource(o: Option<&RawValue>) -> (r: Option<String>)
    ensures
        ovw(r) == res_val(ov(o)),
{
    match o {
        None => None,
        Some(v) => match v {
            RawValue::Str(s) => if is_blank(s.as_str()) {
                None
            } else {
                Some(s.clone())
            },
            RawValue::Object { url, text: _ } => match url {
                Some(u) => if is_blank(u.as_str()) {
                    None
                } else {
                    Some(u.clone())
                },
                None => None,
            },
            _ => None,
        },
    }
}

} // verus!
