//! Serialized forms of the structured column values.
//!
//! The store keeps collection-valued attributes as serialized structured
//! text. The encoding is the common compact JSON form: strings are quoted
//! with `"` and `\` escaped and control characters written as `\b`, `\f`,
//! `\n`, `\r`, `\t` or `\u00XX`; arrays have no spaces; an absent value is
//! the text `null`.

use vstd::prelude::*;
use crate::deserializers::svw;
use crate::models::{pv, pvs, PackageProvide, ProvideStrategy, ProvideV};
use crate::raw::{ov, RawValue};

verus! {

/// The lower-case hexadecimal digit of a value below sixteen.
pub open spec fn hex_digit(n: int) -> char {
    if n == 0 { '0' } else if n == 1 { '1' } else if n == 2 { '2' } else if n == 3 { '3' }
    else if n == 4 { '4' } else if n == 5 { '5' } else if n == 6 { '6' } else if n == 7 { '7' }
    else if n == 8 { '8' } else if n == 9 { '9' } else if n == 10 { 'a' } else if n == 11 { 'b' }
    else if n == 12 { 'c' } else if n == 13 { 'd' } else if n == 14 { 'e' } else { 'f' }
}

/// The escape of one character inside a quoted string.
pub open spec fn esc_char(c: char) -> Seq<char> {
    if c == '"' {
        seq!['\\', '"']
    } else if c == '\\' {
        seq!['\\', '\\']
    } else if c == '\u{8}' {
        seq!['\\', 'b']
    } else if c == '\u{c}' {
        seq!['\\', 'f']
    } else if c == '\n' {
        seq!['\\', 'n']
    } else if c == '\r' {
        seq!['\\', 'r']
    } else if c == '\t' {
        seq!['\\', 't']
    } else if (c as int) < 32 {
        seq!['\\', 'u', '0', '0', hex_digit(c as int / 16), hex_digit(c as int % 16)]
    } else {
        seq![c]
    }
}

/// The body of a quoted string: every character escaped.
pub open spec fn esc_seq(s: Seq<char>) -> Seq<char>
    decreases s.len(),
{
    if s.len() == 0 {
        Seq::empty()
    } else {
        esc_seq(s.drop_last()) + esc_char(s.last())
    }
}

/// A string as serialized: quoted and escaped.
pub open spec fn json_quoted(s: Seq<char>) -> Seq<char> {
    seq!['"'] + esc_seq(s) + seq!['"']
}

/// The comma-separated items of a non-empty string array.
pub open spec fn array_items(elems: Seq<Seq<char>>) -> Seq<char>
    decreases elems.len(),
{
    if elems.len() <= 1 {
        if elems.len() == 0 {
            Seq::empty()
        } else {
            json_quoted(elems[0])
        }
    } else {
        array_items(elems.drop_last()) + seq![','] + json_quoted(elems.last())
    }
}

/// An array of strings as serialized.
pub open spec fn json_str_array(elems: Seq<Seq<char>>) -> Seq<char> {
    seq!['['] + array_items(elems) + seq![']']
}

/// A non-negative number in decimal.
pub open spec fn dec_seq(n: nat) -> Seq<char>
    decreases n,
{
    if n < 10 {
        seq![hex_digit(n as int)]
    } else {
        dec_seq(n / 10) + seq![hex_digit(n as int % 10)]
    }
}

/// One provide-relation as serialized: an object with the relation's
/// name, target and strategy, absent members written as `null`.
pub open spec fn json_provide(p: ProvideV) -> Seq<char> {
    "{\"name\":"@ + json_quoted(p.name) + ",\"target\":"@ + (match p.target {
        Some(t) => json_quoted(t),
        None => "null"@,
    }) + ",\"strategy\":"@ + (match p.strategy {
        Some(ProvideStrategy::KeepTargetOnly) => "\"KeepTargetOnly\""@,
        Some(ProvideStrategy::KeepBoth) => "\"KeepBoth\""@,
        Some(ProvideStrategy::Alias) => "\"Alias\""@,
        None => "null"@,
    }) + "}"@
}

/// The comma-separated items of a non-empty provide array.
pub open spec fn provide_items(elems: Seq<ProvideV>) -> Seq<char>
    decreases elems.len(),
{
    if elems.len() <= 1 {
        if elems.len() == 0 {
            Seq::empty()
        } else {
            json_provide(elems[0])
        }
    } else {
        provide_items(elems.drop_last()) + seq![','] + json_provide(elems.last())
    }
}

/// An array of provide-relations as serialized.
pub open spec fn json_provide_array(elems: Seq<ProvideV>) -> Seq<char> {
    seq!['['] + provide_items(elems) + seq![']']
}

/// A raw value carried through to storage verbatim: null, a boolean, a
/// number, a quoted string or a string array are serialized here; an
/// object or any other shape keeps the serialized text it arrived with.
pub open spec fn jv_text(v: RawValue) -> Seq<char> {
    match v {
        RawValue::Absent | RawValue::Null => "null"@,
        RawValue::Bool(b) => if b {
            "true"@
        } else {
            "false"@
        },
        RawValue::Num(n) => dec_seq(n as nat),
        RawValue::Str(s) => json_quoted(s@),
        RawValue::List(l) => json_str_array(svw(l@)),
        RawValue::Object { url: _, text } => text@,
        RawValue::Other(t) => t@,
    }
}

/// One lower-case hexadecimal digit as a string.
fn hex_str(d: u32) -> (r: &'static str)
    requires
        d < 16,
    ensures
        r@ == seq![hex_digit(d as int)],
{
    proof {
        reveal_strlit("0");
        reveal_strlit("1");
        reveal_strlit("2");
        reveal_strlit("3");
        reveal_strlit("4");
        reveal_strlit("5");
        reveal_strlit("6");
        reveal_strlit("7");
        reveal_strlit("8");
        reveal_strlit("9");
        reveal_strlit("a");
        reveal_strlit("b");
        reveal_strlit("c");
        reveal_strlit("d");
        reveal_strlit("e");
        reveal_strlit("f");
    }
    let r = match d {
        0 => "0",
        1 => "1",
        2 => "2",
        3 => "3",
        4 => "4",
        5 => "5",
        6 => "6",
        7 => "7",
        8 => "8",
        9 => "9",
        10 => "a",
        11 => "b",
        12 => "c",
        13 => "d",
        14 => "e",
        _ => "f",
    };
    proof {
        assert(r@ =~= seq![hex_digit(d as int)]);
    }
    r
}

/// Serializes a non-negative number in decimal.
pub fn u64_to_dec(n: u64) -> (r: String)
    ensures
        r@ == dec_seq(n as nat),
    decreases n,
{
    if n < 10 {
        String::from_str(hex_str(n as u32))
    } else {
        let mut s = u64_to_dec(n / 10);
        s.append(hex_str((n % 10) as u32));
        s
    }
}

/// Quotes and escapes one string.
pub fn json_quote(s: &str) -> (r: String)
    ensures
        r@ == json_quoted(s@),
{
    proof {
        reveal_strlit("\"");
        reveal_strlit("\\\"");
        reveal_strlit("\\\\");
        reveal_strlit("\\b");
        reveal_strlit("\\f");
        reveal_strlit("\\n");
        reveal_strlit("\\r");
        reveal_strlit("\\t");
        reveal_strlit("\\u00");
    }
    let mut out = String::from_str("\"");
    let n = s.unicode_len();
    for i in 0..n
        invariant
            n == s@.len(),
            out@ == seq!['"'] + esc_seq(s@.subrange(0, i as int)),
    {
        proof {
            reveal_strlit("\\\"");
            reveal_strlit("\\\\");
            reveal_strlit("\\b");
            reveal_strlit("\\f");
            reveal_strlit("\\n");
            reveal_strlit("\\r");
            reveal_strlit("\\t");
            reveal_strlit("\\u00");
        }
        let ghost pre = s@.subrange(0, i as int);
        let c = s.get_char(i);
        if c == '"' {
            out.append("\\\"");
        } else if c == '\\' {
            out.append("\\\\");
        } else if c == '\u{8}' {
            out.append("\\b");
        } else if c == '\u{c}' {
            out.append("\\f");
        } else if c == '\n' {
            out.append("\\n");
        } else if c == '\r' {
            out.append("\\r");
        } else if c == '\t' {
            out.append("\\t");
        } else if (c as u32) < 32 {
            out.append("\\u00");
            out.append(hex_str((c as u32) / 16));
            out.append(hex_str((c as u32) % 16));
        } else {
            let piece = s.substring_char(i, i + 1);
            proof {
                assert(piece@ =~= seq![c]);
            }
            out.append(piece);
        }
        proof {
            assert(s@.subrange(0, i + 1).drop_last() =~= pre);
            assert(s@.subrange(0, i + 1).last() == c);
            assert(out@ =~= seq!['"'] + esc_seq(s@.subrange(0, i + 1)));
        }
    }
    proof {
        reveal_strlit("\"");
        assert(s@.subrange(0, n as int) =~= s@);
    }
    out.append("\"");
    proof {
        assert(out@ =~= json_quoted(s@));
    }
    out
}

/// Serializes a vector of strings as a JSON array.
pub fn json_string_list(v: &Vec<String>) -> (r: String)
    ensures
        r@ == json_str_array(svw(v@)),
{
    proof {
        reveal_strlit("[");
        reveal_strlit("]");
        reveal_strlit("[]");
        reveal_strlit(",");
    }
    let n = v.len();
    if n == 0 {
        let r = String::from_str("[]");
        proof {
            assert(r@ =~= json_str_array(svw(v@)));
        }
        return r;
    }
    let mut out = String::from_str("[");
    for i in 0..n
        invariant
            n == v@.len(),
            n > 0,
            out@ == seq!['['] + array_items(svw(v@).subrange(0, i as int)),
    {
        proof {
            reveal_strlit(",");
        }
        let ghost pre = svw(v@).subrange(0, i as int);
        if i > 0 {
            out.append(",");
        }
        let q = json_quote(v[i].as_str());
        out.append(q.as_str());
        proof {
            let cur = svw(v@).subrange(0, i + 1);
            assert(cur.drop_last() =~= pre);
            assert(cur.last() == v@[i as int]@);
            assert(out@ =~= seq!['['] + array_items(cur));
        }
    }
    proof {
        reveal_strlit("]");
        assert(svw(v@).subrange(0, n as int) =~= svw(v@));
    }
    out.append("]");
    proof {
        assert(out@ =~= json_str_array(svw(v@)));
    }
    out
}

/// Serializes a vector of provide-relations as a JSON array.
pub fn json_provide_list(v: &Vec<PackageProvide>) -> (r: String)
    ensures
        r@ == json_provide_array(pvs(v@)),
{
    proof {
        reveal_strlit("[");
        reveal_strlit("]");
        reveal_strlit("[]");
        reveal_strlit(",");
    }
    let n = v.len();
    if n == 0 {
        let r = String::from_str("[]");
        proof {
            assert(r@ =~= json_provide_array(pvs(v@)));
        }
        return r;
    }
    let mut out = String::from_str("[");
    for i in 0..n
        invariant
            n == v@.len(),
            n > 0,
            out@ == seq!['['] + provide_items(pvs(v@).subrange(0, i as int)),
    {
        proof {
            reveal_strlit(",");
        }
        let ghost pre = pvs(v@).subrange(0, i as int);
        if i > 0 {
            out.append(",");
        }
        append_provide(&mut out, &v[i]);
        proof {
            let cur = pvs(v@).subrange(0, i + 1);
            assert(cur.drop_last() =~= pre);
            assert(cur.last() == pv(v@[i as int]));
            assert(out@ =~= seq!['['] + provide_items(cur));
        }
    }
    proof {
        reveal_strlit("]");
        assert(pvs(v@).subrange(0, n as int) =~= pvs(v@));
    }
    out.append("]");
    proof {
        assert(out@ =~= json_provide_array(pvs(v@)));
    }
    out
}

/// Appends one serialized provide-relation.
fn append_provide(out: &mut String, p: &PackageProvide)
    ensures
        final(out)@ == old(out)@ + json_provide(pv(*p)),
{
    out.append("{\"name\":");
    let q = json_quote(p.name.as_str());
    out.append(q.as_str());
    out.append(",\"target\":");
    match &p.target {
        Some(t) => {
            let tq = json_quote(t.as_str());
            out.append(tq.as_str());
        },
        None => out.append("null"),
    }
    out.append(",\"strategy\":");
    match &p.strategy {
        Some(ProvideStrategy::KeepTargetOnly) => out.append("\"KeepTargetOnly\""),
        Some(ProvideStrategy::KeepBoth) => out.append("\"KeepBoth\""),
        Some(ProvideStrategy::Alias) => out.append("\"Alias\""),
        None => out.append("null"),
    }
    out.append("}");
    proof {
        assert(final(out)@ =~= old(out)@ + json_provide(pv(*p)));
    }
}

/// Serializes a raw value carried through to storage verbatim.
pub fn json_value_text(o: Option<&RawValue>) -> (r: String)
    ensures
        r@ == jv_text(ov(o)),
{
    match o {
        None => String::from_str("null"),
        Some(v) => match v {
            RawValue::Absent | RawValue::Null => String::from_str("null"),
            RawValue::Bool(b) => if *b {
                String::from_str("true")
            } else {
                String::from_str("false")
            },
            RawValue::Num(n) => u64_to_dec(*n),
            RawValue::Str(s) => json_quote(s.as_str()),
            RawValue::List(l) => json_string_list(l),
            RawValue::Object { url: _, text } => text.clone(),
            RawValue::Other(t) => t.clone(),
        },
    }
}

} // verus!
