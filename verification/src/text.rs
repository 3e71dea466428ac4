//! Character-level helpers shared by the normalizer: whitespace tests,
//! case-insensitive comparison, decimal parsing, and first-occurrence
//! searches for one- and two-character separators.

use vstd::prelude::*;

verus! {

/// The characters this library treats as whitespace: the code points
/// with the Unicode `White_Space` property, the set `str::trim` strips.
pub open spec fn is_ws(c: char) -> bool {
    ||| c == '\t' || c == '\n' || c == '\u{b}' || c == '\u{c}' || c == '\r' || c == ' '
    ||| c == '\u{85}' || c == '\u{a0}' || c == '\u{1680}'
    ||| '\u{2000}' <= c && c <= '\u{200a}'
    ||| c == '\u{2028}' || c == '\u{2029}' || c == '\u{202f}' || c == '\u{205f}'
    ||| c == '\u{3000}'
}

/// A string is blank when every character is whitespace; the empty string
/// is blank.
pub open spec fn ws_only(s: Seq<char>) -> bool {
    forall|i: int| 0 <= i < s.len() ==> is_ws(#[trigger] s[i])
}

/// True when `s` is empty or consists of whitespace only.
pub fn is_blank(s: &str) -> (r: bool)
    ensures
        r == ws_only(s@),
{
    let n = s.unicode_len();
    for i in 0..n
        invariant
            n == s@.len(),
            forall|k: int| 0 <= k < i ==> is_ws(#[trigger] s@[k]),
    {
        let c = s.get_char(i);
        let code = c as u32;
        let ws = (c == '\t' || c == '\n' || c == '\u{b}' || c == '\u{c}' || c == '\r' || c == ' ')
            || (c == '\u{85}' || c == '\u{a0}' || c == '\u{1680}')
            || (0x2000 <= code && code <= 0x200a)
            || (c == '\u{2028}' || c == '\u{2029}' || c == '\u{202f}' || c == '\u{205f}')
            || c == '\u{3000}';
        if !ws {
            return false;
        }
    }
    true
}

pub open spec fn is_digit(c: char) -> bool {
    '0' <= c && c <= '9'
}

pub open spec fn digit_val(c: char) -> nat {
    (c as int - '0' as int) as nat
}

/// A non-empty string of decimal digits.
pub open spec fn all_digits(s: Seq<char>) -> bool {
    s.len() > 0 && forall|i: int| 0 <= i < s.len() ==> is_digit(#[trigger] s[i])
}

/// The value of a digit string read as a decimal number.
pub open spec fn dec_val(s: Seq<char>) -> nat
    decreases s.len(),
{
    if s.len() == 0 {
        0
    } else {
        dec_val(s.drop_last()) * 10 + digit_val(s.last())
    }
}

/// A digit string with more digits never has a smaller value.
proof fn lemma_dec_val_prefix(s: Seq<char>, i: int, j: int)
    requires
        0 <= i <= j <= s.len(),
    ensures
        dec_val(s.subrange(0, i)) <= dec_val(s.subrange(0, j)),
    decreases j - i,
{
    if i < j {
        lemma_dec_val_prefix(s, i, j - 1);
        assert(s.subrange(0, j).drop_last() =~= s.subrange(0, j - 1));
    }
}

/// Parses a non-empty all-digit string into a `u64`; yields `None` on any
/// non-digit character, on the empty string, and on a value that does not
/// fit in 64 bits.
pub fn parse_u64(s: &str) -> (r: Option<u64>)
    ensures
        r matches Some(n) ==> all_digits(s@) && dec_val(s@) == n,
        r is None ==> !(all_digits(s@) && dec_val(s@) < 0x1_0000_0000_0000_0000),
{
    let n = s.unicode_len();
    if n == 0 {
        return None;
    }
    let mut acc: u64 = 0;
    for i in 0..n
        invariant
            n == s@.len(),
            n > 0,
            forall|k: int| 0 <= k < i ==> is_digit(#[trigger] s@[k]),
            acc == dec_val(s@.subrange(0, i as int)),
    {
        let c = s.get_char(i);
        let d = c as u32;
        if d < 48 || d > 57 {
            assert(!is_digit(s@[i as int]));
            return None;
        }
        let dv = (d - 48) as u64;
        proof {
            assert(is_digit(s@[i as int]));
            assert(dv == digit_val(s@[i as int]));
        }
        if acc > (0xffff_ffff_ffff_ffffu64 - dv) / 10 {
            proof {
                let pre = s@.subrange(0, i as int);
                let ext = s@.subrange(0, i + 1);
                assert(ext.drop_last() =~= pre);
                assert(acc * 10 + dv > 0xffff_ffff_ffff_ffff) by (nonlinear_arith)
                    requires
                        acc > (0xffff_ffff_ffff_ffffu64 - dv) / 10,
                        dv < 10,
                ;
                assert(dec_val(ext) > 0xffff_ffff_ffff_ffff);
                lemma_dec_val_prefix(s@, i + 1, n as int);
                assert(s@.subrange(0, n as int) =~= s@);
            }
            return None;
        }
        proof {
            assert(acc * 10 + dv <= 0xffff_ffff_ffff_ffff) by (nonlinear_arith)
                requires
                    acc <= (0xffff_ffff_ffff_ffffu64 - dv) / 10,
                    dv < 10,
            ;
            let pre = s@.subrange(0, i as int);
            let ext = s@.subrange(0, i + 1);
            assert(ext.drop_last() =~= pre);
        }
        acc = acc * 10 + dv;
    }
    proof {
        assert(s@.subrange(0, n as int) =~= s@);
    }
    Some(acc)
}

/// `c` matches `l` ignoring ASCII case, where `l` is expected lower case.
pub open spec fn lower_match(c: char, l: char) -> bool {
    c == l || ('A' <= c && c <= 'Z' && c as int + 32 == l as int)
}

/// Case-insensitive equality against a lower-case pattern, ASCII only.
pub open spec fn eq_ci(s: Seq<char>, l: Seq<char>) -> bool {
    s.len() == l.len() && forall|i: int| 0 <= i < s.len() ==> lower_match(#[trigger] s[i], l[i])
}

/// Compares `s` with the lower-case string `l`, ignoring ASCII case in `s`.
pub fn eq_ignore_case(s: &str, l: &str) -> (r: bool)
    ensures
        r == eq_ci(s@, l@),
{
    let n = s.unicode_len();
    if n != l.unicode_len() {
        return false;
    }
    for i in 0..n
        invariant
            n == s@.len(),
            n == l@.len(),
            forall|k: int| 0 <= k < i ==> lower_match(#[trigger] s@[k], l@[k]),
    {
        let c = s.get_char(i);
        let lc = l.get_char(i);
        let code = c as u32;
        if !(c == lc || (65 <= code && code <= 90 && code + 32 == lc as u32)) {
            assert(!lower_match(s@[i as int], l@[i as int]));
            return false;
        }
    }
    true
}

/// Character-wise string equality.
pub fn eq_str(a: &str, b: &str) -> (r: bool)
    ensures
        r == (a@ == b@),
{
    let n = a.unicode_len();
    if n != b.unicode_len() {
        return false;
    }
    for i in 0..n
        invariant
            n == a@.len(),
            n == b@.len(),
            forall|k: int| 0 <= k < i ==> a@[k] == b@[k],
    {
        if a.get_char(i) != b.get_char(i) {
            return false;
        }
    }
    assert(a@ =~= b@);
    true
}

/// The index of the first occurrence of `c` in `s`, or `-1` when `c` does
/// not occur.
pub open spec fn find1(s: Seq<char>, c: char) -> int
    decreases s.len(),
{
    if s.len() == 0 {
        -1
    } else if s[0] == c {
        0
    } else {
        let r = find1(s.drop_first(), c);
        if r < 0 {
            -1
        } else {
            r + 1
        }
    }
}

/// The index of the first position where `c1` is followed by `c2`, or `-1`.
pub open spec fn find2(s: Seq<char>, c1: char, c2: char) -> int
    decreases s.len(),
{
    if s.len() < 2 {
        -1
    } else if s[0] == c1 && s[1] == c2 {
        0
    } else {
        let r = find2(s.drop_first(), c1, c2);
        if r < 0 {
            -1
        } else {
            r + 1
        }
    }
}

pub proof fn lemma_find1_at(s: Seq<char>, c: char, i: int)
    requires
        0 <= i < s.len(),
        s[i] == c,
        forall|k: int| 0 <= k < i ==> s[k] != c,
    ensures
        find1(s, c) == i,
    decreases s.len(),
{
    if i > 0 {
        lemma_find1_at(s.drop_first(), c, i - 1);
    }
}

pub proof fn lemma_find1_none(s: Seq<char>, c: char)
    requires
        forall|k: int| 0 <= k < s.len() ==> s[k] != c,
    ensures
        find1(s, c) == -1,
    decreases s.len(),
{
    if s.len() > 0 {
        lemma_find1_none(s.drop_first(), c);
    }
}

pub open spec fn pair_at(s: Seq<char>, i: int, c1: char, c2: char) -> bool {
    0 <= i && i + 1 < s.len() && s[i] == c1 && s[i + 1] == c2
}

pub proof fn lemma_find2_at(s: Seq<char>, c1: char, c2: char, i: int)
    requires
        pair_at(s, i, c1, c2),
        forall|k: int| 0 <= k < i ==> !pair_at(s, k, c1, c2),
    ensures
        find2(s, c1, c2) == i,
    decreases s.len(),
{
    if i > 0 {
        assert(!pair_at(s, 0, c1, c2));
        assert forall|k: int| 0 <= k < i - 1 implies !pair_at(s.drop_first(), k, c1, c2) by {
            assert(!pair_at(s, k + 1, c1, c2));
        }
        lemma_find2_at(s.drop_first(), c1, c2, i - 1);
        assert(pair_at(s.drop_first(), i - 1, c1, c2));
    }
}

pub proof fn lemma_find2_none(s: Seq<char>, c1: char, c2: char)
    requires
        forall|k: int| !pair_at(s, k, c1, c2),
    ensures
        find2(s, c1, c2) == -1,
    decreases s.len(),
{
    if s.len() >= 2 {
        assert(!pair_at(s, 0, c1, c2));
        assert forall|k: int| !pair_at(s.drop_first(), k, c1, c2) by {
            assert(!pair_at(s, k + 1, c1, c2));
        }
        lemma_find2_none(s.drop_first(), c1, c2);
    }
}

/// Finds the first occurrence of `c` in `s`.
pub fn find_char(s: &str, c: char) -> (r: Option<usize>)
    ensures
        r matches Some(i) ==> i < s@.len() && find1(s@, c) == i,
        r is None ==> find1(s@, c) == -1,
{
    let n = s.unicode_len();
    for i in 0..n
        invariant
            n == s@.len(),
            forall|k: int| 0 <= k < i ==> s@[k] != c,
    {
        if s.get_char(i) == c {
            proof {
                lemma_find1_at(s@, c, i as int);
            }
            return Some(i);
        }
    }
    proof {
        lemma_find1_none(s@, c);
    }
    None
}

/// Finds the first index where `c1` is immediately followed by `c2`.
pub fn find_pair(s: &str, c1: char, c2: char) -> (r: Option<usize>)
    ensures
        r matches Some(i) ==> i + 1 < s@.len() && find2(s@, c1, c2) == i,
        r is None ==> find2(s@, c1, c2) == -1,
{
    let n = s.unicode_len();
    if n < 2 {
        proof {
            assert(forall|k: int| !pair_at(s@, k, c1, c2));
            lemma_find2_none(s@, c1, c2);
        }
        return None;
    }
    for i in 0..n - 1
        invariant
            n == s@.len(),
            n >= 2,
            forall|k: int| 0 <= k < i ==> !pair_at(s@, k, c1, c2),
    {
        if s.get_char(i) == c1 && s.get_char(i + 1) == c2 {
            proof {
                lemma_find2_at(s@, c1, c2, i as int);
            }
            return Some(i);
        }
    }
    proof {
        assert(forall|k: int| !pair_at(s@, k, c1, c2));
        lemma_find2_none(s@, c1, c2);
    }
    None
}

/// What the result of `find1` means: a non-negative result is the index
/// of an occurrence with none before it; `-1` means no occurrence.
pub proof fn lemma_find1_props(s: Seq<char>, c: char)
    ensures
        find1(s, c) == -1 ==> forall|k: int| 0 <= k < s.len() ==> s[k] != c,
        find1(s, c) >= 0 ==> find1(s, c) < s.len() && s[find1(s, c)] == c && forall|k: int|
            0 <= k < find1(s, c) ==> s[k] != c,
    decreases s.len(),
{
    if s.len() > 0 && s[0] != c {
        lemma_find1_props(s.drop_first(), c);
        if find1(s.drop_first(), c) >= 0 {
            assert forall|k: int| 0 <= k < find1(s, c) implies s[k] != c by {
                if k > 0 {
                    assert(s.drop_first()[k - 1] != c);
                }
            }
        } else {
            assert forall|k: int| 0 <= k < s.len() implies s[k] != c by {
                if k > 0 {
                    assert(s.drop_first()[k - 1] != c);
                }
            }
        }
    }
}

} // verus!
