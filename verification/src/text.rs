//! Character-level text helpers the parser is built on: trimming, substring
//! search, splitting on a separator, case-insensitive comparison and bounded
//! numeric parsing, each with a specification over sequences of characters.

use vstd::prelude::*;
use vstd::string::StrSliceExecFns;

verus! {

/// The whitespace characters stripped from the ends of the input: the
/// Unicode `White_Space` set, as `char::is_whitespace` recognizes it.
pub open spec fn is_space_char(c: char) -> bool {
    let x = c as u32;
    (9 <= x && x <= 13) || x == 32 || x == 0x85 || x == 0xa0 || x == 0x1680 || (0x2000 <= x && x
        <= 0x200a) || x == 0x2028 || x == 0x2029 || x == 0x202f || x == 0x205f || x == 0x3000
}

fn is_space(c: char) -> (r: bool)
    ensures
        r == is_space_char(c),
{
    let x = c as u32;
    (9 <= x && x <= 13) || x == 32 || x == 0x85 || x == 0xa0 || x == 0x1680 || (0x2000 <= x && x
        <= 0x200a) || x == 0x2028 || x == 0x2029 || x == 0x202f || x == 0x205f || x == 0x3000
}

/// `s` without its leading whitespace.
pub open spec fn trim_start_spec(s: Seq<char>) -> Seq<char>
    decreases s.len(),
{
    if s.len() > 0 && is_space_char(s[0]) {
        trim_start_spec(s.subrange(1, s.len() as int))
    } else {
        s
    }
}

/// `s` without its trailing whitespace.
pub open spec fn trim_end_spec(s: Seq<char>) -> Seq<char>
    decreases s.len(),
{
    if s.len() > 0 && is_space_char(s[s.len() - 1]) {
        trim_end_spec(s.subrange(0, s.len() - 1))
    } else {
        s
    }
}

/// `s` without leading and trailing whitespace.
pub open spec fn trim_spec(s: Seq<char>) -> Seq<char> {
    trim_end_spec(trim_start_spec(s))
}

pub(crate) proof fn lemma_trim_start_skip(s: Seq<char>, i: int)
    requires
        0 <= i <= s.len(),
        forall|j: int| 0 <= j < i ==> is_space_char(s[j]),
        i == s.len() || !is_space_char(s[i]),
    ensures
        trim_start_spec(s) == s.subrange(i, s.len() as int),
    decreases i,
{
    if i == 0 {
        assert(s.subrange(0, s.len() as int) =~= s);
    } else {
        let t = s.subrange(1, s.len() as int);
        assert(forall|j: int| 0 <= j < i - 1 ==> is_space_char(t[j]));
        lemma_trim_start_skip(t, i - 1);
        assert(t.subrange(i - 1, t.len() as int) =~= s.subrange(i, s.len() as int));
    }
}

pub(crate) proof fn lemma_trim_end_take(s: Seq<char>, i: int)
    requires
        0 <= i <= s.len(),
        forall|j: int| i <= j < s.len() ==> is_space_char(s[j]),
        i == 0 || !is_space_char(s[i - 1]),
    ensures
        trim_end_spec(s) == s.subrange(0, i),
    decreases s.len() - i,
{
    if i == s.len() {
        assert(s.subrange(0, i) =~= s);
    } else {
        let t = s.subrange(0, s.len() - 1);
        assert(forall|j: int| i <= j < t.len() ==> is_space_char(t[j]));
        lemma_trim_end_take(t, i);
        assert(t.subrange(0, i) =~= s.subrange(0, i));
    }
}

/// Strips leading and trailing whitespace.
pub fn trim_str<'a>(s: &'a str) -> (r: &'a str)
    ensures
        r@ == trim_spec(s@),
{
    let n = s.unicode_len();
    let mut lo: usize = 0;
    while lo < n && is_space(s.get_char(lo))
        invariant
            n == s@.len(),
            lo <= n,
            forall|j: int| 0 <= j < lo ==> is_space_char(s@[j]),
        decreases n - lo,
    {
        lo += 1;
    }
    let mut hi: usize = n;
    while hi > lo && is_space(s.get_char(hi - 1))
        invariant
            n == s@.len(),
            lo <= hi <= n,
            forall|j: int| hi <= j < n ==> is_space_char(s@[j]),
        decreases hi,
    {
        hi -= 1;
    }
    proof {
        lemma_trim_start_skip(s@, lo as int);
        let mid = s@.subrange(lo as int, s@.len() as int);
        assert(forall|j: int| hi - lo <= j < mid.len() ==> is_space_char(mid[j]));
        lemma_trim_end_take(mid, hi - lo);
        assert(mid.subrange(0, hi - lo) =~= s@.subrange(lo as int, hi as int));
    }
    s.substring_char(lo, hi)
}

/// Whether `pat` occurs in `s` at position `i`.
pub open spec fn match_at(s: Seq<char>, pat: Seq<char>, i: int) -> bool {
    0 <= i && i + pat.len() <= s.len() && s.subrange(i, i + pat.len()) == pat
}

/// The first position at which `pat` occurs in `s`, if any.
pub open spec fn find_sub_spec(s: Seq<char>, pat: Seq<char>) -> Option<int>
    decreases s.len(),
{
    if match_at(s, pat, 0) {
        Some(0 as int)
    } else if s.len() == 0 {
        None
    } else {
        match find_sub_spec(s.subrange(1, s.len() as int), pat) {
            Some(i) => Some(i + 1),
            None => None,
        }
    }
}

/// `find_sub_spec` returns the first match, and `None` only when there is
/// no match at all.
pub proof fn lemma_find_sub_spec(s: Seq<char>, pat: Seq<char>)
    ensures
        match find_sub_spec(s, pat) {
            Some(i) => match_at(s, pat, i) && (forall|j: int|
                0 <= j < i ==> !match_at(s, pat, j)),
            None => forall|j: int| !match_at(s, pat, j),
        },
    decreases s.len(),
{
    if match_at(s, pat, 0) {
    } else if s.len() == 0 {
        assert forall|j: int| !match_at(s, pat, j) by {
            if 0 <= j && j + pat.len() <= s.len() {
                assert(j == 0);
            }
        }
    } else {
        let t = s.subrange(1, s.len() as int);
        lemma_find_sub_spec(t, pat);
        assert forall|j: int| 1 <= j implies (match_at(s, pat, j) == match_at(t, pat, j - 1)) by {
            if 0 <= j - 1 && j - 1 + pat.len() <= t.len() {
                assert(t.subrange(j - 1, j - 1 + pat.len() as int) =~= s.subrange(
                    j,
                    j + pat.len() as int,
                ));
            }
        }
        match find_sub_spec(t, pat) {
            Some(i) => {
                assert(find_sub_spec(s, pat) == Some(i + 1));
                assert forall|j: int| 0 <= j < i + 1 implies !match_at(s, pat, j) by {
                    if j >= 1 {
                        assert(!match_at(t, pat, j - 1));
                    }
                }
            },
            None => {
                assert forall|j: int| !match_at(s, pat, j) by {
                    if j >= 1 {
                        assert(!match_at(t, pat, j - 1));
                    }
                }
            },
        }
    }
}

fn match_at_exec(s: &str, pat: &str, i: usize, n: usize, m: usize) -> (r: bool)
    requires
        n == s@.len(),
        m == pat@.len(),
        i + m <= n,
    ensures
        r == match_at(s@, pat@, i as int),
{
    let mut k: usize = 0;
    while k < m
        invariant
            n == s@.len(),
            m == pat@.len(),
            i + m <= n,
            k <= m,
            forall|j: int| 0 <= j < k ==> s@[i + j] == pat@[j],
        decreases m - k,
    {
        if s.get_char(i + k) != pat.get_char(k) {
            proof {
                assert(s@.subrange(i as int, i + m as int)[k as int] != pat@[k as int]);
            }
            return false;
        }
        k += 1;
    }
    proof {
        assert(s@.subrange(i as int, i + m as int) =~= pat@);
    }
    true
}

/// Finds the first occurrence of `pat` in `s`, by character position.
pub fn find_sub_str(s: &str, pat: &str) -> (r: Option<usize>)
    ensures
        match r {
            Some(i) => find_sub_spec(s@, pat@) == Some(i as int),
            None => find_sub_spec(s@, pat@) is None,
        },
{
    let n = s.unicode_len();
    let m = pat.unicode_len();
    proof {
        lemma_find_sub_spec(s@, pat@);
    }
    if m > n {
        return None;
    }
    if m == 0 {
        proof {
            assert(s@.subrange(0, 0) =~= pat@);
            assert(match_at(s@, pat@, 0));
        }
        return Some(0);
    }
    let mut i: usize = 0;
    while i <= n - m
        invariant
            1 <= m <= n,
            n == s@.len(),
            m == pat@.len(),
            i <= n - m + 1,
            forall|j: int| 0 <= j < i ==> !match_at(s@, pat@, j),
        decreases n - m - i + 1,
    {
        if match_at_exec(s, pat, i, n, m) {
            proof {
                lemma_find_sub_spec(s@, pat@);
                assert(find_sub_spec(s@, pat@) == Some(i as int));
            }
            return Some(i);
        }
        i += 1;
    }
    proof {
        lemma_find_sub_spec(s@, pat@);
        assert forall|j: int| !match_at(s@, pat@, j) by {
            if 0 <= j && j + pat@.len() <= s@.len() {
                assert(!match_at(s@, pat@, j));
            }
        }
    }
    None
}

/// The segments of `s` between occurrences of the separator `pat`, in
/// order; a separator at the edge or two adjacent separators give an empty
/// segment, and a text without the separator is a single segment.
pub open spec fn split_sub_spec(s: Seq<char>, pat: Seq<char>) -> Seq<Seq<char>>
    decreases s.len(),
    via split_sub_spec_dec
{
    if pat.len() == 0 {
        seq![s]
    } else {
        match find_sub_spec(s, pat) {
            None => seq![s],
            Some(i) => seq![s.subrange(0, i)] + split_sub_spec(
                s.subrange(i + pat.len(), s.len() as int),
                pat,
            ),
        }
    }
}

#[via_fn]
proof fn split_sub_spec_dec(s: Seq<char>, pat: Seq<char>) {
    if pat.len() > 0 {
        lemma_find_sub_spec(s, pat);
    }
}

/// Splits `s` on the separator `pat`.
pub fn split_on_str<'a>(s: &'a str, pat: &str) -> (r: Vec<&'a str>)
    requires
        pat@.len() > 0,
    ensures
        r@.map_values(|t: &str| t@) == split_sub_spec(s@, pat@),
        r@.len() > 0,
{
    let mut r: Vec<&'a str> = Vec::new();
    let mut rem: &'a str = s;
    proof {
        assert(r@.map_values(|t: &str| t@) + split_sub_spec(s@, pat@) =~= split_sub_spec(
            s@,
            pat@,
        ));
    }
    loop
        invariant
            pat@.len() > 0,
            split_sub_spec(s@, pat@) == r@.map_values(|t: &str| t@) + split_sub_spec(rem@, pat@),
        decreases rem@.len(),
    {
        proof {
            lemma_find_sub_spec(rem@, pat@);
        }
        match find_sub_str(rem, pat) {
            None => {
                let ghost prev = r@;
                r.push(rem);
                proof {
                    assert(r@.map_values(|t: &str| t@) =~= prev.map_values(|t: &str| t@)
                        + seq![rem@]);
                    assert(split_sub_spec(s@, pat@) =~= r@.map_values(|t: &str| t@));
                }
                return r;
            },
            Some(i) => {
                let rl = rem.unicode_len();
                let m = pat.unicode_len();
                let piece = rem.substring_char(0, i);
                let next = rem.substring_char(i + m, rl);
                let ghost prev = r@;
                let ghost old_rem = rem@;
                r.push(piece);
                rem = next;
                proof {
                    assert(r@.map_values(|t: &str| t@) =~= prev.map_values(|t: &str| t@)
                        + seq![piece@]);
                    assert(split_sub_spec(old_rem, pat@) == seq![old_rem.subrange(0, i as int)]
                        + split_sub_spec(rem@, pat@));
                    assert((prev.map_values(|t: &str| t@) + seq![piece@]) + split_sub_spec(
                        rem@,
                        pat@,
                    ) =~= prev.map_values(|t: &str| t@) + split_sub_spec(old_rem, pat@));
                }
            },
        }
    }
}

/// The character code compared case-insensitively: ASCII capitals are
/// shifted to their lowercase counterparts.
pub open spec fn lower_char_u32(c: char) -> u32 {
    if 65 <= c as u32 && c as u32 <= 90 {
        (c as u32 + 32) as u32
    } else {
        c as u32
    }
}

/// Case-insensitive character equality (ASCII letters only).
pub open spec fn eq_ign_char(a: char, b: char) -> bool {
    lower_char_u32(a) == lower_char_u32(b)
}

/// Case-insensitive equality of two character sequences.
pub open spec fn eq_ign_seq(a: Seq<char>, b: Seq<char>) -> bool {
    a.len() == b.len() && (forall|i: int| 0 <= i < a.len() ==> eq_ign_char(a[i], b[i]))
}

fn lower_exec(c: char) -> (r: u32)
    ensures
        r == lower_char_u32(c),
{
    let x = c as u32;
    if 65 <= x && x <= 90 {
        x + 32
    } else {
        x
    }
}

/// Compares two texts ignoring ASCII case.
pub fn eq_ignore_case(a: &str, b: &str) -> (r: bool)
    ensures
        r == eq_ign_seq(a@, b@),
{
    let na = a.unicode_len();
    let nb = b.unicode_len();
    if na != nb {
        return false;
    }
    let mut k: usize = 0;
    while k < na
        invariant
            na == a@.len(),
            na == b@.len(),
            k <= na,
            forall|j: int| 0 <= j < k ==> eq_ign_char(a@[j], b@[j]),
        decreases na - k,
    {
        if lower_exec(a.get_char(k)) != lower_exec(b.get_char(k)) {
            return false;
        }
        k += 1;
    }
    true
}

/// Compares two texts for exact character equality.
pub fn str_eq(a: &str, b: &str) -> (r: bool)
    ensures
        r == (a@ == b@),
{
    let na = a.unicode_len();
    let nb = b.unicode_len();
    if na != nb {
        proof {
            assert(a@ != b@);
        }
        return false;
    }
    let mut k: usize = 0;
    while k < na
        invariant
            na == a@.len(),
            na == b@.len(),
            k <= na,
            forall|j: int| 0 <= j < k ==> a@[j] == b@[j],
        decreases na - k,
    {
        if a.get_char(k) != b.get_char(k) {
            return false;
        }
        k += 1;
    }
    proof {
        assert(a@ =~= b@);
    }
    true
}

/// A decimal digit.
pub open spec fn is_digit_char(c: char) -> bool {
    48 <= c as u32 && c as u32 <= 57
}

/// The numeric value of a decimal digit.
pub open spec fn digit_val(c: char) -> int {
    c as u32 - 48
}

/// Whether every character of `s` is a decimal digit.
pub open spec fn all_digits(s: Seq<char>) -> bool {
    forall|i: int| 0 <= i < s.len() ==> is_digit_char(s[i])
}

/// The value of a sequence of decimal digits, most significant first.
pub open spec fn digits_to_nat(s: Seq<char>) -> int
    decreases s.len(),
{
    if s.len() == 0 {
        0
    } else {
        digits_to_nat(s.subrange(0, s.len() - 1)) * 10 + digit_val(s[s.len() - 1])
    }
}

/// The number a text denotes under the rules of `str::parse` for unsigned
/// integers: an optional leading `+`, then one or more decimal digits.
pub open spec fn spec_parse_num(s: Seq<char>) -> Option<int> {
    let t = if s.len() > 0 && s[0] == '+' {
        s.subrange(1, s.len() as int)
    } else {
        s
    };
    if t.len() > 0 && all_digits(t) {
        Some(digits_to_nat(t))
    } else {
        None
    }
}

pub(crate) proof fn lemma_digits_nonneg(s: Seq<char>)
    requires
        all_digits(s),
    ensures
        digits_to_nat(s) >= 0,
    decreases s.len(),
{
    if s.len() > 0 {
        let p = s.subrange(0, s.len() - 1);
        assert(all_digits(p));
        lemma_digits_nonneg(p);
    }
}

pub(crate) proof fn lemma_digits_prefix(s: Seq<char>, j: int)
    requires
        0 <= j <= s.len(),
        all_digits(s),
    ensures
        digits_to_nat(s.subrange(0, j)) <= digits_to_nat(s),
    decreases s.len() - j,
{
    if j == s.len() {
        assert(s.subrange(0, j) =~= s);
    } else {
        let p1 = s.subrange(0, j + 1);
        assert(p1.subrange(0, j) =~= s.subrange(0, j));
        assert(all_digits(s.subrange(0, j)));
        lemma_digits_nonneg(s.subrange(0, j));
        assert(digits_to_nat(p1) == digits_to_nat(s.subrange(0, j)) * 10 + digit_val(p1[j]));
        lemma_digits_prefix(s, j + 1);
    }
}

/// Parses a number no bigger than `max`, failing on malformed text and on
/// values above the bound.
pub fn parse_bounded_num(s: &str, max: u8) -> (r: Option<u8>)
    ensures
        (match spec_parse_num(s@) {
            Some(v) => if v <= max {
                r matches Some(x) && x as int == v
            } else {
                r is None
            },
            None => r is None,
        }),
{
    let n = s.unicode_len();
    let mut start: usize = 0;
    if n > 0 && s.get_char(0) == '+' {
        start = 1;
    }
    let ghost t = if s@.len() > 0 && s@[0] == '+' {
        s@.subrange(1, s@.len() as int)
    } else {
        s@
    };
    if start >= n {
        return None;
    }
    let mut acc: u32 = 0;
    let mut i: usize = start;
    while i < n
        invariant
            n == s@.len(),
            start <= 1,
            start <= i <= n,
            start < n,
            t == (if s@.len() > 0 && s@[0] == '+' {
                s@.subrange(1, s@.len() as int)
            } else {
                s@
            }),
            t.len() == n - start,
            forall|j: int| 0 <= j < t.len() ==> t[j] == s@[j + start],
            forall|j: int| 0 <= j < i - start ==> is_digit_char(t[j]),
            acc as int == digits_to_nat(t.subrange(0, i - start)),
            acc <= max,
        decreases n - i,
    {
        let c = s.get_char(i);
        let x = c as u32;
        if x < 48 || x > 57 {
            proof {
                assert(!is_digit_char(t[i - start]));
            }
            return None;
        }
        let d = x - 48;
        let ghost k = i - start;
        proof {
            assert(t.subrange(0, k + 1).subrange(0, k) =~= t.subrange(0, k));
            assert(t.subrange(0, k + 1)[k] == t[k]);
            assert(digits_to_nat(t.subrange(0, k + 1)) == digits_to_nat(t.subrange(0, k)) * 10
                + digit_val(t[k]));
        }
        let acc2 = acc * 10 + d;
        if acc2 > max as u32 {
            proof {
                if all_digits(t) {
                    lemma_digits_prefix(t, k + 1);
                }
            }
            return None;
        }
        acc = acc2;
        i += 1;
    }
    proof {
        assert(t.subrange(0, (n - start) as int) =~= t);
    }
    Some(acc as u8)
}

} // verus!
