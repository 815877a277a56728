//! Verified string helpers: comparison, prefix and substring search, decimal
//! parsing and formatting, and a trusted trimming wrapper.

use vstd::prelude::*;
use vstd::string::StrSliceExecFns;
use vstd::string::StringExecFns;

verus! {

/// The characters of `s` trimmed of leading and trailing whitespace, as
/// `str::trim` computes them. The result depends on the characters alone.
pub uninterp spec fn trim_of(s: Seq<char>) -> Seq<char>;

/// Relies on str::trim: removes leading and trailing whitespace; the result
/// is a contiguous part of the input, and an empty input stays empty.
#[verifier::external_body]
pub(crate) fn trim_ends(s: &str) -> (r: &str)
    ensures
        r@ == trim_of(s@),
        r@.len() <= s@.len(),
        s@.len() == 0 ==> r@.len() == 0,
{
    s.trim()
}

/// Character-by-character string equality.
pub fn str_eq(a: &str, b: &str) -> (r: bool)
    ensures
        r == (a@ == b@),
{
    let alen = a.unicode_len();
    let blen = b.unicode_len();
    if alen != blen {
        return false;
    }
    let mut i: usize = 0;
    while i < alen
        invariant
            alen == a@.len(),
            alen == b@.len(),
            i <= alen,
            forall|j: int| 0 <= j < i ==> a@[j] == b@[j],
        decreases alen - i,
    {
        if a.get_char(i) != b.get_char(i) {
            return false;
        }
        i += 1;
    }
    proof {
        assert(a@ =~= b@);
    }
    true
}

/// View of an optional string as an optional character sequence.
pub open spec fn opt_view(o: Option<String>) -> Option<Seq<char>> {
    match o {
        Some(s) => Some(s@),
        None => None,
    }
}

/// The pattern `pat` occurs in `s` at position `i`.
pub open spec fn matches_at(s: Seq<char>, pat: Seq<char>, i: int) -> bool {
    0 <= i && i + pat.len() <= s.len() && s.subrange(i, i + pat.len()) == pat
}

/// Position of the first occurrence of `pat` in `s`, if any. An empty
/// pattern occurs at position zero.
pub open spec fn spec_find(s: Seq<char>, pat: Seq<char>) -> Option<int>
    decreases s.len(),
{
    if s.len() < pat.len() {
        None
    } else if s.subrange(0, pat.len() as int) == pat {
        Some(0)
    } else if s.len() == 0 {
        None
    } else {
        match spec_find(s.skip(1), pat) {
            Some(i) => Some(i + 1),
            None => None,
        }
    }
}

/// `spec_find` returns exactly the least position where the pattern occurs.
proof fn lemma_find_characterizes(s: Seq<char>, pat: Seq<char>, r: Option<int>)
    requires
        match r {
            Some(i) => matches_at(s, pat, i) && (forall|j: int| 0 <= j < i ==> !matches_at(s, pat, j)),
            None => forall|j: int| !matches_at(s, pat, j),
        },
    ensures
        spec_find(s, pat) == r,
    decreases s.len(),
{
    if pat.len() == 0 {
        assert(s.subrange(0, 0) =~= pat);
    }
    if s.len() < pat.len() {
        assert(forall|j: int| #[trigger] matches_at(s, pat, j) ==> j + pat.len() <= s.len());
        match r {
            Some(i) => {
                assert(matches_at(s, pat, i));
            },
            None => {},
        }
    } else if s.subrange(0, pat.len() as int) == pat {
        assert(matches_at(s, pat, 0));
        match r {
            Some(i) => {
                if i != 0 {
                    assert(!matches_at(s, pat, 0));
                }
            },
            None => {
                assert(!matches_at(s, pat, 0));
            },
        }
    } else {
        assert(!matches_at(s, pat, 0)) by {
            if matches_at(s, pat, 0) {
                assert(s.subrange(0, pat.len() as int) == pat);
            }
        }
        let t = s.skip(1);
        assert forall|j: int| 0 <= j implies (matches_at(s, pat, j + 1) <==> matches_at(
            t,
            pat,
            j,
        )) by {
            if j + pat.len() <= t.len() {
                assert forall|k: int| 0 <= k < pat.len() implies #[trigger] s.subrange(
                    j + 1,
                    j + 1 + pat.len(),
                )[k] == t.subrange(j, j + pat.len())[k] by {
                    assert(t.subrange(j, j + pat.len())[k] == t[j + k]);
                    assert(t[j + k] == s[1 + j + k]);
                }
                assert(s.subrange(j + 1, j + 1 + pat.len()) =~= t.subrange(j, j + pat.len()));
            }
        }
        match r {
            Some(i) => {
                assert(i != 0);
                assert(matches_at(t, pat, i - 1));
                assert(forall|j: int| 0 <= j < i - 1 ==> !matches_at(t, pat, j));
                lemma_find_characterizes(t, pat, Some(i - 1));
            },
            None => {
                assert(forall|j: int| !matches_at(t, pat, j)) by {
                    assert forall|j: int| !matches_at(t, pat, j) by {
                        if 0 <= j {
                            assert(!matches_at(s, pat, j + 1));
                        }
                    }
                }
                lemma_find_characterizes(t, pat, None);
            },
        }
    }
}

/// Whether `pat` occurs in `s` at position `i`, checked character by
/// character.
fn occurs_at(s: &str, pat: &str, i: usize, s_len: usize, p_len: usize) -> (r: bool)
    requires
        s_len == s@.len(),
        p_len == pat@.len(),
        i + p_len <= s_len,
    ensures
        r == matches_at(s@, pat@, i as int),
{
    let mut k: usize = 0;
    while k < p_len
        invariant
            s_len == s@.len(),
            p_len == pat@.len(),
            i + p_len <= s_len,
            k <= p_len,
            forall|j: int| 0 <= j < k ==> s@[i + j] == pat@[j],
        decreases p_len - k,
    {
        if s.get_char(i + k) != pat.get_char(k) {
            assert(!matches_at(s@, pat@, i as int)) by {
                if matches_at(s@, pat@, i as int) {
                    assert(s@.subrange(i as int, i + pat@.len())[k as int] == pat@[k as int]);
                }
            }
            return false;
        }
        k += 1;
    }
    proof {
        assert(s@.subrange(i as int, i + pat@.len()) =~= pat@);
    }
    true
}

/// First occurrence of `pat` in `s`, as a position in characters.
pub fn find_sub(s: &str, pat: &str) -> (r: Option<usize>)
    ensures
        match r {
            Some(i) => spec_find(s@, pat@) == Some(i as int) && matches_at(s@, pat@, i as int),
            None => spec_find(s@, pat@) is None,
        },
{
    let s_len = s.unicode_len();
    let p_len = pat.unicode_len();
    if p_len > s_len {
        proof {
            assert(forall|j: int| #[trigger] matches_at(s@, pat@, j) ==> j + pat@.len() <= s@.len());
            lemma_find_characterizes(s@, pat@, None);
        }
        return None;
    }
    if p_len == 0 {
        proof {
            assert(s@.subrange(0, 0) =~= pat@);
            assert(matches_at(s@, pat@, 0));
            lemma_find_characterizes(s@, pat@, Some(0));
        }
        return Some(0);
    }
    let mut i: usize = 0;
    while i <= s_len - p_len
        invariant
            s_len == s@.len(),
            p_len == pat@.len(),
            1 <= p_len <= s_len,
            i <= s_len - p_len + 1,
            forall|j: int| 0 <= j < i ==> !matches_at(s@, pat@, j),
        decreases s_len - p_len + 1 - i,
    {
        if occurs_at(s, pat, i, s_len, p_len) {
            proof {
                lemma_find_characterizes(s@, pat@, Some(i as int));
            }
            return Some(i);
        }
        i += 1;
    }
    proof {
        assert(forall|j: int| #[trigger] matches_at(s@, pat@, j) ==> j + pat@.len() <= s@.len());
        lemma_find_characterizes(s@, pat@, None);
    }
    None
}

/// `s` begins with `pat`.
pub fn starts_with(s: &str, pat: &str) -> (r: bool)
    ensures
        r == matches_at(s@, pat@, 0),
{
    let s_len = s.unicode_len();
    let p_len = pat.unicode_len();
    if p_len > s_len {
        return false;
    }
    occurs_at(s, pat, 0, s_len, p_len)
}

/// A decimal digit.
pub open spec fn is_digit(c: char) -> bool {
    '0' <= c && c <= '9'
}

/// Numeric value of a digit character.
pub open spec fn digit_val(c: char) -> int {
    c as int - '0' as int
}

/// Every character is a digit, and there is at least one.
pub open spec fn all_digits(s: Seq<char>) -> bool {
    s.len() > 0 && (forall|j: int| 0 <= j < s.len() ==> is_digit(#[trigger] s[j]))
}

/// Value of a digit string read in base ten.
pub open spec fn spec_dec_val(s: Seq<char>) -> int
    decreases s.len(),
{
    if s.len() == 0 {
        0
    } else {
        spec_dec_val(s.drop_last()) * 10 + digit_val(s.last())
    }
}

/// The numeric value a string denotes: all characters must be digits and
/// the value must fit in a `u32`.
pub open spec fn spec_parse_u32(s: Seq<char>) -> Option<u32> {
    if all_digits(s) && spec_dec_val(s) <= u32::MAX {
        Some(spec_dec_val(s) as u32)
    } else {
        None
    }
}

proof fn lemma_dec_val_nonneg(s: Seq<char>)
    requires
        forall|j: int| 0 <= j < s.len() ==> is_digit(#[trigger] s[j]),
    ensures
        spec_dec_val(s) >= 0,
    decreases s.len(),
{
    if s.len() > 0 {
        lemma_dec_val_nonneg(s.drop_last());
    }
}

/// The value of a digit string is at least the value of any of its prefixes.
proof fn lemma_dec_val_prefix_le(s: Seq<char>, i: int)
    requires
        0 <= i <= s.len(),
        forall|j: int| 0 <= j < s.len() ==> is_digit(#[trigger] s[j]),
    ensures
        spec_dec_val(s.subrange(0, i)) <= spec_dec_val(s),
    decreases s.len() - i,
{
    if i == s.len() {
        assert(s.subrange(0, i) =~= s);
    } else {
        let t = s.subrange(0, i + 1);
        assert(t.drop_last() =~= s.subrange(0, i));
        lemma_dec_val_nonneg(s.subrange(0, i));
        assert(spec_dec_val(t) == spec_dec_val(s.subrange(0, i)) * 10 + digit_val(t.last()));
        lemma_dec_val_prefix_le(s, i + 1);
    }
}

/// Parse an unsigned decimal number: every character must be a digit and
/// the value must fit, else `None`.
pub fn parse_u32(s: &str) -> (r: Option<u32>)
    ensures
        r == spec_parse_u32(s@),
{
    let len = s.unicode_len();
    if len == 0 {
        return None;
    }
    let mut acc: u64 = 0;
    let mut i: usize = 0;
    while i < len
        invariant
            len == s@.len(),
            0 < len,
            i <= len,
            forall|j: int| 0 <= j < i ==> is_digit(#[trigger] s@[j]),
            acc == spec_dec_val(s@.subrange(0, i as int)),
            acc <= u32::MAX,
        decreases len - i,
    {
        let c = s.get_char(i);
        if c < '0' || c > '9' {
            return None;
        }
        let d: u64 = (c as u32 - '0' as u32) as u64;
        let next: u64 = acc * 10 + d;
        proof {
            let t = s@.subrange(0, i + 1);
            assert(t.drop_last() =~= s@.subrange(0, i as int));
            assert(spec_dec_val(t) == acc * 10 + digit_val(s@[i as int]));
        }
        if next > u32::MAX as u64 {
            proof {
                if all_digits(s@) {
                    lemma_dec_val_prefix_le(s@, i + 1);
                    assert(spec_dec_val(s@) >= spec_dec_val(s@.subrange(0, i + 1)));
                }
            }
            return None;
        }
        acc = next;
        i += 1;
    }
    proof {
        assert(s@.subrange(0, len as int) =~= s@);
    }
    Some(acc as u32)
}

/// `s` with every trailing occurrence of `c` removed.
pub open spec fn spec_trim_trailing(s: Seq<char>, c: char) -> Seq<char>
    decreases s.len(),
{
    if s.len() > 0 && s.last() == c {
        spec_trim_trailing(s.drop_last(), c)
    } else {
        s
    }
}

proof fn lemma_trim_trailing_at(s: Seq<char>, c: char, k: int)
    requires
        0 <= k <= s.len(),
        forall|j: int| k <= j < s.len() ==> s[j] == c,
        k > 0 ==> s[k - 1] != c,
    ensures
        spec_trim_trailing(s, c) == s.subrange(0, k),
    decreases s.len(),
{
    if s.len() == k {
        assert(s.subrange(0, k) =~= s);
    } else {
        assert(s.last() == c);
        let t = s.drop_last();
        assert(t =~= s.subrange(0, s.len() - 1));
        lemma_trim_trailing_at(t, c, k);
        assert(t.subrange(0, k) =~= s.subrange(0, k));
    }
}

/// Remove every trailing `/` character.
pub fn trim_trailing_slashes(s: &str) -> (r: String)
    ensures
        r@ == spec_trim_trailing(s@, '/'),
{
    let len = s.unicode_len();
    let mut k: usize = len;
    while k > 0 && s.get_char(k - 1) == '/'
        invariant
            len == s@.len(),
            k <= len,
            forall|j: int| k <= j < len ==> s@[j] == '/',
        decreases k,
    {
        k -= 1;
    }
    proof {
        lemma_trim_trailing_at(s@, '/', k as int);
    }
    let kept = s.substring_char(0, k);
    kept.to_owned()
}

/// The digit character for a value below ten.
pub open spec fn spec_digit_char(d: int) -> char {
    if d == 0 {
        '0'
    } else if d == 1 {
        '1'
    } else if d == 2 {
        '2'
    } else if d == 3 {
        '3'
    } else if d == 4 {
        '4'
    } else if d == 5 {
        '5'
    } else if d == 6 {
        '6'
    } else if d == 7 {
        '7'
    } else if d == 8 {
        '8'
    } else {
        '9'
    }
}

fn digit_char(d: u32) -> (c: char)
    requires
        d < 10,
    ensures
        c == spec_digit_char(d as int),
{
    match d {
        0 => '0',
        1 => '1',
        2 => '2',
        3 => '3',
        4 => '4',
        5 => '5',
        6 => '6',
        7 => '7',
        8 => '8',
        _ => '9',
    }
}

/// Decimal digits of `v`, zero-padded to `width` characters. Only the
/// lowest `width` digits are kept.
pub open spec fn spec_padded_decimal(v: int, width: nat) -> Seq<char>
    decreases width,
{
    if width == 0 {
        Seq::empty()
    } else {
        spec_padded_decimal(v / 10, (width - 1) as nat).push(spec_digit_char(v % 10))
    }
}

/// Relies on String::push: appends one character at the end.
#[verifier::external_body]
fn push_char(s: &mut String, c: char)
    ensures
        final(s)@ == old(s)@.push(c),
{
    s.push(c);
}

/// Append the decimal digits of `v`, zero-padded to `width` characters.
pub fn push_padded_decimal(out: &mut String, v: u32, width: usize)
    ensures
        final(out)@ == old(out)@ + spec_padded_decimal(v as int, width as nat),
    decreases width,
{
    if width == 0 {
        proof {
            assert(out@ =~= out@ + spec_padded_decimal(v as int, 0));
        }
        return ;
    }
    push_padded_decimal(out, v / 10, width - 1);
    push_char(out, digit_char(v % 10));
    proof {
        assert(out@ =~= old(out)@ + spec_padded_decimal(v as int, width as nat));
    }
}

} // verus!
