//! String helpers shared by the handlers: trusted bridges to the few `str`
//! and `String` operations the standard library keeps opaque, and verified
//! search and formatting routines built on top of them.

use vstd::prelude::*;

verus! {

/// Whether `c` is alphanumeric in the Unicode sense of `char::is_alphanumeric`.
pub uninterp spec fn alnum_char(c: char) -> bool;

/// Whether `c` has the Unicode `White_Space` property, as
/// `char::is_whitespace` decides it.
pub uninterp spec fn space_char(c: char) -> bool;

/// The lowercase mapping that `str::to_lowercase` applies; it depends on the
/// characters alone.
pub uninterp spec fn lower_of(s: Seq<char>) -> Seq<char>;

/// Relies on char::is_alphanumeric: a pure character classification.
#[verifier::external_body]
pub fn is_alnum_char(c: char) -> (r: bool)
    ensures
        r == alnum_char(c),
{
    c.is_alphanumeric()
}

/// Relies on char::is_whitespace: a pure character classification.
#[verifier::external_body]
pub fn is_space_char(c: char) -> (r: bool)
    ensures
        r == space_char(c),
{
    c.is_whitespace()
}

/// Relies on str::to_lowercase: the result depends on the characters alone,
/// and an empty string stays empty.
#[verifier::external_body]
pub fn to_lowercase(s: &str) -> (r: String)
    ensures
        r@ == lower_of(s@),
        s@.len() == 0 ==> r@.len() == 0,
{
    s.to_lowercase()
}

/// Relies on String::push_str: appends the slice onto the end of the string.
#[verifier::external_body]
pub fn append_str(s: &mut String, t: &str)
    ensures
        final (s)@ == old(s)@ + t@,
{
    s.push_str(t)
}

/// Relies on String::push: appends the character onto the end of the string.
#[verifier::external_body]
pub fn append_char(s: &mut String, c: char)
    ensures
        final (s)@ == old(s)@.push(c),
{
    s.push(c)
}

/// Whether the needle `n` occurs in `h` starting at position `i`.
pub open spec fn occurs_at(h: Seq<char>, n: Seq<char>, i: int) -> bool {
    0 <= i && i + n.len() <= h.len() && h.subrange(i, i + n.len() as int) == n
}

/// Whether the needle `n` occurs anywhere in `h`.
pub open spec fn contains_seq(h: Seq<char>, n: Seq<char>) -> bool {
    exists|i: int| occurs_at(h, n, i)
}

/// Whether `n` occurs in `h` at position `i`, comparing character by
/// character.
pub fn matches_at(h: &str, n: &str, i: usize) -> (r: bool)
    requires
        i + n@.len() <= h@.len(),
        i + n@.len() <= usize::MAX,
    ensures
        r == occurs_at(h@, n@, i as int),
{
    let n_len = n.unicode_len();
    let mut j: usize = 0;
    while j < n_len
        invariant
            n_len == n@.len(),
            0 <= j <= n_len,
            i + n_len <= h@.len(),
            i + n_len <= usize::MAX,
            forall|k: int| 0 <= k < j ==> h@[i + k] == n@[k],
        decreases n_len - j,
    {
        if h.get_char(i + j) != n.get_char(j) {
            assert(h@.subrange(i as int, i + n@.len() as int)[j as int] != n@[j as int]);
            return false;
        }
        j = j + 1;
    }
    assert(h@.subrange(i as int, i + n@.len() as int) =~= n@);
    true
}

/// Whether `h` starts with `p`.
pub fn starts_with_str(h: &str, p: &str) -> (r: bool)
    ensures
        r == occurs_at(h@, p@, 0),
{
    let h_len = h.unicode_len();
    let p_len = p.unicode_len();
    if p_len > h_len {
        false
    } else {
        matches_at(h, p, 0)
    }
}

/// Whether `h` contains `n` anywhere.
pub fn contains_str(h: &str, n: &str) -> (r: bool)
    ensures
        r == contains_seq(h@, n@),
{
    let h_len = h.unicode_len();
    let n_len = n.unicode_len();
    if n_len > h_len {
        assert(forall|i: int| !occurs_at(h@, n@, i));
        return false;
    }
    if n_len == 0 {
        assert(occurs_at(h@, n@, 0)) by {
            assert(h@.subrange(0, 0) =~= n@);
        }
        return true;
    }
    let bound = h_len - n_len;
    let mut i: usize = 0;
    while i <= bound
        invariant
            h_len == h@.len(),
            n_len == n@.len(),
            1 <= n_len <= h_len,
            bound == h_len - n_len,
            0 <= i <= bound + 1,
            forall|k: int| 0 <= k < i ==> !occurs_at(h@, n@, k),
        decreases bound + 1 - i,
    {
        if matches_at(h, n, i) {
            return true;
        }
        i = i + 1;
    }
    assert(forall|k: int| occurs_at(h@, n@, k) ==> 0 <= k <= h@.len() - n@.len());
    false
}

/// Whether two string slices hold the same characters.
pub fn eq_str(a: &str, b: &str) -> (r: bool)
    ensures
        r == (a@ == b@),
{
    let a_len = a.unicode_len();
    let b_len = b.unicode_len();
    if a_len != b_len {
        return false;
    }
    let r = matches_at(a, b, 0);
    proof {
        assert(a@.subrange(0, a@.len() as int) =~= a@);
    }
    r
}

/// The text with its leading whitespace removed.
pub open spec fn trimmed_start(s: Seq<char>) -> Seq<char>
    decreases s.len(),
{
    if s.len() > 0 && space_char(s[0]) {
        trimmed_start(s.drop_first())
    } else {
        s
    }
}

/// Skips the leading whitespace of `s`, returning where the rest begins.
pub fn skip_leading_spaces(s: &str) -> (start: usize)
    ensures
        start <= s@.len(),
        s@.skip(start as int) == trimmed_start(s@),
{
    let len = s.unicode_len();
    let mut i: usize = 0;
    assert(s@.skip(0) =~= s@);
    while i < len
        invariant
            len == s@.len(),
            0 <= i <= len,
            trimmed_start(s@) == trimmed_start(s@.skip(i as int)),
        decreases len - i,
    {
        let c = s.get_char(i);
        if !is_space_char(c) {
            return i;
        }
        assert(s@.skip(i as int)[0] == c);
        assert(s@.skip(i as int).drop_first() =~= s@.skip(i + 1));
        i = i + 1;
    }
    assert(s@.skip(len as int) =~= Seq::<char>::empty());
    len
}

/// Whether `c` is a decimal digit.
pub open spec fn digit_char(c: char) -> bool {
    '0' <= c <= '9'
}

/// The value of the digit `c`.
pub open spec fn digit_value(c: char) -> int {
    c as int - '0' as int
}

/// Whether `s` consists of decimal digits only.
pub open spec fn all_digits(s: Seq<char>) -> bool {
    forall|i: int| 0 <= i < s.len() ==> digit_char(s[i])
}

/// The number that the digit string `s` denotes.
pub open spec fn dec_value(s: Seq<char>) -> int
    decreases s.len(),
{
    if s.len() == 0 {
        0
    } else {
        dec_value(s.drop_last()) * 10 + digit_value(s.last())
    }
}

/// A digit string denotes a non-negative number.
pub proof fn lemma_dec_value_nonneg(s: Seq<char>)
    requires
        all_digits(s),
    ensures
        dec_value(s) >= 0,
    decreases s.len(),
{
    if s.len() > 0 {
        let rest = s.drop_last();
        assert(forall|i: int| 0 <= i < rest.len() ==> rest[i] == s[i]);
        lemma_dec_value_nonneg(rest);
    }
}

/// Reading further digits never shrinks the number.
pub proof fn lemma_dec_value_prefix_le(s: Seq<char>, i: int)
    requires
        all_digits(s),
        0 <= i <= s.len(),
    ensures
        dec_value(s.take(i)) <= dec_value(s),
    decreases s.len() - i,
{
    if i < s.len() {
        let t = s.take(i + 1);
        assert(t.drop_last() =~= s.take(i));
        assert(forall|k: int| 0 <= k < t.len() ==> t[k] == s[k]);
        assert(dec_value(s.take(i + 1)) == dec_value(s.take(i)) * 10 + digit_value(s[i]));
        assert(forall|k: int| 0 <= k < s.take(i).len() ==> s.take(i)[k] == s[k]);
        lemma_dec_value_nonneg(s.take(i));
        lemma_dec_value_prefix_le(s, i + 1);
    } else {
        assert(s.take(i) =~= s);
    }
}

/// Reads an unsigned decimal number: the string must be non-empty, all
/// digits, and denote a value that fits.
pub fn parse_decimal_u32(s: &str) -> (r: Option<u32>)
    ensures
        match r {
            Some(v) => s@.len() > 0 && all_digits(s@) && v == dec_value(s@),
            None => s@.len() == 0 || !all_digits(s@) || dec_value(s@) > u32::MAX,
        },
{
    let len = s.unicode_len();
    if len == 0 {
        return None;
    }
    let mut value: u32 = 0;
    let mut i: usize = 0;
    assert(s@.take(0) =~= Seq::<char>::empty());
    while i < len
        invariant
            len == s@.len(),
            0 <= i <= len,
            all_digits(s@.take(i as int)),
            value == dec_value(s@.take(i as int)),
        decreases len - i,
    {
        let c = s.get_char(i);
        assert(s@.take(i + 1).drop_last() =~= s@.take(i as int));
        assert(s@.take(i + 1).last() == c);
        if c < '0' || c > '9' {
            assert(!digit_char(s@[i as int]));
            return None;
        }
        let d: u32 = (c as u32) - ('0' as u32);
        proof {
            assert(digit_value(c) == d);
        }
        if value > (u32::MAX - d) / 10 {
            proof {
                assert(value * 10 + d > u32::MAX) by (nonlinear_arith)
                    requires
                        value > (u32::MAX - d) / 10,
                        d <= 9,
                ;
                assert(dec_value(s@.take(i + 1)) > u32::MAX);
                if all_digits(s@) {
                    lemma_dec_value_prefix_le(s@, i + 1);
                }
            }
            return None;
        }
        value = value * 10 + d;
        i = i + 1;
    }
    assert(s@.take(len as int) =~= s@);
    Some(value)
}

/// The decimal digit character for `d`; meaningful for `0 <= d <= 9`.
pub open spec fn dec_digit(d: int) -> char {
    if d == 0 {
        '0'
    } else if d == 1 {
        '1'
    } else if d == 2 {
        '2'
    } else if d == 3 {
        '3'
    } else if d == 4 {
        '4'
    } else if d == 5 {
        '5'
    } else if d == 6 {
        '6'
    } else if d == 7 {
        '7'
    } else if d == 8 {
        '8'
    } else {
        '9'
    }
}

/// The decimal rendering of a byte-sized number, without leading zeros.
pub open spec fn dec_str_u8(n: int) -> Seq<char> {
    if n < 10 {
        seq![dec_digit(n)]
    } else if n < 100 {
        seq![dec_digit(n / 10), dec_digit(n % 10)]
    } else {
        seq![dec_digit(n / 100), dec_digit((n / 10) % 10), dec_digit(n % 10)]
    }
}

/// The decimal digit character for `d`.
fn dec_digit_char(d: u8) -> (c: char)
    requires
        d <= 9,
    ensures
        c == dec_digit(d as int),
{
    match d {
        0 => '0',
        1 => '1',
        2 => '2',
        3 => '3',
        4 => '4',
        5 => '5',
        6 => '6',
        7 => '7',
        8 => '8',
        _ => '9',
    }
}

/// Appends the decimal rendering of `n` onto `s`.
pub fn append_dec_u8(s: &mut String, n: u8)
    ensures
        final (s)@ == old(s)@ + dec_str_u8(n as int),
{
    if n < 10 {
        append_char(s, dec_digit_char(n));
        assert(s@ =~= old(s)@ + dec_str_u8(n as int));
    } else if n < 100 {
        append_char(s, dec_digit_char(n / 10));
        append_char(s, dec_digit_char(n % 10));
        assert(s@ =~= old(s)@ + dec_str_u8(n as int));
    } else {
        append_char(s, dec_digit_char(n / 100));
        append_char(s, dec_digit_char((n / 10) % 10));
        append_char(s, dec_digit_char(n % 10));
        assert(s@ =~= old(s)@ + dec_str_u8(n as int));
    }
}

} // verus!
