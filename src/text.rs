//! Text helpers shared by the parsers: exact comparison, case folding and trimming.

use vstd::prelude::*;
use vstd::string::StrSliceExecFns;

verus! {

/// What `str::to_lowercase` makes of a text.
pub uninterp spec fn lower_of(s: Seq<char>) -> Seq<char>;

/// What `str::trim` makes of a text.
pub uninterp spec fn trimmed(s: Seq<char>) -> Seq<char>;

pub open spec fn is_ascii_char(c: char) -> bool {
    (c as u32) < 128
}

pub open spec fn all_ascii(s: Seq<char>) -> bool {
    forall|i: int| 0 <= i < s.len() ==> is_ascii_char(#[trigger] s[i])
}

/// The ASCII lowercase of one character: 'A'..='Z' become 'a'..='z', the rest stay.
pub open spec fn ascii_lower_char(c: char) -> char {
    if 'A' <= c && c <= 'Z' {
        ((c as u32) + 32) as char
    } else {
        c
    }
}

pub open spec fn ascii_lower(s: Seq<char>) -> Seq<char> {
    Seq::new(s.len(), |i: int| ascii_lower_char(s[i]))
}

/// Relies on `str::to_lowercase`: the lowercase form depends on the characters
/// alone, and on ASCII text it lowers 'A'..='Z' and keeps every other character.
#[verifier::external_body]
pub(crate) fn lowercase(s: &str) -> (r: String)
    ensures
        r@ == lower_of(s@),
        all_ascii(s@) ==> r@ == ascii_lower(s@),
{
    s.to_lowercase()
}

/// Relies on `str::trim`: leading and trailing whitespace removed, a function
/// of the characters alone.
#[verifier::external_body]
pub(crate) fn trim(s: &str) -> (r: &str)
    ensures
        r@ == trimmed(s@),
{
    s.trim()
}

/// Character-by-character equality of two texts.
pub fn text_eq(a: &str, b: &str) -> (r: bool)
    ensures
        r == (a@ == b@),
{
    let n = a.unicode_len();
    if n != b.unicode_len() {
        return false;
    }
    let mut i: usize = 0;
    while i < n
        invariant
            n == a@.len(),
            n == b@.len(),
            i <= n,
            forall|j: int| 0 <= j < i ==> a@[j] == b@[j],
        decreases n - i,
    {
        if a.get_char(i) != b.get_char(i) {
            return false;
        }
        i = i + 1;
    }
    assert(a@ =~= b@);
    true
}

/// `a` followed by `b`, as a new `String`.
pub fn join(a: &str, b: &str) -> (r: String)
    ensures
        r@ == a@ + b@,
{
    let mut s = a.to_string();
    s.append(b);
    s
}

pub open spec fn is_digit(c: char) -> bool {
    '0' <= c && c <= '9'
}

pub open spec fn all_digits(s: Seq<char>) -> bool {
    forall|i: int| 0 <= i < s.len() ==> is_digit(#[trigger] s[i])
}

/// The number that a run of decimal digits writes.
pub open spec fn digits_value(s: Seq<char>) -> int
    decreases s.len(),
{
    if s.len() == 0 {
        0
    } else {
        digits_value(s.drop_last()) * 10 + ((s.last() as u32) - ('0' as u32))
    }
}

/// The digits of an unsigned number: the text without one leading `+`.
pub open spec fn unsigned_digits(s: Seq<char>) -> Seq<char> {
    if s.len() > 0 && s[0] == '+' {
        s.subrange(1, s.len() as int)
    } else {
        s
    }
}

/// A `u32` written in decimal: an optional `+`, then at least one digit, and
/// a value that fits.
pub open spec fn u32_of(s: Seq<char>) -> Option<u32> {
    let d = unsigned_digits(s);
    if d.len() > 0 && all_digits(d) && digits_value(d) <= u32::MAX {
        Some(digits_value(d) as u32)
    } else {
        None
    }
}

proof fn lemma_digits_grow(d: Seq<char>, i: int, j: int)
    requires
        0 <= i <= j <= d.len(),
        all_digits(d),
    ensures
        digits_value(d.subrange(0, i)) <= digits_value(d.subrange(0, j)),
    decreases j - i,
{
    if i < j {
        lemma_digits_grow(d, i, j - 1);
        assert(d.subrange(0, j).drop_last() =~= d.subrange(0, j - 1));
        lemma_digits_nonneg(d.subrange(0, j - 1));
    }
}

proof fn lemma_digits_nonneg(d: Seq<char>)
    requires
        all_digits(d),
    ensures
        digits_value(d) >= 0,
    decreases d.len(),
{
    if d.len() > 0 {
        lemma_digits_nonneg(d.drop_last());
    }
}

/// A negative integer: `-` and then at least one digit.
pub open spec fn negative_integer(s: Seq<char>) -> bool {
    s.len() >= 2 && s[0] == '-' && all_digits(s.subrange(1, s.len() as int))
}

/// Whether `s` writes a negative integer.
pub fn is_negative_integer(s: &str) -> (r: bool)
    ensures
        r == negative_integer(s@),
{
    let n = s.unicode_len();
    if n < 2 || s.get_char(0) != '-' {
        return false;
    }
    let mut i: usize = 1;
    while i < n
        invariant
            1 <= i <= n,
            n == s@.len(),
            forall|j: int| 1 <= j < i ==> is_digit(#[trigger] s@[j]),
        decreases n - i,
    {
        let c = s.get_char(i);
        if c < '0' || c > '9' {
            assert(!is_digit(s@.subrange(1, n as int)[i - 1]));
            return false;
        }
        i = i + 1;
    }
    assert forall|j: int| 0 <= j < n - 1 implies is_digit(#[trigger] s@.subrange(1, n as int)[j]) by {
        assert(s@.subrange(1, n as int)[j] == s@[j + 1]);
    }
    true
}

/// Reads a `u32` written in decimal, as `str::parse::<u32>` does.
pub fn parse_u32(s: &str) -> (r: Option<u32>)
    ensures
        r == u32_of(s@),
{
    let n = s.unicode_len();
    let mut i: usize = 0;
    if n > 0 && s.get_char(0) == '+' {
        i = 1;
    }
    let start = i;
    let ghost d = unsigned_digits(s@);
    assert(d =~= s@.subrange(start as int, n as int));
    if start == n {
        return None;
    }
    let mut acc: u64 = 0;
    while i < n
        invariant
            start <= i <= n,
            n == s@.len(),
            d =~= s@.subrange(start as int, n as int),
            d == unsigned_digits(s@),
            all_digits(d.subrange(0, i - start)),
            acc == digits_value(d.subrange(0, i - start)),
            acc <= u32::MAX,
        decreases n - i,
    {
        let c = s.get_char(i);
        assert(d[i - start] == c);
        if c < '0' || c > '9' {
            assert(!all_digits(d));
            return None;
        }
        let next = acc * 10 + ((c as u32) - ('0' as u32)) as u64;
        proof {
            let k = i - start;
            assert(d.subrange(0, k + 1).drop_last() =~= d.subrange(0, k));
            assert(all_digits(d.subrange(0, k + 1)));
            assert(d.subrange(0, k + 1).last() == c);
            assert(next == digits_value(d.subrange(0, k + 1)));
        }
        if next > u32::MAX as u64 {
            proof {
                if all_digits(d) {
                    lemma_digits_grow(d, i - start + 1, d.len() as int);
                    assert(d.subrange(0, d.len() as int) =~= d);
                }
            }
            return None;
        }
        acc = next;
        i = i + 1;
    }
    assert(d.subrange(0, n - start) =~= d);
    Some(acc as u32)
}

} // verus!
