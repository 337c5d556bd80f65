//! Character-level text handling: UTF-16 encoding, whitespace trimming,
//! searching for a character and decimal `i32` parsing, each stated over
//! `Seq<char>` and carried out on a `Vec<char>` copy of the text.
use vstd::prelude::*;

verus! {

/// The UTF-16 code units that encode one character.
pub open spec fn utf16_units(c: char) -> Seq<u16> {
    let v = c as u32;
    if v < 0x10000 {
        seq![v as u16]
    } else {
        let w = (v - 0x10000) as u32;
        seq![(0xD800 + (w >> 10)) as u16, (0xDC00 + (w & 0x3FF)) as u16]
    }
}

/// The UTF-16 encoding of a character sequence.
pub open spec fn utf16_of(s: Seq<char>) -> Seq<u16>
    decreases s.len(),
{
    if s.len() == 0 {
        Seq::empty()
    } else {
        utf16_of(s.drop_last()) + utf16_units(s.last())
    }
}

/// Every character of `s` lies in the Basic Multilingual Plane.
pub open spec fn all_bmp(s: Seq<char>) -> bool {
    forall|i: int| 0 <= i < s.len() ==> (#[trigger] s[i] as u32) < 0x10000
}

/// A text made of Basic Multilingual Plane characters has one code unit per character.
pub proof fn lemma_utf16_len_bmp(s: Seq<char>)
    requires
        all_bmp(s),
    ensures
        utf16_of(s).len() == s.len(),
    decreases s.len(),
{
    if s.len() > 0 {
        assert(all_bmp(s.drop_last())) by {
            assert forall|i: int| 0 <= i < s.drop_last().len() implies (#[trigger] s.drop_last()[i]
                as u32) < 0x10000 by {
                assert(s.drop_last()[i] == s[i]);
            }
        }
        lemma_utf16_len_bmp(s.drop_last());
        assert((s[s.len() - 1] as u32) < 0x10000);
    }
}

/// The characters of `s`, in order.
pub fn chars_of(s: &str) -> (r: Vec<char>)
    ensures
        r@ == s@,
{
    let mut out: Vec<char> = Vec::new();
    for c in it: s.chars()
        invariant
            out@ == it.seq().take(it.index() as int),
    {
        out.push(c);
    }
    out
}

fn push_utf16(out: &mut Vec<u16>, c: char)
    ensures
        final(out)@ == old(out)@ + utf16_units(c),
{
    let v: u32 = c as u32;
    if v < 0x10000 {
        out.push(v as u16);
    } else {
        let w: u32 = v - 0x10000;
        assert(w < 0x100000);
        assert((w >> 10) < 0x400) by (bit_vector)
            requires
                w < 0x100000,
        ;
        assert((w & 0x3FF) <= 0x3FF) by (bit_vector);
        out.push((0xD800 + (w >> 10)) as u16);
        out.push((0xDC00 + (w & 0x3FF)) as u16);
    }
}

/// The UTF-16 code units of `s`, as `str::encode_utf16` yields them.
pub fn encode_utf16(s: &str) -> (r: Vec<u16>)
    ensures
        r@ == utf16_of(s@),
{
    let chars = chars_of(s);
    let mut out: Vec<u16> = Vec::new();
    let mut i: usize = 0;
    while i < chars.len()
        invariant
            i <= chars.len(),
            out@ == utf16_of(chars@.take(i as int)),
        decreases chars.len() - i,
    {
        assert(chars@.take(i + 1).drop_last() =~= chars@.take(i as int));
        push_utf16(&mut out, chars[i]);
        i += 1;
    }
    assert(chars@.take(chars.len() as int) =~= chars@);
    out
}

/// The `White_Space` property of Unicode, as `char::is_whitespace` tests it.
pub open spec fn is_whitespace(c: char) -> bool {
    let v = c as u32;
    ||| 0x09 <= v <= 0x0D
    ||| v == 0x20
    ||| v == 0x85
    ||| v == 0xA0
    ||| v == 0x1680
    ||| 0x2000 <= v <= 0x200A
    ||| v == 0x2028
    ||| v == 0x2029
    ||| v == 0x202F
    ||| v == 0x205F
    ||| v == 0x3000
}

/// Tests one character for the `White_Space` property.
pub fn char_is_whitespace(c: char) -> (r: bool)
    ensures
        r == is_whitespace(c),
{
    let v: u32 = c as u32;
    (0x09 <= v && v <= 0x0D) || v == 0x20 || v == 0x85 || v == 0xA0 || v == 0x1680 || (0x2000
        <= v && v <= 0x200A) || v == 0x2028 || v == 0x2029 || v == 0x202F || v == 0x205F || v
        == 0x3000
}

/// `s` without its leading whitespace.
pub open spec fn trim_start(s: Seq<char>) -> Seq<char>
    decreases s.len(),
{
    if s.len() > 0 && is_whitespace(s[0]) {
        trim_start(s.drop_first())
    } else {
        s
    }
}

/// `s` without its trailing whitespace.
pub open spec fn trim_end(s: Seq<char>) -> Seq<char>
    decreases s.len(),
{
    if s.len() > 0 && is_whitespace(s.last()) {
        trim_end(s.drop_last())
    } else {
        s
    }
}

/// `s` without leading and trailing whitespace, as `str::trim` returns it.
pub open spec fn trim(s: Seq<char>) -> Seq<char> {
    trim_end(trim_start(s))
}

/// The bounds, inside `[lo, hi)`, of that range of `chars` with its
/// surrounding whitespace removed.
pub fn trimmed_bounds(chars: &Vec<char>, lo: usize, hi: usize) -> (r: (usize, usize))
    requires
        lo <= hi <= chars.len(),
    ensures
        lo <= r.0 <= r.1 <= hi,
        chars@.subrange(r.0 as int, r.1 as int) == trim(chars@.subrange(lo as int, hi as int)),
{
    let mut a: usize = lo;
    while a < hi && char_is_whitespace(chars[a])
        invariant
            lo <= a <= hi <= chars.len(),
            trim_start(chars@.subrange(lo as int, hi as int)) == trim_start(
                chars@.subrange(a as int, hi as int),
            ),
        decreases hi - a,
    {
        assert(chars@.subrange(a as int, hi as int).drop_first() =~= chars@.subrange(
            a + 1,
            hi as int,
        ));
        a += 1;
    }
    assert(trim_start(chars@.subrange(a as int, hi as int)) == chars@.subrange(a as int, hi as int));
    let mut b: usize = hi;
    while b > a && char_is_whitespace(chars[b - 1])
        invariant
            lo <= a <= b <= hi <= chars.len(),
            trim_end(chars@.subrange(a as int, hi as int)) == trim_end(
                chars@.subrange(a as int, b as int),
            ),
        decreases b - a,
    {
        assert(chars@.subrange(a as int, b as int).drop_last() =~= chars@.subrange(
            a as int,
            b - 1,
        ));
        b -= 1;
    }
    (a, b)
}

/// The position of the first `c` in `s`, or the length of `s` where there is none.
pub open spec fn index_of_or_len(s: Seq<char>, c: char) -> int
    decreases s.len(),
{
    if s.len() == 0 {
        0
    } else if s[0] == c {
        0
    } else {
        1 + index_of_or_len(s.drop_first(), c)
    }
}

/// `index_of_or_len` is a position within `s` or just past it.
pub proof fn lemma_index_of_bounds(s: Seq<char>, c: char)
    ensures
        0 <= index_of_or_len(s, c) <= s.len(),
    decreases s.len(),
{
    if s.len() > 0 && s[0] != c {
        lemma_index_of_bounds(s.drop_first(), c);
    }
}

/// A position before which `c` does not occur and at which it does (or the
/// text ends) is `index_of_or_len`.
pub proof fn lemma_index_of(s: Seq<char>, c: char, j: int)
    requires
        0 <= j <= s.len(),
        forall|k: int| 0 <= k < j ==> s[k] != c,
        j == s.len() || s[j] == c,
    ensures
        index_of_or_len(s, c) == j,
    decreases j,
{
    if j > 0 {
        assert forall|k: int| 0 <= k < j - 1 implies s.drop_first()[k] != c by {
            assert(s.drop_first()[k] == s[k + 1]);
        }
        lemma_index_of(s.drop_first(), c, j - 1);
    }
}

/// The first position of `c` in `chars[lo..hi]`, or `hi` where it does not occur.
pub fn find_char(chars: &Vec<char>, lo: usize, hi: usize, c: char) -> (j: usize)
    requires
        lo <= hi <= chars.len(),
    ensures
        lo <= j <= hi,
        j - lo == index_of_or_len(chars@.subrange(lo as int, hi as int), c),
        j < hi ==> chars@[j as int] == c,
{
    let mut j: usize = lo;
    while j < hi && chars[j] != c
        invariant
            lo <= j <= hi <= chars.len(),
            forall|k: int| lo <= k < j ==> chars@[k] != c,
        decreases hi - j,
    {
        j += 1;
    }
    proof {
        let s = chars@.subrange(lo as int, hi as int);
        assert forall|k: int| 0 <= k < j - lo implies s[k] != c by {
            assert(s[k] == chars@[lo + k]);
        }
        lemma_index_of(s, c, j - lo);
    }
    j
}

/// Whether two character sequences are equal.
pub fn chars_equal(a: &Vec<char>, b: &Vec<char>) -> (r: bool)
    ensures
        r == (a@ == b@),
{
    if a.len() != b.len() {
        return false;
    }
    let mut i: usize = 0;
    while i < a.len()
        invariant
            a.len() == b.len(),
            i <= a.len(),
            forall|k: int| 0 <= k < i ==> a@[k] == b@[k],
        decreases a.len() - i,
    {
        if a[i] != b[i] {
            return false;
        }
        i += 1;
    }
    assert(a@ =~= b@);
    true
}

/// An ASCII decimal digit.
pub open spec fn is_ascii_digit(c: char) -> bool {
    '0' <= c && c <= '9'
}

/// Every character of `d` is an ASCII decimal digit.
pub open spec fn all_digits(d: Seq<char>) -> bool {
    forall|i: int| 0 <= i < d.len() ==> is_ascii_digit(#[trigger] d[i])
}

/// The number written by a sequence of decimal digits.
pub open spec fn digits_value(d: Seq<char>) -> nat
    decreases d.len(),
{
    if d.len() == 0 {
        0
    } else {
        digits_value(d.drop_last()) * 10 + ((d.last() as u32) - ('0' as u32)) as nat
    }
}

/// The text after an optional leading sign.
pub open spec fn unsigned_part(s: Seq<char>) -> Seq<char> {
    if s.len() > 0 && (s[0] == '-' || s[0] == '+') {
        s.drop_first()
    } else {
        s
    }
}

/// The decimal `i32` that `s` writes, as `str::parse::<i32>` reads it: an
/// optional sign, then one or more ASCII digits, within the range of `i32`.
pub open spec fn parse_i32(s: Seq<char>) -> Option<i32> {
    let d = unsigned_part(s);
    let negative = s.len() > 0 && s[0] == '-';
    let v: int = if negative {
        -(digits_value(d) as int)
    } else {
        digits_value(d) as int
    };
    if d.len() == 0 || !all_digits(d) {
        None
    } else if i32::MIN <= v <= i32::MAX {
        Some(v as i32)
    } else {
        None
    }
}

/// A prefix of a digit sequence writes a number no larger than the whole.
pub proof fn lemma_digits_prefix(d: Seq<char>, k: int)
    requires
        all_digits(d),
        0 <= k <= d.len(),
    ensures
        digits_value(d.take(k)) <= digits_value(d),
    decreases d.len(),
{
    if k < d.len() {
        assert(all_digits(d.drop_last())) by {
            assert forall|i: int| 0 <= i < d.drop_last().len() implies is_ascii_digit(
                #[trigger] d.drop_last()[i],
            ) by {
                assert(d.drop_last()[i] == d[i]);
            }
        }
        lemma_digits_prefix(d.drop_last(), k);
        assert(d.drop_last().take(k) =~= d.take(k));
    } else {
        assert(d.take(k) =~= d);
    }
}

/// Parses `chars[lo..hi]` as a decimal `i32`.
pub fn parse_i32_range(chars: &Vec<char>, lo: usize, hi: usize) -> (r: Option<i32>)
    requires
        lo <= hi <= chars.len(),
    ensures
        r == parse_i32(chars@.subrange(lo as int, hi as int)),
{
    let ghost s = chars@.subrange(lo as int, hi as int);
    let mut i: usize = lo;
    let mut negative = false;
    if i < hi && chars[i] == '-' {
        negative = true;
        i += 1;
    } else if i < hi && chars[i] == '+' {
        i += 1;
    }
    let start = i;
    let ghost d = chars@.subrange(start as int, hi as int);
    assert(d =~= unsigned_part(s));
    if start == hi {
        return None;
    }
    let mut mag: u64 = 0;
    while i < hi
        invariant
            lo <= start <= i <= hi <= chars.len(),
            d == chars@.subrange(start as int, hi as int),
            s == chars@.subrange(lo as int, hi as int),
            d == unsigned_part(s),
            d.len() > 0,
            negative == (s.len() > 0 && s[0] == '-'),
            mag == digits_value(chars@.subrange(start as int, i as int)),
            mag <= 2147483648,
            all_digits(chars@.subrange(start as int, i as int)),
        decreases hi - i,
    {
        let c = chars[i];
        if !('0' <= c && c <= '9') {
            assert(d[i - start] == c);
            return None;
        }
        let digit: u64 = ((c as u32) - ('0' as u32)) as u64;
        let ghost prefix = chars@.subrange(start as int, i + 1);
        assert(prefix.drop_last() =~= chars@.subrange(start as int, i as int));
        assert(all_digits(prefix)) by {
            assert forall|k: int| 0 <= k < prefix.len() implies is_ascii_digit(
                #[trigger] prefix[k],
            ) by {
                if k < prefix.len() - 1 {
                    assert(prefix[k] == prefix.drop_last()[k]);
                }
            }
        }
        let next: u64 = mag * 10 + digit;
        if next > 2147483648 {
            proof {
                if all_digits(d) {
                    assert(d.take(i + 1 - start) =~= prefix);
                    lemma_digits_prefix(d, i + 1 - start);
                }
            }
            return None;
        }
        mag = next;
        i += 1;
    }
    assert(chars@.subrange(start as int, hi as int) =~= d);
    if negative {
        Some((0i64 - (mag as i64)) as i32)
    } else if mag <= 2147483647 {
        Some(mag as i32)
    } else {
        None
    }
}

} // verus!
