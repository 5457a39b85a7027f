//! Byte and text helpers shared by the parsers and the message builders.
//!
//! Searching and comparing work on UTF-8 bytes; their contracts speak of
//! `spec_bytes()`, the UTF-8 encoding of a string's characters.

use vstd::prelude::*;
use vstd::string::StringSliceAdditionalSpecFns;
use vstd::utf8::encode_utf8_decode_utf8;

verus! {

/// `needle` stands in `hay` at offset `at`.
pub open spec fn occurs_at(hay: Seq<u8>, needle: Seq<u8>, at: int) -> bool {
    &&& 0 <= at
    &&& at + needle.len() <= hay.len()
    &&& hay.subrange(at, at + needle.len()) == needle
}

/// `needle` stands somewhere in `hay`.
pub open spec fn contains_seq(hay: Seq<u8>, needle: Seq<u8>) -> bool {
    exists|at: int| occurs_at(hay, needle, at)
}

/// The offset of the first `byte` in `hay`, if there is one.
pub open spec fn first_index_of(hay: Seq<u8>, byte: u8) -> Option<int>
    decreases hay.len(),
{
    if hay.len() == 0 {
        None
    } else if hay[0] == byte {
        Some(0)
    } else {
        match first_index_of(hay.drop_first(), byte) {
            Some(i) => Some(i + 1),
            None => None,
        }
    }
}

/// `first_index_of` finds the least offset that holds `byte`, and reports
/// `None` only when `byte` does not occur.
pub proof fn lemma_first_index_of(hay: Seq<u8>, byte: u8)
    ensures
        match first_index_of(hay, byte) {
            Some(i) => 0 <= i < hay.len() && hay[i] == byte && forall|j: int|
                0 <= j < i ==> hay[j] != byte,
            None => forall|j: int| 0 <= j < hay.len() ==> hay[j] != byte,
        },
    decreases hay.len(),
{
    if hay.len() > 0 && hay[0] != byte {
        let rest = hay.drop_first();
        lemma_first_index_of(rest, byte);
        match first_index_of(rest, byte) {
            Some(i) => {
                assert forall|j: int| 0 <= j < i + 1 implies hay[j] != byte by {
                    if j > 0 {
                        assert(rest[j - 1] == hay[j]);
                    }
                }
            },
            None => {
                assert forall|j: int| 0 <= j < hay.len() implies hay[j] != byte by {
                    if j > 0 {
                        assert(rest[j - 1] == hay[j]);
                    }
                }
            },
        }
    }
}

/// An offset that holds `byte` and has none before it is the first one.
pub proof fn lemma_first_index_is(hay: Seq<u8>, byte: u8, at: int)
    requires
        0 <= at < hay.len(),
        hay[at] == byte,
        forall|j: int| 0 <= j < at ==> hay[j] != byte,
    ensures
        first_index_of(hay, byte) == Some(at),
{
    lemma_first_index_of(hay, byte);
}

/// A sequence without `byte` has no first offset of it.
pub proof fn lemma_first_index_none(hay: Seq<u8>, byte: u8)
    requires
        forall|j: int| 0 <= j < hay.len() ==> hay[j] != byte,
    ensures
        first_index_of(hay, byte) is None,
{
    lemma_first_index_of(hay, byte);
}

/// The first `byte` of a sequence is also the first `byte` of any sequence
/// that begins with it.
pub proof fn lemma_first_index_prefix(hay: Seq<u8>, more: Seq<u8>, byte: u8)
    requires
        first_index_of(hay, byte) is Some,
    ensures
        first_index_of(hay + more, byte) == first_index_of(hay, byte),
{
    lemma_first_index_of(hay, byte);
    let at = first_index_of(hay, byte)->0;
    assert((hay + more)[at] == hay[at]);
    assert forall|j: int| 0 <= j < at implies (hay + more)[j] != byte by {
        assert((hay + more)[j] == hay[j]);
    }
    lemma_first_index_is(hay + more, byte, at);
}

/// Two strings with the same UTF-8 bytes hold the same characters.
pub proof fn lemma_same_bytes_same_text(a: Seq<char>, b: Seq<char>)
    requires
        vstd::utf8::encode_utf8(a) == vstd::utf8::encode_utf8(b),
    ensures
        a == b,
{
    encode_utf8_decode_utf8(a);
    encode_utf8_decode_utf8(b);
}

/// Whether two byte slices hold the same bytes.
pub fn bytes_equal(a: &[u8], b: &[u8]) -> (same: bool)
    ensures
        same == (a@ == b@),
{
    if a.len() != b.len() {
        return false;
    }
    let mut i: usize = 0;
    while i < a.len()
        invariant
            i <= a.len(),
            a.len() == b.len(),
            forall|j: int| 0 <= j < i ==> a@[j] == b@[j],
        decreases a.len() - i,
    {
        if a[i] != b[i] {
            return false;
        }
        i = i + 1;
    }
    assert(a@ =~= b@);
    true
}

/// Whether `needle` stands in `hay` at offset `at`.
pub fn matches_at(hay: &[u8], needle: &[u8], at: usize) -> (found: bool)
    ensures
        found == occurs_at(hay@, needle@, at as int),
{
    if at > hay.len() || needle.len() > hay.len() - at {
        return false;
    }
    let mut i: usize = 0;
    while i < needle.len()
        invariant
            i <= needle.len(),
            at + needle.len() <= hay.len(),
            forall|j: int| 0 <= j < i ==> hay@[at + j] == needle@[j],
        decreases needle.len() - i,
    {
        if hay[at + i] != needle[i] {
            assert(hay@.subrange(at as int, at + needle.len())[i as int] != needle@[i as int]);
            return false;
        }
        i = i + 1;
    }
    assert(hay@.subrange(at as int, at + needle.len()) =~= needle@);
    true
}

/// Whether `hay` begins with `prefix`.
pub fn starts_with(hay: &[u8], prefix: &[u8]) -> (found: bool)
    ensures
        found == prefix@.is_prefix_of(hay@),
{
    let found = matches_at(hay, prefix, 0);
    proof {
        if found {
            assert(hay@.subrange(0, prefix@.len() as int) == prefix@);
        }
        if prefix@.is_prefix_of(hay@) {
            assert(hay@.subrange(0, prefix@.len() as int) =~= prefix@);
        }
    }
    found
}

/// Whether `needle` stands somewhere in `hay`.
pub fn contains(hay: &[u8], needle: &[u8]) -> (found: bool)
    ensures
        found == contains_seq(hay@, needle@),
{
    if needle.len() > hay.len() {
        assert forall|at: int| !occurs_at(hay@, needle@, at) by {}
        return false;
    }
    let last: usize = hay.len() - needle.len();
    let mut at: usize = 0;
    while at < last
        invariant
            at <= last,
            last == hay.len() - needle.len(),
            forall|k: int| 0 <= k < at ==> !occurs_at(hay@, needle@, k),
        decreases last - at,
    {
        if matches_at(hay, needle, at) {
            return true;
        }
        at = at + 1;
    }
    if matches_at(hay, needle, last) {
        return true;
    }
    assert forall|k: int| !occurs_at(hay@, needle@, k) by {}
    false
}

/// The offset of the first `byte` in `hay`.
pub fn find_byte(hay: &[u8], byte: u8) -> (at: Option<usize>)
    ensures
        match at {
            Some(i) => first_index_of(hay@, byte) == Some(i as int),
            None => first_index_of(hay@, byte) is None,
        },
{
    let mut i: usize = 0;
    while i < hay.len()
        invariant
            i <= hay.len(),
            forall|j: int| 0 <= j < i ==> hay@[j] != byte,
        decreases hay.len() - i,
    {
        if hay[i] == byte {
            proof {
                lemma_first_index_is(hay@, byte, i as int);
            }
            return Some(i);
        }
        i = i + 1;
    }
    proof {
        lemma_first_index_none(hay@, byte);
    }
    None
}

/// Whether two strings hold the same characters.
pub fn str_equals(a: &str, b: &str) -> (same: bool)
    ensures
        same == (a@ == b@),
{
    let same = bytes_equal(a.as_bytes(), b.as_bytes());
    proof {
        if same {
            lemma_same_bytes_same_text(a@, b@);
        }
    }
    same
}

/// Whether the UTF-8 bytes of `needle` stand somewhere in those of `hay`.
pub fn str_contains(hay: &str, needle: &str) -> (found: bool)
    ensures
        found == contains_seq(hay.spec_bytes(), needle.spec_bytes()),
{
    contains(hay.as_bytes(), needle.as_bytes())
}

/// The decimal digit `d` as a character.
pub open spec fn digit_char(d: nat) -> char {
    if d == 0 {
        '0'
    } else if d == 1 {
        '1'
    } else if d == 2 {
        '2'
    } else if d == 3 {
        '3'
    } else if d == 4 {
        '4'
    } else if d == 5 {
        '5'
    } else if d == 6 {
        '6'
    } else if d == 7 {
        '7'
    } else if d == 8 {
        '8'
    } else {
        '9'
    }
}

/// `n` written in decimal, without leading zeros.
pub open spec fn decimal_digits(n: nat) -> Seq<char>
    decreases n,
{
    if n < 10 {
        seq![digit_char(n)]
    } else {
        decimal_digits(n / 10).push(digit_char(n % 10))
    }
}

/// `n` written in decimal and filled with zeros on the left up to `width`
/// characters; a longer number is not cut.
pub open spec fn zero_padded(n: nat, width: nat) -> Seq<char> {
    let digits = decimal_digits(n);
    if digits.len() >= width {
        digits
    } else {
        Seq::new((width - digits.len()) as nat, |i: int| '0') + digits
    }
}

/// A number below `10^k` has at most `k` digits, down to one digit.
pub proof fn lemma_decimal_len(n: nat)
    ensures
        decimal_digits(n).len() >= 1,
        n < 10 ==> decimal_digits(n).len() == 1,
        10 <= n < 100 ==> decimal_digits(n).len() == 2,
        100 <= n < 1000 ==> decimal_digits(n).len() == 3,
        1000 <= n < 10000 ==> decimal_digits(n).len() == 4,
    decreases n,
{
    reveal_with_fuel(decimal_digits, 5);
}

fn digit_str(d: u64) -> (s: &'static str)
    requires
        d < 10,
    ensures
        s@ == seq![digit_char(d as nat)],
{
    proof {
        reveal_strlit("0");
        reveal_strlit("1");
        reveal_strlit("2");
        reveal_strlit("3");
        reveal_strlit("4");
        reveal_strlit("5");
        reveal_strlit("6");
        reveal_strlit("7");
        reveal_strlit("8");
        reveal_strlit("9");
    }
    let s = if d == 0 {
        "0"
    } else if d == 1 {
        "1"
    } else if d == 2 {
        "2"
    } else if d == 3 {
        "3"
    } else if d == 4 {
        "4"
    } else if d == 5 {
        "5"
    } else if d == 6 {
        "6"
    } else if d == 7 {
        "7"
    } else if d == 8 {
        "8"
    } else {
        "9"
    };
    assert(s@ =~= seq![digit_char(d as nat)]);
    s
}

/// Appends `n` in decimal to `out`.
pub fn push_decimal(out: &mut String, n: u64)
    ensures
        final(out)@ == old(out)@ + decimal_digits(n as nat),
    decreases n,
{
    if n >= 10 {
        push_decimal(out, n / 10);
    }
    out.append(digit_str(n % 10));
    assert(out@ =~= old(out)@ + decimal_digits(n as nat));
}

/// The number of decimal digits of `n`.
pub fn decimal_len(n: u64) -> (len: usize)
    ensures
        len == decimal_digits(n as nat).len(),
        1 <= len <= 20,
{
    let mut len: usize = 1;
    let mut rest: u64 = n;
    assert(rest * pow10((len - 1) as nat) <= n) by (nonlinear_arith)
        requires
            pow10((len - 1) as nat) == 1,
            rest == n,
    ;
    while rest >= 10
        invariant
            1 <= len <= 20,
            decimal_digits(n as nat).len() == decimal_digits(rest as nat).len() + len - 1,
            rest * pow10((len - 1) as nat) <= n,
        decreases rest,
    {
        proof {
            lemma_pow10_step((len - 1) as nat);
            assert((rest / 10) * pow10(len as nat) <= n) by (nonlinear_arith)
                requires
                    rest * pow10((len - 1) as nat) <= n,
                    pow10(len as nat) == 10 * pow10((len - 1) as nat),
                    rest >= 0,
                    pow10((len - 1) as nat) > 0,
            ;
            if len == 20 {
                lemma_pow10_20();
                assert(false) by (nonlinear_arith)
                    requires
                        (rest / 10) * pow10(20) <= n,
                        rest >= 10,
                        pow10(20) > 0xffff_ffff_ffff_ffff,
                        n <= 0xffff_ffff_ffff_ffff,
                ;
            }
        }
        rest = rest / 10;
        len = len + 1;
    }
    len
}

/// Ten to the power `k`.
pub open spec fn pow10(k: nat) -> nat
    decreases k,
{
    if k == 0 {
        1
    } else {
        10 * pow10((k - 1) as nat)
    }
}

proof fn lemma_pow10_step(k: nat)
    ensures
        pow10(k + 1) == 10 * pow10(k),
        pow10(k) > 0,
    decreases k,
{
    if k > 0 {
        lemma_pow10_step((k - 1) as nat);
    }
}

proof fn lemma_pow10_20()
    ensures
        pow10(20) > 0xffff_ffff_ffff_ffff,
{
    reveal_with_fuel(pow10, 21);
}

/// Appends `n` in decimal to `out`, filled with zeros on the left up to
/// `width` characters.
pub fn push_zero_padded(out: &mut String, n: u64, width: usize)
    ensures
        final(out)@ == old(out)@ + zero_padded(n as nat, width as nat),
{
    let len = decimal_len(n);
    let mut filled: usize = len;
    while filled < width
        invariant
            len <= filled,
            len == decimal_digits(n as nat).len(),
            filled <= width || filled == len,
            out@ == old(out)@ + Seq::new((filled - len) as nat, |i: int| '0'),
        decreases width - filled,
    {
        proof {
            reveal_strlit("0");
        }
        out.append("0");
        filled = filled + 1;
        assert("0"@ =~= seq!['0']);
        assert(Seq::new((filled - len) as nat, |i: int| '0') =~= Seq::new(
            (filled - 1 - len) as nat,
            |i: int| '0',
        ).push('0'));
        assert(out@ =~= old(out)@ + Seq::new((filled - len) as nat, |i: int| '0'));
    }
    push_decimal(out, n);
    assert(out@ =~= old(out)@ + zero_padded(n as nat, width as nat));
}

/// Whether `b` is ASCII white space: space, tab, line feed, vertical tab,
/// form feed or carriage return.
pub open spec fn is_ascii_space(b: u8) -> bool {
    b == 0x20 || (0x09 <= b && b <= 0x0d)
}

/// `s` without the bytes `b` at its end.
pub open spec fn drop_trailing_byte(s: Seq<u8>, b: u8) -> Seq<u8>
    decreases s.len(),
{
    if s.len() > 0 && s.last() == b {
        drop_trailing_byte(s.drop_last(), b)
    } else {
        s
    }
}

/// `s` without the ASCII white space at its start.
pub open spec fn skip_leading_space(s: Seq<u8>) -> Seq<u8>
    decreases s.len(),
{
    if s.len() > 0 && is_ascii_space(s[0]) {
        skip_leading_space(s.drop_first())
    } else {
        s
    }
}

/// `s` without the ASCII white space at its end.
pub open spec fn drop_trailing_space(s: Seq<u8>) -> Seq<u8>
    decreases s.len(),
{
    if s.len() > 0 && is_ascii_space(s.last()) {
        drop_trailing_space(s.drop_last())
    } else {
        s
    }
}

/// `s` without the ASCII white space at both ends.
pub open spec fn trim_ascii_space(s: Seq<u8>) -> Seq<u8> {
    drop_trailing_space(skip_leading_space(s))
}

/// The part of `s` that is left without the bytes `b` at its end.
pub fn strip_trailing_byte(s: &[u8], b: u8) -> (kept: &[u8])
    ensures
        kept@ == drop_trailing_byte(s@, b),
{
    let mut end: usize = s.len();
    assert(s@.subrange(0, end as int) =~= s@);
    while end > 0 && s[end - 1] == b
        invariant
            end <= s.len(),
            drop_trailing_byte(s@, b) == drop_trailing_byte(s@.subrange(0, end as int), b),
        decreases end,
    {
        assert(s@.subrange(0, end as int).drop_last() =~= s@.subrange(0, end - 1));
        end = end - 1;
    }
    vstd::slice::slice_subrange(s, 0, end)
}

/// The part of `s` that is left without the ASCII white space at both ends.
pub fn trim_ascii(s: &[u8]) -> (kept: &[u8])
    ensures
        kept@ == trim_ascii_space(s@),
{
    let mut start: usize = 0;
    assert(s@.skip(0) =~= s@);
    while start < s.len() && (s[start] == 0x20 || (0x09 <= s[start] && s[start] <= 0x0d))
        invariant
            start <= s.len(),
            skip_leading_space(s@) == skip_leading_space(s@.skip(start as int)),
        decreases s.len() - start,
    {
        assert(s@.skip(start as int).drop_first() =~= s@.skip(start + 1));
        start = start + 1;
    }
    let mut end: usize = s.len();
    assert(s@.subrange(start as int, end as int) =~= s@.skip(start as int));
    while end > start && (s[end - 1] == 0x20 || (0x09 <= s[end - 1] && s[end - 1] <= 0x0d))
        invariant
            start <= end <= s.len(),
            trim_ascii_space(s@) == drop_trailing_space(s@.subrange(start as int, end as int)),
        decreases end,
    {
        assert(s@.subrange(start as int, end as int).drop_last() =~= s@.subrange(
            start as int,
            end - 1,
        ));
        end = end - 1;
    }
    vstd::slice::slice_subrange(s, start, end)
}

} // verus!
