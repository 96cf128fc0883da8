//! Byte-level text handling shared by the parsers of this crate.
//!
//! All text is treated as its UTF-8 bytes. White space is every character
//! that Unicode counts as white space; digits are ASCII digits, and letter
//! case is ASCII letter case.

use vstd::prelude::*;
use vstd::slice::slice_subrange;
use vstd::string::StringSliceAdditionalSpecFns;

verus! {

/// How many bytes the white-space character takes that stands at offset `i`
/// of `s`; zero where none stands there. The white-space characters are
/// space, tab, line feed, vertical tab, form feed and carriage return, one
/// byte each; next line and no-break space, two bytes each; and ogham space
/// mark, the spaces from en quad to hair space, line and paragraph
/// separator, narrow no-break space, medium mathematical space and
/// ideographic space, three bytes each.
pub open spec fn space_at(s: Seq<u8>, i: int) -> int {
    if i < 0 || i >= s.len() {
        0
    } else if s[i] == 0x20 || (0x09 <= s[i] && s[i] <= 0x0d) {
        1
    } else if i + 1 < s.len() && s[i] == 0xc2 && (s[i + 1] == 0x85 || s[i + 1] == 0xa0) {
        2
    } else if i + 2 < s.len() && s[i] == 0xe1 && s[i + 1] == 0x9a && s[i + 2] == 0x80 {
        3
    } else if i + 2 < s.len() && s[i] == 0xe2 && s[i + 1] == 0x80 && ((0x80 <= s[i + 2] && s[i
        + 2] <= 0x8a) || s[i + 2] == 0xa8 || s[i + 2] == 0xa9 || s[i + 2] == 0xaf) {
        3
    } else if i + 2 < s.len() && s[i] == 0xe2 && s[i + 1] == 0x81 && s[i + 2] == 0x9f {
        3
    } else if i + 2 < s.len() && s[i] == 0xe3 && s[i + 1] == 0x80 && s[i + 2] == 0x80 {
        3
    } else {
        0
    }
}

/// How many bytes the white-space character takes that ends `s`; zero where
/// `s` does not end with one.
pub open spec fn space_before(s: Seq<u8>) -> int {
    if space_at(s, s.len() - 1) == 1 {
        1
    } else if space_at(s, s.len() - 2) == 2 {
        2
    } else if space_at(s, s.len() - 3) == 3 {
        3
    } else {
        0
    }
}

/// ASCII decimal digit.
pub open spec fn is_digit(b: u8) -> bool {
    0x30 <= b && b <= 0x39
}

/// The lower-case form of an ASCII letter; every other byte is itself.
pub open spec fn lower(b: u8) -> u8 {
    if 0x41 <= b && b <= 0x5a {
        (b + 0x20) as u8
    } else {
        b
    }
}

/// `s` with every ASCII capital replaced by its lower-case form.
pub open spec fn lowered(s: Seq<u8>) -> Seq<u8> {
    Seq::new(s.len(), |i: int| lower(s[i]))
}

/// `s` begins with `prefix`.
pub open spec fn has_prefix(s: Seq<u8>, prefix: Seq<u8>) -> bool {
    prefix.len() <= s.len() && s.subrange(0, prefix.len() as int) == prefix
}

/// `s` ends with `suffix`.
pub open spec fn has_suffix(s: Seq<u8>, suffix: Seq<u8>) -> bool {
    suffix.len() <= s.len() && s.subrange(s.len() - suffix.len(), s.len() as int) == suffix
}

/// `needle` occurs in `s` at offset `at`.
pub open spec fn occurs_at(s: Seq<u8>, needle: Seq<u8>, at: int) -> bool {
    0 <= at && at + needle.len() <= s.len() && s.subrange(at, at + needle.len()) == needle
}

/// `needle` occurs somewhere in `s`.
pub open spec fn has_infix(s: Seq<u8>, needle: Seq<u8>) -> bool {
    exists|at: int| occurs_at(s, needle, at)
}

/// `s` without its leading white space.
pub open spec fn trimmed_start(s: Seq<u8>) -> Seq<u8>
    decreases s.len(),
{
    if space_at(s, 0) > 0 {
        trimmed_start(s.skip(space_at(s, 0)))
    } else {
        s
    }
}

/// `s` without its trailing white space.
pub open spec fn trimmed_end(s: Seq<u8>) -> Seq<u8>
    decreases s.len(),
{
    if space_before(s) > 0 {
        trimmed_end(s.take(s.len() - space_before(s)))
    } else {
        s
    }
}

/// `s` without leading and trailing white space.
pub open spec fn trimmed(s: Seq<u8>) -> Seq<u8> {
    trimmed_end(trimmed_start(s))
}

/// Every byte of `s` is a decimal digit.
pub open spec fn all_digits(s: Seq<u8>) -> bool {
    forall|i: int| 0 <= i < s.len() ==> is_digit(#[trigger] s[i])
}

/// The number that the digit string `s` denotes in base ten.
pub open spec fn decimal_value(s: Seq<u8>) -> nat
    decreases s.len(),
{
    if s.len() == 0 {
        0
    } else {
        decimal_value(s.drop_last()) * 10 + (s.last() - 0x30) as nat
    }
}

/// The shortest digit string that denotes `n` in base ten.
pub open spec fn decimal_digits(n: nat) -> Seq<u8>
    decreases n,
{
    if n < 10 {
        seq![(0x30 + n) as u8]
    } else {
        decimal_digits(n / 10).push((0x30 + n % 10) as u8)
    }
}

/// What is left of an unsigned number's text once an optional `+` is taken off.
pub open spec fn unsigned_body(s: Seq<u8>) -> Seq<u8> {
    if s.len() > 0 && s[0] == 0x2b {
        s.drop_first()
    } else {
        s
    }
}

/// The `u32` that `s` denotes: an optional `+`, then one or more digits whose
/// value fits. Anything else denotes nothing.
pub open spec fn u32_of(s: Seq<u8>) -> Option<u32> {
    let body = unsigned_body(s);
    if body.len() > 0 && all_digits(body) && decimal_value(body) <= u32::MAX {
        Some(decimal_value(body) as u32)
    } else {
        None
    }
}

/// The `i32` that `s` denotes: an optional `+` or `-`, then one or more digits
/// whose signed value fits. Anything else denotes nothing.
pub open spec fn i32_of(s: Seq<u8>) -> Option<i32> {
    if s.len() > 0 && s[0] == 0x2d {
        let body = s.drop_first();
        if body.len() > 0 && all_digits(body) && decimal_value(body) <= 0x8000_0000 {
            Some((-(decimal_value(body) as int)) as i32)
        } else {
            None
        }
    } else {
        let body = unsigned_body(s);
        if body.len() > 0 && all_digits(body) && decimal_value(body) <= i32::MAX {
            Some(decimal_value(body) as i32)
        } else {
            None
        }
    }
}

/// Compares two byte strings.
pub fn bytes_eq(a: &[u8], b: &[u8]) -> (r: bool)
    ensures
        r == (a@ == b@),
{
    if a.len() != b.len() {
        return false;
    }
    let mut i: usize = 0;
    while i < a.len()
        invariant
            a.len() == b.len(),
            i <= a.len(),
            forall|j: int| 0 <= j < i ==> a@[j] == b@[j],
        decreases a.len() - i,
    {
        if a[i] != b[i] {
            return false;
        }
        i += 1;
    }
    assert(a@ =~= b@);
    true
}

/// The lower-case form of one byte.
pub fn lower_byte(b: u8) -> (r: u8)
    ensures
        r == lower(b),
{
    if 0x41 <= b && b <= 0x5a {
        b + 0x20
    } else {
        b
    }
}

/// Compares two byte strings without regard to ASCII letter case.
pub fn eq_ignore_case(a: &[u8], b: &[u8]) -> (r: bool)
    ensures
        r == (lowered(a@) == lowered(b@)),
{
    if a.len() != b.len() {
        assert(lowered(a@).len() != lowered(b@).len());
        return false;
    }
    let mut i: usize = 0;
    while i < a.len()
        invariant
            a.len() == b.len(),
            i <= a.len(),
            forall|j: int| 0 <= j < i ==> lower(a@[j]) == lower(b@[j]),
        decreases a.len() - i,
    {
        if lower_byte(a[i]) != lower_byte(b[i]) {
            assert(lowered(a@)[i as int] != lowered(b@)[i as int]);
            return false;
        }
        i += 1;
    }
    assert(lowered(a@) =~= lowered(b@));
    true
}

/// A copy of `s` in lower case.
pub fn to_lower(s: &[u8]) -> (r: Vec<u8>)
    ensures
        r@ == lowered(s@),
{
    let mut out: Vec<u8> = Vec::new();
    let mut i: usize = 0;
    while i < s.len()
        invariant
            i <= s.len(),
            out@.len() == i,
            forall|j: int| 0 <= j < i ==> out@[j] == lower(s@[j]),
        decreases s.len() - i,
    {
        out.push(lower_byte(s[i]));
        i += 1;
    }
    assert(out@ =~= lowered(s@));
    out
}

/// Tests whether `s` holds `needle` at offset `at`.
pub fn matches_at(s: &[u8], needle: &[u8], at: usize) -> (r: bool)
    ensures
        r == occurs_at(s@, needle@, at as int),
{
    if needle.len() > s.len() || at > s.len() - needle.len() {
        return false;
    }
    let mut i: usize = 0;
    while i < needle.len()
        invariant
            at + needle.len() <= s.len(),
            i <= needle.len(),
            forall|j: int| 0 <= j < i ==> s@[at + j] == needle@[j],
        decreases needle.len() - i,
    {
        if s[at + i] != needle[i] {
            assert(s@.subrange(at as int, at + needle.len())[i as int] != needle@[i as int]);
            return false;
        }
        i += 1;
    }
    assert(s@.subrange(at as int, at + needle.len()) =~= needle@);
    true
}

/// Tests whether `s` begins with `prefix`.
pub fn starts_with(s: &[u8], prefix: &[u8]) -> (r: bool)
    ensures
        r == has_prefix(s@, prefix@),
{
    matches_at(s, prefix, 0)
}

/// Tests whether `s` ends with `suffix`.
pub fn ends_with(s: &[u8], suffix: &[u8]) -> (r: bool)
    ensures
        r == has_suffix(s@, suffix@),
{
    if suffix.len() > s.len() {
        return false;
    }
    matches_at(s, suffix, s.len() - suffix.len())
}

/// Tests whether `needle` occurs in `s`.
pub fn contains(s: &[u8], needle: &[u8]) -> (r: bool)
    ensures
        r == has_infix(s@, needle@),
{
    if needle.len() > s.len() {
        return false;
    }
    let last: usize = s.len() - needle.len();
    let mut at: usize = 0;
    loop
        invariant
            last == s.len() - needle.len(),
            at <= last,
            forall|k: int| 0 <= k < at ==> !occurs_at(s@, needle@, k),
        decreases last - at,
    {
        if matches_at(s, needle, at) {
            return true;
        }
        if at == last {
            return false;
        }
        at += 1;
    }
}

/// How many bytes the white-space character takes that stands at offset `i`.
pub fn space_width(s: &[u8], i: usize) -> (r: usize)
    ensures
        r == space_at(s@, i as int),
        r <= 3,
        i + r <= s@.len() || r == 0,
{
    if i >= s.len() {
        return 0;
    }
    let left = s.len() - i;
    let b = s[i];
    if b == 0x20 || (0x09 <= b && b <= 0x0d) {
        1
    } else if left > 1 && b == 0xc2 && (s[i + 1] == 0x85 || s[i + 1] == 0xa0) {
        2
    } else if left > 2 && b == 0xe1 && s[i + 1] == 0x9a && s[i + 2] == 0x80 {
        3
    } else if left > 2 && b == 0xe2 && s[i + 1] == 0x80 && ((0x80 <= s[i + 2] && s[i + 2] <= 0x8a)
        || s[i + 2] == 0xa8 || s[i + 2] == 0xa9 || s[i + 2] == 0xaf) {
        3
    } else if left > 2 && b == 0xe2 && s[i + 1] == 0x81 && s[i + 2] == 0x9f {
        3
    } else if left > 2 && b == 0xe3 && s[i + 1] == 0x80 && s[i + 2] == 0x80 {
        3
    } else {
        0
    }
}

/// What stands at an offset of a text stands at the start of the rest.
pub proof fn lemma_space_at_skip(s: Seq<u8>, i: int)
    requires
        0 <= i <= s.len(),
    ensures
        space_at(s.skip(i), 0) == space_at(s, i),
{
}

/// What stands at an offset of a text stands there in every part of the
/// text that holds all of it, and nothing more stands there in a part that
/// does not.
pub proof fn lemma_space_at_take(s: Seq<u8>, n: int, i: int)
    requires
        0 <= i,
        0 <= n <= s.len(),
    ensures
        i + space_at(s, i) <= n ==> space_at(s.take(n), i) == space_at(s, i),
        space_at(s.take(n), i) > 0 ==> space_at(s.take(n), i) == space_at(s, i),
{
}

/// `s` without its leading white space.
pub fn trim_start(s: &[u8]) -> (r: &[u8])
    ensures
        r@ == trimmed_start(s@),
{
    let mut i: usize = 0;
    assert(s@.skip(0) =~= s@);
    loop
        invariant
            i <= s.len(),
            trimmed_start(s@) == trimmed_start(s@.skip(i as int)),
        decreases s.len() - i,
    {
        let width = space_width(s, i);
        proof {
            lemma_space_at_skip(s@, i as int);
            assert(s@.skip(i as int).skip(width as int) =~= s@.skip(i + width));
        }
        if width == 0 {
            assert(s@.subrange(i as int, s@.len() as int) =~= s@.skip(i as int));
            return slice_subrange(s, i, s.len());
        }
        i += width;
    }
}

/// How many bytes the white-space character takes that ends the first `n`
/// bytes of `s`.
fn space_width_before(s: &[u8], n: usize) -> (r: usize)
    requires
        n <= s@.len(),
    ensures
        r == space_before(s@.take(n as int)),
        r <= n,
{
    let ghost part = s@.take(n as int);
    if n >= 1 {
        let width = space_width(s, n - 1);
        proof {
            lemma_space_at_take(s@, n as int, n - 1);
        }
        if width == 1 {
            return 1;
        }
    }
    if n >= 2 {
        let width = space_width(s, n - 2);
        proof {
            lemma_space_at_take(s@, n as int, n - 2);
        }
        if width == 2 {
            return 2;
        }
    }
    if n >= 3 {
        let width = space_width(s, n - 3);
        proof {
            lemma_space_at_take(s@, n as int, n - 3);
        }
        if width == 3 {
            return 3;
        }
    }
    0
}

/// `s` without its trailing white space.
pub fn trim_end(s: &[u8]) -> (r: &[u8])
    ensures
        r@ == trimmed_end(s@),
{
    let mut n: usize = s.len();
    assert(s@.take(s@.len() as int) =~= s@);
    loop
        invariant
            n <= s.len(),
            trimmed_end(s@) == trimmed_end(s@.take(n as int)),
        decreases n,
    {
        let width = space_width_before(s, n);
        proof {
            assert(s@.take(n as int).take(n - width) =~= s@.take(n - width));
        }
        if width == 0 {
            assert(s@.subrange(0, n as int) =~= s@.take(n as int));
            return slice_subrange(s, 0, n);
        }
        n -= width;
    }
}

/// `s` without leading and trailing white space.
pub fn trim(s: &[u8]) -> (r: &[u8])
    ensures
        r@ == trimmed(s@),
{
    trim_end(trim_start(s))
}

/// Tests one byte for an ASCII digit.
pub fn is_digit_byte(b: u8) -> (r: bool)
    ensures
        r == is_digit(b),
{
    0x30 <= b && b <= 0x39
}

/// A digit string denotes at least what any of its prefixes denotes.
pub proof fn lemma_decimal_value_prefix(s: Seq<u8>, n: int)
    requires
        0 <= n <= s.len(),
        all_digits(s),
    ensures
        decimal_value(s.take(n)) <= decimal_value(s),
    decreases s.len() - n,
{
    if n < s.len() {
        assert(is_digit(s[s.len() - 1]));
        assert forall|i: int| 0 <= i < s.drop_last().len() implies is_digit(
            #[trigger] s.drop_last()[i],
        ) by {
            assert(is_digit(s[i]));
        }
        lemma_decimal_value_prefix(s.drop_last(), n);
        assert(s.drop_last().take(n) =~= s.take(n));
    } else {
        assert(s.take(n) =~= s);
    }
}

/// The number that an all-digit string denotes, when it is at most `limit`.
fn parse_digits(s: &[u8], limit: u32) -> (r: Option<u32>)
    ensures
        r == if s@.len() > 0 && all_digits(s@) && decimal_value(s@) <= limit {
            Some(decimal_value(s@) as u32)
        } else {
            None::<u32>
        },
{
    if s.len() == 0 {
        return None;
    }
    let mut value: u32 = 0;
    let mut i: usize = 0;
    while i < s.len()
        invariant
            i <= s.len(),
            all_digits(s@.take(i as int)),
            value == decimal_value(s@.take(i as int)),
            value <= limit,
        decreases s.len() - i,
    {
        let b = s[i];
        if !is_digit_byte(b) {
            return None;
        }
        let digit: u32 = (b - 0x30) as u32;
        let ghost next = s@.take(i + 1);
        proof {
            assert(next.drop_last() =~= s@.take(i as int));
            assert(next.last() == b);
            assert forall|j: int| 0 <= j < next.len() implies is_digit(#[trigger] next[j]) by {
                if j < i {
                    assert(is_digit(s@.take(i as int)[j]));
                }
            }
        }
        if digit > limit || value > (limit - digit) / 10 {
            proof {
                assert(decimal_value(next) > limit);
                if all_digits(s@) {
                    lemma_decimal_value_prefix(s@, i + 1);
                }
            }
            return None;
        }
        value = value * 10 + digit;
        i += 1;
    }
    assert(s@.take(s@.len() as int) =~= s@);
    Some(value)
}

/// Reads a `u32` written in base ten, with an optional leading `+`.
pub fn parse_u32(s: &[u8]) -> (r: Option<u32>)
    ensures
        r == u32_of(s@),
{
    if s.len() > 0 && s[0] == 0x2b {
        let body = slice_subrange(s, 1, s.len());
        assert(body@ =~= s@.drop_first());
        parse_digits(body, u32::MAX)
    } else {
        parse_digits(s, u32::MAX)
    }
}

/// Reads an `i32` written in base ten, with an optional leading `+` or `-`.
pub fn parse_i32(s: &[u8]) -> (r: Option<i32>)
    ensures
        r == i32_of(s@),
{
    if s.len() > 0 && s[0] == 0x2d {
        let body = slice_subrange(s, 1, s.len());
        assert(body@ =~= s@.drop_first());
        match parse_digits(body, 0x8000_0000) {
            Some(v) => {
                if v == 0x8000_0000 {
                    Some(i32::MIN)
                } else {
                    Some(-(v as i32))
                }
            },
            None => None,
        }
    } else if s.len() > 0 && s[0] == 0x2b {
        let body = slice_subrange(s, 1, s.len());
        assert(body@ =~= s@.drop_first());
        match parse_digits(body, 0x7fff_ffff) {
            Some(v) => Some(v as i32),
            None => None,
        }
    } else {
        match parse_digits(s, 0x7fff_ffff) {
            Some(v) => Some(v as i32),
            None => None,
        }
    }
}

/// Writes a `u64` in base ten, without sign or leading zeros.
pub fn u64_digits(n: u64) -> (r: Vec<u8>)
    ensures
        r@ == decimal_digits(n as nat),
    decreases n,
{
    if n < 10 {
        let mut out: Vec<u8> = Vec::new();
        out.push(0x30 + n as u8);
        assert(out@ =~= decimal_digits(n as nat));
        out
    } else {
        let mut out = u64_digits(n / 10);
        out.push(0x30 + (n % 10) as u8);
        out
    }
}

/// Writes a `u32` in base ten, without sign or leading zeros.
pub fn u32_digits(n: u32) -> (r: Vec<u8>)
    ensures
        r@ == decimal_digits(n as nat),
{
    u64_digits(n as u64)
}

/// Writing a number and reading it back gives the number: the digits are all
/// digits, there is at least one, and they denote `n`.
pub proof fn lemma_decimal_round_trip(n: nat)
    ensures
        decimal_digits(n).len() > 0,
        all_digits(decimal_digits(n)),
        decimal_value(decimal_digits(n)) == n,
        decimal_digits(n)[0] != 0x2b,
        decimal_digits(n)[0] != 0x2d,
    decreases n,
{
    if n < 10 {
        let d = decimal_digits(n);
        assert(d.drop_last() =~= Seq::<u8>::empty());
        assert(decimal_value(d.drop_last()) == 0);
    } else {
        lemma_decimal_round_trip(n / 10);
        let d = decimal_digits(n);
        assert(d.drop_last() =~= decimal_digits(n / 10));
    }
}

/// Reading back what `u32_digits` wrote gives the number written.
pub proof fn lemma_u32_round_trip(n: u32)
    ensures
        u32_of(decimal_digits(n as nat)) == Some(n),
{
    lemma_decimal_round_trip(n as nat);
}

/// The bytes of an ASCII string are its characters, one byte each.
pub proof fn lemma_ascii_bytes(s: &str)
    requires
        vstd::string::is_ascii(s),
    ensures
        s.spec_bytes().len() == s@.len(),
        forall|i: int| 0 <= i < s@.len() ==> #[trigger] s.spec_bytes()[i] == s@[i] as u8,
{
    vstd::utf8::is_ascii_chars_encode_utf8(s@);
}

/// What a scan has gathered, as a field of its own if it is not empty.
pub open spec fn gathered(current: Seq<u8>) -> Seq<Seq<u8>> {
    if current.len() > 0 {
        seq![current]
    } else {
        Seq::empty()
    }
}

/// The words of `s` from offset `i` on, where `current` is the part of a word
/// gathered so far.
pub open spec fn words_from(s: Seq<u8>, i: int, current: Seq<u8>) -> Seq<Seq<u8>>
    decreases s.len() - i,
{
    if i < 0 || i >= s.len() {
        gathered(current)
    } else if space_at(s, i) > 0 {
        gathered(current) + words_from(s, i + space_at(s, i), Seq::empty())
    } else {
        words_from(s, i + 1, current.push(s[i]))
    }
}

/// The words of `s`: what stands between its white space.
pub open spec fn words(s: Seq<u8>) -> Seq<Seq<u8>> {
    words_from(s, 0, Seq::empty())
}

/// The fields of `s` from offset `i` on, where `current` is the part of a
/// field gathered so far.
pub open spec fn fields_from(s: Seq<u8>, separator: u8, i: int, current: Seq<u8>) -> Seq<Seq<u8>>
    decreases s.len() - i,
{
    if i < 0 || i >= s.len() {
        seq![current]
    } else if s[i] == separator {
        seq![current] + fields_from(s, separator, i + 1, Seq::empty())
    } else {
        fields_from(s, separator, i + 1, current.push(s[i]))
    }
}

/// The fields of `s`: what stands between its separators, empty fields too.
/// A text without a separator is one field.
pub open spec fn fields(s: Seq<u8>, separator: u8) -> Seq<Seq<u8>> {
    fields_from(s, separator, 0, Seq::empty())
}

/// A line without the carriage return that may end it.
pub open spec fn without_return(line: Seq<u8>) -> Seq<u8> {
    if line.len() > 0 && line.last() == 0x0d {
        line.drop_last()
    } else {
        line
    }
}

/// The lines of `s` from offset `i` on, where `current` is the part of a line
/// gathered so far.
pub open spec fn lines_from(s: Seq<u8>, i: int, current: Seq<u8>) -> Seq<Seq<u8>>
    decreases s.len() - i,
{
    if i < 0 || i >= s.len() {
        gathered(current)
    } else if s[i] == 0x0a {
        seq![without_return(current)] + lines_from(s, i + 1, Seq::empty())
    } else {
        lines_from(s, i + 1, current.push(s[i]))
    }
}

/// The lines of `s`. A line ends with a line feed, or with a carriage return
/// and a line feed; neither belongs to the line. What follows the last line
/// feed is a line if it is not empty, carriage return and all.
pub open spec fn lines(s: Seq<u8>) -> Seq<Seq<u8>> {
    lines_from(s, 0, Seq::empty())
}

/// Each of the byte strings by its view.
pub open spec fn views(parts: Seq<Vec<u8>>) -> Seq<Seq<u8>> {
    Seq::new(parts.len(), |k: int| parts[k]@)
}

/// Splits `s` into its words.
pub fn split_words(s: &[u8]) -> (r: Vec<Vec<u8>>)
    ensures
        views(r@) == words(s@),
{
    let mut out: Vec<Vec<u8>> = Vec::new();
    let mut current: Vec<u8> = Vec::new();
    let mut i: usize = 0;
    assert(views(out@) =~= Seq::<Seq<u8>>::empty());
    while i < s.len()
        invariant
            i <= s.len(),
            views(out@) + words_from(s@, i as int, current@) == words(s@),
        decreases s.len() - i,
    {
        let width = space_width(s, i);
        if width > 0 {
            if current.len() > 0 {
                let ghost before = views(out@);
                let ghost word = current@;
                out.push(current);
                current = Vec::new();
                assert(views(out@) =~= before + seq![word]);
                assert(before + (seq![word] + words_from(s@, i + width, Seq::empty())) =~= (before
                    + seq![word]) + words_from(s@, i + width, Seq::empty()));
            } else {
                assert(current@ =~= Seq::<u8>::empty());
                assert(gathered(current@) + words_from(s@, i + width, Seq::empty())
                    =~= words_from(s@, i + width, Seq::empty()));
            }
            i += width;
        } else {
            current.push(s[i]);
            i += 1;
        }
    }
    if current.len() > 0 {
        let ghost before = views(out@);
        let ghost word = current@;
        out.push(current);
        assert(views(out@) =~= before + seq![word]);
    } else {
        assert(views(out@) + Seq::<Seq<u8>>::empty() =~= views(out@));
    }
    out
}

/// Splits `s` into its fields.
pub fn split_fields(s: &[u8], separator: u8) -> (r: Vec<Vec<u8>>)
    ensures
        views(r@) == fields(s@, separator),
{
    let mut out: Vec<Vec<u8>> = Vec::new();
    let mut current: Vec<u8> = Vec::new();
    let mut i: usize = 0;
    assert(views(out@) =~= Seq::<Seq<u8>>::empty());
    while i < s.len()
        invariant
            i <= s.len(),
            views(out@) + fields_from(s@, separator, i as int, current@) == fields(s@, separator),
        decreases s.len() - i,
    {
        let b = s[i];
        if b == separator {
            let ghost before = views(out@);
            let ghost field = current@;
            out.push(current);
            current = Vec::new();
            assert(views(out@) =~= before + seq![field]);
            assert(before + (seq![field] + fields_from(s@, separator, i + 1, Seq::empty())) =~= (
            before + seq![field]) + fields_from(s@, separator, i + 1, Seq::empty()));
        } else {
            current.push(b);
        }
        i += 1;
    }
    let ghost before = views(out@);
    let ghost field = current@;
    out.push(current);
    assert(views(out@) =~= before + seq![field]);
    out
}

/// Splits `s` into its lines.
pub fn split_lines(s: &[u8]) -> (r: Vec<Vec<u8>>)
    ensures
        views(r@) == lines(s@),
{
    let mut out: Vec<Vec<u8>> = Vec::new();
    let mut current: Vec<u8> = Vec::new();
    let mut i: usize = 0;
    assert(views(out@) =~= Seq::<Seq<u8>>::empty());
    while i < s.len()
        invariant
            i <= s.len(),
            views(out@) + lines_from(s@, i as int, current@) == lines(s@),
        decreases s.len() - i,
    {
        let b = s[i];
        if b == 0x0a {
            let ghost before = views(out@);
            let ghost whole = current@;
            if current.len() > 0 && current[current.len() - 1] == 0x0d {
                let _ = current.pop();
            }
            let ghost line = current@;
            assert(line =~= without_return(whole));
            out.push(current);
            current = Vec::new();
            assert(views(out@) =~= before + seq![line]);
            assert(before + (seq![line] + lines_from(s@, i + 1, Seq::empty())) =~= (before
                + seq![line]) + lines_from(s@, i + 1, Seq::empty()));
        } else {
            current.push(b);
        }
        i += 1;
    }
    if current.len() > 0 {
        let ghost before = views(out@);
        let ghost line = current@;
        out.push(current);
        assert(views(out@) =~= before + seq![line]);
    } else {
        assert(views(out@) + Seq::<Seq<u8>>::empty() =~= views(out@));
    }
    out
}

/// The pieces of `s` from offset `i` on, where `current` is the part of a
/// piece gathered so far.
pub open spec fn pieces_from(s: Seq<u8>, separator: u8, i: int, current: Seq<u8>) -> Seq<Seq<u8>>
    decreases s.len() - i,
{
    if i < 0 || i >= s.len() {
        gathered(current)
    } else if s[i] == separator {
        seq![current.push(s[i])] + pieces_from(s, separator, i + 1, Seq::empty())
    } else {
        pieces_from(s, separator, i + 1, current.push(s[i]))
    }
}

/// The pieces that `s` falls into when it is cut after each separator. Every
/// piece but the last ends with the separator; together they are `s`.
pub open spec fn pieces(s: Seq<u8>, separator: u8) -> Seq<Seq<u8>> {
    pieces_from(s, separator, 0, Seq::empty())
}

/// Cuts `s` after each separator.
pub fn split_inclusive(s: &[u8], separator: u8) -> (r: Vec<Vec<u8>>)
    ensures
        views(r@) == pieces(s@, separator),
{
    let mut out: Vec<Vec<u8>> = Vec::new();
    let mut current: Vec<u8> = Vec::new();
    let mut i: usize = 0;
    assert(views(out@) =~= Seq::<Seq<u8>>::empty());
    while i < s.len()
        invariant
            i <= s.len(),
            views(out@) + pieces_from(s@, separator, i as int, current@) == pieces(s@, separator),
        decreases s.len() - i,
    {
        let b = s[i];
        current.push(b);
        if b == separator {
            let ghost before = views(out@);
            let ghost piece = current@;
            out.push(current);
            current = Vec::new();
            assert(views(out@) =~= before + seq![piece]);
            assert(before + (seq![piece] + pieces_from(s@, separator, i + 1, Seq::empty())) =~= (
            before + seq![piece]) + pieces_from(s@, separator, i + 1, Seq::empty()));
        }
        i += 1;
    }
    if current.len() > 0 {
        let ghost before = views(out@);
        let ghost piece = current@;
        out.push(current);
        assert(views(out@) =~= before + seq![piece]);
    } else {
        assert(views(out@) + Seq::<Seq<u8>>::empty() =~= views(out@));
    }
    out
}

/// `s` without any of the copies of `suffix` that end it.
pub open spec fn without_suffixes(s: Seq<u8>, suffix: Seq<u8>) -> Seq<u8>
    decreases s.len(),
{
    if suffix.len() > 0 && has_suffix(s, suffix) {
        without_suffixes(s.take(s.len() - suffix.len()), suffix)
    } else {
        s
    }
}

/// Takes every copy of `suffix` off the end of `s`.
pub fn trim_end_matches<'a>(s: &'a [u8], suffix: &[u8]) -> (r: &'a [u8])
    ensures
        r@ == without_suffixes(s@, suffix@),
{
    if suffix.len() == 0 {
        return s;
    }
    let mut rest = s;
    while ends_with(rest, suffix)
        invariant
            suffix@.len() > 0,
            without_suffixes(rest@, suffix@) == without_suffixes(s@, suffix@),
        decreases rest@.len(),
    {
        let shorter = slice_subrange(rest, 0, rest.len() - suffix.len());
        assert(shorter@ =~= rest@.take(rest@.len() - suffix@.len()));
        rest = shorter;
    }
    rest
}

} // verus!
