//! Byte and string helpers shared by the mechanisms: the separator
//! escaping of GS2 and SCRAM, and the few std conversions between
//! bytes and strings the exchanges need.

use vstd::prelude::*;
use vstd::string::StringExecFns;
use vstd::utf8::*;

verus! {

broadcast use vstd::string::group_string_axioms;

/// What `String::from_utf8_lossy` makes of a byte sequence: the
/// decoded characters, with every ill-formed subsequence replaced by
/// U+FFFD.
pub uninterp spec fn spec_utf8_lossy(bytes: Seq<u8>) -> Seq<char>;

/// The characters of an optional string.
pub open spec fn opt_string_chars(s: Option<String>) -> Option<Seq<char>> {
    match s {
        Some(s) => Some(s@),
        None => None,
    }
}

/// `String::push`: appends one character.
#[verifier::external_body]
pub(crate) fn string_push(s: &mut String, c: char)
    ensures
        final(s)@ == old(s)@.push(c),
{
    s.push(c);
}

/// `core::str::from_utf8`, reduced to whether it accepts the bytes:
/// it accepts exactly the well-formed UTF-8 sequences.
#[verifier::external_body]
pub(crate) fn is_utf8(bytes: &[u8]) -> (valid: bool)
    ensures
        valid == valid_utf8(bytes@),
{
    core::str::from_utf8(bytes).is_ok()
}

/// `String::from_utf8`: the string the bytes encode, when they are
/// well-formed UTF-8.
#[verifier::external_body]
pub(crate) fn string_from_utf8(bytes: &[u8]) -> (s: Option<String>)
    ensures
        s is Some <==> valid_utf8(bytes@),
        s matches Some(s) ==> s@ == decode_utf8(bytes@),
{
    String::from_utf8(bytes.to_vec()).ok()
}

/// `String::from_utf8_lossy`: the string the bytes encode, with every
/// ill-formed subsequence replaced by U+FFFD. Well-formed input comes
/// back decoded unchanged.
#[verifier::external_body]
pub(crate) fn string_from_utf8_lossy(bytes: &[u8]) -> (s: String)
    ensures
        s@ == spec_utf8_lossy(bytes@),
        valid_utf8(bytes@) ==> s@ == decode_utf8(bytes@),
{
    String::from_utf8_lossy(bytes).into_owned()
}

/// A string of its own holding `text`.
pub(crate) fn owned(text: &str) -> (owned: String)
    ensures
        owned@ == text@,
{
    text.to_owned()
}

/// `prefix` followed by `text`, as one string.
pub(crate) fn concat(prefix: &str, text: &str) -> (joined: String)
    ensures
        joined@ == prefix@ + text@,
{
    let mut joined = prefix.to_owned();
    joined.append(text);
    joined
}

/// Appends a byte slice to a vector.
pub(crate) fn push_bytes(v: &mut Vec<u8>, s: &[u8])
    ensures
        final(v)@ == old(v)@ + s@,
{
    let ghost start = v@;
    let mut i: usize = 0;
    while i < s.len()
        invariant
            i <= s.len(),
            v@ == start + s@.take(i as int),
        decreases s.len() - i,
    {
        v.push(s[i]);
        i = i + 1;
        assert(start + s@.take(i as int) =~= v@);
    }
    assert(s@.take(i as int) =~= s@);
}

/// The fields of `s` between the occurrences of `sep`, as `str::split`
/// yields them: `n` separators give `n + 1` fields, empty ones
/// included.
pub open spec fn spec_split(s: Seq<u8>, sep: u8) -> Seq<Seq<u8>>
    decreases s.len(),
{
    if s.len() == 0 {
        seq![seq![]]
    } else {
        let prev = spec_split(s.drop_last(), sep);
        if s.last() == sep {
            prev.push(seq![])
        } else {
            prev.update(prev.len() - 1, prev.last().push(s.last()))
        }
    }
}

/// Splitting always yields at least one field.
pub proof fn lemma_split_nonempty(s: Seq<u8>, sep: u8)
    ensures
        spec_split(s, sep).len() >= 1,
    decreases s.len(),
{
    if s.len() > 0 {
        lemma_split_nonempty(s.drop_last(), sep);
    }
}

/// The byte views of a sequence of vectors.
pub open spec fn views(vs: Seq<Vec<u8>>) -> Seq<Seq<u8>> {
    vs.map_values(|v: Vec<u8>| v@)
}

/// Splits `s` at every `sep`, as `str::split` does.
pub fn split(s: &[u8], sep: u8) -> (fields: Vec<Vec<u8>>)
    ensures
        views(fields@) == spec_split(s@, sep),
{
    let mut fields: Vec<Vec<u8>> = Vec::new();
    let mut cur: Vec<u8> = Vec::new();
    let mut i: usize = 0;
    while i < s.len()
        invariant
            i <= s.len(),
            views(fields@).push(cur@) == spec_split(s@.take(i as int), sep),
        decreases s.len() - i,
    {
        let ghost before = s@.take(i as int);
        proof {
            assert(s@.take(i + 1).drop_last() =~= before);
            lemma_split_nonempty(before, sep);
        }
        if s[i] == sep {
            let done = cur;
            cur = Vec::new();
            fields.push(done);
            assert(views(fields@).push(cur@) =~= spec_split(before, sep).push(seq![]));
        } else {
            let ghost prev_fields = views(fields@);
            cur.push(s[i]);
            assert(views(fields@).push(cur@) =~= spec_split(before, sep).update(
                spec_split(before, sep).len() - 1,
                spec_split(before, sep).last().push(s@[i as int]),
            ));
        }
        i = i + 1;
    }
    fields.push(cur);
    assert(s@.take(i as int) =~= s@);
    fields
}

/// `p` opens `s`.
pub open spec fn has_prefix(s: Seq<u8>, p: Seq<u8>) -> bool {
    p.len() <= s.len() && s.take(p.len() as int) == p
}

/// An ASCII decimal digit.
pub open spec fn is_digit(b: u8) -> bool {
    0x30 <= b <= 0x39
}

/// The value of a string of decimal digits, most significant first.
pub open spec fn spec_decimal_value(digits: Seq<u8>) -> nat
    decreases digits.len(),
{
    if digits.len() == 0 {
        0
    } else {
        spec_decimal_value(digits.drop_last()) * 10 + (digits.last() - 0x30) as nat
    }
}

/// Every byte is a decimal digit.
pub open spec fn all_digits(digits: Seq<u8>) -> bool {
    forall|i: int| 0 <= i < digits.len() ==> is_digit(#[trigger] digits[i])
}

/// The digits of a decimal integer, its optional leading `+` removed.
pub open spec fn spec_unsigned_digits(s: Seq<u8>) -> Seq<u8> {
    if s.len() > 0 && s[0] == 0x2b {
        s.drop_first()
    } else {
        s
    }
}

/// What `str::parse::<u32>` accepts and returns: an optional `+`, then
/// one or more decimal digits whose value fits in 32 bits.
pub open spec fn spec_parse_u32(s: Seq<u8>) -> Option<u32> {
    let digits = spec_unsigned_digits(s);
    if digits.len() > 0 && all_digits(digits) && spec_decimal_value(digits) <= u32::MAX {
        Some(spec_decimal_value(digits) as u32)
    } else {
        None
    }
}

/// Appending digits never makes a decimal value smaller.
proof fn lemma_decimal_value_grows(digits: Seq<u8>, n: int)
    requires
        0 <= n <= digits.len(),
        all_digits(digits),
    ensures
        spec_decimal_value(digits.take(n)) <= spec_decimal_value(digits),
    decreases digits.len() - n,
{
    if n < digits.len() {
        lemma_decimal_value_grows(digits, n + 1);
        assert(digits.take(n + 1).drop_last() =~= digits.take(n));
    } else {
        assert(digits.take(n) =~= digits);
    }
}

/// Parses a decimal `u32` as `str::parse::<u32>` does.
pub fn parse_u32(s: &[u8]) -> (value: Option<u32>)
    ensures
        value == spec_parse_u32(s@),
{
    let start: usize = if s.len() > 0 && s[0] == 0x2b { 1 } else { 0 };
    let ghost digits = spec_unsigned_digits(s@);
    assert(digits =~= s@.skip(start as int));
    if start >= s.len() {
        return None;
    }
    let mut value: u64 = 0;
    let mut i: usize = start;
    while i < s.len()
        invariant
            start <= i <= s.len(),
            digits == spec_unsigned_digits(s@),
            digits =~= s@.skip(start as int),
            digits.len() > 0,
            forall|j: int| 0 <= j < i - start ==> is_digit(#[trigger] digits[j]),
            value == spec_decimal_value(digits.take(i - start)),
            value <= u32::MAX,
        decreases s.len() - i,
    {
        let b = s[i];
        if b < 0x30 || b > 0x39 {
            assert(digits[i - start] == b);
            assert(!is_digit(digits[i - start]));
            return None;
        }
        assert(digits.take(i - start + 1).drop_last() =~= digits.take(i - start));
        let next = value * 10 + (b - 0x30) as u64;
        assert(next == spec_decimal_value(digits.take(i - start + 1)));
        i = i + 1;
        if next > 0xffff_ffff {
            proof {
                if all_digits(digits) {
                    lemma_decimal_value_grows(digits, i - start);
                }
            }
            return None;
        }
        value = next;
    }
    assert(digits.take(i - start) =~= digits);
    Some(value as u32)
}

/// The decimal digits of `n`, most significant first, without
/// leading zeros, as `Display` writes an unsigned integer.
pub open spec fn spec_decimal(n: nat) -> Seq<u8>
    decreases n,
{
    if n < 10 {
        seq![(0x30 + n) as u8]
    } else {
        spec_decimal(n / 10).push((0x30 + n % 10) as u8)
    }
}

/// Writes `n` in decimal.
pub fn decimal(n: u32) -> (digits: Vec<u8>)
    ensures
        digits@ == spec_decimal(n as nat),
    decreases n,
{
    if n < 10 {
        let mut digits: Vec<u8> = Vec::new();
        digits.push((0x30 + n) as u8);
        digits
    } else {
        let mut digits = decimal(n / 10);
        digits.push((0x30 + n % 10) as u8);
        digits
    }
}

/// The lowercase hexadecimal digits of the bytes, two per byte.
pub open spec fn spec_hex_lower(bytes: Seq<u8>) -> Seq<u8>
    decreases bytes.len(),
{
    if bytes.len() == 0 {
        seq![]
    } else {
        spec_hex_lower(bytes.drop_last()) + seq![
            spec_hex_digit(bytes.last() / 16),
            spec_hex_digit(bytes.last() % 16),
        ]
    }
}

/// The lowercase hexadecimal digit of a nibble.
pub open spec fn spec_hex_digit(nibble: u8) -> u8 {
    if nibble < 10 {
        (0x30 + nibble) as u8
    } else {
        (0x61 + nibble - 10) as u8
    }
}

/// The lowercase hexadecimal digit of a nibble.
fn hex_digit(nibble: u8) -> (digit: u8)
    requires
        nibble < 16,
    ensures
        digit == spec_hex_digit(nibble),
{
    if nibble < 10 {
        0x30 + nibble
    } else {
        0x61 + nibble - 10
    }
}

/// Writes the bytes in lowercase hexadecimal, two digits per byte.
pub fn hex_lower(bytes: &[u8]) -> (hex: Vec<u8>)
    ensures
        hex@ == spec_hex_lower(bytes@),
{
    let mut hex: Vec<u8> = Vec::new();
    let mut i: usize = 0;
    while i < bytes.len()
        invariant
            i <= bytes.len(),
            hex@ == spec_hex_lower(bytes@.take(i as int)),
        decreases bytes.len() - i,
    {
        let b = bytes[i];
        hex.push(hex_digit(b / 16));
        hex.push(hex_digit(b % 16));
        assert(bytes@.take(i + 1).drop_last() =~= bytes@.take(i as int));
        i = i + 1;
        assert(hex@ =~= spec_hex_lower(bytes@.take(i as int)));
    }
    assert(bytes@.take(i as int) =~= bytes@);
    hex
}

/// The decimal digits of `n` read back as `n`: they are all digits, at
/// least one, and their value is `n`.
pub proof fn lemma_decimal_reads_back(n: nat)
    ensures
        spec_decimal(n).len() > 0,
        all_digits(spec_decimal(n)),
        spec_decimal_value(spec_decimal(n)) == n,
    decreases n,
{
    if n >= 10 {
        lemma_decimal_reads_back(n / 10);
        let d = spec_decimal(n);
        let prev = spec_decimal(n / 10);
        assert(d == prev.push((0x30 + n % 10) as u8));
        assert(d.drop_last() =~= prev);
        assert forall|i: int| 0 <= i < d.len() implies is_digit(#[trigger] d[i]) by {
            if i < prev.len() {
                assert(d[i] == prev[i]);
            }
        }
        assert(d.last() == (0x30 + n % 10) as u8);
        assert((d.last() - 0x30) as nat == n % 10);
        assert(spec_decimal_value(d) == spec_decimal_value(prev) * 10 + (d.last() - 0x30) as nat);
        assert((n / 10) * 10 + n % 10 == n) by (nonlinear_arith);
    } else {
        let d = spec_decimal(n);
        assert(d.drop_last() =~= Seq::<u8>::empty());
        assert(spec_decimal_value(Seq::<u8>::empty()) == 0);
        assert(d.last() == (0x30 + n) as u8);
        assert(spec_decimal_value(d) == spec_decimal_value(d.drop_last()) * 10 + (d.last() - 0x30) as nat);
    }
}

/// Parsing the decimal digits of any 32-bit value gives that value back,
/// as `str::parse::<u32>` does of what `Display` writes.
pub proof fn lemma_parse_u32_reads_decimal(n: u32)
    ensures
        spec_parse_u32(spec_decimal(n as nat)) == Some(n),
{
    lemma_decimal_reads_back(n as nat);
    let d = spec_decimal(n as nat);
    assert(is_digit(d[0]));
    assert(spec_unsigned_digits(d) == d);
}

/// The value of a lowercase hexadecimal digit.
pub open spec fn spec_hex_value(digit: u8) -> u8 {
    if 0x30 <= digit <= 0x39 {
        (digit - 0x30) as u8
    } else {
        (digit - 0x61 + 10) as u8
    }
}

/// Reads hexadecimal digits back as bytes, two digits per byte, the
/// more significant first.
pub open spec fn spec_unhex(hex: Seq<u8>) -> Seq<u8>
    decreases hex.len(),
{
    if hex.len() < 2 {
        seq![]
    } else {
        spec_unhex(hex.take(hex.len() - 2)).push(
            (spec_hex_value(hex[hex.len() - 2]) * 16 + spec_hex_value(hex[hex.len() - 1])) as u8,
        )
    }
}

/// Lowercase hexadecimal reads back as the bytes it was written from,
/// and is made of lowercase hexadecimal digits only.
pub proof fn lemma_hex_lower_reads_back(bytes: Seq<u8>)
    ensures
        spec_unhex(spec_hex_lower(bytes)) == bytes,
        spec_hex_lower(bytes).len() == 2 * bytes.len(),
        forall|i: int| 0 <= i < spec_hex_lower(bytes).len() ==> {
            let d = #[trigger] spec_hex_lower(bytes)[i];
            (0x30 <= d <= 0x39) || (0x61 <= d <= 0x66)
        },
    decreases bytes.len(),
{
    if bytes.len() > 0 {
        let prev = bytes.drop_last();
        lemma_hex_lower_reads_back(prev);
        let b = bytes.last();
        let h = spec_hex_lower(bytes);
        let hp = spec_hex_lower(prev);
        assert(h == hp + seq![spec_hex_digit(b / 16), spec_hex_digit(b % 16)]);
        assert(h.take(h.len() - 2) =~= hp);
        assert(spec_hex_value(spec_hex_digit(b / 16)) == b / 16);
        assert(spec_hex_value(spec_hex_digit(b % 16)) == b % 16);
        assert((b / 16) * 16 + b % 16 == b);
        assert(spec_unhex(h) =~= bytes);
        assert forall|i: int| 0 <= i < h.len() implies {
            let d = #[trigger] h[i];
            (0x30 <= d <= 0x39) || (0x61 <= d <= 0x66)
        } by {
            if i < hp.len() {
                assert(h[i] == hp[i]);
            }
        }
    }
}

} // verus!
