//! SASLprep (RFC 4013), the string preparation PLAIN and SCRAM ask for.
//!
//! Two ends of an exchange have to agree on the bytes a password is
//! before they can agree on a hash of it. A server preparing what it
//! stores and a client sending what the user typed will differ on any
//! password carrying a non-breaking space, a soft hyphen, a fullwidth
//! character or a decomposed accent, and the failure looks like a wrong
//! password with nothing to point at.
//!
//! Three steps, in order. Non-ASCII spaces become an ASCII space, the
//! characters RFC 3454 appendix B.1 calls commonly mapped to nothing are
//! removed, and the result is normalized to NFKC. What comes out is
//! then checked for the code points the profile prohibits.
//!
//! Two of the checks RFC 3454 lists are not made here, and neither
//! changes the bytes a client sends: the bidirectional rule of section
//! 6 and the unassigned code points of appendix A.1. Both reject rather
//! than transform, and a server enforcing them will reject the same
//! string anyway.

use unicode_normalization::UnicodeNormalization;
use vstd::prelude::*;
use vstd::string::StringExecFns;
use vstd::std_specs::iter::IteratorSpec;
use vstd::string::StrSliceExecFns;

use crate::text::{concat, string_push};

verus! {

broadcast use vstd::string::group_string_axioms;

/// Failure causes of the preparation.
#[derive(Clone, Copy, Debug, PartialEq, Eq, Structural)]
pub enum SaslPrepError {
    /// The string carries a code point the profile prohibits, listed
    /// with the character that broke it.
    ProhibitedCharacter(char),
}

/// The uppercase hexadecimal digit of a nibble.
pub open spec fn spec_hex_upper_digit(nibble: nat) -> char {
    if nibble < 10 {
        ((0x30 + nibble) as u8) as char
    } else {
        ((0x41 + nibble - 10) as u8) as char
    }
}

/// The uppercase hexadecimal digits of `n`, without leading zeros.
pub open spec fn spec_hex_upper(n: nat) -> Seq<char>
    decreases n,
{
    if n < 16 {
        seq![spec_hex_upper_digit(n)]
    } else {
        spec_hex_upper(n / 16).push(spec_hex_upper_digit(n % 16))
    }
}

/// `{:04X}`: the uppercase hexadecimal digits of `n`, zero-padded to at
/// least four.
pub open spec fn spec_code_point(n: nat) -> Seq<char> {
    let digits = spec_hex_upper(n);
    if digits.len() >= 4 {
        digits
    } else {
        Seq::new((4 - digits.len()) as nat, |i: int| '0') + digits
    }
}

impl SaslPrepError {
    /// The message describing the failure.
    pub open spec fn spec_message(&self) -> Seq<char> {
        match self {
            SaslPrepError::ProhibitedCharacter(c) => "SASLprep failed: prohibited character U+"@ + spec_code_point(
                *c as nat,
            ),
        }
    }

    /// The message describing the failure, as the error's display text.
    pub fn to_string(&self) -> (message: String)
        ensures
            message@ == self.spec_message(),
    {
        match self {
            SaslPrepError::ProhibitedCharacter(c) => {
                let code = code_point(*c as u32);
                concat("SASLprep failed: prohibited character U+", code.as_str())
            },
        }
    }
}

/// The uppercase hexadecimal digit of a nibble.
fn hex_upper_digit(nibble: u32) -> (digit: char)
    requires
        nibble < 16,
    ensures
        digit == spec_hex_upper_digit(nibble as nat),
{
    if nibble < 10 {
        ((0x30 + nibble) as u8) as char
    } else {
        ((0x41 + nibble - 10) as u8) as char
    }
}

/// The uppercase hexadecimal digits of `n`, without leading zeros.
fn hex_upper(n: u32) -> (digits: String)
    ensures
        digits@ == spec_hex_upper(n as nat),
    decreases n,
{
    if n < 16 {
        let mut digits = String::new();
        string_push(&mut digits, hex_upper_digit(n));
        digits
    } else {
        let mut digits = hex_upper(n / 16);
        string_push(&mut digits, hex_upper_digit(n % 16));
        digits
    }
}

/// `{:04X}` of a code point.
fn code_point(n: u32) -> (text: String)
    ensures
        text@ == spec_code_point(n as nat),
{
    let digits = hex_upper(n);
    let count = digits.as_str().unicode_len();
    if count >= 4 {
        digits
    } else {
        let mut text = String::new();
        let mut i: usize = count;
        while i < 4
            invariant
                count <= i <= 4,
                text@ == Seq::new((i - count) as nat, |j: int| '0'),
            decreases 4 - i,
        {
            string_push(&mut text, '0');
            i = i + 1;
            assert(text@ =~= Seq::new((i - count) as nat, |j: int| '0'));
        }
        text.append(digits.as_str());
        text
    }
}

/// The non-ASCII spaces of RFC 3454 appendix C.1.2, which become an
/// ASCII space.
pub open spec fn spec_is_non_ascii_space(c: char) -> bool {
    let u = c as u32;
    u == 0x00a0 || u == 0x1680 || (0x2000 <= u <= 0x200b) || u == 0x202f || u == 0x205f || u == 0x3000
}

/// The characters RFC 3454 appendix B.1 maps to nothing, joiners and
/// selectors a user cannot see and a server will not store.
pub open spec fn spec_is_mapped_to_nothing(c: char) -> bool {
    let u = c as u32;
    u == 0x00ad || u == 0x034f || u == 0x1806 || (0x180b <= u <= 0x180d) || (0x200b <= u <= 0x200d)
        || u == 0x2060 || (0xfe00 <= u <= 0xfe0f) || u == 0xfeff
}

/// The ASCII and non-ASCII controls of appendices C.2.1 and C.2.2.
pub open spec fn spec_is_control(c: char) -> bool {
    let u = c as u32;
    (u <= 0x001f) || (0x007f <= u <= 0x009f) || u == 0x06dd || u == 0x070f || u == 0x180e || u
        == 0x200c || u == 0x200d || u == 0x2028 || u == 0x2029 || (0x2060 <= u <= 0x2063) || (
    0x206a <= u <= 0x206f) || u == 0xfeff || (0xfff9 <= u <= 0xfffc) || (0x1d173 <= u <= 0x1d17a)
}

/// The private use areas of appendix C.3.
pub open spec fn spec_is_private_use(c: char) -> bool {
    let u = c as u32;
    (0xe000 <= u <= 0xf8ff) || (0xf0000 <= u <= 0xffffd) || (0x100000 <= u <= 0x10fffd)
}

/// The non-character code points of appendix C.4.
pub open spec fn spec_is_non_character(c: char) -> bool {
    let u = c as u32;
    (0xfdd0 <= u <= 0xfdef) || (u & 0xfffe) == 0xfffe
}

/// The non-characters are U+FDD0 to U+FDEF and the last two code points
/// of every plane: U+FFFE, U+FFFF, U+1FFFE, U+1FFFF, ..., U+10FFFF.
pub proof fn lemma_non_characters_are_the_plane_ends(c: char)
    ensures
        spec_is_non_character(c) <==> ((0xfdd0 <= c as u32 <= 0xfdef) || (c as u32) & 0xffff >= 0xfffe),
{
    let u = c as u32;
    assert(((u & 0xfffe) == 0xfffe) <==> ((u & 0xffff) >= 0xfffe)) by (bit_vector);
}

/// The code points inappropriate for plain text or for canonical
/// representation, appendices C.6 and C.7.
pub open spec fn spec_is_inappropriate(c: char) -> bool {
    let u = c as u32;
    (0xfff9 <= u <= 0xfffd) || (0x2ff0 <= u <= 0x2ffb)
}

/// The characters changing display properties or deprecated, appendix
/// C.8.
pub open spec fn spec_is_change_display(c: char) -> bool {
    let u = c as u32;
    u == 0x0340 || u == 0x0341 || u == 0x200e || u == 0x200f || (0x202a <= u <= 0x202e) || (0x206a
        <= u <= 0x206f)
}

/// The tagging characters of appendix C.9.
pub open spec fn spec_is_tagging(c: char) -> bool {
    let u = c as u32;
    u == 0xe0001 || (0xe0020 <= u <= 0xe007f)
}

/// The code points the profile prohibits in its output (RFC 4013
/// section 2.3). C.5, the surrogate codes, cannot occur in a `char`.
pub open spec fn spec_is_prohibited(c: char) -> bool {
    spec_is_control(c) || spec_is_private_use(c) || spec_is_non_character(c) || spec_is_inappropriate(c)
        || spec_is_change_display(c) || spec_is_tagging(c)
}

/// The mapping step of RFC 4013 section 2.1: non-ASCII spaces become
/// an ASCII space, then what maps to nothing is removed.
pub open spec fn spec_saslprep_map(cs: Seq<char>) -> Seq<char>
    decreases cs.len(),
{
    if cs.len() == 0 {
        seq![]
    } else {
        let prev = spec_saslprep_map(cs.drop_last());
        let c = if spec_is_non_ascii_space(cs.last()) {
            ' '
        } else {
            cs.last()
        };
        if spec_is_mapped_to_nothing(c) {
            prev
        } else {
            prev.push(c)
        }
    }
}

/// The first prohibited character of a string, if any.
pub open spec fn spec_first_prohibited(cs: Seq<char>) -> Option<char>
    decreases cs.len(),
{
    if cs.len() == 0 {
        None
    } else {
        match spec_first_prohibited(cs.drop_last()) {
            Some(c) => Some(c),
            None => if spec_is_prohibited(cs.last()) {
                Some(cs.last())
            } else {
                None
            },
        }
    }
}

/// What NFKC normalization (Unicode Standard Annex #15) makes of a
/// string.
pub uninterp spec fn spec_nfkc(s: Seq<char>) -> Seq<char>;

/// The string SASLprep prepares from `input`: mapped, then normalized.
pub open spec fn spec_prepared(input: Seq<char>) -> Seq<char> {
    spec_nfkc(spec_saslprep_map(input))
}

/// What SASLprep makes of `input`: the prepared string, or the refusal
/// naming its first prohibited character.
pub open spec fn spec_saslprep(input: Seq<char>) -> Result<Seq<char>, SaslPrepError> {
    match spec_first_prohibited(spec_prepared(input)) {
        Some(c) => Err(SaslPrepError::ProhibitedCharacter(c)),
        None => Ok(spec_prepared(input)),
    }
}

/// Every character is ASCII.
pub open spec fn all_ascii(cs: Seq<char>) -> bool {
    forall|i: int| 0 <= i < cs.len() ==> (#[trigger] cs[i] as u32) < 0x80
}

/// `unicode_normalization::UnicodeNormalization::nfkc`, collected: the
/// NFKC normalization of the string (Unicode Standard Annex #15, which
/// the crate implements). A normalized string normalizes to itself, and
/// ASCII text is already normalized: the crate never decomposes a 7-bit
/// character, and its quick check takes every one as an allowed starter.
#[verifier::external_body]
fn nfkc(s: &str) -> (normalized: String)
    ensures
        normalized@ == spec_nfkc(s@),
        spec_nfkc(normalized@) == normalized@,
        all_ascii(s@) ==> normalized@ == s@,
{
    s.nfkc().collect()
}

/// A non-ASCII space, which becomes an ASCII space.
fn is_non_ascii_space(c: char) -> (space: bool)
    ensures
        space == spec_is_non_ascii_space(c),
{
    let u = c as u32;
    u == 0x00a0 || u == 0x1680 || (0x2000 <= u && u <= 0x200b) || u == 0x202f || u == 0x205f || u == 0x3000
}

/// A character commonly mapped to nothing.
fn is_mapped_to_nothing(c: char) -> (nothing: bool)
    ensures
        nothing == spec_is_mapped_to_nothing(c),
{
    let u = c as u32;
    u == 0x00ad || u == 0x034f || u == 0x1806 || (0x180b <= u && u <= 0x180d) || (0x200b <= u && u
        <= 0x200d) || u == 0x2060 || (0xfe00 <= u && u <= 0xfe0f) || u == 0xfeff
}

/// An ASCII or non-ASCII control.
fn is_control(c: char) -> (control: bool)
    ensures
        control == spec_is_control(c),
{
    let u = c as u32;
    (u <= 0x001f) || (0x007f <= u && u <= 0x009f) || u == 0x06dd || u == 0x070f || u == 0x180e || u
        == 0x200c || u == 0x200d || u == 0x2028 || u == 0x2029 || (0x2060 <= u && u <= 0x2063) || (
    0x206a <= u && u <= 0x206f) || u == 0xfeff || (0xfff9 <= u && u <= 0xfffc) || (0x1d173 <= u && u
        <= 0x1d17a)
}

/// A private use code point.
fn is_private_use(c: char) -> (private: bool)
    ensures
        private == spec_is_private_use(c),
{
    let u = c as u32;
    (0xe000 <= u && u <= 0xf8ff) || (0xf0000 <= u && u <= 0xffffd) || (0x100000 <= u && u <= 0x10fffd)
}

/// A non-character code point.
fn is_non_character(c: char) -> (non: bool)
    ensures
        non == spec_is_non_character(c),
{
    let u = c as u32;
    (0xfdd0 <= u && u <= 0xfdef) || (u & 0xfffe) == 0xfffe
}

/// A code point inappropriate for plain text or canonical
/// representation.
fn is_inappropriate(c: char) -> (inappropriate: bool)
    ensures
        inappropriate == spec_is_inappropriate(c),
{
    let u = c as u32;
    (0xfff9 <= u && u <= 0xfffd) || (0x2ff0 <= u && u <= 0x2ffb)
}

/// A character changing display properties, or deprecated.
fn is_change_display(c: char) -> (changes: bool)
    ensures
        changes == spec_is_change_display(c),
{
    let u = c as u32;
    u == 0x0340 || u == 0x0341 || u == 0x200e || u == 0x200f || (0x202a <= u && u <= 0x202e) || (
    0x206a <= u && u <= 0x206f)
}

/// A tagging character.
fn is_tagging(c: char) -> (tagging: bool)
    ensures
        tagging == spec_is_tagging(c),
{
    let u = c as u32;
    u == 0xe0001 || (0xe0020 <= u && u <= 0xe007f)
}

/// A code point the profile prohibits.
fn is_prohibited(c: char) -> (prohibited: bool)
    ensures
        prohibited == spec_is_prohibited(c),
{
    is_control(c) || is_private_use(c) || is_non_character(c) || is_inappropriate(c) || is_change_display(c)
        || is_tagging(c)
}

/// A prefix's first prohibited character is the whole string's.
proof fn lemma_first_prohibited_sticks(a: Seq<char>, b: Seq<char>)
    requires
        spec_first_prohibited(a) is Some,
    ensures
        spec_first_prohibited(a + b) == spec_first_prohibited(a),
    decreases b.len(),
{
    if b.len() > 0 {
        lemma_first_prohibited_sticks(a, b.drop_last());
        assert((a + b).drop_last() =~= a + b.drop_last());
    } else {
        assert(a + b =~= a);
    }
}

/// Checks a prepared string for the code points the profile prohibits,
/// refusing it with the first one found.
pub fn check_prohibited(prepared: String) -> (checked: Result<String, SaslPrepError>)
    ensures
        match spec_first_prohibited(prepared@) {
            Some(c) => checked == Err::<String, SaslPrepError>(SaslPrepError::ProhibitedCharacter(c)),
            None => checked matches Ok(s) && s@ == prepared@,
        },
{
    let ghost whole = prepared@;
    let mut chars = prepared.as_str().chars();
    let ghost mut done: Seq<char> = seq![];
    loop
        invariant
            whole == prepared@,
            whole == done + chars.remaining(),
            spec_first_prohibited(done) is None,
            chars.decrease() is Some,
        ensures
            spec_first_prohibited(whole) is None,
        decreases chars.decrease()->0,
    {
        match chars.next() {
            Some(c) => {
                let ghost prev = done;
                proof {
                    done = done.push(c);
                    assert(done.drop_last() =~= prev);
                }
                if is_prohibited(c) {
                    proof {
                        assert(spec_first_prohibited(done) == Some(c));
                        assert(whole =~= done + chars.remaining());
                        lemma_first_prohibited_sticks(done, chars.remaining());
                    }
                    return Err(SaslPrepError::ProhibitedCharacter(c));
                }
            },
            None => {
                assert(done + chars.remaining() =~= done);
                break;
            },
        }
    }
    Ok(prepared)
}

/// Printable ASCII (U+0020 to U+007E) throughout.
pub open spec fn all_printable_ascii(cs: Seq<char>) -> bool {
    forall|i: int| 0 <= i < cs.len() ==> 0x20 <= (#[trigger] cs[i] as u32) <= 0x7e
}

/// No character the mapping step changes: no non-ASCII space, nothing
/// mapped to nothing.
pub open spec fn unmapped(cs: Seq<char>) -> bool {
    forall|i: int| 0 <= i < cs.len() ==> !spec_is_non_ascii_space(#[trigger] cs[i]) && !spec_is_mapped_to_nothing(cs[i])
}

/// The mapping step leaves a string it has nothing to change in alone.
proof fn lemma_map_leaves_unmapped(cs: Seq<char>)
    requires
        unmapped(cs),
    ensures
        spec_saslprep_map(cs) == cs,
    decreases cs.len(),
{
    if cs.len() > 0 {
        assert(unmapped(cs.drop_last())) by {
            assert forall|i: int| 0 <= i < cs.drop_last().len() implies !spec_is_non_ascii_space(
                #[trigger] cs.drop_last()[i],
            ) && !spec_is_mapped_to_nothing(cs.drop_last()[i]) by {
                assert(cs.drop_last()[i] == cs[i]);
            }
        }
        lemma_map_leaves_unmapped(cs.drop_last());
        assert(!spec_is_non_ascii_space(cs[cs.len() - 1]));
        assert(cs.drop_last().push(cs.last()) =~= cs);
    }
}

/// A string carrying no prohibited character has no first one.
proof fn lemma_none_means_no_first(cs: Seq<char>)
    requires
        forall|i: int| 0 <= i < cs.len() ==> !spec_is_prohibited(#[trigger] cs[i]),
    ensures
        spec_first_prohibited(cs) is None,
    decreases cs.len(),
{
    if cs.len() > 0 {
        assert forall|i: int| 0 <= i < cs.drop_last().len() implies !spec_is_prohibited(#[trigger] cs.drop_last()[i]) by {
            assert(cs.drop_last()[i] == cs[i]);
        }
        lemma_none_means_no_first(cs.drop_last());
        assert(!spec_is_prohibited(cs[cs.len() - 1]));
    }
}

/// Printable ASCII is neither mapped, normalized away nor prohibited.
proof fn lemma_printable_ascii_is_plain(cs: Seq<char>)
    requires
        all_printable_ascii(cs),
    ensures
        unmapped(cs),
        all_ascii(cs),
        spec_first_prohibited(cs) is None,
{
    assert forall|i: int| 0 <= i < cs.len() implies !spec_is_non_ascii_space(#[trigger] cs[i])
        && !spec_is_mapped_to_nothing(cs[i]) && !spec_is_prohibited(cs[i]) && (cs[i] as u32) < 0x80 by {
        let u = cs[i] as u32;
        assert(0x20 <= u <= 0x7e);
        assert(u & 0xfffe != 0xfffe) by (bit_vector)
            requires
                0x20 <= u <= 0x7e,
        ;
    }
    lemma_none_means_no_first(cs);
}

/// Prepares a username or a password as RFC 4013 asks, mapping,
/// normalizing and then checking what came out.
///
/// The check comes after the normalization, so a prohibited character
/// that NFKC folds away never refuses the string.
pub fn saslprep(input: &str) -> (prepared: Result<String, SaslPrepError>)
    ensures
        match spec_saslprep(input@) {
            Ok(p) => prepared matches Ok(s) && s@ == p,
            Err(e) => prepared == Err::<String, SaslPrepError>(e),
        },
        all_printable_ascii(input@) ==> (prepared matches Ok(s) && s@ == input@),
        prepared matches Ok(s) ==> (unmapped(s@) ==> spec_saslprep(s@) == Ok::<Seq<char>, SaslPrepError>(s@)),
{
    let mut mapped = String::new();
    let mut chars = input.chars();
    let ghost mut done: Seq<char> = seq![];
    loop
        invariant
            input@ == done + chars.remaining(),
            mapped@ == spec_saslprep_map(done),
            chars.decrease() is Some,
        ensures
            mapped@ == spec_saslprep_map(input@),
        decreases chars.decrease()->0,
    {
        match chars.next() {
            Some(c) => {
                let ghost prev = done;
                proof {
                    done = done.push(c);
                    assert(done.drop_last() =~= prev);
                }
                // NOTE: spaces are mapped before the removals, which is
                // what matters for U+200B, a character both tables
                // claim: it keeps the word boundary the user typed.
                let c = if is_non_ascii_space(c) {
                    ' '
                } else {
                    c
                };
                if !is_mapped_to_nothing(c) {
                    string_push(&mut mapped, c);
                }
            },
            None => {
                assert(done + chars.remaining() =~= done);
                break;
            },
        }
    }
    let normalized = nfkc(mapped.as_str());
    proof {
        if all_printable_ascii(input@) {
            lemma_printable_ascii_is_plain(input@);
            lemma_map_leaves_unmapped(input@);
        }
        if unmapped(normalized@) {
            lemma_map_leaves_unmapped(normalized@);
        }
    }
    check_prohibited(normalized)
}

/// A string SASLprep accepts carries no prohibited code point.
pub proof fn lemma_prepared_has_no_prohibited(input: Seq<char>)
    requires
        spec_first_prohibited(spec_prepared(input)) is None,
    ensures
        forall|i: int| 0 <= i < spec_prepared(input).len() ==> !spec_is_prohibited(#[trigger] spec_prepared(input)[i]),
{
    lemma_no_first_means_none(spec_prepared(input));
}

/// No first prohibited character means no prohibited character at all.
proof fn lemma_no_first_means_none(cs: Seq<char>)
    requires
        spec_first_prohibited(cs) is None,
    ensures
        forall|i: int| 0 <= i < cs.len() ==> !spec_is_prohibited(#[trigger] cs[i]),
    decreases cs.len(),
{
    if cs.len() > 0 {
        lemma_no_first_means_none(cs.drop_last());
        assert forall|i: int| 0 <= i < cs.len() implies !spec_is_prohibited(#[trigger] cs[i]) by {
            if i < cs.len() - 1 {
                assert(cs[i] == cs.drop_last()[i]);
            }
        }
    }
}

/// Printable Latin-1 is never prohibited: no control, private use,
/// non-character, inappropriate, display-changing or tagging code point
/// lies in U+0020..U+007E or U+00A0..U+00FF, so accented letters such as
/// `ß`, `Ä` or `É` pass the check.
pub proof fn lemma_latin1_is_never_prohibited(c: char)
    requires
        (0x20 <= c as u32 <= 0x7e) || (0xa0 <= c as u32 <= 0xff),
    ensures
        !spec_is_prohibited(c),
{
    let u = c as u32;
    assert(u & 0xfffe != 0xfffe) by (bit_vector)
        requires
            u <= 0xff,
    ;
}

/// A string of printable Latin-1 that the mapping has nothing to change
/// in (no U+00A0 no-break space, no U+00AD soft hyphen) and that NFKC
/// leaves as it is comes out of SASLprep unchanged.
pub proof fn lemma_saslprep_keeps_normalized_latin1(s: Seq<char>)
    requires
        forall|i: int| 0 <= i < s.len() ==> {
            let u = #[trigger] s[i] as u32;
            ((0x20 <= u <= 0x7e) || (0xa1 <= u <= 0xff)) && u != 0xad
        },
        spec_nfkc(s) == s,
    ensures
        spec_saslprep(s) == Ok::<Seq<char>, SaslPrepError>(s),
{
    assert forall|i: int| 0 <= i < s.len() implies !spec_is_non_ascii_space(#[trigger] s[i])
        && !spec_is_mapped_to_nothing(s[i]) && !spec_is_prohibited(s[i]) by {
        lemma_latin1_is_never_prohibited(s[i]);
    }
    lemma_map_leaves_unmapped(s);
    lemma_none_means_no_first(s);
}

} // verus!
