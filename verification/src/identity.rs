//! Relay identities and their hexadecimal fingerprints.

use vstd::prelude::*;
use crate::error::CircuitError;

verus! {

/// Number of bytes in a relay identity.
pub const IDENTITY_LEN: usize = 20;

/// Characters that may be scattered through a fingerprint and are dropped
/// before it is decoded: the characters that Unicode classes as white space.
pub open spec fn is_whitespace(c: char) -> bool {
    ||| ('\u{9}' <= c && c <= '\u{d}')
    ||| c == ' '
    ||| c == '\u{85}'
    ||| c == '\u{a0}'
    ||| c == '\u{1680}'
    ||| ('\u{2000}' <= c && c <= '\u{200a}')
    ||| c == '\u{2028}'
    ||| c == '\u{2029}'
    ||| c == '\u{202f}'
    ||| c == '\u{205f}'
    ||| c == '\u{3000}'
}

/// `text` without its whitespace.
pub open spec fn strip_whitespace(text: Seq<char>) -> Seq<char> {
    text.filter(|c: char| !is_whitespace(c))
}

/// The digits `0` to `9` and the letters `a` to `f`, in either case.
pub open spec fn is_hex_digit(c: char) -> bool {
    ('0' <= c && c <= '9') || ('a' <= c && c <= 'f') || ('A' <= c && c <= 'F')
}

/// The number a hex digit stands for.
pub open spec fn hex_digit_value(c: char) -> int {
    if '0' <= c && c <= '9' {
        c as int - '0' as int
    } else if 'a' <= c && c <= 'f' {
        c as int - 'a' as int + 10
    } else {
        c as int - 'A' as int + 10
    }
}

/// The lower-case hex digit for a number below 16.
pub open spec fn lower_hex_digit(value: int) -> char {
    if value < 10 {
        ('0' as int + value) as char
    } else {
        ('a' as int + value - 10) as char
    }
}

/// An even number of hex digits and nothing else.
pub open spec fn is_hex_text(text: Seq<char>) -> bool {
    &&& text.len() % 2 == 0
    &&& forall|i: int| 0 <= i < text.len() ==> is_hex_digit(#[trigger] text[i])
}

/// The bytes that hex text stands for, two digits to a byte, high digit first.
pub open spec fn hex_to_bytes(text: Seq<char>) -> Seq<u8> {
    Seq::new(
        text.len() / 2,
        |i: int| (16 * hex_digit_value(text[2 * i]) + hex_digit_value(text[2 * i + 1])) as u8,
    )
}

/// The lower-case hex text of `bytes`.
pub open spec fn bytes_to_hex(bytes: Seq<u8>) -> Seq<char> {
    Seq::new(
        2 * bytes.len(),
        |i: int|
            if i % 2 == 0 {
                lower_hex_digit(bytes[i / 2] as int / 16)
            } else {
                lower_hex_digit(bytes[i / 2] as int % 16)
            },
    )
}

/// A fingerprint is well formed when, whitespace aside, it is 40 hex digits.
pub open spec fn is_fingerprint(text: Seq<char>) -> bool {
    let digits = strip_whitespace(text);
    digits.len() == 2 * IDENTITY_LEN && is_hex_text(digits)
}

/// The identity bytes a well-formed fingerprint stands for.
pub open spec fn fingerprint_bytes(text: Seq<char>) -> Seq<u8> {
    hex_to_bytes(strip_whitespace(text))
}

/// Text without whitespace is left as it is.
pub proof fn lemma_strip_clean(text: Seq<char>)
    requires
        forall|i: int| 0 <= i < text.len() ==> !is_whitespace(#[trigger] text[i]),
    ensures
        strip_whitespace(text) == text,
    decreases text.len(),
{
    reveal(Seq::filter);
    if text.len() > 0 {
        lemma_strip_clean(text.drop_last());
        assert(text.drop_last().push(text.last()) =~= text);
    }
}

/// What is left of a text holds no whitespace.
pub proof fn lemma_stripped_is_clean(text: Seq<char>)
    ensures
        forall|i: int|
            0 <= i < strip_whitespace(text).len() ==> !is_whitespace(
                #[trigger] strip_whitespace(text)[i],
            ),
    decreases text.len(),
{
    reveal(Seq::filter);
    if text.len() > 0 {
        lemma_stripped_is_clean(text.drop_last());
    }
}

/// Whitespace in a fingerprint does not matter: a text is a fingerprint
/// exactly if the text without its whitespace is one, and both stand for
/// the same identity.
pub proof fn law_fingerprint_ignores_whitespace(text: Seq<char>)
    ensures
        is_fingerprint(text) == is_fingerprint(strip_whitespace(text)),
        fingerprint_bytes(text) == fingerprint_bytes(strip_whitespace(text)),
        is_fingerprint(text) ==> fingerprint_bytes(text).len() == IDENTITY_LEN,
{
    lemma_stripped_is_clean(text);
    lemma_strip_clean(strip_whitespace(text));
}

/// Decoding undoes encoding, and the hex text of 20 bytes is a fingerprint
/// of these bytes.
pub proof fn law_hex_round_trip(bytes: Seq<u8>)
    ensures
        is_hex_text(bytes_to_hex(bytes)),
        hex_to_bytes(bytes_to_hex(bytes)) == bytes,
        strip_whitespace(bytes_to_hex(bytes)) == bytes_to_hex(bytes),
        bytes.len() == IDENTITY_LEN ==> is_fingerprint(bytes_to_hex(bytes)) && fingerprint_bytes(
            bytes_to_hex(bytes),
        ) == bytes,
{
    let text = bytes_to_hex(bytes);
    assert forall|value: int| 0 <= value < 16 implies is_hex_digit(
        #[trigger] lower_hex_digit(value),
    ) && !is_whitespace(lower_hex_digit(value)) && hex_digit_value(lower_hex_digit(value))
        == value by {}
    assert forall|i: int| 0 <= i < text.len() implies is_hex_digit(#[trigger] text[i])
        && !is_whitespace(text[i]) by {
        let byte = bytes[i / 2] as int;
        assert(0 <= byte / 16 < 16 && 0 <= byte % 16 < 16);
    }
    assert forall|i: int| 0 <= i < bytes.len() implies #[trigger] hex_to_bytes(text)[i]
        == bytes[i] by {
        let byte = bytes[i] as int;
        assert(0 <= byte / 16 < 16 && 0 <= byte % 16 < 16);
        assert((2 * i) / 2 == i && (2 * i + 1) / 2 == i);
        assert(text[2 * i] == lower_hex_digit(byte / 16));
        assert(text[2 * i + 1] == lower_hex_digit(byte % 16));
        assert(16 * (byte / 16) + byte % 16 == byte);
    }
    assert(hex_to_bytes(text) =~= bytes);
    lemma_strip_clean(text);
}

/// Two byte strings with the same hex text are the same.
pub proof fn law_hex_is_injective(a: Seq<u8>, b: Seq<u8>)
    requires
        bytes_to_hex(a) == bytes_to_hex(b),
    ensures
        a == b,
{
    law_hex_round_trip(a);
    law_hex_round_trip(b);
}

#[verifier::external_type_specification]
#[verifier::external_body]
pub struct ExFromHexError(hex::FromHexError);

/// Calls `hex::decode` on the text made of `chars`.
///
/// Trusted: the call succeeds exactly on an even number of hex digits, and
/// then returns one byte for each pair of digits, the first digit of a pair
/// being the high half of the byte. Upper and lower case digits are both read.
#[verifier::external_body]
fn hex_decode(chars: &Vec<char>) -> (decoded: Result<Vec<u8>, hex::FromHexError>)
    ensures
        decoded is Ok <==> is_hex_text(chars@),
        decoded is Ok ==> decoded->Ok_0@ == hex_to_bytes(chars@),
{
    let text: String = chars.iter().collect();
    hex::decode(text)
}

/// Calls `hex::encode`.
///
/// Trusted: the result holds two lower-case hex digits for each byte, in
/// order, the high half of a byte first.
#[verifier::external_body]
fn hex_encode(bytes: &[u8]) -> (text: String)
    ensures
        text@ == bytes_to_hex(bytes@),
{
    hex::encode(bytes)
}

/// Whether `c` is white space.
pub fn char_is_whitespace(c: char) -> (b: bool)
    ensures
        b == is_whitespace(c),
{
    ('\u{9}' <= c && c <= '\u{d}') || c == ' ' || c == '\u{85}' || c == '\u{a0}' || c == '\u{1680}'
        || ('\u{2000}' <= c && c <= '\u{200a}') || c == '\u{2028}' || c == '\u{2029}' || c
        == '\u{202f}' || c == '\u{205f}' || c == '\u{3000}'
}

/// Collects the characters of `text` that are not whitespace.
pub fn strip_fingerprint(text: &str) -> (digits: Vec<char>)
    ensures
        digits@ == strip_whitespace(text@),
{
    let mut digits: Vec<char> = Vec::new();
    proof {
        reveal(Seq::filter);
        assert(text@.take(0) =~= Seq::<char>::empty());
    }
    for c in it: text.chars()
        invariant
            it.seq() == text@,
            digits@ == strip_whitespace(text@.take(it.index() as int)),
    {
        proof {
            reveal(Seq::filter);
            assert(text@.take(it.index() + 1).drop_last() =~= text@.take(it.index() as int));
            assert(text@.take(it.index() + 1).last() == c);
        }
        if !char_is_whitespace(c) {
            digits.push(c);
        }
    }
    proof {
        assert(text@.take(text@.len() as int) =~= text@);
    }
    digits
}

/// The stable 20-byte identity of a relay.
#[derive(Clone, Copy, Debug, PartialEq, Eq, Hash)]
pub struct RelayIdentity {
    bytes: [u8; 20],
}

impl View for RelayIdentity {
    type V = Seq<u8>;

    closed spec fn view(&self) -> Seq<u8> {
        self.bytes@
    }
}

impl RelayIdentity {
    /// Every identity is exactly `IDENTITY_LEN` bytes long.
    pub proof fn law_len(self)
        ensures
            self@.len() == IDENTITY_LEN,
    {
    }

    /// Takes the identity from a byte string, which must be 20 bytes long.
    pub fn from_bytes(bytes: &[u8]) -> (id: Option<RelayIdentity>)
        ensures
            id is Some <==> bytes@.len() == IDENTITY_LEN,
            id is Some ==> id->Some_0@ == bytes@,
    {
        if bytes.len() != IDENTITY_LEN {
            return None;
        }
        let mut raw: [u8; 20] = [0u8; 20];
        let mut i: usize = 0;
        while i < IDENTITY_LEN
            invariant
                i <= IDENTITY_LEN,
                bytes@.len() == IDENTITY_LEN,
                forall|j: int| 0 <= j < i ==> raw@[j] == bytes@[j],
            decreases IDENTITY_LEN - i,
        {
            raw[i] = bytes[i];
            i = i + 1;
        }
        let id = RelayIdentity { bytes: raw };
        assert(id@ =~= bytes@);
        Some(id)
    }

    /// Reads a fingerprint: 40 hex digits, with whitespace anywhere among them.
    pub fn from_fingerprint(text: &str) -> (id: Result<RelayIdentity, CircuitError>)
        ensures
            id is Ok <==> is_fingerprint(text@),
            id is Ok ==> id->Ok_0@ == fingerprint_bytes(text@),
            id is Err ==> id->Err_0 == CircuitError::InvalidFingerprint,
    {
        let digits = strip_fingerprint(text);
        match hex_decode(&digits) {
            Ok(bytes) => match RelayIdentity::from_bytes(bytes.as_slice()) {
                Some(id) => Ok(id),
                None => Err(CircuitError::InvalidFingerprint),
            },
            Err(_) => Err(CircuitError::InvalidFingerprint),
        }
    }

    /// The identity as 40 lower-case hex digits.
    pub fn to_hex(&self) -> (text: String)
        ensures
            text@ == bytes_to_hex(self@),
    {
        hex_encode(self.bytes.as_slice())
    }

    /// The bytes of the identity.
    pub fn as_bytes(&self) -> (bytes: &[u8])
        ensures
            bytes@ == self@,
    {
        self.bytes.as_slice()
    }

    /// Whether two identities are the same.
    pub fn same_as(&self, other: &RelayIdentity) -> (same: bool)
        ensures
            same == (self@ == other@),
    {
        let mut i: usize = 0;
        while i < IDENTITY_LEN
            invariant
                i <= IDENTITY_LEN,
                forall|j: int| 0 <= j < i ==> self.bytes@[j] == other.bytes@[j],
            decreases IDENTITY_LEN - i,
        {
            if self.bytes[i] != other.bytes[i] {
                return false;
            }
            i = i + 1;
        }
        assert(self@ =~= other@);
        true
    }
}

} // verus!
