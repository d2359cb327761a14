//! Base64 with padding, the text form of all key material: an exact
//! character-level specification of the encoding, trusted wrappers around the
//! encoder and decoder, and a proof that the encoding is injective (so
//! decoding an encoded key returns exactly the original bytes).

use vstd::prelude::*;

verus! {

/// The base64 alphabet character at index `x`, for `x < 64`: `A`..`Z`,
/// `a`..`z`, `0`..`9`, `+`, `/`.
pub open spec fn b64_char(x: nat) -> char {
    if x < 26 {
        if x < 13 {
            if x == 0 { 'A' } else if x == 1 { 'B' } else if x == 2 { 'C' } else if x == 3 { 'D' }
            else if x == 4 { 'E' } else if x == 5 { 'F' } else if x == 6 { 'G' }
            else if x == 7 { 'H' } else if x == 8 { 'I' } else if x == 9 { 'J' }
            else if x == 10 { 'K' } else if x == 11 { 'L' } else { 'M' }
        } else {
            if x == 13 { 'N' } else if x == 14 { 'O' } else if x == 15 { 'P' }
            else if x == 16 { 'Q' } else if x == 17 { 'R' } else if x == 18 { 'S' }
            else if x == 19 { 'T' } else if x == 20 { 'U' } else if x == 21 { 'V' }
            else if x == 22 { 'W' } else if x == 23 { 'X' } else if x == 24 { 'Y' } else { 'Z' }
        }
    } else if x < 52 {
        if x < 39 {
            if x == 26 { 'a' } else if x == 27 { 'b' } else if x == 28 { 'c' }
            else if x == 29 { 'd' } else if x == 30 { 'e' } else if x == 31 { 'f' }
            else if x == 32 { 'g' } else if x == 33 { 'h' } else if x == 34 { 'i' }
            else if x == 35 { 'j' } else if x == 36 { 'k' } else if x == 37 { 'l' } else { 'm' }
        } else {
            if x == 39 { 'n' } else if x == 40 { 'o' } else if x == 41 { 'p' }
            else if x == 42 { 'q' } else if x == 43 { 'r' } else if x == 44 { 's' }
            else if x == 45 { 't' } else if x == 46 { 'u' } else if x == 47 { 'v' }
            else if x == 48 { 'w' } else if x == 49 { 'x' } else if x == 50 { 'y' } else { 'z' }
        }
    } else if x < 62 {
        if x == 52 { '0' } else if x == 53 { '1' } else if x == 54 { '2' }
        else if x == 55 { '3' } else if x == 56 { '4' } else if x == 57 { '5' }
        else if x == 58 { '6' } else if x == 59 { '7' } else if x == 60 { '8' } else { '9' }
    } else if x == 62 {
        '+'
    } else {
        '/'
    }
}

/// The Unicode scalar value of the alphabet character at index `x`.
pub open spec fn b64_char_code(x: nat) -> nat {
    if x < 26 {
        65 + x
    } else if x < 52 {
        71 + x
    } else if x < 62 {
        (x - 4) as nat
    } else if x == 62 {
        43
    } else {
        47
    }
}

/// Each alphabet character carries exactly its index's scalar value.
pub proof fn lemma_b64_char_code(x: nat)
    requires
        x < 64,
    ensures
        b64_char(x) as u32 == b64_char_code(x),
{
}

/// The alphabet is injective: distinct indices give distinct characters.
pub proof fn lemma_b64_char_injective(x: nat, y: nat)
    requires
        x < 64,
        y < 64,
        b64_char(x) == b64_char(y),
    ensures
        x == y,
{
    lemma_b64_char_code(x);
    lemma_b64_char_code(y);
}

/// No alphabet character is the padding character.
pub proof fn lemma_b64_char_not_pad(x: nat)
    requires
        x < 64,
    ensures
        b64_char(x) != '=',
{
    lemma_b64_char_code(x);
    assert('=' as u32 == 61);
}

/// Base64 with padding, of a byte string: four alphabet characters per group
/// of three bytes, a final one- or two-byte group padded with `=`.
pub open spec fn b64_encode_spec(bs: Seq<u8>) -> Seq<char>
    decreases bs.len(),
{
    if bs.len() == 0 {
        Seq::empty()
    } else if bs.len() == 1 {
        let b0 = bs[0];
        seq![
            b64_char((b0 >> 2u8) as nat),
            b64_char(((b0 & 3u8) << 4u8) as nat),
            '=',
            '=',
        ]
    } else if bs.len() == 2 {
        let b0 = bs[0];
        let b1 = bs[1];
        seq![
            b64_char((b0 >> 2u8) as nat),
            b64_char((((b0 & 3u8) << 4u8) | (b1 >> 4u8)) as nat),
            b64_char(((b1 & 15u8) << 2u8) as nat),
            '=',
        ]
    } else {
        let b0 = bs[0];
        let b1 = bs[1];
        let b2 = bs[2];
        seq![
            b64_char((b0 >> 2u8) as nat),
            b64_char((((b0 & 3u8) << 4u8) | (b1 >> 4u8)) as nat),
            b64_char((((b1 & 15u8) << 2u8) | (b2 >> 6u8)) as nat),
            b64_char((b2 & 63u8) as nat),
        ] + b64_encode_spec(bs.skip(3))
    }
}

/// The six-bit pieces fed to the alphabet are below 64.
proof fn lemma_pieces_in_range(b0: u8, b1: u8, b2: u8)
    ensures
        (b0 >> 2u8) < 64,
        ((b0 & 3u8) << 4u8) < 64,
        (((b0 & 3u8) << 4u8) | (b1 >> 4u8)) < 64,
        ((b1 & 15u8) << 2u8) < 64,
        (((b1 & 15u8) << 2u8) | (b2 >> 6u8)) < 64,
        (b2 & 63u8) < 64,
{
    assert((b0 >> 2u8) < 64 && ((b0 & 3u8) << 4u8) < 64 && (((b0 & 3u8) << 4u8) | (b1 >> 4u8))
        < 64 && ((b1 & 15u8) << 2u8) < 64 && (((b1 & 15u8) << 2u8) | (b2 >> 6u8)) < 64 && (b2
        & 63u8) < 64) by (bit_vector);
}

/// The encoding's length: four characters for every started group of three
/// input bytes.
pub proof fn lemma_b64_len(bs: Seq<u8>)
    ensures
        b64_encode_spec(bs).len() == 4 * ((bs.len() + 2) / 3),
    decreases bs.len(),
{
    if bs.len() == 0 {
    } else if bs.len() <= 2 {
    } else {
        lemma_b64_len(bs.skip(3));
    }
}

/// Law: a 32-byte key encodes to exactly 44 characters.
pub proof fn lemma_key_encoding_len(bs: Seq<u8>)
    requires
        bs.len() == 32,
    ensures
        b64_encode_spec(bs).len() == 44,
{
    lemma_b64_len(bs);
}

/// The encoding is injective: equal encodings come from equal byte strings.
pub proof fn lemma_b64_encode_injective(b1: Seq<u8>, b2: Seq<u8>)
    requires
        b64_encode_spec(b1) == b64_encode_spec(b2),
    ensures
        b1 == b2,
    decreases b1.len(),
{
    let e1 = b64_encode_spec(b1);
    let e2 = b64_encode_spec(b2);
    lemma_b64_len(b1);
    lemma_b64_len(b2);
    if b1.len() == 0 || b2.len() == 0 {
        assert(b1 =~= b2);
    } else if b1.len() == 1 && b2.len() == 1 {
        lemma_pieces_in_range(b1[0], 0, 0);
        lemma_pieces_in_range(b2[0], 0, 0);
        lemma_b64_char_injective((b1[0] >> 2u8) as nat, (b2[0] >> 2u8) as nat);
        lemma_b64_char_injective(((b1[0] & 3u8) << 4u8) as nat, ((b2[0] & 3u8) << 4u8) as nat);
        let x = b1[0];
        let y = b2[0];
        assert(x >> 2u8 == y >> 2u8 && (x & 3u8) << 4u8 == (y & 3u8) << 4u8 ==> x == y)
            by (bit_vector);
        assert(b1 =~= b2);
    } else if b1.len() == 1 && b2.len() >= 2 {
        // position 2 holds `=` in e1 but an alphabet character in e2
        if b2.len() == 2 {
            lemma_pieces_in_range(0, b2[1], 0);
            lemma_b64_char_not_pad(((b2[1] & 15u8) << 2u8) as nat);
        } else {
            lemma_pieces_in_range(0, b2[1], b2[2]);
            lemma_b64_char_not_pad((((b2[1] & 15u8) << 2u8) | (b2[2] >> 6u8)) as nat);
        }
        assert(e1[2] == e2[2]);
        assert(false);
    } else if b2.len() == 1 && b1.len() >= 2 {
        if b1.len() == 2 {
            lemma_pieces_in_range(0, b1[1], 0);
            lemma_b64_char_not_pad(((b1[1] & 15u8) << 2u8) as nat);
        } else {
            lemma_pieces_in_range(0, b1[1], b1[2]);
            lemma_b64_char_not_pad((((b1[1] & 15u8) << 2u8) | (b1[2] >> 6u8)) as nat);
        }
        assert(e1[2] == e2[2]);
        assert(false);
    } else if b1.len() == 2 && b2.len() == 2 {
        lemma_pieces_in_range(b1[0], b1[1], 0);
        lemma_pieces_in_range(b2[0], b2[1], 0);
        lemma_b64_char_injective((b1[0] >> 2u8) as nat, (b2[0] >> 2u8) as nat);
        lemma_b64_char_injective(
            (((b1[0] & 3u8) << 4u8) | (b1[1] >> 4u8)) as nat,
            (((b2[0] & 3u8) << 4u8) | (b2[1] >> 4u8)) as nat,
        );
        lemma_b64_char_injective(((b1[1] & 15u8) << 2u8) as nat, ((b2[1] & 15u8) << 2u8) as nat);
        let x0 = b1[0];
        let x1 = b1[1];
        let y0 = b2[0];
        let y1 = b2[1];
        assert(x0 >> 2u8 == y0 >> 2u8 && ((x0 & 3u8) << 4u8) | (x1 >> 4u8) == ((y0 & 3u8) << 4u8)
            | (y1 >> 4u8) && (x1 & 15u8) << 2u8 == (y1 & 15u8) << 2u8 ==> x0 == y0 && x1 == y1)
            by (bit_vector);
        assert(b1 =~= b2);
    } else if b1.len() == 2 && b2.len() >= 3 {
        // position 3 holds `=` in e1 but an alphabet character in e2
        lemma_pieces_in_range(0, 0, b2[2]);
        lemma_b64_char_not_pad((b2[2] & 63u8) as nat);
        assert(e1[3] == e2[3]);
        assert(false);
    } else if b2.len() == 2 && b1.len() >= 3 {
        lemma_pieces_in_range(0, 0, b1[2]);
        lemma_b64_char_not_pad((b1[2] & 63u8) as nat);
        assert(e1[3] == e2[3]);
        assert(false);
    } else {
        // both at least 3: the first group pins the first three bytes,
        // the rest follows by induction
        lemma_pieces_in_range(b1[0], b1[1], b1[2]);
        lemma_pieces_in_range(b2[0], b2[1], b2[2]);
        assert(e1[0] == e2[0] && e1[1] == e2[1] && e1[2] == e2[2] && e1[3] == e2[3]);
        lemma_b64_char_injective((b1[0] >> 2u8) as nat, (b2[0] >> 2u8) as nat);
        lemma_b64_char_injective(
            (((b1[0] & 3u8) << 4u8) | (b1[1] >> 4u8)) as nat,
            (((b2[0] & 3u8) << 4u8) | (b2[1] >> 4u8)) as nat,
        );
        lemma_b64_char_injective(
            (((b1[1] & 15u8) << 2u8) | (b1[2] >> 6u8)) as nat,
            (((b2[1] & 15u8) << 2u8) | (b2[2] >> 6u8)) as nat,
        );
        lemma_b64_char_injective((b1[2] & 63u8) as nat, (b2[2] & 63u8) as nat);
        let x0 = b1[0];
        let x1 = b1[1];
        let x2 = b1[2];
        let y0 = b2[0];
        let y1 = b2[1];
        let y2 = b2[2];
        assert(x0 >> 2u8 == y0 >> 2u8 && ((x0 & 3u8) << 4u8) | (x1 >> 4u8) == ((y0 & 3u8) << 4u8)
            | (y1 >> 4u8) && ((x1 & 15u8) << 2u8) | (x2 >> 6u8) == ((y1 & 15u8) << 2u8) | (y2
            >> 6u8) && x2 & 63u8 == y2 & 63u8 ==> x0 == y0 && x1 == y1 && x2 == y2)
            by (bit_vector);
        assert(b64_encode_spec(b1.skip(3)) =~= e1.skip(4));
        assert(b64_encode_spec(b2.skip(3)) =~= e2.skip(4));
        lemma_b64_encode_injective(b1.skip(3), b2.skip(3));
        assert(b1.len() == b2.len());
        assert forall|i: int| 0 <= i < b1.len() implies b1[i] == b2[i] by {
            if i >= 3 {
                assert(b1[i] == b1.skip(3)[i - 3]);
                assert(b2[i] == b2.skip(3)[i - 3]);
            }
        }
        assert(b1 =~= b2);
    }
}

/// No character of an encoding is whitespace; in particular none is a line
/// break.
pub proof fn lemma_b64_not_space(bs: Seq<u8>, i: int)
    requires
        0 <= i < b64_encode_spec(bs).len(),
    ensures
        !crate::text::is_space(b64_encode_spec(bs)[i]),
        b64_encode_spec(bs)[i] != '\n',
    decreases bs.len(),
{
    if bs.len() == 0 {
    } else if bs.len() == 1 {
        lemma_pieces_in_range(bs[0], 0, 0);
        lemma_b64_char_code((bs[0] >> 2u8) as nat);
        lemma_b64_char_code(((bs[0] & 3u8) << 4u8) as nat);
    } else if bs.len() == 2 {
        lemma_pieces_in_range(bs[0], bs[1], 0);
        lemma_b64_char_code((bs[0] >> 2u8) as nat);
        lemma_b64_char_code((((bs[0] & 3u8) << 4u8) | (bs[1] >> 4u8)) as nat);
        lemma_b64_char_code(((bs[1] & 15u8) << 2u8) as nat);
    } else {
        lemma_pieces_in_range(bs[0], bs[1], bs[2]);
        lemma_b64_char_code((bs[0] >> 2u8) as nat);
        lemma_b64_char_code((((bs[0] & 3u8) << 4u8) | (bs[1] >> 4u8)) as nat);
        lemma_b64_char_code((((bs[1] & 15u8) << 2u8) | (bs[2] >> 6u8)) as nat);
        lemma_b64_char_code((bs[2] & 63u8) as nat);
        if i >= 4 {
            lemma_b64_not_space(bs.skip(3), i - 4);
        }
    }
}

/// Relies on base64's standard engine with padding (`BASE64_STANDARD`):
/// encoding emits, for each group of three input bytes, four characters of
/// the standard alphabet, with `=` padding for a final one- or two-byte
/// group.
#[verifier::external_body]
pub fn b64_encode(bytes: &Vec<u8>) -> (r: String)
    ensures
        r@ == b64_encode_spec(bytes@),
{
    base64::Engine::encode(&base64::prelude::BASE64_STANDARD, bytes)
}

/// Relies on base64's standard engine with padding (`BASE64_STANDARD`), whose
/// decoder requires canonical padding and rejects set trailing bits: decoding
/// succeeds exactly on the canonical encoding of some byte string, and
/// returns that byte string.
#[verifier::external_body]
pub fn b64_decode(text: &str) -> (r: Option<Vec<u8>>)
    ensures
        match r {
            Some(bytes) => text@ == b64_encode_spec(bytes@),
            None => forall|bs: Seq<u8>| text@ != b64_encode_spec(bs),
        },
{
    match base64::Engine::decode(&base64::prelude::BASE64_STANDARD, text) {
        Ok(v) => Some(v),
        Err(_) => None,
    }
}

} // verus!
