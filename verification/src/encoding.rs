//! Text encoding of raw key material.  Derived keys are turned into an
//! unpadded base64 string before they are used as container secrets, so
//! they are safe to hand to the disk-encryption tool on its standard
//! input.

use vstd::prelude::*;

verus! {

/// The character the standard base64 alphabet assigns to a 6-bit value.
pub open spec fn b64_char(i: int) -> char {
    if i == 0 { 'A' } else if i == 1 { 'B' } else if i == 2 { 'C' } else if i == 3 { 'D' }
    else if i == 4 { 'E' } else if i == 5 { 'F' } else if i == 6 { 'G' } else if i == 7 { 'H' }
    else if i == 8 { 'I' } else if i == 9 { 'J' } else if i == 10 { 'K' } else if i == 11 { 'L' }
    else if i == 12 { 'M' } else if i == 13 { 'N' } else if i == 14 { 'O' } else if i == 15 { 'P' }
    else if i == 16 { 'Q' } else if i == 17 { 'R' } else if i == 18 { 'S' } else if i == 19 { 'T' }
    else if i == 20 { 'U' } else if i == 21 { 'V' } else if i == 22 { 'W' } else if i == 23 { 'X' }
    else if i == 24 { 'Y' } else if i == 25 { 'Z' } else if i == 26 { 'a' } else if i == 27 { 'b' }
    else if i == 28 { 'c' } else if i == 29 { 'd' } else if i == 30 { 'e' } else if i == 31 { 'f' }
    else if i == 32 { 'g' } else if i == 33 { 'h' } else if i == 34 { 'i' } else if i == 35 { 'j' }
    else if i == 36 { 'k' } else if i == 37 { 'l' } else if i == 38 { 'm' } else if i == 39 { 'n' }
    else if i == 40 { 'o' } else if i == 41 { 'p' } else if i == 42 { 'q' } else if i == 43 { 'r' }
    else if i == 44 { 's' } else if i == 45 { 't' } else if i == 46 { 'u' } else if i == 47 { 'v' }
    else if i == 48 { 'w' } else if i == 49 { 'x' } else if i == 50 { 'y' } else if i == 51 { 'z' }
    else if i == 52 { '0' } else if i == 53 { '1' } else if i == 54 { '2' } else if i == 55 { '3' }
    else if i == 56 { '4' } else if i == 57 { '5' } else if i == 58 { '6' } else if i == 59 { '7' }
    else if i == 60 { '8' } else if i == 61 { '9' } else if i == 62 { '+' } else { '/' }
}

/// The four characters encoding one full three-byte group.
pub open spec fn b64_group(b0: u8, b1: u8, b2: u8) -> Seq<char> {
    seq![
        b64_char((b0 >> 2) as int),
        b64_char((((b0 & 3) << 4) | (b1 >> 4)) as int),
        b64_char((((b1 & 15) << 2) | (b2 >> 6)) as int),
        b64_char((b2 & 63) as int),
    ]
}

/// Unpadded base64: four characters for every full three-byte group, a
/// two- or three-character tail for a trailing group, and no padding.
pub open spec fn base64_encode(s: Seq<u8>) -> Seq<char>
    decreases s.len(),
{
    if s.len() == 0 {
        Seq::<char>::empty()
    } else if s.len() == 1 {
        b64_group(s[0], 0, 0).take(2)
    } else if s.len() == 2 {
        b64_group(s[0], s[1], 0).take(3)
    } else {
        b64_group(s[0], s[1], s[2]) + base64_encode(s.skip(3))
    }
}

/// Relies on base64's `GeneralPurpose` engine built from the standard
/// alphabet `A-Z a-z 0-9 + /` with the `NO_PAD` configuration: the
/// canonical unpadded base64 text of the input bytes.
#[verifier::external_body]
fn encode_standard_no_pad(bytes: &Vec<u8>) -> (r: String)
    ensures
        r@ == base64_encode(bytes@),
{
    base64::Engine::encode(&base64::engine::general_purpose::STANDARD_NO_PAD, bytes)
}

/// Converts a byte stream to its unpadded base64 text.
pub fn convert_to_base64(binary: Vec<u8>) -> (r: String)
    ensures
        r@ == base64_encode(binary@),
{
    encode_standard_no_pad(&binary)
}

/// The 6-bit value the standard alphabet assigns to a character, or -1.
pub open spec fn b64_index(c: char) -> int {
    if c == 'A' { 0 }
    else if c == 'B' { 1 }
    else if c == 'C' { 2 }
    else if c == 'D' { 3 }
    else if c == 'E' { 4 }
    else if c == 'F' { 5 }
    else if c == 'G' { 6 }
    else if c == 'H' { 7 }
    else if c == 'I' { 8 }
    else if c == 'J' { 9 }
    else if c == 'K' { 10 }
    else if c == 'L' { 11 }
    else if c == 'M' { 12 }
    else if c == 'N' { 13 }
    else if c == 'O' { 14 }
    else if c == 'P' { 15 }
    else if c == 'Q' { 16 }
    else if c == 'R' { 17 }
    else if c == 'S' { 18 }
    else if c == 'T' { 19 }
    else if c == 'U' { 20 }
    else if c == 'V' { 21 }
    else if c == 'W' { 22 }
    else if c == 'X' { 23 }
    else if c == 'Y' { 24 }
    else if c == 'Z' { 25 }
    else if c == 'a' { 26 }
    else if c == 'b' { 27 }
    else if c == 'c' { 28 }
    else if c == 'd' { 29 }
    else if c == 'e' { 30 }
    else if c == 'f' { 31 }
    else if c == 'g' { 32 }
    else if c == 'h' { 33 }
    else if c == 'i' { 34 }
    else if c == 'j' { 35 }
    else if c == 'k' { 36 }
    else if c == 'l' { 37 }
    else if c == 'm' { 38 }
    else if c == 'n' { 39 }
    else if c == 'o' { 40 }
    else if c == 'p' { 41 }
    else if c == 'q' { 42 }
    else if c == 'r' { 43 }
    else if c == 's' { 44 }
    else if c == 't' { 45 }
    else if c == 'u' { 46 }
    else if c == 'v' { 47 }
    else if c == 'w' { 48 }
    else if c == 'x' { 49 }
    else if c == 'y' { 50 }
    else if c == 'z' { 51 }
    else if c == '0' { 52 }
    else if c == '1' { 53 }
    else if c == '2' { 54 }
    else if c == '3' { 55 }
    else if c == '4' { 56 }
    else if c == '5' { 57 }
    else if c == '6' { 58 }
    else if c == '7' { 59 }
    else if c == '8' { 60 }
    else if c == '9' { 61 }
    else if c == '+' { 62 }
    else if c == '/' { 63 }
    else { -1 }
}

/// Each alphabet character decodes back to its 6-bit value.
proof fn lemma_b64_char_invertible(i: int)
    requires
        0 <= i < 64,
    ensures
        b64_index(b64_char(i)) == i,
{
}

/// A nonempty input encodes to at least two characters.
pub proof fn lemma_base64_encode_min_len(s: Seq<u8>)
    ensures
        s.len() == 0 ==> base64_encode(s).len() == 0,
        s.len() > 0 ==> base64_encode(s).len() >= 2,
    decreases s.len(),
{
    if s.len() >= 3 {
        lemma_base64_encode_min_len(s.skip(3));
    }
}

/// Bytes agreeing on a full group's four characters are equal.
proof fn lemma_b64_group_injective(a0: u8, a1: u8, a2: u8, b0: u8, b1: u8, b2: u8)
    requires
        b64_group(a0, a1, a2) == b64_group(b0, b1, b2),
    ensures
        a0 == b0 && a1 == b1 && a2 == b2,
{
    let ga = b64_group(a0, a1, a2);
    let gb = b64_group(b0, b1, b2);
    assert(ga[0] == gb[0] && ga[1] == gb[1] && ga[2] == gb[2] && ga[3] == gb[3]);
    assert((a0 >> 2) < 64 && (((a0 & 3) << 4) | (a1 >> 4)) < 64 && (((a1 & 15) << 2) | (a2 >> 6))
        < 64 && (a2 & 63) < 64) by (bit_vector);
    assert((b0 >> 2) < 64 && (((b0 & 3) << 4) | (b1 >> 4)) < 64 && (((b1 & 15) << 2) | (b2 >> 6))
        < 64 && (b2 & 63) < 64) by (bit_vector);
    lemma_b64_char_invertible((a0 >> 2) as int);
    lemma_b64_char_invertible((((a0 & 3) << 4) | (a1 >> 4)) as int);
    lemma_b64_char_invertible((((a1 & 15) << 2) | (a2 >> 6)) as int);
    lemma_b64_char_invertible((a2 & 63) as int);
    lemma_b64_char_invertible((b0 >> 2) as int);
    lemma_b64_char_invertible((((b0 & 3) << 4) | (b1 >> 4)) as int);
    lemma_b64_char_invertible((((b1 & 15) << 2) | (b2 >> 6)) as int);
    lemma_b64_char_invertible((b2 & 63) as int);
    assert(a0 >> 2 == b0 >> 2);
    assert(((a0 & 3) << 4) | (a1 >> 4) == ((b0 & 3) << 4) | (b1 >> 4));
    assert(((a1 & 15) << 2) | (a2 >> 6) == ((b1 & 15) << 2) | (b2 >> 6));
    assert(a2 & 63 == b2 & 63);
    assert(a0 == b0 && a1 == b1 && a2 == b2) by (bit_vector)
        requires
            a0 >> 2 == b0 >> 2,
            ((a0 & 3) << 4) | (a1 >> 4) == ((b0 & 3) << 4) | (b1 >> 4),
            ((a1 & 15) << 2) | (a2 >> 6) == ((b1 & 15) << 2) | (b2 >> 6),
            a2 & 63 == b2 & 63,
    ;
}

/// Bytes agreeing on a one-byte tail's two characters are equal.
proof fn lemma_b64_tail1_injective(a0: u8, b0: u8)
    requires
        b64_group(a0, 0, 0).take(2) == b64_group(b0, 0, 0).take(2),
    ensures
        a0 == b0,
{
    let ga = b64_group(a0, 0, 0).take(2);
    let gb = b64_group(b0, 0, 0).take(2);
    assert(ga[0] == b64_group(a0, 0, 0)[0] && ga[1] == b64_group(a0, 0, 0)[1]);
    assert(gb[0] == b64_group(b0, 0, 0)[0] && gb[1] == b64_group(b0, 0, 0)[1]);
    assert((a0 >> 2) < 64 && (((a0 & 3) << 4) | (0u8 >> 4)) < 64) by (bit_vector);
    assert((b0 >> 2) < 64 && (((b0 & 3) << 4) | (0u8 >> 4)) < 64) by (bit_vector);
    lemma_b64_char_invertible((a0 >> 2) as int);
    lemma_b64_char_invertible((((a0 & 3) << 4) | (0u8 >> 4)) as int);
    lemma_b64_char_invertible((b0 >> 2) as int);
    lemma_b64_char_invertible((((b0 & 3) << 4) | (0u8 >> 4)) as int);
    assert(a0 >> 2 == b0 >> 2);
    assert(((a0 & 3) << 4) | (0u8 >> 4) == ((b0 & 3) << 4) | (0u8 >> 4));
    assert(a0 == b0) by (bit_vector)
        requires
            a0 >> 2 == b0 >> 2,
            ((a0 & 3) << 4) | (0u8 >> 4) == ((b0 & 3) << 4) | (0u8 >> 4),
    ;
}

/// Byte pairs agreeing on a two-byte tail's three characters are equal.
proof fn lemma_b64_tail2_injective(a0: u8, a1: u8, b0: u8, b1: u8)
    requires
        b64_group(a0, a1, 0).take(3) == b64_group(b0, b1, 0).take(3),
    ensures
        a0 == b0 && a1 == b1,
{
    let ga = b64_group(a0, a1, 0).take(3);
    let gb = b64_group(b0, b1, 0).take(3);
    assert(ga[0] == b64_group(a0, a1, 0)[0] && ga[1] == b64_group(a0, a1, 0)[1] && ga[2]
        == b64_group(a0, a1, 0)[2]);
    assert(gb[0] == b64_group(b0, b1, 0)[0] && gb[1] == b64_group(b0, b1, 0)[1] && gb[2]
        == b64_group(b0, b1, 0)[2]);
    assert((a0 >> 2) < 64 && (((a0 & 3) << 4) | (a1 >> 4)) < 64 && (((a1 & 15) << 2) | (0u8 >> 6))
        < 64) by (bit_vector);
    assert((b0 >> 2) < 64 && (((b0 & 3) << 4) | (b1 >> 4)) < 64 && (((b1 & 15) << 2) | (0u8 >> 6))
        < 64) by (bit_vector);
    lemma_b64_char_invertible((a0 >> 2) as int);
    lemma_b64_char_invertible((((a0 & 3) << 4) | (a1 >> 4)) as int);
    lemma_b64_char_invertible((((a1 & 15) << 2) | (0u8 >> 6)) as int);
    lemma_b64_char_invertible((b0 >> 2) as int);
    lemma_b64_char_invertible((((b0 & 3) << 4) | (b1 >> 4)) as int);
    lemma_b64_char_invertible((((b1 & 15) << 2) | (0u8 >> 6)) as int);
    assert(a0 >> 2 == b0 >> 2);
    assert(((a0 & 3) << 4) | (a1 >> 4) == ((b0 & 3) << 4) | (b1 >> 4));
    assert(((a1 & 15) << 2) | (0u8 >> 6) == ((b1 & 15) << 2) | (0u8 >> 6));
    assert(a0 == b0 && a1 == b1) by (bit_vector)
        requires
            a0 >> 2 == b0 >> 2,
            ((a0 & 3) << 4) | (a1 >> 4) == ((b0 & 3) << 4) | (b1 >> 4),
            ((a1 & 15) << 2) | (0u8 >> 6) == ((b1 & 15) << 2) | (0u8 >> 6),
    ;
}

/// The encoding never collapses two different byte streams: equal
/// encodings come from equal bytes, so distinct derived keys always
/// yield distinct container secrets.
pub proof fn lemma_base64_encode_injective(a: Seq<u8>, b: Seq<u8>)
    requires
        base64_encode(a) == base64_encode(b),
    ensures
        a == b,
    decreases a.len(),
{
    lemma_base64_encode_min_len(a);
    lemma_base64_encode_min_len(b);
    if a.len() == 0 {
        assert(b.len() == 0);
        assert(a =~= b);
    } else if a.len() == 1 {
        assert(base64_encode(a).len() == 2);
        if b.len() == 1 {
            lemma_b64_tail1_injective(a[0], b[0]);
            assert(a =~= b);
        } else if b.len() == 2 {
            assert(base64_encode(b).len() == 3);
        } else {
            assert(base64_encode(b).len() == 4 + base64_encode(b.skip(3)).len());
        }
    } else if a.len() == 2 {
        assert(base64_encode(a).len() == 3);
        if b.len() == 1 {
            assert(base64_encode(b).len() == 2);
        } else if b.len() == 2 {
            lemma_b64_tail2_injective(a[0], a[1], b[0], b[1]);
            assert(a =~= b);
        } else {
            assert(base64_encode(b).len() == 4 + base64_encode(b.skip(3)).len());
        }
    } else {
        assert(base64_encode(a).len() == 4 + base64_encode(a.skip(3)).len());
        if b.len() == 1 {
            assert(base64_encode(b).len() == 2);
        } else if b.len() == 2 {
            assert(base64_encode(b).len() == 3);
        } else {
            let ga = b64_group(a[0], a[1], a[2]);
            let gb = b64_group(b[0], b[1], b[2]);
            let ra = base64_encode(a.skip(3));
            let rb = base64_encode(b.skip(3));
            assert(base64_encode(a) == ga + ra);
            assert(base64_encode(b) == gb + rb);
            assert(ga =~= gb) by {
                assert(forall|k: int| 0 <= k < 4 ==> (ga + ra)[k] == #[trigger] ga[k]);
                assert(forall|k: int| 0 <= k < 4 ==> (gb + rb)[k] == #[trigger] gb[k]);
            }
            lemma_b64_group_injective(a[0], a[1], a[2], b[0], b[1], b[2]);
            assert((ga + ra).skip(4) =~= ra);
            assert((gb + rb).skip(4) =~= rb);
            assert(ra == rb);
            lemma_base64_encode_injective(a.skip(3), b.skip(3));
            assert(a =~= b) by {
                assert(forall|k: int| 3 <= k < a.len() ==> #[trigger] a[k] == a.skip(3)[k - 3]);
                assert(forall|k: int| 3 <= k < b.len() ==> #[trigger] b[k] == b.skip(3)[k - 3]);
            }
        }
    }
}

} // verus!
