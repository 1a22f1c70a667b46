//! The URL-safe Base64 alphabet of RFC 4648 (section 5), with and without
//! padding, as used for the session header and for token parts.

use vstd::prelude::*;

verus! {

/// The character that stands for the 6-bit value `v` in the URL-safe alphabet:
/// `A`-`Z`, `a`-`z`, `0`-`9`, `-`, `_`.
pub open spec fn sextet_char(v: int) -> char {
    if v < 26 {
        (65 + v) as char
    } else if v < 52 {
        (97 + (v - 26)) as char
    } else if v < 62 {
        (48 + (v - 52)) as char
    } else if v == 62 {
        '-'
    } else {
        '_'
    }
}

/// The four characters that encode three bytes.
pub open spec fn encode_triple(b0: u8, b1: u8, b2: u8) -> Seq<char> {
    let (x0, x1, x2) = (b0 as int, b1 as int, b2 as int);
    seq![
        sextet_char(x0 / 4),
        sextet_char((x0 % 4) * 16 + x1 / 16),
        sextet_char((x1 % 16) * 4 + x2 / 64),
        sextet_char(x2 % 64),
    ]
}

/// The two characters that encode a final single byte.
pub open spec fn encode_single(b0: u8) -> Seq<char> {
    let x0 = b0 as int;
    seq![sextet_char(x0 / 4), sextet_char((x0 % 4) * 16)]
}

/// The three characters that encode a final pair of bytes.
pub open spec fn encode_pair(b0: u8, b1: u8) -> Seq<char> {
    let (x0, x1) = (b0 as int, b1 as int);
    seq![
        sextet_char(x0 / 4),
        sextet_char((x0 % 4) * 16 + x1 / 16),
        sextet_char((x1 % 16) * 4),
    ]
}

/// URL-safe Base64 of `b` without padding.
pub open spec fn encode_unpadded(b: Seq<u8>) -> Seq<char>
    decreases b.len(),
{
    if b.len() == 0 {
        seq![]
    } else if b.len() == 1 {
        encode_single(b[0])
    } else if b.len() == 2 {
        encode_pair(b[0], b[1])
    } else {
        encode_triple(b[0], b[1], b[2]) + encode_unpadded(b.skip(3))
    }
}

/// The `=` characters that complete the last group of four.
pub open spec fn padding(n: nat) -> Seq<char> {
    if n % 3 == 1 {
        seq!['=', '=']
    } else if n % 3 == 2 {
        seq!['=']
    } else {
        seq![]
    }
}

/// URL-safe Base64 of `b` with padding.
pub open spec fn encode_padded(b: Seq<u8>) -> Seq<char> {
    encode_unpadded(b) + padding(b.len())
}

/// No character of the alphabet is the padding character.
proof fn lemma_sextet_not_pad(v: int)
    requires
        0 <= v < 64,
    ensures
        sextet_char(v) != '=',
        sextet_char(v) != '.',
{
}

/// Distinct 6-bit values have distinct characters.
proof fn lemma_sextet_injective(v: int, w: int)
    requires
        0 <= v < 64,
        0 <= w < 64,
        sextet_char(v) == sextet_char(w),
    ensures
        v == w,
{
}

proof fn lemma_triple_bytes(b0: u8, b1: u8, b2: u8, c0: u8, c1: u8, c2: u8)
    requires
        b0 / 4 == c0 / 4,
        (b0 % 4) * 16 + b1 / 16 == (c0 % 4) * 16 + c1 / 16,
        (b1 % 16) * 4 + b2 / 64 == (c1 % 16) * 4 + c2 / 64,
        b2 % 64 == c2 % 64,
    ensures
        b0 == c0,
        b1 == c1,
        b2 == c2,
{
    assert(b0 == c0 && b1 == c1 && b2 == c2) by (bit_vector)
        requires
            b0 / 4 == c0 / 4,
            (b0 % 4) * 16 + b1 / 16 == (c0 % 4) * 16 + c1 / 16,
            (b1 % 16) * 4 + b2 / 64 == (c1 % 16) * 4 + c2 / 64,
            b2 % 64 == c2 % 64,
    ;
}

proof fn lemma_triple_injective(b0: u8, b1: u8, b2: u8, c0: u8, c1: u8, c2: u8)
    requires
        encode_triple(b0, b1, b2) == encode_triple(c0, c1, c2),
    ensures
        b0 == c0,
        b1 == c1,
        b2 == c2,
{
    let x = encode_triple(b0, b1, b2);
    let y = encode_triple(c0, c1, c2);
    assert(x[0] == y[0] && x[1] == y[1] && x[2] == y[2] && x[3] == y[3]);
    let (x0, x1, x2) = (b0 as int, b1 as int, b2 as int);
    let (y0, y1, y2) = (c0 as int, c1 as int, c2 as int);
    lemma_sextet_injective(x0 / 4, y0 / 4);
    lemma_sextet_injective((x0 % 4) * 16 + x1 / 16, (y0 % 4) * 16 + y1 / 16);
    lemma_sextet_injective((x1 % 16) * 4 + x2 / 64, (y1 % 16) * 4 + y2 / 64);
    lemma_sextet_injective(x2 % 64, y2 % 64);
    lemma_triple_bytes(b0, b1, b2, c0, c1, c2);
}

proof fn lemma_pair_injective(b0: u8, b1: u8, c0: u8, c1: u8)
    requires
        encode_pair(b0, b1) == encode_pair(c0, c1),
    ensures
        b0 == c0,
        b1 == c1,
{
    let x = encode_pair(b0, b1);
    let y = encode_pair(c0, c1);
    assert(x[0] == y[0] && x[1] == y[1] && x[2] == y[2]);
    let (x0, x1, y0, y1) = (b0 as int, b1 as int, c0 as int, c1 as int);
    lemma_sextet_injective(x0 / 4, y0 / 4);
    lemma_sextet_injective((x0 % 4) * 16 + x1 / 16, (y0 % 4) * 16 + y1 / 16);
    lemma_sextet_injective((x1 % 16) * 4, (y1 % 16) * 4);
    assert(b0 == c0 && b1 == c1) by (bit_vector)
        requires
            b0 / 4 == c0 / 4,
            (b0 % 4) * 16 + b1 / 16 == (c0 % 4) * 16 + c1 / 16,
            (b1 % 16) * 4 == (c1 % 16) * 4,
    ;
}

proof fn lemma_single_injective(b0: u8, c0: u8)
    requires
        encode_single(b0) == encode_single(c0),
    ensures
        b0 == c0,
{
    let x = encode_single(b0);
    let y = encode_single(c0);
    assert(x[0] == y[0] && x[1] == y[1]);
    let (x0, y0) = (b0 as int, c0 as int);
    lemma_sextet_injective(x0 / 4, y0 / 4);
    lemma_sextet_injective((x0 % 4) * 16, (y0 % 4) * 16);
    assert(b0 == c0) by (bit_vector)
        requires
            b0 / 4 == c0 / 4,
            (b0 % 4) * 16 == (c0 % 4) * 16,
    ;
}

/// The unpadded encoding has four characters for every three bytes, and two
/// or three for a final one or two.
proof fn lemma_unpadded_shape(b: Seq<u8>)
    ensures
        encode_unpadded(b).len() == 4 * (b.len() / 3) + (if b.len() % 3 == 0 {
            0int
        } else {
            (b.len() % 3 + 1) as int
        }),
        forall|i: int|
            0 <= i < encode_unpadded(b).len() ==> encode_unpadded(b)[i] != '=' && encode_unpadded(
                b,
            )[i] != '.',
    decreases b.len(),
{
    let (x0, x1, x2) = (b[0] as int, b[1] as int, b[2] as int);
    if b.len() == 0 {
    } else if b.len() == 1 {
        lemma_sextet_not_pad(x0 / 4);
        lemma_sextet_not_pad((x0 % 4) * 16);
    } else if b.len() == 2 {
        lemma_sextet_not_pad(x0 / 4);
        lemma_sextet_not_pad((x0 % 4) * 16 + x1 / 16);
        lemma_sextet_not_pad((x1 % 16) * 4);
    } else {
        lemma_unpadded_shape(b.skip(3));
        lemma_sextet_not_pad(x0 / 4);
        lemma_sextet_not_pad((x0 % 4) * 16 + x1 / 16);
        lemma_sextet_not_pad((x1 % 16) * 4 + x2 / 64);
        lemma_sextet_not_pad(x2 % 64);
        let t = encode_triple(b[0], b[1], b[2]);
        let r = encode_unpadded(b.skip(3));
        assert forall|i: int| 0 <= i < encode_unpadded(b).len() implies encode_unpadded(b)[i]
            != '=' && encode_unpadded(b)[i] != '.' by {
            if i >= 4 {
                assert(encode_unpadded(b)[i] == r[i - 4]);
            }
        }
    }
}

/// No character of an encoding is a dot, so a dot can separate encodings.
pub proof fn lemma_unpadded_has_no_dot(b: Seq<u8>, i: int)
    requires
        0 <= i < encode_unpadded(b).len(),
    ensures
        encode_unpadded(b)[i] != '.',
{
    lemma_unpadded_shape(b);
}

/// Unpadded encodings are injective too: the length of an encoding tells how
/// many bytes the last group holds, hence its padding.
pub proof fn lemma_unpadded_injective(a: Seq<u8>, b: Seq<u8>)
    requires
        encode_unpadded(a) == encode_unpadded(b),
    ensures
        a == b,
{
    lemma_unpadded_shape(a);
    lemma_unpadded_shape(b);
    let n = encode_unpadded(a).len();
    assert(a.len() % 3 == b.len() % 3) by {
        assert(n % 4 == (if a.len() % 3 == 0 {
            0int
        } else {
            (a.len() % 3 + 1) as int
        }));
        assert(n % 4 == (if b.len() % 3 == 0 {
            0int
        } else {
            (b.len() % 3 + 1) as int
        }));
    }
    assert(padding(a.len()) == padding(b.len()));
    assert(encode_padded(a) == encode_padded(b));
    lemma_padded_injective(a, b);
}

/// A padded encoding of one or two bytes is four characters ending in
/// padding; nothing longer or shorter encodes to it.
proof fn lemma_padded_short(a: Seq<u8>, b: Seq<u8>)
    requires
        encode_padded(a) == encode_padded(b),
        1 <= a.len() <= 2,
    ensures
        b.len() == a.len(),
{
    lemma_unpadded_shape(a);
    lemma_unpadded_shape(b);
    let pa = encode_padded(a);
    let pb = encode_padded(b);
    assert(pa.len() == 4);
    assert(pa[3] == '=');
    if b.len() >= 3 {
        assert(b.len() == 3) by {
            if b.len() > 3 {
                assert(b.len() / 3 >= 2 || b.len() % 3 != 0);
            }
        }
        assert(pb[3] == encode_unpadded(b)[3]);
    } else if b.len() == 0 {
    } else if a.len() == 1 && b.len() == 2 {
        assert(pa[2] == '=');
        assert(pb[2] == encode_unpadded(b)[2]);
    } else if a.len() == 2 && b.len() == 1 {
        assert(pb[2] == '=');
        assert(pa[2] == encode_unpadded(a)[2]);
    }
}

/// Padded encodings are injective: a padded encoding names one byte sequence.
pub proof fn lemma_padded_injective(a: Seq<u8>, b: Seq<u8>)
    requires
        encode_padded(a) == encode_padded(b),
    ensures
        a == b,
    decreases a.len(),
{
    lemma_unpadded_shape(a);
    lemma_unpadded_shape(b);
    let pa = encode_padded(a);
    let pb = encode_padded(b);
    if 1 <= a.len() <= 2 {
        lemma_padded_short(a, b);
        if a.len() == 1 {
            assert(encode_single(a[0]) =~= pa.take(2));
            assert(encode_single(b[0]) =~= pb.take(2));
            lemma_single_injective(a[0], b[0]);
        } else {
            assert(encode_pair(a[0], a[1]) =~= pa.take(3));
            assert(encode_pair(b[0], b[1]) =~= pb.take(3));
            lemma_pair_injective(a[0], a[1], b[0], b[1]);
        }
        assert(a =~= b);
    } else if 1 <= b.len() <= 2 {
        lemma_padded_short(b, a);
    } else if a.len() == 0 || b.len() == 0 {
        assert(a.len() == 0 && b.len() == 0);
        assert(a =~= b);
    } else {
        let ta = encode_triple(a[0], a[1], a[2]);
        let tb = encode_triple(b[0], b[1], b[2]);
        assert(pa =~= ta + encode_padded(a.skip(3)));
        assert(pb =~= tb + encode_padded(b.skip(3)));
        assert(ta =~= pa.take(4));
        assert(tb =~= pb.take(4));
        assert(encode_padded(a.skip(3)) =~= pa.skip(4));
        assert(encode_padded(b.skip(3)) =~= pb.skip(4));
        lemma_triple_injective(a[0], a[1], a[2], b[0], b[1], b[2]);
        lemma_padded_injective(a.skip(3), b.skip(3));
        assert(a =~= a.take(3) + a.skip(3));
        assert(b =~= b.take(3) + b.skip(3));
        assert(a.take(3) =~= b.take(3));
    }
}

/// `base64::DecodeError`, the error of a refused decoding.
#[verifier::external_type_specification]
#[verifier::external_body]
pub struct ExDecodeError(base64::DecodeError);

/// Calls `URL_SAFE_NO_PAD.encode` of the `base64` crate (the URL-safe
/// alphabet, no padding). Claimed: the text is the RFC 4648 section 5
/// encoding of the bytes, without `=` padding.
#[verifier::external_body]
pub(crate) fn encode_url_safe_no_pad(bytes: &[u8]) -> (text: String)
    ensures
        text@ == encode_unpadded(bytes@),
{
    base64::Engine::encode(&base64::engine::general_purpose::URL_SAFE_NO_PAD, bytes)
}

/// Calls `URL_SAFE.decode` of the `base64` crate, whose configuration
/// requires canonical padding and refuses non-zero trailing bits. Claimed:
/// it succeeds exactly on the canonical padded encodings, and gives back the
/// bytes so encoded.
#[verifier::external_body]
pub(crate) fn decode_url_safe(text: &str) -> (res: Result<Vec<u8>, base64::DecodeError>)
    ensures
        res matches Ok(bytes) ==> encode_padded(bytes@) == text@,
        res is Err ==> forall|bytes: Seq<u8>| #[trigger] encode_padded(bytes) != text@,
{
    base64::Engine::decode(&base64::engine::general_purpose::URL_SAFE, text)
}

/// URL-safe Base64 text of `bytes`, without padding.
pub fn encode_unpadded_text(bytes: &[u8]) -> (text: String)
    ensures
        text@ == encode_unpadded(bytes@),
{
    encode_url_safe_no_pad(bytes)
}

/// The bytes whose padded URL-safe Base64 encoding is `text`, if there are any.
pub open spec fn decode_padded(text: Seq<char>) -> Option<Seq<u8>> {
    if exists|bytes: Seq<u8>| #[trigger] encode_padded(bytes) == text {
        Some(choose|bytes: Seq<u8>| #[trigger] encode_padded(bytes) == text)
    } else {
        None
    }
}

/// The bytes whose padded URL-safe Base64 encoding is `text`, if any.
pub fn decode_padded_text(text: &str) -> (res: Option<Vec<u8>>)
    ensures
        match res {
            Some(bytes) => decode_padded(text@) == Some(bytes@),
            None => decode_padded(text@) is None,
        },
{
    match decode_url_safe(text) {
        Ok(bytes) => {
            proof {
                let c = choose|b: Seq<u8>| #[trigger] encode_padded(b) == text@;
                lemma_padded_injective(c, bytes@);
            }
            Some(bytes)
        },
        Err(_) => None,
    }
}

/// Decoding a padded encoding gives back the bytes that were encoded.
pub proof fn law_decode_inverts_encode(bytes: Seq<u8>)
    ensures
        decode_padded(encode_padded(bytes)) == Some(bytes),
{
    let text = encode_padded(bytes);
    assert(encode_padded(bytes) == text);
    let c = choose|b: Seq<u8>| #[trigger] encode_padded(b) == text;
    lemma_padded_injective(c, bytes);
}

} // verus!
