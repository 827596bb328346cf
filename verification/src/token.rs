use vstd::prelude::*;

use argon2::password_hash::rand_core::{OsRng, RngCore};
use base64::Engine;

verus! {

/// The character of a base64 alphabet (RFC 4648) that stands for the six-bit
/// value `v`: the URL-safe alphabet (section 5) ends in `-` and `_`, the
/// standard one (section 4) in `+` and `/`.
pub open spec fn b64_char(v: int, url_safe: bool) -> char {
    if v < 26 {
        (65 + v) as char
    } else if v < 52 {
        (97 + (v - 26)) as char
    } else if v < 62 {
        (48 + (v - 52)) as char
    } else if v == 62 {
        if url_safe {
            '-'
        } else {
            '+'
        }
    } else {
        if url_safe {
            '_'
        } else {
            '/'
        }
    }
}

/// Base64 without padding: each group of three bytes becomes four characters;
/// a last group of two bytes becomes three, of one byte two.
pub open spec fn base64_no_pad(bytes: Seq<u8>, url_safe: bool) -> Seq<char>
    decreases bytes.len(),
{
    let b0 = bytes[0] as int;
    let b1 = bytes[1] as int;
    let b2 = bytes[2] as int;
    if bytes.len() == 0 {
        Seq::empty()
    } else if bytes.len() == 1 {
        seq![b64_char(b0 / 4, url_safe), b64_char((b0 % 4) * 16, url_safe)]
    } else if bytes.len() == 2 {
        seq![
            b64_char(b0 / 4, url_safe),
            b64_char((b0 % 4) * 16 + b1 / 16, url_safe),
            b64_char((b1 % 16) * 4, url_safe),
        ]
    } else {
        seq![
            b64_char(b0 / 4, url_safe),
            b64_char((b0 % 4) * 16 + b1 / 16, url_safe),
            b64_char((b1 % 16) * 4 + b2 / 64, url_safe),
            b64_char(b2 % 64, url_safe),
        ] + base64_no_pad(bytes.skip(3), url_safe)
    }
}

/// URL-safe base64 without padding.
pub open spec fn base64_url_no_pad(bytes: Seq<u8>) -> Seq<char> {
    base64_no_pad(bytes, true)
}

/// Standard base64 without padding (the "B64" of PHC strings).
pub open spec fn base64_std_no_pad(bytes: Seq<u8>) -> Seq<char> {
    base64_no_pad(bytes, false)
}

/// A character of a base64 alphabet.
pub open spec fn is_b64_char(c: char, url_safe: bool) -> bool {
    ||| 'A' <= c <= 'Z'
    ||| 'a' <= c <= 'z'
    ||| '0' <= c <= '9'
    ||| url_safe && (c == '-' || c == '_')
    ||| !url_safe && (c == '+' || c == '/')
}

/// A character of the URL-safe base64 alphabet.
pub open spec fn is_url_safe_char(c: char) -> bool {
    is_b64_char(c, true)
}

/// Fills the buffer from the operating system's random source, by
/// `rand_core::OsRng::fill_bytes` (as `argon2::password_hash` re-exports it).
/// Nothing is stated of the bytes but their number: they are random. (The
/// call panics where the operating system gives no randomness.)
#[verifier::external_body]
pub(crate) fn fill_random(buf: &mut Vec<u8>)
    ensures
        final(buf)@.len() == old(buf)@.len(),
{
    OsRng.fill_bytes(buf.as_mut_slice())
}

/// Encodes the bytes with `base64::engine::general_purpose::URL_SAFE_NO_PAD`
/// (`Engine::encode`): URL-safe alphabet, no `=` padding. The length bound
/// keeps the encoder's size computation from overflowing, where it panics.
#[verifier::external_body]
fn encode_url_safe_no_pad(bytes: &[u8]) -> (r: String)
    requires
        bytes@.len() <= usize::MAX / 4,
    ensures
        r@ == base64_url_no_pad(bytes@),
{
    base64::engine::general_purpose::URL_SAFE_NO_PAD.encode(bytes)
}

/// The session token made from the given random bytes (32 of them for a new
/// token): their URL-safe base64 text without padding.
pub fn session_token_from_bytes(bytes: &[u8]) -> (r: String)
    requires
        bytes@.len() <= usize::MAX / 4,
    ensures
        r@ == base64_url_no_pad(bytes@),
{
    encode_url_safe_no_pad(bytes)
}

/// A new session token: 32 random bytes, as URL-safe base64 text without padding.
pub fn generate_session_token() -> (r: String)
    ensures
        exists|bytes: Seq<u8>| bytes.len() == 32 && r@ == base64_url_no_pad(bytes),
{
    let mut bytes: Vec<u8> = vec![0u8; 32];
    fill_random(&mut bytes);
    session_token_from_bytes(bytes.as_slice())
}

/// The encoding has `ceil(4n / 3)` characters for `n` bytes, all of them from the
/// alphabet.
pub proof fn lemma_base64_no_pad_shape(bytes: Seq<u8>, url_safe: bool)
    ensures
        base64_no_pad(bytes, url_safe).len() == (4 * bytes.len() + 2) / 3,
        forall|i: int|
            0 <= i < base64_no_pad(bytes, url_safe).len() ==> is_b64_char(
                #[trigger] base64_no_pad(bytes, url_safe)[i],
                url_safe,
            ),
    decreases bytes.len(),
{
    if bytes.len() >= 3 {
        lemma_base64_no_pad_shape(bytes.skip(3), url_safe);
    }
    let out = base64_no_pad(bytes, url_safe);
    assert forall|i: int| 0 <= i < out.len() implies is_b64_char(#[trigger] out[i], url_safe) by {
        if bytes.len() >= 3 && i >= 4 {
            assert(out[i] == base64_no_pad(bytes.skip(3), url_safe)[i - 4]);
        }
        lemma_b64_char_in_alphabet_all(url_safe);
    }
}

/// Every six-bit value stands for a character of the alphabet.
proof fn lemma_b64_char_in_alphabet_all(url_safe: bool)
    ensures
        forall|v: int| 0 <= v < 64 ==> is_b64_char(#[trigger] b64_char(v, url_safe), url_safe),
{
    assert forall|v: int| 0 <= v < 64 implies is_b64_char(
        #[trigger] b64_char(v, url_safe),
        url_safe,
    ) by {
        if v < 26 {
            assert(65 <= 65 + v <= 90);
        } else if v < 52 {
            assert(97 <= 97 + (v - 26) <= 122);
        } else if v < 62 {
            assert(48 <= 48 + (v - 52) <= 57);
        }
    }
}

/// Distinct six-bit values stand for distinct characters.
proof fn lemma_b64_char_injective(v: int, w: int, url_safe: bool)
    requires
        0 <= v < 64,
        0 <= w < 64,
        b64_char(v, url_safe) == b64_char(w, url_safe),
    ensures
        v == w,
{
    let c = b64_char(v, url_safe);
    assert(c as int == b64_char(w, url_safe) as int);
}

/// Three bytes are determined by the four six-bit values they are written as.
proof fn lemma_group_of_three(a0: u8, a1: u8, a2: u8, b0: u8, b1: u8, b2: u8)
    by (bit_vector)
    requires
        a0 / 4 == b0 / 4,
        (a0 % 4) * 16 + a1 / 16 == (b0 % 4) * 16 + b1 / 16,
        (a1 % 16) * 4 + a2 / 64 == (b1 % 16) * 4 + b2 / 64,
        a2 % 64 == b2 % 64,
    ensures
        a0 == b0,
        a1 == b1,
        a2 == b2,
{
}

/// Two bytes are determined by the three six-bit values they are written as.
proof fn lemma_group_of_two(a0: u8, a1: u8, b0: u8, b1: u8)
    by (bit_vector)
    requires
        a0 / 4 == b0 / 4,
        (a0 % 4) * 16 + a1 / 16 == (b0 % 4) * 16 + b1 / 16,
        (a1 % 16) * 4 == (b1 % 16) * 4,
    ensures
        a0 == b0,
        a1 == b1,
{
}

/// A byte is determined by the two six-bit values it is written as.
proof fn lemma_group_of_one(a0: u8, b0: u8)
    by (bit_vector)
    requires
        a0 / 4 == b0 / 4,
        (a0 % 4) * 16 == (b0 % 4) * 16,
    ensures
        a0 == b0,
{
}

/// The encoding loses nothing: distinct byte sequences have distinct
/// encodings, so a token determines the bytes it was made from.
pub proof fn lemma_base64_no_pad_injective(a: Seq<u8>, b: Seq<u8>, url_safe: bool)
    requires
        base64_no_pad(a, url_safe) == base64_no_pad(b, url_safe),
    ensures
        a == b,
    decreases a.len(),
{
    lemma_base64_no_pad_shape(a, url_safe);
    lemma_base64_no_pad_shape(b, url_safe);
    assert(a.len() == b.len());
    let out = base64_no_pad(a, url_safe);
    if a.len() == 0 {
        assert(a =~= b);
    } else if a.len() == 1 {
        lemma_b64_char_injective((a[0] as int) / 4, (b[0] as int) / 4, url_safe);
        lemma_b64_char_injective((a[0] as int % 4) * 16, (b[0] as int % 4) * 16, url_safe);
        lemma_group_of_one(a[0], b[0]);
        assert(a =~= b);
    } else if a.len() == 2 {
        lemma_b64_char_injective((a[0] as int) / 4, (b[0] as int) / 4, url_safe);
        lemma_b64_char_injective(
            (a[0] as int % 4) * 16 + (a[1] as int) / 16,
            (b[0] as int % 4) * 16 + (b[1] as int) / 16,
            url_safe,
        );
        lemma_b64_char_injective((a[1] as int % 16) * 4, (b[1] as int % 16) * 4, url_safe);
        lemma_group_of_two(a[0], a[1], b[0], b[1]);
        assert(a =~= b);
    } else {
        let ob = base64_no_pad(b, url_safe);
        let head_a = seq![
            b64_char(a[0] as int / 4, url_safe),
            b64_char((a[0] as int % 4) * 16 + a[1] as int / 16, url_safe),
            b64_char((a[1] as int % 16) * 4 + a[2] as int / 64, url_safe),
            b64_char(a[2] as int % 64, url_safe),
        ];
        let head_b = seq![
            b64_char(b[0] as int / 4, url_safe),
            b64_char((b[0] as int % 4) * 16 + b[1] as int / 16, url_safe),
            b64_char((b[1] as int % 16) * 4 + b[2] as int / 64, url_safe),
            b64_char(b[2] as int % 64, url_safe),
        ];
        assert(out == head_a + base64_no_pad(a.skip(3), url_safe));
        assert(ob == head_b + base64_no_pad(b.skip(3), url_safe));
        assert(out[0] == head_a[0] && out[1] == head_a[1] && out[2] == head_a[2] && out[3] == head_a[3]);
        assert(ob[0] == head_b[0] && ob[1] == head_b[1] && ob[2] == head_b[2] && ob[3] == head_b[3]);
        lemma_b64_char_injective((a[0] as int) / 4, (b[0] as int) / 4, url_safe);
        lemma_b64_char_injective(
            (a[0] as int % 4) * 16 + (a[1] as int) / 16,
            (b[0] as int % 4) * 16 + (b[1] as int) / 16,
            url_safe,
        );
        lemma_b64_char_injective(
            (a[1] as int % 16) * 4 + (a[2] as int) / 64,
            (b[1] as int % 16) * 4 + (b[2] as int) / 64,
            url_safe,
        );
        lemma_b64_char_injective((a[2] as int) % 64, (b[2] as int) % 64, url_safe);
        lemma_group_of_three(a[0], a[1], a[2], b[0], b[1], b[2]);
        assert(base64_no_pad(a.skip(3), url_safe) =~= out.skip(4));
        assert(base64_no_pad(b.skip(3), url_safe) =~= out.skip(4));
        lemma_base64_no_pad_injective(a.skip(3), b.skip(3), url_safe);
        assert(a =~= b) by {
            assert forall|i: int| 0 <= i < a.len() implies a[i] == b[i] by {
                if i >= 3 {
                    assert(a[i] == a.skip(3)[i - 3]);
                    assert(b[i] == b.skip(3)[i - 3]);
                }
            }
        }
    }
}

/// A session token has 43 characters, all from the URL-safe base64 alphabet.
pub proof fn lemma_session_token_shape(bytes: Seq<u8>)
    requires
        bytes.len() == 32,
    ensures
        base64_url_no_pad(bytes).len() == 43,
        forall|i: int|
            0 <= i < 43 ==> is_url_safe_char(#[trigger] base64_url_no_pad(bytes)[i]),
{
    lemma_base64_no_pad_shape(bytes, true);
}

} // verus!
