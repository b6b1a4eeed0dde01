//! Session tokens: 256 random bits, written as 64 lowercase hexadecimal
//! digits.

use vstd::prelude::*;

verus! {

/// Number of random bytes in a token.
pub const TOKEN_BYTES: usize = 32;

/// The lowercase hexadecimal digit for `n`, which is below 16.
pub open spec fn lower_hex_digit(n: int) -> char {
    if n < 10 {
        (n + 48) as u8 as char
    } else {
        (n + 87) as u8 as char
    }
}

/// Lowercase hexadecimal digit: `0-9`, `a-f`.
pub open spec fn is_lower_hex(c: char) -> bool {
    ('0' <= c && c <= '9') || ('a' <= c && c <= 'f')
}

/// `bytes` in hexadecimal: two lowercase digits for each byte, the high
/// half first.
pub open spec fn hex_string(bytes: Seq<u8>) -> Seq<char> {
    Seq::new(
        2 * bytes.len(),
        |i: int|
            if i % 2 == 0 {
                lower_hex_digit(bytes[i / 2] as int / 16)
            } else {
                lower_hex_digit(bytes[i / 2] as int % 16)
            },
    )
}

/// The form of a token: 64 lowercase hexadecimal digits.
pub open spec fn is_token(s: Seq<char>) -> bool {
    &&& s.len() == 2 * TOKEN_BYTES
    &&& forall|i: int| 0 <= i < s.len() ==> is_lower_hex(#[trigger] s[i])
}

/// Thirty-two bytes in hexadecimal have the form of a token.
pub proof fn lemma_hex_string_is_token(bytes: Seq<u8>)
    requires
        bytes.len() == TOKEN_BYTES,
    ensures
        is_token(hex_string(bytes)),
{
    assert forall|i: int| 0 <= i < hex_string(bytes).len() implies is_lower_hex(
        #[trigger] hex_string(bytes)[i],
    ) by {
        let b = bytes[i / 2] as int;
        assert(0 <= b / 16 < 16);
        assert(0 <= b % 16 < 16);
    }
}

/// Different numbers below 16 have different digits.
pub proof fn lemma_lower_hex_digit_injective(m: int, n: int)
    requires
        0 <= m < 16,
        0 <= n < 16,
        lower_hex_digit(m) == lower_hex_digit(n),
    ensures
        m == n,
{
    let c = lower_hex_digit(m);
    let d = lower_hex_digit(n);
    assert(c as u32 == if m < 10 {
        m + 48
    } else {
        m + 87
    });
    assert(d as u32 == if n < 10 {
        n + 48
    } else {
        n + 87
    });
}

/// Different bytes are written differently: two sequences of bytes with
/// the same hexadecimal text are the same. So two tokens are equal only
/// where the random source gave the same bytes twice.
pub proof fn law_hex_string_injective(a: Seq<u8>, b: Seq<u8>)
    requires
        hex_string(a) == hex_string(b),
    ensures
        a == b,
{
    assert(hex_string(a).len() == 2 * a.len());
    assert(hex_string(b).len() == 2 * b.len());
    assert forall|i: int| 0 <= i < a.len() implies a[i] == b[i] by {
        let x = a[i] as int;
        let y = b[i] as int;
        assert((2 * i) / 2 == i && (2 * i) % 2 == 0);
        assert((2 * i + 1) / 2 == i && (2 * i + 1) % 2 == 1);
        assert(hex_string(a)[2 * i] == lower_hex_digit(x / 16));
        assert(hex_string(b)[2 * i] == lower_hex_digit(y / 16));
        assert(hex_string(a)[2 * i + 1] == lower_hex_digit(x % 16));
        assert(hex_string(b)[2 * i + 1] == lower_hex_digit(y % 16));
        lemma_lower_hex_digit_injective(x / 16, y / 16);
        lemma_lower_hex_digit_injective(x % 16, y % 16);
        assert(x == 16 * (x / 16) + x % 16);
        assert(y == 16 * (y / 16) + y % 16);
    }
    assert(a =~= b);
}

/// Draws 32 bytes from `rand::thread_rng`, the thread's cryptographically
/// secure generator, with `Rng::gen`.
///
/// Nothing is taken on trust of the bytes: each call may hand back any.
#[verifier::external_body]
fn random_bytes() -> (bytes: [u8; 32]) {
    rand::Rng::gen(&mut rand::thread_rng())
}

/// Writes `bytes` in hexadecimal with `hex::encode`.
///
/// Taken on trust: the text holds two lowercase digits for each byte, in
/// order, the high half of each byte first, as the crate documents.
#[verifier::external_body]
fn hex_encode(bytes: &[u8; 32]) -> (text: String)
    ensures
        text@ == hex_string(bytes@),
{
    hex::encode(bytes)
}

/// The token that the 32 bytes `bytes` make.
pub fn encode_token(bytes: &[u8; 32]) -> (token: String)
    ensures
        token@ == hex_string(bytes@),
        is_token(token@),
{
    let token = hex_encode(bytes);
    proof {
        lemma_hex_string_is_token(bytes@);
    }
    token
}

/// A fresh token. Two calls give the same token only if the random source
/// gives the same 256 bits twice.
pub fn generate_token() -> (token: String)
    ensures
        is_token(token@),
        exists|bytes: Seq<u8>| bytes.len() == TOKEN_BYTES && token@ == #[trigger] hex_string(bytes),
{
    let bytes = random_bytes();
    encode_token(&bytes)
}

} // verus!
