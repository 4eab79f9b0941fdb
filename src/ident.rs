//! Short identifiers: a random 32-bit number, written in decimal, encoded in
//! the URL-safe base64 alphabet without padding.

use base64::Engine;
use rand::Rng;
use vstd::prelude::*;

verus! {

/// The ASCII decimal digits of `n`, most significant first, without leading zeros.
pub open spec fn decimal(n: nat) -> Seq<u8>
    decreases n,
{
    if n < 10 {
        seq![(48 + n) as u8]
    } else {
        decimal(n / 10).push((48 + n % 10) as u8)
    }
}

/// A character of the URL-safe base64 alphabet: `A-Z`, `a-z`, `0-9`, `-` and `_`.
pub open spec fn is_url_safe_char(c: char) -> bool {
    ('A' <= c && c <= 'Z') || ('a' <= c && c <= 'z') || ('0' <= c && c <= '9') || c == '-'
        || c == '_'
}

/// Length of the unpadded base64 encoding of `n` bytes: four characters for
/// each whole group of three bytes, then two or three for a final partial group.
pub open spec fn unpadded_len(n: nat) -> nat {
    4 * (n / 3) + if n % 3 == 0 {
        0nat
    } else if n % 3 == 1 {
        2nat
    } else {
        3nat
    }
}

/// What the URL-safe, unpadded base64 engine makes of these bytes.
pub uninterp spec fn base64_url_unpadded(b: Seq<u8>) -> Seq<char>;

/// The identifier that stands for the number `n`.
pub open spec fn id_text(n: u32) -> Seq<char> {
    base64_url_unpadded(decimal(n as nat))
}

/// Relies on `base64::engine::general_purpose::URL_SAFE_NO_PAD.encode`: the
/// encoding has the unpadded length and uses the URL-safe alphabet only.
#[verifier::external_body]
fn encode_url_unpadded(bytes: &Vec<u8>) -> (r: String)
    ensures
        r@ == base64_url_unpadded(bytes@),
        r@.len() == unpadded_len(bytes@.len()),
        forall|i: int| 0 <= i < r@.len() ==> is_url_safe_char(#[trigger] r@[i]),
{
    base64::engine::general_purpose::URL_SAFE_NO_PAD.encode(bytes)
}

/// Relies on `rand::Rng::gen_range` over `rand::thread_rng()`: a number drawn
/// from `0..u32::MAX`.
#[verifier::external_body]
pub(crate) fn draw_below_u32_max() -> (r: u32)
    ensures
        r < u32::MAX,
{
    rand::thread_rng().gen_range(0..u32::MAX)
}

/// Appends the decimal digits of `n` to `out`.
fn push_decimal(n: u32, out: &mut Vec<u8>)
    ensures
        final(out)@ == old(out)@ + decimal(n as nat),
    decreases n,
{
    let digit: u8 = 48u8 + (n % 10) as u8;
    if n >= 10 {
        push_decimal(n / 10, out);
        out.push(digit);
        assert(old(out)@ + decimal(n as nat) =~= old(out)@ + decimal((n / 10) as nat) + seq![
            digit,
        ]);
    } else {
        out.push(digit);
        assert(old(out)@ + decimal(n as nat) =~= old(out)@ + seq![digit]);
    }
}

/// The ASCII decimal rendering of `n`.
pub fn decimal_digits(n: u32) -> (r: Vec<u8>)
    ensures
        r@ == decimal(n as nat),
{
    let mut out: Vec<u8> = Vec::new();
    push_decimal(n, &mut out);
    assert(out@ =~= decimal(n as nat));
    out
}

/// The identifier for the number `n`: its decimal digits, base64-encoded with
/// the URL-safe alphabet and no padding.
pub fn id_for(n: u32) -> (r: String)
    ensures
        r@ == id_text(n),
        r@.len() == unpadded_len(decimal(n as nat).len()),
        forall|i: int| 0 <= i < r@.len() ==> is_url_safe_char(#[trigger] r@[i]),
{
    let digits = decimal_digits(n);
    encode_url_unpadded(&digits)
}

/// A fresh identifier for a number drawn uniformly from `0..u32::MAX`.
/// Identifiers are not unique: two draws may give the same one.
pub fn generate_id() -> (r: String)
    ensures
        exists|n: u32| n < u32::MAX && r@ == id_text(n),
        forall|i: int| 0 <= i < r@.len() ==> is_url_safe_char(#[trigger] r@[i]),
{
    let n = draw_below_u32_max();
    id_for(n)
}

} // verus!
