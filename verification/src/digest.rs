//! Content digests and their hexadecimal text.

use vstd::prelude::*;

verus! {

/// The sixteen lower-case hexadecimal digits, by value.
pub const HEX_DIGITS: &'static str = "0123456789abcdef";

/// The 256-bit BLAKE3 digest of `data`, as thirty-two bytes.
pub uninterp spec fn blake3_digest(data: Seq<u8>) -> Seq<u8>;

/// The lower-case hexadecimal digit of value `v`.
pub open spec fn hex_digit(v: int) -> char
    recommends
        0 <= v < 16,
{
    HEX_DIGITS@[v]
}

/// The value of a hexadecimal digit of either case.
pub open spec fn digit_value(c: char) -> Option<int> {
    if '0' <= c <= '9' {
        Some(c as int - '0' as int)
    } else if 'a' <= c <= 'f' {
        Some(c as int - 'a' as int + 10)
    } else if 'A' <= c <= 'F' {
        Some(c as int - 'A' as int + 10)
    } else {
        None
    }
}

/// The lower-case hexadecimal text of `data`: two digits for each byte, the
/// high half first.
pub open spec fn hex_text(data: Seq<u8>) -> Seq<char>
    decreases data.len(),
{
    if data.len() == 0 {
        Seq::empty()
    } else {
        hex_text(data.drop_last()).push(hex_digit(data.last() as int / 16)).push(
            hex_digit(data.last() as int % 16),
        )
    }
}

/// The bytes that a hexadecimal text stands for: the text must hold an even
/// number of characters, each of them a hexadecimal digit of either case.
pub open spec fn hex_bytes(text: Seq<char>) -> Option<Seq<u8>>
    decreases text.len(),
{
    if text.len() == 0 {
        Some(Seq::empty())
    } else if text.len() == 1 {
        None
    } else {
        match (
            hex_bytes(text.take(text.len() - 2)),
            digit_value(text[text.len() - 2]),
            digit_value(text[text.len() - 1]),
        ) {
            (Some(bytes), Some(high), Some(low)) => Some(bytes.push((high * 16 + low) as u8)),
            _ => None,
        }
    }
}

/// Calls `blake3::hash` and copies the digest out. The digest is named, not
/// described, but for its length.
#[verifier::external_body]
pub(crate) fn blake3_hash(data: &[u8]) -> (res: Vec<u8>)
    ensures
        res@ == blake3_digest(data@),
        res@.len() == 32,
{
    blake3::hash(data).as_bytes().to_vec()
}

/// Calls `hex::encode`, which writes two lower-case digits for each byte.
#[verifier::external_body]
pub(crate) fn hex_encode(data: &[u8]) -> (res: String)
    ensures
        res@ == hex_text(data@),
{
    hex::encode(data)
}

/// Calls `hex::decode`, which fails on a text of odd length and on any
/// character that is no hexadecimal digit, and else gives one byte for each
/// pair of digits.
#[verifier::external_body]
pub(crate) fn hex_decode(text: &str) -> (res: Option<Vec<u8>>)
    ensures
        match res {
            Some(bytes) => hex_bytes(text@) == Some(bytes@),
            None => hex_bytes(text@) is None,
        },
{
    hex::decode(text).ok()
}

/// A hexadecimal text has two characters for each byte.
pub proof fn lemma_hex_len(data: Seq<u8>)
    ensures
        hex_text(data).len() == 2 * data.len(),
    decreases data.len(),
{
    if data.len() > 0 {
        lemma_hex_len(data.drop_last());
    }
}

/// Each lower-case digit has the value that it was chosen for.
pub proof fn lemma_digit_value_of_hex_digit(v: int)
    requires
        0 <= v < 16,
    ensures
        digit_value(hex_digit(v)) == Some(v),
{
    reveal_strlit("0123456789abcdef");
}

/// Reading the hexadecimal text of some bytes gives those bytes back.
pub proof fn lemma_hex_round_trip(data: Seq<u8>)
    ensures
        hex_bytes(hex_text(data)) == Some(data),
    decreases data.len(),
{
    if data.len() > 0 {
        let text = hex_text(data);
        let last = data.last() as int;
        lemma_hex_round_trip(data.drop_last());
        lemma_digit_value_of_hex_digit(last / 16);
        lemma_digit_value_of_hex_digit(last % 16);
        assert(text.take(text.len() - 2) =~= hex_text(data.drop_last()));
    }
}

} // verus!
