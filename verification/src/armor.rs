//! Base64 text armour for binary data: the standard alphabet with padding.

use vstd::prelude::*;

verus! {

/// The sixty-four symbols of the standard alphabet, by value.
pub const ALPHABET: &'static str =
    "ABCDEFGHIJKLMNOPQRSTUVWXYZabcdefghijklmnopqrstuvwxyz0123456789+/";

/// The symbol that stands for six bits of value `v`.
pub open spec fn symbol(v: int) -> char
    recommends
        0 <= v < 64,
{
    ALPHABET@[v]
}

/// The standard base64 text of `data`: four symbols for every three bytes,
/// and a last group padded with `=` where one or two bytes are left over.
pub open spec fn base64_text(data: Seq<u8>) -> Seq<char>
    decreases data.len(),
{
    if data.len() == 0 {
        Seq::empty()
    } else if data.len() == 1 {
        seq![symbol(data[0] as int / 4), symbol(data[0] as int % 4 * 16), '=', '=']
    } else if data.len() == 2 {
        seq![
            symbol(data[0] as int / 4),
            symbol(data[0] as int % 4 * 16 + data[1] as int / 16),
            symbol(data[1] as int % 16 * 4),
            '=',
        ]
    } else {
        seq![
            symbol(data[0] as int / 4),
            symbol(data[0] as int % 4 * 16 + data[1] as int / 16),
            symbol(data[1] as int % 16 * 4 + data[2] as int / 64),
            symbol(data[2] as int % 64),
        ] + base64_text(data.skip(3))
    }
}

/// Whether the text is the base64 text of some data.
pub open spec fn is_base64(text: Seq<char>) -> bool {
    exists|data: Seq<u8>| #[trigger] base64_text(data) == text
}

/// The data that a base64 text stands for.
pub open spec fn base64_data(text: Seq<char>) -> Seq<u8>
    recommends
        is_base64(text),
{
    choose|data: Seq<u8>| #[trigger] base64_text(data) == text
}

/// Calls `Engine::encode` of the `base64` crate on its `STANDARD` engine,
/// which writes the standard alphabet with padding.
#[verifier::external_body]
pub(crate) fn standard_encode(data: &[u8]) -> (res: String)
    requires
        data@.len() <= isize::MAX,
    ensures
        res@ == base64_text(data@),
{
    base64::Engine::encode(&base64::engine::general_purpose::STANDARD, data)
}

/// Calls `Engine::decode` of the `base64` crate on its `STANDARD` engine. The
/// engine asks for canonical padding and for clear trailing bits, so it
/// accepts a text exactly when the text is what encoding some data gives, and
/// then returns that data.
#[verifier::external_body]
pub(crate) fn standard_decode(text: &str) -> (res: Option<Vec<u8>>)
    ensures
        res is Some == is_base64(text@),
        res matches Some(data) ==> base64_text(data@) == text@,
{
    base64::Engine::decode(&base64::engine::general_purpose::STANDARD, text).ok()
}

/// The symbols of the alphabet differ from one another and from the padding
/// character.
pub proof fn lemma_symbols_differ(a: int, b: int)
    requires
        0 <= a < 64,
        0 <= b < 64,
    ensures
        symbol(a) != '=',
        symbol(a) == symbol(b) ==> a == b,
{
    reveal_strlit("ABCDEFGHIJKLMNOPQRSTUVWXYZabcdefghijklmnopqrstuvwxyz0123456789+/");
}

/// A base64 text has four characters for every three bytes begun.
pub proof fn lemma_base64_len(data: Seq<u8>)
    ensures
        base64_text(data).len() == 4 * ((data.len() + 2) / 3),
    decreases data.len(),
{
    if data.len() >= 3 {
        lemma_base64_len(data.skip(3));
    }
}

/// The first four characters of the text of three bytes or more, and what
/// follows them.
proof fn lemma_full_group(data: Seq<u8>)
    requires
        data.len() >= 3,
    ensures
        base64_text(data).len() >= 4,
        base64_text(data)[0] == symbol(data[0] as int / 4),
        base64_text(data)[1] == symbol(data[0] as int % 4 * 16 + data[1] as int / 16),
        base64_text(data)[2] == symbol(data[1] as int % 16 * 4 + data[2] as int / 64),
        base64_text(data)[3] == symbol(data[2] as int % 64),
        base64_text(data).skip(4) == base64_text(data.skip(3)),
{
    let head = seq![
        symbol(data[0] as int / 4),
        symbol(data[0] as int % 4 * 16 + data[1] as int / 16),
        symbol(data[1] as int % 16 * 4 + data[2] as int / 64),
        symbol(data[2] as int % 64),
    ];
    assert(base64_text(data) == head + base64_text(data.skip(3)));
    assert((head + base64_text(data.skip(3))).skip(4) =~= base64_text(data.skip(3)));
}

/// The padding of the first group tells how many bytes the group holds: one
/// where the third character is padding, two where only the fourth is, and
/// three where neither is.
proof fn lemma_padding_tells_length(data: Seq<u8>)
    requires
        data.len() > 0,
    ensures
        base64_text(data).len() >= 4,
        data.len() == 1 <==> base64_text(data)[2] == '=',
        data.len() <= 2 <==> base64_text(data)[3] == '=',
{
    if data.len() == 2 {
        lemma_symbols_differ(data[1] as int % 16 * 4, 0);
    } else if data.len() >= 3 {
        lemma_full_group(data);
        lemma_symbols_differ(data[1] as int % 16 * 4 + data[2] as int / 64, 0);
        lemma_symbols_differ(data[2] as int % 64, 0);
    }
}

/// Two groups that are written alike hold the same bytes.
proof fn lemma_first_group_injective(a: Seq<u8>, b: Seq<u8>)
    requires
        a.len() > 0,
        base64_text(a) == base64_text(b),
    ensures
        b.len() > 0,
        a.len() <= 2 ==> b.len() == a.len(),
        a.len() >= 3 ==> b.len() >= 3,
        a[0] == b[0],
        a.len() >= 2 ==> a[1] == b[1],
        a.len() >= 3 ==> a[2] == b[2],
{
    lemma_base64_len(a);
    lemma_base64_len(b);
    lemma_padding_tells_length(a);
    lemma_padding_tells_length(b);
    lemma_symbols_differ(a[0] as int / 4, b[0] as int / 4);
    if a.len() == 1 {
        lemma_symbols_differ(a[0] as int % 4 * 16, b[0] as int % 4 * 16);
    } else {
        lemma_symbols_differ(
            a[0] as int % 4 * 16 + a[1] as int / 16,
            b[0] as int % 4 * 16 + b[1] as int / 16,
        );
        if a.len() == 2 {
            lemma_symbols_differ(a[1] as int % 16 * 4, b[1] as int % 16 * 4);
        } else {
            lemma_full_group(a);
            lemma_full_group(b);
            lemma_symbols_differ(
                a[1] as int % 16 * 4 + a[2] as int / 64,
                b[1] as int % 16 * 4 + b[2] as int / 64,
            );
            lemma_symbols_differ(a[2] as int % 64, b[2] as int % 64);
        }
    }
}

/// Different data have different base64 texts.
pub proof fn lemma_base64_injective(a: Seq<u8>, b: Seq<u8>)
    requires
        base64_text(a) == base64_text(b),
    ensures
        a == b,
    decreases a.len(),
{
    if a.len() == 0 {
        lemma_base64_len(b);
    } else {
        lemma_first_group_injective(a, b);
        if a.len() >= 3 {
            lemma_full_group(a);
            lemma_full_group(b);
            lemma_base64_injective(a.skip(3), b.skip(3));
            assert(a =~= a.take(3) + a.skip(3));
            assert(b =~= b.take(3) + b.skip(3));
            assert(a.take(3) =~= b.take(3));
        } else {
            assert(a =~= b);
        }
    }
}

/// Reading the base64 text of some data gives those data back, and nothing
/// else.
pub proof fn lemma_base64_round_trip(data: Seq<u8>)
    ensures
        is_base64(base64_text(data)),
        base64_data(base64_text(data)) == data,
{
    let text = base64_text(data);
    lemma_base64_injective(base64_data(text), data);
}

} // verus!
