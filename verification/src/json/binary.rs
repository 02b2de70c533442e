//! Binary cells as base64 text.

use vstd::prelude::*;
use crate::json::value::{CanonicalValue, ValueView};

verus! {

/// The 64 symbols of the standard base64 alphabet, in the order of their
/// values.
pub open spec fn base64_alphabet() -> Seq<char> {
    "ABCDEFGHIJKLMNOPQRSTUVWXYZabcdefghijklmnopqrstuvwxyz0123456789+/"@
}

/// The standard base64 encoding with padding: every three bytes give four
/// symbols, six bits each from the first bit on; one or two last bytes give
/// two or three symbols, the missing low bits zero, and `=` up to four.
pub open spec fn base64_text(bytes: Seq<u8>) -> Seq<char>
    decreases bytes.len(),
{
    let symbols = base64_alphabet();
    if bytes.len() == 0 {
        Seq::empty()
    } else if bytes.len() == 1 {
        seq![symbols[bytes[0] as int / 4], symbols[(bytes[0] as int % 4) * 16], '=', '=']
    } else if bytes.len() == 2 {
        seq![
            symbols[bytes[0] as int / 4],
            symbols[(bytes[0] as int % 4) * 16 + bytes[1] as int / 16],
            symbols[(bytes[1] as int % 16) * 4],
            '=',
        ]
    } else {
        seq![
            symbols[bytes[0] as int / 4],
            symbols[(bytes[0] as int % 4) * 16 + bytes[1] as int / 16],
            symbols[(bytes[1] as int % 16) * 4 + bytes[2] as int / 64],
            symbols[bytes[2] as int % 64],
        ] + base64_text(bytes.skip(3))
    }
}

/// The encoding at work on one, two and three bytes: `f` is `Zg==`, the
/// bytes DE AD are `3q0=`, and `foo` is `Zm9v`.
pub proof fn lemma_base64_text_examples()
    ensures
        base64_text(seq![0x66u8]) == "Zg=="@,
        base64_text(seq![0xDEu8, 0xADu8]) == "3q0="@,
        base64_text(seq![0x66u8, 0x6fu8, 0x6fu8]) == "Zm9v"@,
{
    reveal_strlit("ABCDEFGHIJKLMNOPQRSTUVWXYZabcdefghijklmnopqrstuvwxyz0123456789+/");
    reveal_strlit("Zg==");
    reveal_strlit("3q0=");
    reveal_strlit("Zm9v");
    let one = seq![0x66u8];
    let two = seq![0xDEu8, 0xADu8];
    let three = seq![0x66u8, 0x6fu8, 0x6fu8];
    assert(base64_text(one) =~= "Zg=="@);
    assert(base64_text(two) =~= "3q0="@);
    assert(three.skip(3) =~= Seq::<u8>::empty());
    assert(base64_text(three.skip(3)) =~= Seq::<char>::empty());
    assert(base64_text(three) =~= "Zm9v"@);
}

/// Calls `encode` of base64's `STANDARD` engine, which encodes with the
/// alphabet of RFC 4648 and pads with `=`. The contract states that encoding
/// in full. `encode` panics only where the length of the text would not fit
/// a `usize`, which no slice in memory is long enough for.
#[verifier::external_body]
pub(crate) fn base64_standard(bytes: &Vec<u8>) -> (text: String)
    ensures
        text@ == base64_text(bytes@),
{
    base64::Engine::encode(&base64::engine::general_purpose::STANDARD, bytes)
}

/// What a binary cell converts to: its bytes as base64 text.
pub open spec fn binary_view(bytes: Seq<u8>) -> ValueView {
    ValueView::Text(base64_text(bytes))
}

/// Converts a binary cell.
pub fn binary_value(bytes: &Vec<u8>) -> (value: CanonicalValue)
    ensures
        value@ == binary_view(bytes@),
        value.wf(),
{
    CanonicalValue::Text(base64_standard(bytes))
}

} // verus!
