//! Lower-case hexadecimal text and decimal text, as mathematical functions on
//! sequences, with the executable encoders that follow them.

use vstd::prelude::*;
use vstd::string::StringExecFns;

verus! {

/// The lower-case hexadecimal digit for a value below sixteen.
pub open spec fn hex_digit(nibble: int) -> char {
    if nibble < 10 {
        (48 + nibble) as char
    } else {
        (87 + nibble) as char
    }
}

/// The value of a hexadecimal digit of either case, `None` for any other
/// character.
pub open spec fn hex_value(c: char) -> Option<int> {
    let code = c as int;
    if 48 <= code <= 57 {
        Some(code - 48)
    } else if 97 <= code <= 102 {
        Some(code - 87)
    } else if 65 <= code <= 70 {
        Some(code - 55)
    } else {
        None
    }
}

/// Lower-case hexadecimal text of a byte sequence: two digits per byte, the
/// high half of each byte first.
pub open spec fn hex_lower(bytes: Seq<u8>) -> Seq<char> {
    Seq::new(
        2 * bytes.len(),
        |i: int|
            if i % 2 == 0 {
                hex_digit(bytes[i / 2] as int / 16)
            } else {
                hex_digit(bytes[i / 2] as int % 16)
            },
    )
}

/// Whether a text is an even number of hexadecimal digits.
pub open spec fn is_hex(text: Seq<char>) -> bool {
    &&& text.len() % 2 == 0
    &&& forall|i: int| 0 <= i < text.len() ==> (#[trigger] hex_value(text[i])).is_some()
}

/// The bytes that a hexadecimal text stands for, `None` where it is not one.
pub open spec fn hex_bytes(text: Seq<char>) -> Option<Seq<u8>> {
    if is_hex(text) {
        Some(
            Seq::new(
                text.len() / 2,
                |k: int|
                    (16 * hex_value(text[2 * k]).unwrap() + hex_value(
                        text[2 * k + 1],
                    ).unwrap()) as u8,
            ),
        )
    } else {
        None
    }
}

/// A hexadecimal digit stands for the value it was made from.
pub proof fn lemma_hex_digit_value(nibble: int)
    requires
        0 <= nibble < 16,
    ensures
        hex_value(hex_digit(nibble)) == Some(nibble),
{
}

/// Decoding the lower-case hexadecimal text of any byte sequence gives the
/// sequence back.
pub proof fn lemma_hex_round_trip(bytes: Seq<u8>)
    ensures
        hex_lower(bytes).len() == 2 * bytes.len(),
        hex_bytes(hex_lower(bytes)) == Some(bytes),
{
    let text = hex_lower(bytes);
    assert forall|i: int| 0 <= i < text.len() implies (#[trigger] hex_value(text[i])).is_some() by {
        let b = bytes[i / 2] as int;
        lemma_hex_digit_value(b / 16);
        lemma_hex_digit_value(b % 16);
    }
    assert(is_hex(text));
    let back = hex_bytes(text).unwrap();
    assert(back.len() == bytes.len());
    assert forall|k: int| 0 <= k < bytes.len() implies back[k] == bytes[k] by {
        let b = bytes[k] as int;
        lemma_hex_digit_value(b / 16);
        lemma_hex_digit_value(b % 16);
        assert((2 * k) / 2 == k && (2 * k) % 2 == 0);
        assert((2 * k + 1) / 2 == k && (2 * k + 1) % 2 == 1);
        assert(text[2 * k] == hex_digit(b / 16));
        assert(text[2 * k + 1] == hex_digit(b % 16));
        assert(16 * (b / 16) + b % 16 == b);
    }
    assert(back =~= bytes);
}

/// Lower-case hexadecimal text of `data`.
///
/// Trusted: calls `hex::encode`, which writes each byte as two digits taken
/// from `0123456789abcdef`, the high half first.
#[verifier::external_body]
pub(crate) fn hex_encode(data: &[u8]) -> (text: String)
    ensures
        text@ == hex_lower(data@),
{
    hex::encode(data)
}

/// The decimal digit for a value below ten.
pub open spec fn decimal_digit(d: nat) -> char {
    (48 + d) as char
}

/// Decimal text of a natural number, without sign or leading zeros.
pub open spec fn decimal(n: nat) -> Seq<char>
    decreases n,
{
    if n < 10 {
        seq![decimal_digit(n)]
    } else {
        decimal(n / 10).push(decimal_digit(n % 10))
    }
}

/// The text of one decimal digit.
fn digit_text(d: u8) -> (text: &'static str)
    requires
        d < 10,
    ensures
        text@ == seq![decimal_digit(d as nat)],
{
    proof {
        reveal_strlit("0");
        reveal_strlit("1");
        reveal_strlit("2");
        reveal_strlit("3");
        reveal_strlit("4");
        reveal_strlit("5");
        reveal_strlit("6");
        reveal_strlit("7");
        reveal_strlit("8");
        reveal_strlit("9");
    }
    let text = match d {
        0 => "0",
        1 => "1",
        2 => "2",
        3 => "3",
        4 => "4",
        5 => "5",
        6 => "6",
        7 => "7",
        8 => "8",
        _ => "9",
    };
    assert(text@ =~= seq![decimal_digit(d as nat)]);
    text
}

/// Decimal text of `n`, without sign or leading zeros.
pub fn decimal_text(n: u128) -> (text: String)
    ensures
        text@ == decimal(n as nat),
    decreases n,
{
    if n < 10 {
        let digit: u8 = n as u8;
        String::from_str(digit_text(digit))
    } else {
        let last: u8 = (n % 10) as u8;
        let text = decimal_text(n / 10).concat(digit_text(last));
        assert(text@ =~= decimal(n as nat / 10).push(decimal_digit(n as nat % 10)));
        text
    }
}

} // verus!
