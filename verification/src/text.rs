//! Text that the library composes: prefixes, decimal numbers and debug renderings.
use vstd::prelude::*;

verus! {

/// The decimal digit of a number below ten.
pub open spec fn digit_text(digit: nat) -> Seq<char> {
    if digit == 0 {
        "0"@
    } else if digit == 1 {
        "1"@
    } else if digit == 2 {
        "2"@
    } else if digit == 3 {
        "3"@
    } else if digit == 4 {
        "4"@
    } else if digit == 5 {
        "5"@
    } else if digit == 6 {
        "6"@
    } else if digit == 7 {
        "7"@
    } else if digit == 8 {
        "8"@
    } else {
        "9"@
    }
}

/// A number in decimal, without leading zeros.
pub open spec fn decimal(number: nat) -> Seq<char>
    decreases number,
{
    if number < 10 {
        digit_text(number)
    } else {
        decimal(number / 10) + digit_text(number % 10)
    }
}

/// Writes a number in decimal, without leading zeros.
pub fn decimal_text(number: u32) -> (text: String)
    ensures
        text@ == decimal(number as nat),
    decreases number,
{
    let last: u32 = number % 10;
    let digit: &str = if last == 0 {
        "0"
    } else if last == 1 {
        "1"
    } else if last == 2 {
        "2"
    } else if last == 3 {
        "3"
    } else if last == 4 {
        "4"
    } else if last == 5 {
        "5"
    } else if last == 6 {
        "6"
    } else if last == 7 {
        "7"
    } else if last == 8 {
        "8"
    } else {
        "9"
    };
    if number < 10 {
        digit.to_string()
    } else {
        decimal_text(number / 10).concat(digit)
    }
}

/// Puts `prefix` in front of `rest`.
pub fn prefixed(prefix: &str, rest: &str) -> (text: String)
    ensures
        text@ == prefix@ + rest@,
{
    prefix.to_string().concat(rest)
}

/// Tells whether `text` begins with `prefix`.
pub fn starts_with(text: &str, prefix: &str) -> (found: bool)
    ensures
        found == prefix@.is_prefix_of(text@),
{
    let length: usize = prefix.unicode_len();
    if text.unicode_len() < length {
        return false;
    }
    let mut position: usize = 0;
    while position < length
        invariant
            position <= length,
            length == prefix@.len(),
            length <= text@.len(),
            forall|i: int| 0 <= i < position ==> prefix@[i] == text@[i],
        decreases length - position,
    {
        if prefix.get_char(position) != text.get_char(position) {
            assert(prefix@[position as int] != text@[position as int]);
            return false;
        }
        position = position + 1;
    }
    assert(prefix@ =~= text@.subrange(0, length as int));
    true
}

/// A text as it is written for debugging: in quotes, with its special characters escaped.
pub uninterp spec fn quoted(text: Seq<char>) -> Seq<char>;

/// The `Debug` rendering of `str`: the text in quotes, with its special characters escaped.
#[verifier::external_body]
pub(crate) fn quoted_text(text: &str) -> (rendering: String)
    ensures
        rendering@ == quoted(text@),
{
    format!("{:?}", text)
}

/// The text that bytes are read as, with replacement characters where they are not UTF-8.
pub uninterp spec fn lossy(bytes: Seq<u8>) -> Seq<char>;

/// `String::from_utf8_lossy`: the text that the bytes are read as. Bytes that are UTF-8 are read
/// as the text that they encode.
#[verifier::external_body]
pub(crate) fn lossy_text(bytes: &[u8]) -> (text: String)
    ensures
        text@ == lossy(bytes@),
        vstd::utf8::valid_utf8(bytes@) ==> text@ == vstd::utf8::decode_utf8(bytes@),
{
    String::from_utf8_lossy(bytes).into_owned()
}

} // verus!
