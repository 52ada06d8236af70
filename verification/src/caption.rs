//! The caption on the loading bar: a percentage written in decimal digits and
//! followed by a percent sign.

use vstd::prelude::*;
use vstd::string::StringExecFns;

verus! {

/// The lowest percentage that is written on the bar; below it the bar is too
/// short to hold a caption.
pub const FIRST_CAPTIONED_PERCENT: u32 = 6;

/// The character for a single decimal digit.
pub open spec fn digit_char(digit: nat) -> char
    recommends
        digit < 10,
{
    if digit == 0 {
        '0'
    } else if digit == 1 {
        '1'
    } else if digit == 2 {
        '2'
    } else if digit == 3 {
        '3'
    } else if digit == 4 {
        '4'
    } else if digit == 5 {
        '5'
    } else if digit == 6 {
        '6'
    } else if digit == 7 {
        '7'
    } else if digit == 8 {
        '8'
    } else {
        '9'
    }
}

/// A number written in decimal digits, most significant digit first, without
/// leading zeros.
pub open spec fn decimal(value: nat) -> Seq<char>
    decreases value,
{
    if value < 10 {
        seq![digit_char(value)]
    } else {
        decimal(value / 10).push(digit_char(value % 10))
    }
}

/// The caption for a percentage: its decimal digits and a percent sign.
pub open spec fn percent_text(percent: nat) -> Seq<char> {
    decimal(percent).push('%')
}

/// The caption to put on the bar at a percentage, if it gets one.
pub open spec fn caption_for(percent: nat) -> Option<Seq<char>> {
    if percent >= FIRST_CAPTIONED_PERCENT {
        Some(percent_text(percent))
    } else {
        None
    }
}

/// What an optional text says, as a sequence of characters.
pub open spec fn caption_view(caption: Option<String>) -> Option<Seq<char>> {
    match caption {
        Some(text) => Some(text@),
        None => None,
    }
}

/// The text of a single decimal digit.
fn digit_str(digit: u32) -> (text: &'static str)
    requires
        digit < 10,
    ensures
        text@ == seq![digit_char(digit as nat)],
{
    proof {
        reveal_strlit("0");
        reveal_strlit("1");
        reveal_strlit("2");
        reveal_strlit("3");
        reveal_strlit("4");
        reveal_strlit("5");
        reveal_strlit("6");
        reveal_strlit("7");
        reveal_strlit("8");
        reveal_strlit("9");
    }
    let text = if digit == 0 {
        "0"
    } else if digit == 1 {
        "1"
    } else if digit == 2 {
        "2"
    } else if digit == 3 {
        "3"
    } else if digit == 4 {
        "4"
    } else if digit == 5 {
        "5"
    } else if digit == 6 {
        "6"
    } else if digit == 7 {
        "7"
    } else if digit == 8 {
        "8"
    } else {
        "9"
    };
    assert(text@ =~= seq![digit_char(digit as nat)]);
    text
}

/// Writes a number in decimal digits at the end of a text.
fn append_decimal(text: &mut String, value: u32)
    ensures
        final(text)@ == old(text)@ + decimal(value as nat),
    decreases value,
{
    if value >= 10 {
        append_decimal(text, value / 10);
    }
    text.append(digit_str(value % 10));
    assert(text@ =~= old(text)@ + decimal(value as nat));
}

/// A number written in decimal digits.
pub fn decimal_string(value: u32) -> (text: String)
    ensures
        text@ == decimal(value as nat),
{
    let mut text = String::new();
    append_decimal(&mut text, value);
    assert(text@ =~= decimal(value as nat));
    text
}

/// The caption for a percentage: its decimal digits and a percent sign.
pub fn percent_caption(percent: u32) -> (caption: Option<String>)
    ensures
        caption_view(caption) == caption_for(percent as nat),
{
    if percent >= FIRST_CAPTIONED_PERCENT {
        let mut text = decimal_string(percent);
        proof {
            reveal_strlit("%");
        }
        text.append("%");
        assert(text@ =~= percent_text(percent as nat));
        Some(text)
    } else {
        None
    }
}

/// A number in decimal takes at least one digit, and every character of it is a
/// digit.
pub proof fn lemma_decimal_digits(value: nat)
    ensures
        decimal(value).len() >= 1,
        forall|place: int|
            0 <= place < decimal(value).len() ==> '0' <= #[trigger] decimal(value)[place] <= '9',
        value > 0 ==> decimal(value)[0] != '0',
    decreases value,
{
    if value >= 10 {
        lemma_decimal_digits(value / 10);
    }
}

} // verus!
