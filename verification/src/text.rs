//! The texts that the game shows: scores in decimal, the score line and the
//! window title.

use vstd::prelude::*;
use vstd::string::StringExecFns;

verus! {

/// The character for one decimal digit.
pub open spec fn digit_char(d: nat) -> char
    recommends
        d < 10,
{
    if d == 0 {
        '0'
    } else if d == 1 {
        '1'
    } else if d == 2 {
        '2'
    } else if d == 3 {
        '3'
    } else if d == 4 {
        '4'
    } else if d == 5 {
        '5'
    } else if d == 6 {
        '6'
    } else if d == 7 {
        '7'
    } else if d == 8 {
        '8'
    } else {
        '9'
    }
}

/// `n` in decimal, without leading zeros.
pub open spec fn decimal(n: nat) -> Seq<char>
    decreases n,
{
    if n < 10 {
        seq![digit_char(n)]
    } else {
        decimal(n / 10).push(digit_char(n % 10))
    }
}

/// The score line drawn at the top of the playfield.
pub open spec fn score_text(player_1: nat, player_2: nat) -> Seq<char> {
    " "@ + decimal(player_1) + "     -     "@ + decimal(player_2) + " "@
}

/// The window title that carries both scores.
pub open spec fn title_text(player_1: nat, player_2: nat) -> Seq<char> {
    " Rusty Pong | "@ + decimal(player_1) + " - "@ + decimal(player_2) + " "@
}

/// The literal for one decimal digit.
fn digit_str(d: u32) -> (s: &'static str)
    requires
        d < 10,
    ensures
        s@ == seq![digit_char(d as nat)],
{
    proof {
        reveal_strlit("0");
        reveal_strlit("1");
        reveal_strlit("2");
        reveal_strlit("3");
        reveal_strlit("4");
        reveal_strlit("5");
        reveal_strlit("6");
        reveal_strlit("7");
        reveal_strlit("8");
        reveal_strlit("9");
    }
    let s = if d == 0 {
        "0"
    } else if d == 1 {
        "1"
    } else if d == 2 {
        "2"
    } else if d == 3 {
        "3"
    } else if d == 4 {
        "4"
    } else if d == 5 {
        "5"
    } else if d == 6 {
        "6"
    } else if d == 7 {
        "7"
    } else if d == 8 {
        "8"
    } else {
        "9"
    };
    assert(s@ =~= seq![digit_char(d as nat)]);
    s
}

/// Appends `n` in decimal to `text`.
pub fn append_decimal(text: &mut String, n: u32)
    ensures
        final(text)@ == old(text)@ + decimal(n as nat),
    decreases n,
{
    if n >= 10 {
        append_decimal(text, n / 10);
    }
    text.append(digit_str(n % 10));
    assert(text@ =~= old(text)@ + decimal(n as nat));
}

/// Formats the score line.
pub fn format_score(player_1: u32, player_2: u32) -> (text: String)
    ensures
        text@ == score_text(player_1 as nat, player_2 as nat),
{
    let mut text = String::from_str(" ");
    append_decimal(&mut text, player_1);
    text.append("     -     ");
    append_decimal(&mut text, player_2);
    text.append(" ");
    text
}

/// Formats the window title.
pub fn format_title(player_1: u32, player_2: u32) -> (text: String)
    ensures
        text@ == title_text(player_1 as nat, player_2 as nat),
{
    let mut text = String::from_str(" Rusty Pong | ");
    append_decimal(&mut text, player_1);
    text.append(" - ");
    append_decimal(&mut text, player_2);
    text.append(" ");
    text
}

} // verus!
