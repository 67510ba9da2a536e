//! The time display: a count of seconds written as minutes and seconds.
//!
//! The text is `MM:SS`: minutes and seconds in decimal, each padded with a
//! zero to two digits, with a colon between them. A hundred minutes or more
//! take the digits they need.

use vstd::prelude::*;

verus! {

/// The decimal digit for `d`, which is below ten.
pub open spec fn digit_char(d: nat) -> char {
    if d == 0 {
        '0'
    } else if d == 1 {
        '1'
    } else if d == 2 {
        '2'
    } else if d == 3 {
        '3'
    } else if d == 4 {
        '4'
    } else if d == 5 {
        '5'
    } else if d == 6 {
        '6'
    } else if d == 7 {
        '7'
    } else if d == 8 {
        '8'
    } else {
        '9'
    }
}

/// `n` in decimal, without leading zeros.
pub open spec fn decimal(n: nat) -> Seq<char>
    decreases n,
{
    if n < 10 {
        seq![digit_char(n)]
    } else {
        decimal(n / 10).push(digit_char(n % 10))
    }
}

/// `n` in decimal, with a leading zero if it is below ten.
pub open spec fn two_digits(n: nat) -> Seq<char> {
    if n < 10 {
        seq!['0', digit_char(n)]
    } else {
        decimal(n)
    }
}

/// `secs` seconds as minutes and seconds, `MM:SS`.
pub open spec fn clock_text(secs: nat) -> Seq<char> {
    two_digits(secs / 60) + seq![':'] + two_digits(secs % 60)
}

/// The one-character string of a digit.
fn digit_str(d: u64) -> (s: &'static str)
    requires
        d < 10,
    ensures
        s@ == seq![digit_char(d as nat)],
{
    proof {
        reveal_strlit("0");
        reveal_strlit("1");
        reveal_strlit("2");
        reveal_strlit("3");
        reveal_strlit("4");
        reveal_strlit("5");
        reveal_strlit("6");
        reveal_strlit("7");
        reveal_strlit("8");
        reveal_strlit("9");
    }
    let s = if d == 0 {
        "0"
    } else if d == 1 {
        "1"
    } else if d == 2 {
        "2"
    } else if d == 3 {
        "3"
    } else if d == 4 {
        "4"
    } else if d == 5 {
        "5"
    } else if d == 6 {
        "6"
    } else if d == 7 {
        "7"
    } else if d == 8 {
        "8"
    } else {
        "9"
    };
    assert(s@ =~= seq![digit_char(d as nat)]);
    s
}

/// Appends `n` in decimal.
fn push_decimal(text: &mut String, n: u64)
    ensures
        final(text)@ == old(text)@ + decimal(n as nat),
    decreases n,
{
    if n >= 10 {
        push_decimal(text, n / 10);
    }
    text.append(digit_str(n % 10));
    assert(text@ =~= old(text)@ + decimal(n as nat));
}

/// Appends `n` in decimal, padded to two digits.
fn push_two_digits(text: &mut String, n: u64)
    ensures
        final(text)@ == old(text)@ + two_digits(n as nat),
{
    if n < 10 {
        proof {
            reveal_strlit("0");
        }
        text.append("0");
    }
    push_decimal(text, n);
    assert(text@ =~= old(text)@ + two_digits(n as nat));
}

/// Writes a count of seconds as `MM:SS`.
pub fn format_mmss(total_secs: u64) -> (text: String)
    ensures
        text@ == clock_text(total_secs as nat),
{
    let mut text = String::new();
    push_two_digits(&mut text, total_secs / 60);
    proof {
        reveal_strlit(":");
    }
    text.append(":");
    push_two_digits(&mut text, total_secs % 60);
    assert(text@ =~= clock_text(total_secs as nat));
    text
}

/// Below a hundred minutes the display has exactly five characters: the
/// tens and units of the minutes, a colon, the tens and units of the seconds.
pub proof fn lemma_clock_text_five_chars(secs: nat)
    requires
        secs < 6000,
    ensures
        clock_text(secs) == seq![
            digit_char(secs / 60 / 10),
            digit_char(secs / 60 % 10),
            ':',
            digit_char(secs % 60 / 10),
            digit_char(secs % 60 % 10),
        ],
{
    lemma_two_digits_below_100(secs / 60);
    lemma_two_digits_below_100(secs % 60);
    assert(clock_text(secs) =~= seq![
        digit_char(secs / 60 / 10),
        digit_char(secs / 60 % 10),
        ':',
        digit_char(secs % 60 / 10),
        digit_char(secs % 60 % 10),
    ]);
}

/// A number below a hundred is written as its tens digit and its units digit.
pub proof fn lemma_two_digits_below_100(n: nat)
    requires
        n < 100,
    ensures
        two_digits(n) == seq![digit_char(n / 10), digit_char(n % 10)],
{
    if n >= 10 {
        assert(decimal(n / 10) =~= seq![digit_char(n / 10)]);
        assert(decimal(n) =~= seq![digit_char(n / 10), digit_char(n % 10)]);
    } else {
        assert(two_digits(n) =~= seq![digit_char(n / 10), digit_char(n % 10)]);
    }
}

} // verus!
