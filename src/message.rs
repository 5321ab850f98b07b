//! The text of a break notification: how long the break lasts, in minutes
//! and seconds, built from words already in the user's language.

use vstd::prelude::*;

verus! {

pub open spec fn digit_char(d: nat) -> char {
    if d == 0 {
        '0'
    } else if d == 1 {
        '1'
    } else if d == 2 {
        '2'
    } else if d == 3 {
        '3'
    } else if d == 4 {
        '4'
    } else if d == 5 {
        '5'
    } else if d == 6 {
        '6'
    } else if d == 7 {
        '7'
    } else if d == 8 {
        '8'
    } else {
        '9'
    }
}

/// The decimal digits of `n`, without leading zeros.
pub open spec fn decimal(n: nat) -> Seq<char>
    decreases n,
{
    if n < 10 {
        seq![digit_char(n)]
    } else {
        decimal(n / 10).push(digit_char(n % 10))
    }
}

/// One amount of the message: ` <b>{n} {unit}</b>`.
pub open spec fn amount_text(n: nat, unit: Seq<char>) -> Seq<char> {
    " <b>"@ + decimal(n) + " "@ + unit + "</b>"@
}

/// The message for a break of `total` seconds: the introduction, then the
/// whole minutes, then the conjunction when both parts are there, then the
/// remaining seconds. A part that is zero is left out.
pub open spec fn break_message_text(
    intro: Seq<char>,
    conjunction: Seq<char>,
    minute_unit: Seq<char>,
    second_unit: Seq<char>,
    total: nat,
) -> Seq<char> {
    let m = total / 60;
    let s = total % 60;
    intro + (if m != 0 {
        amount_text(m, minute_unit)
    } else {
        Seq::empty()
    }) + (if m != 0 && s != 0 {
        conjunction
    } else {
        Seq::empty()
    }) + (if s != 0 {
        amount_text(s, second_unit)
    } else {
        Seq::empty()
    })
}

fn digit_str(d: u64) -> (r: &'static str)
    requires
        d < 10,
    ensures
        r@ == seq![digit_char(d as nat)],
{
    proof {
        reveal_strlit("0");
        reveal_strlit("1");
        reveal_strlit("2");
        reveal_strlit("3");
        reveal_strlit("4");
        reveal_strlit("5");
        reveal_strlit("6");
        reveal_strlit("7");
        reveal_strlit("8");
        reveal_strlit("9");
    }
    match d {
        0 => "0",
        1 => "1",
        2 => "2",
        3 => "3",
        4 => "4",
        5 => "5",
        6 => "6",
        7 => "7",
        8 => "8",
        _ => "9",
    }
}

/// Writes `n` in decimal.
pub fn decimal_string(n: u64) -> (r: String)
    ensures
        r@ == decimal(n as nat),
    decreases n,
{
    if n < 10 {
        digit_str(n).to_owned()
    } else {
        let mut s = decimal_string(n / 10);
        s.append(digit_str(n % 10));
        s
    }
}

fn push_amount(s: &mut String, n: u64, unit: &str)
    ensures
        final(s)@ == old(s)@ + amount_text(n as nat, unit@),
{
    s.append(" <b>");
    let digits = decimal_string(n);
    s.append(digits.as_str());
    s.append(" ");
    s.append(unit);
    s.append("</b>");
    assert(final(s)@ =~= old(s)@ + amount_text(n as nat, unit@));
}

/// Builds the message for a break of `total_secs` seconds from words that
/// are already translated: `minute_unit` and `second_unit` in the plural
/// form that the minute and second counts call for.
pub fn compose_break_message(
    intro: &str,
    conjunction: &str,
    minute_unit: &str,
    second_unit: &str,
    total_secs: u64,
) -> (r: String)
    ensures
        r@ == break_message_text(
            intro@,
            conjunction@,
            minute_unit@,
            second_unit@,
            total_secs as nat,
        ),
{
    let minutes = total_secs / 60;
    let seconds = total_secs % 60;
    let mut message = intro.to_owned();
    if minutes != 0 {
        push_amount(&mut message, minutes, minute_unit);
    }
    if minutes != 0 && seconds != 0 {
        message.append(conjunction);
    }
    if seconds != 0 {
        push_amount(&mut message, seconds, second_unit);
    }
    assert(message@ =~= break_message_text(
        intro@,
        conjunction@,
        minute_unit@,
        second_unit@,
        total_secs as nat,
    ));
    message
}

/// The count that selects a plural form, held at `u32::MAX`.
pub fn plural_count(n: u64) -> (r: u32)
    ensures
        r == (if n <= u32::MAX {
            n
        } else {
            u32::MAX as u64
        }),
{
    if n <= u32::MAX as u64 {
        n as u32
    } else {
        u32::MAX
    }
}

} // verus!
