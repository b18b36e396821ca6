//! Placeholder emails, to fill the folders until mail is fetched from a
//! server. The caller draws the values; what an email is made of them is
//! fixed here.

use crate::parsed_email::{ParsedEmail, ParsedEmailView};
use vstd::prelude::*;

verus! {

/// The numeral of one decimal digit.
pub open spec fn digit_text(d: int) -> Seq<char> {
    if d == 0 {
        "0"@
    } else if d == 1 {
        "1"@
    } else if d == 2 {
        "2"@
    } else if d == 3 {
        "3"@
    } else if d == 4 {
        "4"@
    } else if d == 5 {
        "5"@
    } else if d == 6 {
        "6"@
    } else if d == 7 {
        "7"@
    } else if d == 8 {
        "8"@
    } else {
        "9"@
    }
}

/// The decimal numeral of a natural number, without leading zeros.
pub open spec fn decimal_text(n: int) -> Seq<char>
    decreases n,
{
    if n < 10 {
        digit_text(n)
    } else {
        decimal_text(n / 10) + digit_text(n % 10)
    }
}

/// The decimal numeral of a natural number in at least two digits.
pub open spec fn two_digit_text(n: int) -> Seq<char> {
    if n < 10 {
        "0"@ + digit_text(n)
    } else {
        decimal_text(n)
    }
}

/// A time of day on the twelve-hour clock: the hour, a colon, the minute in
/// two digits, a space and the half of the day.
pub open spec fn clock_text(hour: int, minute: int, morning: bool) -> Seq<char> {
    decimal_text(hour) + ":"@ + two_digit_text(minute) + " "@ + if morning {
        "AM"@
    } else {
        "PM"@
    }
}

/// The placeholder email made of the given values: unread, unstarred, with a
/// plain-text body only, its sender marked as coming from the inbox.
pub open spec fn sample_record(
    subject: Seq<char>,
    sender_address: Seq<char>,
    body: Seq<char>,
    hour: int,
    minute: int,
    morning: bool,
    folder: Seq<char>,
) -> ParsedEmailView {
    ParsedEmailView {
        account_id: None,
        message_id: None,
        subject: Some(subject),
        sender: Some("Inbox - "@ + sender_address),
        recipients: None,
        body_text: Some(body),
        body_html: None,
        received_date: Some(clock_text(hour, minute, morning)),
        is_read: false,
        is_starred: false,
        folder: Some(folder),
    }
}

/// The numeral of one decimal digit.
fn digit(d: u8) -> (text: &'static str)
    requires
        d < 10,
    ensures
        text@ == digit_text(d as int),
{
    if d == 0 {
        "0"
    } else if d == 1 {
        "1"
    } else if d == 2 {
        "2"
    } else if d == 3 {
        "3"
    } else if d == 4 {
        "4"
    } else if d == 5 {
        "5"
    } else if d == 6 {
        "6"
    } else if d == 7 {
        "7"
    } else if d == 8 {
        "8"
    } else {
        "9"
    }
}

/// Appends the decimal numeral of `n`.
fn append_decimal(text: &mut String, n: u8)
    ensures
        final(text)@ == old(text)@ + decimal_text(n as int),
{
    reveal_with_fuel(decimal_text, 3);
    if n >= 100 {
        text.append(digit(n / 100));
        text.append(digit((n / 10) % 10));
        text.append(digit(n % 10));
        assert(final(text)@ =~= old(text)@ + decimal_text(n as int)) by {
            assert((n as int / 10) / 10 == n as int / 100);
        }
    } else if n >= 10 {
        text.append(digit(n / 10));
        text.append(digit(n % 10));
        assert(final(text)@ =~= old(text)@ + decimal_text(n as int));
    } else {
        text.append(digit(n));
    }
}

/// The time of day as text.
fn clock(hour: u8, minute: u8, morning: bool) -> (text: String)
    ensures
        text@ == clock_text(hour as int, minute as int, morning),
{
    let mut text = String::new();
    append_decimal(&mut text, hour);
    text.append(":");
    if minute < 10 {
        text.append("0");
    }
    append_decimal(&mut text, minute);
    text.append(" ");
    if morning {
        text.append("AM");
    } else {
        text.append("PM");
    }
    assert(text@ =~= clock_text(hour as int, minute as int, morning));
    text
}

/// Makes a placeholder email of values that the caller has drawn.
pub fn sample_email(
    subject: String,
    sender_address: String,
    body: String,
    hour: u8,
    minute: u8,
    morning: bool,
    folder: String,
) -> (email: ParsedEmail)
    ensures
        email@ == sample_record(
            subject@,
            sender_address@,
            body@,
            hour as int,
            minute as int,
            morning,
            folder@,
        ),
{
    let sender = String::from_str("Inbox - ").concat(sender_address.as_str());
    ParsedEmail {
        account_id: None,
        message_id: None,
        subject: Some(subject),
        sender: Some(sender),
        recipients: None,
        body_text: Some(body),
        body_html: None,
        received_date: Some(clock(hour, minute, morning)),
        is_read: false,
        is_starred: false,
        folder: Some(folder),
    }
}

} // verus!
