//! Texts of a flight booker: the dates that are picked and the notice of a
//! booking.

use crate::text::{signed, signed_digits, unsigned};
use vstd::prelude::*;

verus! {

/// A date as text: year, month and day, joined by hyphens and without
/// leading zeros.
pub open spec fn spec_date_text(year: i32, month: u32, day: u32) -> Seq<char> {
    signed_digits(year as int) + seq!['-'] + signed_digits(month as int) + seq!['-']
        + signed_digits(day as int)
}

/// The notice of a booking: of a one-way flight where `direct` is zero, else
/// of a return flight.
pub open spec fn spec_notice(direct: i32, start: Seq<char>, back: Seq<char>) -> Seq<char> {
    if direct == 0 {
        "You have booked a one-way flight for "@ + start + "."@
    } else {
        "You have booked a return flight from "@ + start + " to "@ + back
    }
}

/// Writes a date as text: year, month and day, joined by hyphens and
/// without leading zeros.
pub fn date_text(year: i32, month: u32, day: u32) -> (text: String)
    ensures
        text@ == spec_date_text(year, month, day),
{
    proof {
        reveal_strlit("-");
        assert("-"@ =~= seq!['-']);
    }
    let mut text = signed(year as i64);
    text.append("-");
    text.append(unsigned(month as u64).as_str());
    text.append("-");
    text.append(unsigned(day as u64).as_str());
    text
}

/// Writes the notice of a booking: of a one-way flight on the day `start`
/// where `direct` is zero, else of a return flight from `start` to `back`.
pub fn notice(direct: i32, start: &str, back: &str) -> (text: String)
    ensures
        text@ == spec_notice(direct, start@, back@),
{
    if direct == 0 {
        let mut text = String::from_str("You have booked a one-way flight for ");
        text.append(start);
        text.append(".");
        text
    } else {
        let mut text = String::from_str("You have booked a return flight from ");
        text.append(start);
        text.append(" to ");
        text.append(back);
        text
    }
}

} // verus!
