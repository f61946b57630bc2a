//! Numbers as text, and texts compared.

use vstd::prelude::*;

verus! {

/// The character of a decimal digit.
pub open spec fn digit(value: nat) -> char
    recommends
        value < 10,
{
    if value == 0 {
        '0'
    } else if value == 1 {
        '1'
    } else if value == 2 {
        '2'
    } else if value == 3 {
        '3'
    } else if value == 4 {
        '4'
    } else if value == 5 {
        '5'
    } else if value == 6 {
        '6'
    } else if value == 7 {
        '7'
    } else if value == 8 {
        '8'
    } else {
        '9'
    }
}

/// A number in decimal notation, without leading zeros.
pub open spec fn digits(value: nat) -> Seq<char>
    decreases value,
{
    if value < 10 {
        seq![digit(value)]
    } else {
        digits(value / 10).push(digit(value % 10))
    }
}

/// The text of one decimal digit.
fn digit_text(value: u8) -> (text: &'static str)
    requires
        value < 10,
    ensures
        text@ == seq![digit(value as nat)],
{
    proof {
        reveal_strlit("0");
        reveal_strlit("1");
        reveal_strlit("2");
        reveal_strlit("3");
        reveal_strlit("4");
        reveal_strlit("5");
        reveal_strlit("6");
        reveal_strlit("7");
        reveal_strlit("8");
        reveal_strlit("9");
    }
    let text = match value {
        0 => "0",
        1 => "1",
        2 => "2",
        3 => "3",
        4 => "4",
        5 => "5",
        6 => "6",
        7 => "7",
        8 => "8",
        _ => "9",
    };
    assert(text@ =~= seq![digit(value as nat)]);
    text
}

/// A whole number in decimal notation: a minus sign before the digits of a
/// negative one.
pub open spec fn signed_digits(value: int) -> Seq<char> {
    if value < 0 {
        seq!['-'] + digits((-value) as nat)
    } else {
        digits(value as nat)
    }
}

/// Writes a number in decimal notation, without leading zeros.
pub fn unsigned(value: u64) -> (text: String)
    ensures
        text@ == digits(value as nat),
    decreases value,
{
    if value < 10 {
        String::from_str(digit_text(value as u8))
    } else {
        let mut text = unsigned(value / 10);
        text.append(digit_text((value % 10) as u8));
        assert(text@ =~= digits(value as nat));
        text
    }
}

/// Writes a number in decimal notation, without leading zeros.
pub fn decimal(value: u8) -> (text: String)
    ensures
        text@ == digits(value as nat),
{
    unsigned(value as u64)
}

/// Writes a whole number in decimal notation, with a minus sign before a
/// negative one.
pub fn signed(value: i64) -> (text: String)
    ensures
        text@ == signed_digits(value as int),
{
    if value < 0 {
        let size: u64 = if value == i64::MIN {
            0x8000_0000_0000_0000
        } else {
            (-value) as u64
        };
        let mut text = String::from_str("-");
        proof {
            reveal_strlit("-");
            assert("-"@ =~= seq!['-']);
        }
        text.append(unsigned(size).as_str());
        text
    } else {
        unsigned(value as u64)
    }
}

/// Says whether two texts are the same, character by character.
pub fn same(left: &str, right: &str) -> (equal: bool)
    ensures
        equal == (left@ == right@),
{
    let len = left.unicode_len();
    if len != right.unicode_len() {
        return false;
    }
    let mut at: usize = 0;
    while at < len
        invariant
            at <= len,
            len == left@.len(),
            len == right@.len(),
            forall|i: int| 0 <= i < at ==> left@[i] == right@[i],
        decreases len - at,
    {
        if left.get_char(at) != right.get_char(at) {
            return false;
        }
        at += 1;
    }
    assert(left@ =~= right@);
    true
}

} // verus!
