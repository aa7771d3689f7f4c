//! Status and measurement data as text, for people to read.

use crate::types::{MeasurementData, Status};
use vstd::prelude::*;
use vstd::string::StringExecFns;

verus! {

/// The character of a decimal digit.
pub open spec fn digit_char(digit: nat) -> char {
    if digit == 0 {
        '0'
    } else if digit == 1 {
        '1'
    } else if digit == 2 {
        '2'
    } else if digit == 3 {
        '3'
    } else if digit == 4 {
        '4'
    } else if digit == 5 {
        '5'
    } else if digit == 6 {
        '6'
    } else if digit == 7 {
        '7'
    } else if digit == 8 {
        '8'
    } else {
        '9'
    }
}

/// A number in decimal, without sign and without leading zeros.
pub open spec fn decimal_text(n: nat) -> Seq<char>
    decreases n,
{
    if n < 10 {
        seq![digit_char(n)]
    } else {
        decimal_text(n / 10).push(digit_char(n % 10))
    }
}

/// A flag as text: `true` or `false`.
pub open spec fn bool_text(flag: bool) -> Seq<char> {
    if flag {
        "true"@
    } else {
        "false"@
    }
}

/// The text of one decimal digit.
fn digit_str(digit: u32) -> (text: &'static str)
    requires
        digit < 10,
    ensures
        text@ == seq![digit_char(digit as nat)],
{
    proof {
        reveal_strlit("0");
        reveal_strlit("1");
        reveal_strlit("2");
        reveal_strlit("3");
        reveal_strlit("4");
        reveal_strlit("5");
        reveal_strlit("6");
        reveal_strlit("7");
        reveal_strlit("8");
        reveal_strlit("9");
    }
    if digit == 0 {
        "0"
    } else if digit == 1 {
        "1"
    } else if digit == 2 {
        "2"
    } else if digit == 3 {
        "3"
    } else if digit == 4 {
        "4"
    } else if digit == 5 {
        "5"
    } else if digit == 6 {
        "6"
    } else if digit == 7 {
        "7"
    } else if digit == 8 {
        "8"
    } else {
        "9"
    }
}

/// Appends a number in decimal.
fn append_decimal(text: &mut String, n: u32)
    ensures
        final(text)@ == old(text)@ + decimal_text(n as nat),
    decreases n,
{
    if n >= 10 {
        append_decimal(text, n / 10);
    }
    text.append(digit_str(n % 10));
}

/// Appends `true` or `false`.
fn append_bool(text: &mut String, flag: bool)
    ensures
        final(text)@ == old(text)@ + bool_text(flag),
{
    if flag {
        text.append("true");
    } else {
        text.append("false");
    }
}

impl Status {
    /// The status as text, each flag by name.
    pub open spec fn spec_text(self) -> Seq<char> {
        "Status { power_on: "@ + bool_text(self.power_on) + ", interrupt: "@ + bool_text(
            self.interrupt,
        ) + ", data_ready: "@ + bool_text(self.data_ready) + " }"@
    }

    /// The status as text, each flag by name.
    pub fn to_string(&self) -> (text: String)
        ensures
            text@ == self.spec_text(),
    {
        let mut text = String::from_str("Status { power_on: ");
        append_bool(&mut text, self.power_on);
        text.append(", interrupt: ");
        append_bool(&mut text, self.interrupt);
        text.append(", data_ready: ");
        append_bool(&mut text, self.data_ready);
        text.append(" }");
        text
    }
}

impl MeasurementData {
    /// The measurement as text, each count by name and in decimal.
    pub open spec fn spec_text(self) -> Seq<char> {
        "MeasurementData { als: "@ + decimal_text(self.als as nat) + ", clear: "@ + decimal_text(
            self.clear as nat,
        ) + " }"@
    }

    /// The measurement as text, each count by name and in decimal.
    pub fn to_string(&self) -> (text: String)
        ensures
            text@ == self.spec_text(),
    {
        let mut text = String::from_str("MeasurementData { als: ");
        append_decimal(&mut text, self.als);
        text.append(", clear: ");
        append_decimal(&mut text, self.clear);
        text.append(" }");
        text
    }
}

} // verus!
