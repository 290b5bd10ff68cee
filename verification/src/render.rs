//! Printing a token: its identity value in decimal.

use crate::token::UniqueId;
use vstd::prelude::*;
use vstd::string::StringExecFns;

verus! {

/// The character for a digit below ten.
pub open spec fn digit_char(digit: nat) -> char {
    if digit == 0 {
        '0'
    } else if digit == 1 {
        '1'
    } else if digit == 2 {
        '2'
    } else if digit == 3 {
        '3'
    } else if digit == 4 {
        '4'
    } else if digit == 5 {
        '5'
    } else if digit == 6 {
        '6'
    } else if digit == 7 {
        '7'
    } else if digit == 8 {
        '8'
    } else {
        '9'
    }
}

/// The decimal digits of `number`, most significant first, without leading zeros.
pub open spec fn decimal_digits(number: nat) -> Seq<char>
    decreases number,
{
    if number < 10 {
        seq![digit_char(number)]
    } else {
        decimal_digits(number / 10).push(digit_char(number % 10))
    }
}

/// The one-character text for a digit below ten.
fn digit_text(digit: usize) -> (text: &'static str)
    requires
        digit < 10,
    ensures
        text@ == seq![digit_char(digit as nat)],
{
    proof {
        reveal_strlit("0");
        reveal_strlit("1");
        reveal_strlit("2");
        reveal_strlit("3");
        reveal_strlit("4");
        reveal_strlit("5");
        reveal_strlit("6");
        reveal_strlit("7");
        reveal_strlit("8");
        reveal_strlit("9");
    }
    let text = if digit == 0 {
        "0"
    } else if digit == 1 {
        "1"
    } else if digit == 2 {
        "2"
    } else if digit == 3 {
        "3"
    } else if digit == 4 {
        "4"
    } else if digit == 5 {
        "5"
    } else if digit == 6 {
        "6"
    } else if digit == 7 {
        "7"
    } else if digit == 8 {
        "8"
    } else {
        "9"
    };
    assert(text@ =~= seq![digit_char(digit as nat)]);
    text
}

/// Writes `value` in decimal.
pub fn decimal_string(value: usize) -> (text: String)
    ensures
        text@ == decimal_digits(value as nat),
    decreases value,
{
    if value < 10 {
        String::from_str(digit_text(value))
    } else {
        let head = decimal_string(value / 10);
        let text = head.concat(digit_text(value % 10));
        assert(text@ =~= decimal_digits(value as nat));
        text
    }
}

/// `core::fmt::Formatter`, declared so that `Debug::fmt` can take one. Opaque.
#[verifier::external_type_specification]
#[verifier::external_body]
pub struct ExFormatter<'a>(core::fmt::Formatter<'a>);

/// `core::fmt::Error`, the error of a formatter. Opaque.
#[verifier::external_type_specification]
#[verifier::external_body]
pub struct ExFmtError(core::fmt::Error);

/// Hands `text` to a formatter with `Formatter::write_str`.
///
/// Trusted; nothing is claimed of the result: whether the text can be written is up to
/// whatever stands behind the formatter.
#[verifier::external_body]
fn write_text(f: &mut core::fmt::Formatter<'_>, text: &str) -> (written: Result<
    (),
    core::fmt::Error,
>) {
    f.write_str(text)
}

impl UniqueId {
    /// The token's identity value in decimal: what `Debug` prints.
    pub fn to_decimal(&self) -> (text: String)
        ensures
            text@ == decimal_digits(self@ as nat),
    {
        decimal_string(self.as_usize())
    }
}

impl core::fmt::Debug for UniqueId {
    /// Prints the identity value in decimal, for diagnostics.
    fn fmt(&self, f: &mut core::fmt::Formatter<'_>) -> (written: Result<(), core::fmt::Error>) {
        let text = self.to_decimal();
        write_text(f, text.as_str())
    }
}

} // verus!
