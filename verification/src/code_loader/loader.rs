//! The error of a download that the server refused.

use vstd::prelude::*;

verus! {

/// A file could not be downloaded: the path of the file and the status
/// code that the server answered with.
#[derive(Debug, PartialEq, Eq)]
pub struct DownloadError(pub String, pub u16);

/// The character that writes a digit.
pub open spec fn digit_char(digit: nat) -> char {
    if digit == 0 {
        '0'
    } else if digit == 1 {
        '1'
    } else if digit == 2 {
        '2'
    } else if digit == 3 {
        '3'
    } else if digit == 4 {
        '4'
    } else if digit == 5 {
        '5'
    } else if digit == 6 {
        '6'
    } else if digit == 7 {
        '7'
    } else if digit == 8 {
        '8'
    } else {
        '9'
    }
}

/// A number written in decimal digits, without leading zeros.
pub open spec fn decimal_text(n: nat) -> Seq<char>
    decreases n,
{
    if n < 10 {
        seq![digit_char(n)]
    } else {
        decimal_text(n / 10).push(digit_char(n % 10))
    }
}

/// The character that writes a digit.
fn digit_to_char(digit: u16) -> (c: char)
    requires
        digit < 10,
    ensures
        c == digit_char(digit as nat),
{
    if digit == 0 {
        '0'
    } else if digit == 1 {
        '1'
    } else if digit == 2 {
        '2'
    } else if digit == 3 {
        '3'
    } else if digit == 4 {
        '4'
    } else if digit == 5 {
        '5'
    } else if digit == 6 {
        '6'
    } else if digit == 7 {
        '7'
    } else if digit == 8 {
        '8'
    } else {
        '9'
    }
}

/// Appends a number in decimal digits to the text.
fn write_decimal(text: String, n: u16) -> (written: String)
    ensures
        written@ == text@ + decimal_text(n as nat),
    decreases n,
{
    if n < 10 {
        let digit = match digit_to_char(n) {
            '0' => "0",
            '1' => "1",
            '2' => "2",
            '3' => "3",
            '4' => "4",
            '5' => "5",
            '6' => "6",
            '7' => "7",
            '8' => "8",
            _ => "9",
        };
        proof {
            reveal_strlit("0");
            reveal_strlit("1");
            reveal_strlit("2");
            reveal_strlit("3");
            reveal_strlit("4");
            reveal_strlit("5");
            reveal_strlit("6");
            reveal_strlit("7");
            reveal_strlit("8");
            reveal_strlit("9");
            assert(digit@ =~= seq![digit_char(n as nat)]);
        }
        text.concat(digit)
    } else {
        let front = write_decimal(text, n / 10);
        let written = write_decimal(front, n % 10);
        proof {
            assert(decimal_text((n % 10) as nat) =~= seq![digit_char((n % 10) as nat)]);
            assert(written@ =~= text@ + decimal_text(n as nat));
        }
        written
    }
}

impl DownloadError {
    pub fn new(message: &str, status_code: u16) -> (error: DownloadError)
        ensures
            error.0@ == message@,
            error.1 == status_code,
    {
        DownloadError(String::from_str(message), status_code)
    }

    /// The text shown for this error.
    pub fn to_string(&self) -> (text: String)
        ensures
            text@ == "Failed to download file: "@ + self.0@ + ", status code: "@ + decimal_text(
                self.1 as nat,
            ),
    {
        let head = String::from_str("Failed to download file: ").concat(self.0.as_str()).concat(
            ", status code: ",
        );
        write_decimal(head, self.1)
    }
}

} // verus!
