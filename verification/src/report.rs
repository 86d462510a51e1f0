//! Words for what a tick found.

use crate::simulation::TickReport;
use vstd::prelude::*;
use vstd::string::*;

verus! {

/// The character that stands for a digit.
pub open spec fn digit_char(digit: int) -> char {
    if digit == 0 {
        '0'
    } else if digit == 1 {
        '1'
    } else if digit == 2 {
        '2'
    } else if digit == 3 {
        '3'
    } else if digit == 4 {
        '4'
    } else if digit == 5 {
        '5'
    } else if digit == 6 {
        '6'
    } else if digit == 7 {
        '7'
    } else if digit == 8 {
        '8'
    } else {
        '9'
    }
}

/// A number written in decimal, without leading zeros.
pub open spec fn decimal(number: nat) -> Seq<char>
    decreases number,
{
    if number < 10 {
        seq![digit_char(number as int)]
    } else {
        decimal(number / 10).push(digit_char((number % 10) as int))
    }
}

/// The digits of `digits`, last first, as characters.
pub open spec fn written_backwards(digits: Seq<u8>) -> Seq<char> {
    Seq::new(digits.len(), |i: int| digit_char(digits[digits.len() - 1 - i] as int))
}

/// The line that tells of a grid at rest.
pub open spec fn stability_text(generation: nat) -> Seq<char> {
    "Stable at current generation "@ + decimal(generation)
}

/// The one-character string for a digit.
fn digit_str(digit: u8) -> (text: &'static str)
    requires
        digit < 10,
    ensures
        text@ == seq![digit_char(digit as int)],
{
    proof {
        reveal_strlit("0");
        reveal_strlit("1");
        reveal_strlit("2");
        reveal_strlit("3");
        reveal_strlit("4");
        reveal_strlit("5");
        reveal_strlit("6");
        reveal_strlit("7");
        reveal_strlit("8");
        reveal_strlit("9");
    }
    let text: &'static str = if digit == 0 {
        "0"
    } else if digit == 1 {
        "1"
    } else if digit == 2 {
        "2"
    } else if digit == 3 {
        "3"
    } else if digit == 4 {
        "4"
    } else if digit == 5 {
        "5"
    } else if digit == 6 {
        "6"
    } else if digit == 7 {
        "7"
    } else if digit == 8 {
        "8"
    } else {
        "9"
    };
    text
}

/// Writes the line that tells of a grid at rest after `generation`
/// generations.
pub fn stability_message(generation: u64) -> (message: String)
    ensures
        message@ == stability_text(generation as nat),
{
    // The digits come out last first; they are written down in turn and then
    // read from the far end.
    let mut digits: Vec<u8> = Vec::new();
    let mut rest: u64 = generation;
    while rest >= 10
        invariant
            decimal(generation as nat) == decimal(rest as nat) + written_backwards(digits@),
            forall|i: int| 0 <= i < digits@.len() ==> digits@[i] < 10,
        decreases rest,
    {
        let ghost earlier = digits@;
        let digit: u8 = (rest % 10) as u8;
        digits.push(digit);
        proof {
            assert(written_backwards(digits@) =~= seq![digit_char(digit as int)]
                + written_backwards(earlier));
        }
        rest = rest / 10;
    }
    digits.push(rest as u8);
    let mut message: String = String::from_str("Stable at current generation ");
    let count: usize = digits.len();
    let mut left: usize = count;
    while left > 0
        invariant
            count == digits@.len(),
            left <= count,
            forall|i: int| 0 <= i < digits@.len() ==> digits@[i] < 10,
            message@ == "Stable at current generation "@ + written_backwards(digits@).subrange(
                0,
                count - left,
            ),
        decreases left,
    {
        left = left - 1;
        message.append(digit_str(digits[left]));
    }
    proof {
        assert(written_backwards(digits@).subrange(0, count as int) =~= written_backwards(digits@));
    }
    message
}

impl TickReport {
    /// The line to tell of the report, if it calls for one: a grid at rest is
    /// worth a line, a grid that changed is not.
    pub fn message(&self) -> (line: Option<String>)
        ensures
            match *self {
                TickReport::Changed => line is None,
                TickReport::Stable { generation } => line is Some && line->0@ == stability_text(
                    generation as nat,
                ),
            },
    {
        match self {
            TickReport::Changed => None,
            TickReport::Stable { generation } => Some(stability_message(*generation)),
        }
    }
}

} // verus!
