//! Amounts of money with two decimal places.

use crate::text::{decimal, decimal_text, digit_char, digit_text};
use vstd::prelude::*;
use vstd::string::*;

verus! {

/// An amount of money with two decimal places, held as a whole number of
/// hundredths of the currency unit.
#[derive(Clone, Copy, Debug, PartialEq, Eq, Structural)]
pub struct Amount {
    pub hundredths: i64,
}

impl View for Amount {
    type V = int;

    open spec fn view(&self) -> int {
        self.hundredths as int
    }
}

/// An amount of so many hundredths written with two decimal places: a minus
/// sign if it is negative, the whole units in decimal, a point, two digits.
pub open spec fn amount_text(hundredths: int) -> Seq<char> {
    let magnitude = if hundredths < 0 {
        -hundredths
    } else {
        hundredths
    };
    let sign = if hundredths < 0 {
        seq!['-']
    } else {
        Seq::<char>::empty()
    };
    sign + decimal((magnitude / 100) as nat) + seq![
        '.',
        digit_char(magnitude % 100 / 10),
        digit_char(magnitude % 10),
    ]
}

impl Amount {
    /// The amount of `hundredths` hundredths.
    pub fn new(hundredths: i64) -> (a: Amount)
        ensures
            a@ == hundredths,
    {
        Amount { hundredths }
    }

    /// Nothing.
    pub fn zero() -> (a: Amount)
        ensures
            a@ == 0,
    {
        Amount { hundredths: 0 }
    }

    /// Writes the amount with two decimal places.
    pub fn to_text(&self) -> (s: String)
        ensures
            s@ == amount_text(self@),
    {
        let negative = self.hundredths < 0;
        let magnitude: u64 = if self.hundredths == i64::MIN {
            9223372036854775808u64
        } else if negative {
            (-self.hundredths) as u64
        } else {
            self.hundredths as u64
        };
        let fraction: u64 = magnitude % 100;
        proof {
            reveal_strlit("-");
            reveal_strlit("");
            reveal_strlit(".");
        }
        let mut s = String::from_str(if negative { "-" } else { "" });
        s.append(decimal_text(magnitude / 100).as_str());
        s.append(".");
        s.append(digit_text(fraction / 10));
        s.append(digit_text(fraction % 10));
        assert(s@ =~= amount_text(self@));
        s
    }
}

} // verus!
