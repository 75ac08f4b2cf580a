//! Sampling temperature as a fixed-point decimal.
use vstd::prelude::*;
use vstd::string::*;
use crate::number::{decimal, digit_char, digit_str, usize_text};

verus! {

/// A sampling temperature in thousandths: `1500` stands for `1.5`.
#[derive(Clone, Copy, Debug, PartialEq, Eq, Structural)]
pub struct Temperature {
    pub thousandths: i32,
}

/// The three fraction digits of a value below one thousand.
pub open spec fn fraction_text(r: nat) -> Seq<char> {
    seq![digit_char(r / 100), digit_char((r / 10) % 10), digit_char(r % 10)]
}

impl Temperature {
    /// The temperature that `thousandths / 1000` stands for.
    pub fn from_thousandths(thousandths: i32) -> (r: Temperature)
        ensures
            r.thousandths == thousandths,
    {
        Temperature { thousandths }
    }

    /// The decimal text of the value, with three fraction digits (`1.500`).
    pub open spec fn text(self) -> Seq<char> {
        let m: int = self.thousandths as int;
        let a: nat = if m < 0 { (-m) as nat } else { m as nat };
        let body = decimal(a / 1000) + seq!['.'] + fraction_text(a % 1000);
        if m < 0 { seq!['-'] + body } else { body }
    }

    /// The decimal text of the value.
    pub fn to_text(&self) -> (r: String)
        ensures
            r@ == self.text(),
    {
        let m = self.thousandths;
        let a: usize = if m < 0 { (0 - (m as i64)) as usize } else { m as usize };
        let f = a % 1000;
        proof {
            reveal_strlit("-");
            reveal_strlit(".");
        }
        let mut body = usize_text(a / 1000);
        body.append(".");
        body.append(digit_str(f / 100));
        body.append(digit_str((f / 10) % 10));
        body.append(digit_str(f % 10));
        let r = if m < 0 { "-".to_owned().concat(body.as_str()) } else { body };
        assert(r@ =~= self.text());
        r
    }
}

/// The JSON text of an optional temperature.
pub open spec fn temperature_text(o: Option<Temperature>) -> Option<Seq<char>> {
    match o {
        Some(t) => Some(t.text()),
        None => None,
    }
}

/// The JSON text of an optional temperature.
pub fn temperature_option(o: Option<Temperature>) -> (r: Option<String>)
    ensures
        crate::payload::option_view(r) == temperature_text(o),
{
    match o {
        Some(t) => Some(t.to_text()),
        None => None,
    }
}

} // verus!
