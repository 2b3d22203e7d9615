//! The temperature reading and the text that the board shows for it.
//!
//! A reading is held in hundredths of a degree, in whatever unit the weather
//! service was asked for. The board shows it rounded to whole degrees, a tie
//! going to the even neighbour, and followed by the degree sign. A reading
//! below zero keeps its minus sign even where it rounds to zero.

use vstd::prelude::*;

verus! {

/// The temperature outside, in hundredths of a degree.
#[derive(Clone, Copy, Debug, PartialEq, Eq, Structural)]
pub struct WeatherReading {
    /// The temperature, in hundredths of a degree.
    pub hundredths: i64,
}

/// The sign that follows the degrees on the board.
pub const DEGREE_SIGN: char = '°';

/// The distance of `h` from zero.
pub open spec fn magnitude(h: int) -> nat {
    if h >= 0 {
        h as nat
    } else {
        (-h) as nat
    }
}

/// `m` hundredths rounded to whole units, a tie going to the even neighbour.
pub open spec fn rounded_units(m: nat) -> nat {
    let whole = m / 100;
    let rest = m % 100;
    if rest > 50 || (rest == 50 && whole % 2 == 1) {
        whole + 1
    } else {
        whole
    }
}

/// `h` hundredths of a degree rounded to whole degrees, a tie going to the
/// even neighbour.
pub open spec fn rounded_degrees(h: int) -> int {
    if h >= 0 {
        rounded_units(magnitude(h)) as int
    } else {
        -(rounded_units(magnitude(h)) as int)
    }
}

/// The character of the digit `d`.
pub open spec fn digit_char(d: nat) -> char
    recommends
        d < 10,
{
    (d + '0' as nat) as char
}

/// `n` in decimal digits, without leading zeros.
pub open spec fn decimal(n: nat) -> Seq<char>
    decreases n,
{
    if n < 10 {
        seq![digit_char(n)]
    } else {
        decimal(n / 10).push(digit_char(n % 10))
    }
}

/// The text that the board shows for `h` hundredths of a degree: a minus sign
/// if `h` is below zero, the digits of the rounded degrees, and the degree sign.
pub open spec fn temperature_text(h: int) -> Seq<char> {
    let digits = decimal(rounded_units(magnitude(h)));
    if h < 0 {
        (seq!['-'] + digits).push(DEGREE_SIGN)
    } else {
        digits.push(DEGREE_SIGN)
    }
}

/// The rounded value is the whole number nearest to the reading, and the even
/// one of the two where the reading lies half-way between them.
pub proof fn lemma_rounded_is_nearest(h: int)
    ensures
        -50 <= 100 * rounded_degrees(h) - h <= 50,
        (100 * rounded_degrees(h) - h == 50 || 100 * rounded_degrees(h) - h == -50)
            ==> rounded_degrees(h) % 2 == 0,
{
}

/// Ten to the power of `k`.
pub open spec fn ten_to(k: nat) -> nat
    decreases k,
{
    if k == 0 {
        1
    } else {
        10 * ten_to((k - 1) as nat)
    }
}

/// A number below ten to the power of `k` has at most `k` digits.
pub proof fn lemma_decimal_len(n: nat, k: nat)
    requires
        k >= 1,
        n < ten_to(k),
    ensures
        1 <= decimal(n).len() <= k,
    decreases k,
{
    reveal_with_fuel(ten_to, 3);
    if n >= 10 {
        lemma_decimal_len(n / 10, (k - 1) as nat);
    }
}

/// The text of a temperature has at least two and at most twenty characters.
pub proof fn lemma_temperature_text_len(h: i64)
    ensures
        2 <= temperature_text(h as int).len() <= 20,
{
    assert(ten_to(18) == 1000000000000000000) by {
        reveal_with_fuel(ten_to, 19);
    }
    lemma_decimal_len(rounded_units(magnitude(h as int)), 18);
}

/// The character of the digit `d`.
fn digit(d: u64) -> (c: char)
    requires
        d < 10,
    ensures
        c == digit_char(d as nat),
{
    ((d as u8) + 48) as char
}

/// `n` in decimal digits, without leading zeros.
pub fn decimal_digits(n: u64) -> (digits: Vec<char>)
    ensures
        digits@ == decimal(n as nat),
{
    let mut digits: Vec<char> = Vec::new();
    digits.push(digit(n % 10));
    let mut rest: u64 = n / 10;
    while rest > 0
        invariant
            decimal(n as nat) == if rest > 0 {
                decimal(rest as nat) + digits@
            } else {
                digits@
            },
        decreases rest,
    {
        digits.insert(0, digit(rest % 10));
        rest = rest / 10;
    }
    digits
}

impl WeatherReading {
    /// The reading of `hundredths` hundredths of a degree.
    pub fn from_hundredths(hundredths: i64) -> (reading: WeatherReading)
        ensures
            reading.hundredths == hundredths,
    {
        WeatherReading { hundredths }
    }

    /// The distance of the reading from zero, rounded to whole degrees.
    fn rounded_magnitude(&self) -> (units: u64)
        ensures
            units == rounded_units(magnitude(self.hundredths as int)),
            units <= 92233720368547759,
    {
        let h = self.hundredths;
        let m: u64 = if h >= 0 {
            h as u64
        } else {
            ((-(h + 1)) as u64) + 1
        };
        let whole: u64 = m / 100;
        let rest: u64 = m % 100;
        if rest > 50 || (rest == 50 && whole % 2 == 1) {
            whole + 1
        } else {
            whole
        }
    }

    /// The reading rounded to whole degrees, a tie going to the even neighbour.
    pub fn degrees(&self) -> (d: i64)
        ensures
            d == rounded_degrees(self.hundredths as int),
    {
        let units = self.rounded_magnitude();
        if self.hundredths >= 0 {
            units as i64
        } else {
            -(units as i64)
        }
    }

    /// The text that the board shows for the reading: a minus sign below
    /// zero, the rounded degrees and the degree sign.
    pub fn text(&self) -> (text: Vec<char>)
        ensures
            text@ == temperature_text(self.hundredths as int),
            2 <= text@.len() <= 20,
    {
        let mut text: Vec<char> = Vec::new();
        if self.hundredths < 0 {
            text.push('-');
        }
        let mut digits = decimal_digits(self.rounded_magnitude());
        text.append(&mut digits);
        text.push(DEGREE_SIGN);
        proof {
            lemma_temperature_text_len(self.hundredths);
        }
        text
    }
}

} // verus!
