//! The wall clock: the time of day and the day of the week as text, and the
//! instant in milliseconds.
//!
//! The library does not read the clock. The program around it does, and
//! hands each reading on as a `Clock`; `Clock::is_wall_clock` tells whether a
//! reading has the form that the clock of the machine gives.

use vstd::prelude::*;
use crate::layout::chars_of;

verus! {

/// One reading of the wall clock.
#[derive(Debug, PartialEq, Eq)]
pub struct Clock {
    /// The local time of day, hours and minutes, as in `14:05`.
    pub time: String,
    /// The local day of the week, written out, as in `Tuesday`.
    pub weekday: String,
    /// The instant of the reading, in milliseconds since the start of 1970.
    pub millis: i64,
}

/// A reading of the clock as plain values.
pub struct ClockView {
    pub time: Seq<char>,
    pub weekday: Seq<char>,
    pub millis: i64,
}

impl View for Clock {
    type V = ClockView;

    open spec fn view(&self) -> ClockView {
        ClockView { time: self.time@, weekday: self.weekday@, millis: self.millis }
    }
}

/// Whether `c` is a decimal digit.
pub open spec fn is_digit(c: char) -> bool {
    '0' <= c <= '9'
}

/// Whether `text` is a time of day in hours and minutes: two digits, a colon,
/// two digits, the hours below 24 and the minutes below 60.
pub open spec fn is_time_of_day(text: Seq<char>) -> bool {
    &&& text.len() == 5
    &&& is_digit(text[0])
    &&& is_digit(text[1])
    &&& text[2] == ':'
    &&& is_digit(text[3])
    &&& is_digit(text[4])
    &&& (text[0] < '2' || (text[0] == '2' && text[1] <= '3'))
    &&& text[3] <= '5'
}

/// Whether `text` is the English name of a day of the week, with a capital.
pub open spec fn is_weekday_name(text: Seq<char>) -> bool {
    ||| text == "Sunday"@
    ||| text == "Monday"@
    ||| text == "Tuesday"@
    ||| text == "Wednesday"@
    ||| text == "Thursday"@
    ||| text == "Friday"@
    ||| text == "Saturday"@
}

impl ClockView {
    /// Whether the reading has the form in which the wall clock gives it.
    pub open spec fn is_wall_clock(self) -> bool {
        is_time_of_day(self.time) && is_weekday_name(self.weekday)
    }
}

/// The name of a day of the week has between six and nine characters.
pub proof fn lemma_weekday_name_len(text: Seq<char>)
    requires
        is_weekday_name(text),
    ensures
        6 <= text.len() <= 9,
{
    reveal_strlit("Sunday");
    reveal_strlit("Monday");
    reveal_strlit("Tuesday");
    reveal_strlit("Wednesday");
    reveal_strlit("Thursday");
    reveal_strlit("Friday");
    reveal_strlit("Saturday");
}

/// Whether the two texts are the same.
pub fn same_text(a: &str, b: &str) -> (same: bool)
    ensures
        same == (a@ == b@),
{
    let left = chars_of(a);
    let right = chars_of(b);
    if left.len() != right.len() {
        return false;
    }
    let mut i: usize = 0;
    while i < left.len()
        invariant
            i <= left.len(),
            left@ == a@,
            right@ == b@,
            left@.len() == right@.len(),
            forall|k: int| 0 <= k < i ==> left@[k] == right@[k],
        decreases left.len() - i,
    {
        if left[i] != right[i] {
            return false;
        }
        i += 1;
    }
    assert(a@ =~= b@);
    true
}

/// Whether `text` is a time of day in hours and minutes.
pub fn check_time_of_day(text: &str) -> (ok: bool)
    ensures
        ok == is_time_of_day(text@),
{
    let chars = chars_of(text);
    if chars.len() != 5 {
        return false;
    }
    let digits = '0' <= chars[0] && chars[0] <= '9' && '0' <= chars[1] && chars[1] <= '9'
        && '0' <= chars[3] && chars[3] <= '9' && '0' <= chars[4] && chars[4] <= '9';
    digits && chars[2] == ':' && (chars[0] < '2' || (chars[0] == '2' && chars[1] <= '3'))
        && chars[3] <= '5'
}

/// Whether `text` is the English name of a day of the week, with a capital.
pub fn check_weekday_name(text: &str) -> (ok: bool)
    ensures
        ok == is_weekday_name(text@),
{
    same_text(text, "Sunday") || same_text(text, "Monday") || same_text(text, "Tuesday")
        || same_text(text, "Wednesday") || same_text(text, "Thursday")
        || same_text(text, "Friday") || same_text(text, "Saturday")
}

impl Clock {
    /// Whether the reading has the form in which the wall clock gives it.
    /// The program that reads the clock asks this before it hands the
    /// reading on, so that what is proved of such readings holds of its own.
    pub fn is_wall_clock(&self) -> (ok: bool)
        ensures
            ok == self@.is_wall_clock(),
    {
        check_time_of_day(self.time.as_str()) && check_weekday_name(self.weekday.as_str())
    }
}

} // verus!
