//! The clock sampler: the current local time as plain calendar and time
//! fields, and their rendering as label strings.
//!
//! Reading the wall clock is the one place the crate leans on an outside
//! crate.  The chrono calls stand behind one trusted wrapper whose contract
//! states only the field ranges chrono documents; everything computed from
//! the fields is verified.

use vstd::prelude::*;
use chrono::{Datelike, Timelike};

verus! {

/// The plain fields of one sampled instant.
#[derive(Clone, Copy, Debug, PartialEq, Eq, Structural)]
pub struct TimeFields {
    pub year: i32,
    /// Month of the year, from 1.
    pub month: u32,
    /// Day of the month, from 1.
    pub day: u32,
    /// Days since Monday, from 0 to 6.
    pub weekday: u32,
    pub hour24: u32,
    pub minute: u32,
    pub second: u32,
}

impl TimeFields {
    /// The ranges chrono documents for each field.
    pub open spec fn wf(self) -> bool {
        &&& 1 <= self.month <= 12
        &&& 1 <= self.day <= 31
        &&& self.weekday <= 6
        &&& self.hour24 <= 23
        &&& self.minute <= 59
        &&& self.second <= 59
    }
}

/// Reads the wall clock once.  Relies on chrono's `Local::now` for the
/// current instant in the local timezone and, on that one instant, on
/// `Datelike::year`, `month` (1 to 12), `day` (1 to 31), `weekday` with
/// `Weekday::num_days_from_monday` (0 to 6), and `Timelike::hour` (0 to
/// 23), `minute` (0 to 59) and `second` (0 to 59): each range is the one
/// chrono documents, and the year is not bounded.  Which instant is read
/// depends on the environment, so nothing relates two calls.
#[verifier::external_body]
fn read_time_fields() -> (f: TimeFields)
    ensures
        f.wf(),
{
    let now = chrono::Local::now();
    TimeFields {
        year: now.year(),
        month: now.month(),
        day: now.day(),
        weekday: now.weekday().num_days_from_monday(),
        hour24: now.hour(),
        minute: now.minute(),
        second: now.second(),
    }
}

/// The decimal digit characters, by value.
pub open spec fn digit_char(d: int) -> char {
    if d == 0 { '0' }
    else if d == 1 { '1' }
    else if d == 2 { '2' }
    else if d == 3 { '3' }
    else if d == 4 { '4' }
    else if d == 5 { '5' }
    else if d == 6 { '6' }
    else if d == 7 { '7' }
    else if d == 8 { '8' }
    else { '9' }
}

/// A two-digit count, zero padded: how hours, minutes, seconds, months and
/// days appear in the labels.
pub open spec fn spec_two_digits(n: int) -> Seq<char> {
    seq![digit_char(n / 10), digit_char(n % 10)]
}

/// The decimal digits of a count, most significant first, no padding.
pub open spec fn spec_decimal(n: nat) -> Seq<char>
    decreases n,
{
    if n < 10 {
        seq![digit_char(n as int)]
    } else {
        spec_decimal(n / 10).push(digit_char((n % 10) as int))
    }
}

/// A year's digits, zero padded to at least four.
pub open spec fn spec_padded_year_digits(a: nat) -> Seq<char> {
    if a < 10 {
        seq!['0', '0', '0'] + spec_decimal(a)
    } else if a < 100 {
        seq!['0', '0'] + spec_decimal(a)
    } else if a < 1000 {
        seq!['0'] + spec_decimal(a)
    } else {
        spec_decimal(a)
    }
}

/// A year as it stands in the date label: four or more digits, with a
/// leading minus sign for years before year zero.
pub open spec fn spec_year_label(y: int) -> Seq<char> {
    if y < 0 {
        seq!['-'] + spec_padded_year_digits((-y) as nat)
    } else {
        spec_padded_year_digits(y as nat)
    }
}

/// The date label: year, month and day, dash separated, zero padded.
pub open spec fn spec_date_label(y: int, month: int, day: int) -> Seq<char> {
    spec_year_label(y) + seq!['-'] + spec_two_digits(month) + seq!['-'] + spec_two_digits(day)
}

/// The time label: `HH:MM:SS` on the 24-hour clock.
pub open spec fn spec_time_label(hour24: int, minute: int, second: int) -> Seq<char> {
    spec_two_digits(hour24) + seq![':'] + spec_two_digits(minute) + seq![':'] + spec_two_digits(
        second,
    )
}

/// The weekday names, by days since Monday.
pub open spec fn spec_weekday_label(w: int) -> Seq<char> {
    if w == 0 { "Mon"@ }
    else if w == 1 { "Tue"@ }
    else if w == 2 { "Wed"@ }
    else if w == 3 { "Thu"@ }
    else if w == 4 { "Fri"@ }
    else if w == 5 { "Sat"@ }
    else { "Sun"@ }
}

/// One decimal digit as a string slice.
fn digit_str(d: u32) -> (r: &'static str)
    requires
        d <= 9,
    ensures
        r@ == seq![digit_char(d as int)],
{
    proof {
        reveal_strlit("0");
        reveal_strlit("1");
        reveal_strlit("2");
        reveal_strlit("3");
        reveal_strlit("4");
        reveal_strlit("5");
        reveal_strlit("6");
        reveal_strlit("7");
        reveal_strlit("8");
        reveal_strlit("9");
    }
    let r: &'static str = if d == 0 { "0" }
    else if d == 1 { "1" }
    else if d == 2 { "2" }
    else if d == 3 { "3" }
    else if d == 4 { "4" }
    else if d == 5 { "5" }
    else if d == 6 { "6" }
    else if d == 7 { "7" }
    else if d == 8 { "8" }
    else { "9" };
    proof {
        assert(r@ =~= seq![digit_char(d as int)]);
    }
    r
}

/// Append a count below one hundred as two digits, zero padded.
fn push_two_digits(out: &mut String, n: u32)
    requires
        n <= 99,
    ensures
        final(out)@ == old(out)@ + spec_two_digits(n as int),
{
    out.append(digit_str(n / 10));
    out.append(digit_str(n % 10));
    proof {
        assert(out@ =~= old(out)@ + spec_two_digits(n as int));
    }
}

/// A count in decimal, most significant digit first.
fn decimal_string(n: u32) -> (r: String)
    ensures
        r@ == spec_decimal(n as nat),
    decreases n,
{
    if n < 10 {
        String::from_str(digit_str(n))
    } else {
        let mut r = decimal_string(n / 10);
        r.append(digit_str(n % 10));
        proof {
            assert(r@ =~= spec_decimal(n as nat));
        }
        r
    }
}

/// A year, zero padded to at least four digits, with a sign when negative.
fn year_label(year: i32) -> (r: String)
    ensures
        r@ == spec_year_label(year as int),
{
    proof {
        reveal_strlit("-");
        reveal_strlit("0");
        reveal_strlit("00");
        reveal_strlit("000");
        reveal_strlit("");
    }
    let a: u32 = if year < 0 {
        (-(year as i64)) as u32
    } else {
        year as u32
    };
    let mut r = if year < 0 {
        String::from_str("-")
    } else {
        String::from_str("")
    };
    if a < 10 {
        r.append("000");
    } else if a < 100 {
        r.append("00");
    } else if a < 1000 {
        r.append("0");
    }
    let digits = decimal_string(a);
    r.append(digits.as_str());
    proof {
        assert(r@ =~= spec_year_label(year as int));
    }
    r
}

/// The date label of a sampled instant: `year-month-day`, zero padded.
pub fn date_label(year: i32, month: u32, day: u32) -> (r: String)
    requires
        1 <= month <= 12,
        1 <= day <= 31,
    ensures
        r@ == spec_date_label(year as int, month as int, day as int),
{
    proof {
        reveal_strlit("-");
    }
    let mut r = year_label(year);
    r.append("-");
    push_two_digits(&mut r, month);
    r.append("-");
    push_two_digits(&mut r, day);
    proof {
        assert(r@ =~= spec_date_label(year as int, month as int, day as int));
    }
    r
}

/// The weekday label of a sampled instant, from its days since Monday.
pub fn weekday_label(weekday: u32) -> (r: &'static str)
    requires
        weekday <= 6,
    ensures
        r@ == spec_weekday_label(weekday as int),
{
    if weekday == 0 { "Mon" }
    else if weekday == 1 { "Tue" }
    else if weekday == 2 { "Wed" }
    else if weekday == 3 { "Thu" }
    else if weekday == 4 { "Fri" }
    else if weekday == 5 { "Sat" }
    else { "Sun" }
}

/// The hour on the 12-hour dial: both midnight and noon are twelve.
pub open spec fn spec_hour12(hour24: int) -> int {
    if hour24 % 12 == 0 { 12 } else { hour24 % 12 }
}

/// The 12-hour number of an hour of the day.
pub fn hour12_of(hour24: u32) -> (h: u32)
    requires
        hour24 <= 23,
    ensures
        h == spec_hour12(hour24 as int),
        1 <= h <= 12,
{
    let m: u32 = hour24 % 12;
    if m == 0 { 12 } else { m }
}

/// One sampled instant, as the renderer consumes it: the clock fields and
/// the finished labels.
#[derive(Clone, Debug)]
pub struct ClockSample {
    /// The hour on the 12-hour dial, 1 to 12.
    pub hour12: u32,
    pub hour24: u32,
    pub minute: u32,
    pub second: u32,
    /// Year, month and day, dash separated, zero padded.
    pub date_label: String,
    /// The three-letter weekday name.
    pub weekday_label: String,
}

impl ClockSample {
    /// Field ranges, and the 12-hour field consistent with the 24-hour one.
    pub open spec fn wf(self) -> bool {
        &&& 1 <= self.hour12 <= 12
        &&& self.hour24 <= 23
        &&& self.minute <= 59
        &&& self.second <= 59
        &&& self.hour12 == spec_hour12(self.hour24 as int)
    }

    /// The `HH:MM:SS` time label of this sample.
    pub fn time_label(&self) -> (r: String)
        requires
            self.wf(),
        ensures
            r@ == spec_time_label(self.hour24 as int, self.minute as int, self.second as int),
    {
        proof {
            reveal_strlit(":");
        }
        let mut r = String::new();
        push_two_digits(&mut r, self.hour24);
        r.append(":");
        push_two_digits(&mut r, self.minute);
        r.append(":");
        push_two_digits(&mut r, self.second);
        proof {
            assert(r@ =~= spec_time_label(
                self.hour24 as int,
                self.minute as int,
                self.second as int,
            ));
        }
        r
    }
}

/// Derive the sample of given time fields: the 12-hour dial hour and the
/// finished labels.  Pure in the fields, so it holds of whatever instant
/// was read.
pub fn sample_at(f: TimeFields) -> (s: ClockSample)
    requires
        f.wf(),
    ensures
        s.hour24 == f.hour24,
        s.minute == f.minute,
        s.second == f.second,
        s.hour12 == spec_hour12(f.hour24 as int),
        s.date_label@ == spec_date_label(f.year as int, f.month as int, f.day as int),
        s.weekday_label@ == spec_weekday_label(f.weekday as int),
        s.wf(),
{
    ClockSample {
        hour12: hour12_of(f.hour24),
        hour24: f.hour24,
        minute: f.minute,
        second: f.second,
        date_label: date_label(f.year, f.month, f.day),
        weekday_label: String::from_str(weekday_label(f.weekday)),
    }
}

/// Sample the wall clock: read the current instant's fields and derive the
/// sample.  The fields depend on the moment of the call; whatever they are,
/// the sample is well formed and its labels belong to the instant read.
pub fn sample() -> (s: ClockSample)
    ensures
        s.wf(),
{
    sample_at(read_time_fields())
}

} // verus!
