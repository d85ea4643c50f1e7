//! Captured UTC instants and their fixed, repeatable rendering.

use vstd::prelude::*;

use crate::style::{Render, RenderError};

verus! {

/// An immutable capture of a UTC date and time, rendered on demand in the
/// fixed layout `YYYY-MM-DDTHH:MM:SSZ`: four-digit year, two-digit month,
/// day, hour, minute and second, all zero-padded, with the literal `Z` for
/// the zero UTC offset.
#[derive(Clone, Copy, Debug, Eq, Hash, PartialEq, Structural)]
pub struct Timestamp {
    /// Year, expected in `0..=9999`.
    pub year: u16,
    /// Month, expected in `1..=12`.
    pub month: u8,
    /// Day of month, expected in `1..=31`.
    pub day: u8,
    /// Hour, expected in `0..=23`.
    pub hour: u8,
    /// Minute, expected in `0..=59`.
    pub minute: u8,
    /// Second, expected in `0..=59`.
    pub second: u8,
}

/// Relies on chrono's `DateTime::from_timestamp` and its `Datelike` /
/// `Timelike` accessors: month runs 1..=12, day 1..=31, hour 0..=23, minute
/// and second 0..=59. The year is the proleptic Gregorian year, with no
/// documented bound. A clock before the Unix epoch or out of chrono's range
/// falls back to the epoch itself; no path panics.
#[verifier::external_body]
fn now_parts() -> (r: (i32, u32, u32, u32, u32, u32))
    ensures
        1 <= r.1 <= 12,
        1 <= r.2 <= 31,
        r.3 <= 23,
        r.4 <= 59,
        r.5 <= 59,
{
    let now = std::time::SystemTime::now()
        .duration_since(std::time::UNIX_EPOCH)
        .ok()
        .and_then(|d| i64::try_from(d.as_secs()).ok())
        .and_then(|s| chrono::DateTime::from_timestamp(s, 0));
    match now {
        Some(t) => (
            chrono::Datelike::year(&t), chrono::Datelike::month(&t), chrono::Datelike::day(&t),
            chrono::Timelike::hour(&t), chrono::Timelike::minute(&t), chrono::Timelike::second(&t),
        ),
        None => (1970, 1, 1, 0, 0, 0),
    }
}

/// The ASCII digit for a number's last decimal digit.
pub open spec fn digit_byte(n: int) -> u8 {
    (48 + (n % 10)) as u8
}

/// The twenty bytes a timestamp renders to: `YYYY-MM-DDTHH:MM:SSZ`.
pub open spec fn timestamp_text(t: Timestamp) -> Seq<u8> {
    seq![
        digit_byte(t.year as int / 1000),
        digit_byte(t.year as int / 100),
        digit_byte(t.year as int / 10),
        digit_byte(t.year as int),
        45u8,
        digit_byte(t.month as int / 10),
        digit_byte(t.month as int),
        45u8,
        digit_byte(t.day as int / 10),
        digit_byte(t.day as int),
        84u8,
        digit_byte(t.hour as int / 10),
        digit_byte(t.hour as int),
        58u8,
        digit_byte(t.minute as int / 10),
        digit_byte(t.minute as int),
        58u8,
        digit_byte(t.second as int / 10),
        digit_byte(t.second as int),
        90u8,
    ]
}

impl Timestamp {
    /// Every field within its calendar range, the year within the four
    /// digits the layout carries.
    pub open spec fn well_formed(&self) -> bool {
        &&& self.year <= 9999
        &&& 1 <= self.month <= 12
        &&& 1 <= self.day <= 31
        &&& self.hour <= 23
        &&& self.minute <= 59
        &&& self.second <= 59
    }

    /// Capture the current UTC instant. The year is pinned to the four-digit
    /// range the layout carries.
    pub fn now() -> (r: Timestamp)
        ensures
            r.well_formed(),
    {
        let (y, mo, d, h, mi, s) = now_parts();
        let year: u16 = if y < 0 {
            0u16
        } else if y > 9999 {
            9999u16
        } else {
            y as u16
        };
        Timestamp {
            year,
            month: mo as u8,
            day: d as u8,
            hour: h as u8,
            minute: mi as u8,
            second: s as u8,
        }
    }

    /// Render the fixed layout. The result is a pure function of the captured
    /// fields, so repeated calls yield identical text.
    pub fn render(&self) -> (r: Vec<u8>)
        ensures
            r@ == timestamp_text(*self),
    {
        let mut out: Vec<u8> = Vec::new();
        let y = self.year;
        out.push((48 + (y / 1000) % 10) as u8);
        out.push((48 + (y / 100) % 10) as u8);
        out.push((48 + (y / 10) % 10) as u8);
        out.push((48 + y % 10) as u8);
        out.push(45u8);
        out.push(48 + (self.month / 10) % 10);
        out.push(48 + self.month % 10);
        out.push(45u8);
        out.push(48 + (self.day / 10) % 10);
        out.push(48 + self.day % 10);
        out.push(84u8);
        out.push(48 + (self.hour / 10) % 10);
        out.push(48 + self.hour % 10);
        out.push(58u8);
        out.push(48 + (self.minute / 10) % 10);
        out.push(48 + self.minute % 10);
        out.push(58u8);
        out.push(48 + (self.second / 10) % 10);
        out.push(48 + self.second % 10);
        out.push(90u8);
        proof {
            assert(out@ =~= timestamp_text(*self));
        }
        out
    }
}

impl Render for Timestamp {
    /// A timestamp renders as its fixed layout.
    open spec fn text(&self) -> Seq<u8> {
        timestamp_text(*self)
    }

    open spec fn infallible(&self) -> bool {
        true
    }

    fn try_render(&self) -> (r: Result<Vec<u8>, RenderError>)
        ensures
            r matches Ok(v) ==> v@ == self.text(),
            self.infallible() ==> r is Ok,
    {
        Ok(self.render())
    }
}

/// Law: the rendered text always has the fixed layout — twenty bytes, ASCII
/// digits in the numeric fields, and the literal separators `-`, `-`, `T`,
/// `:`, `:` and the trailing `Z` at their fixed places.
pub proof fn lemma_timestamp_layout(t: Timestamp)
    ensures
        timestamp_text(t).len() == 20,
        timestamp_text(t)[4] == 45u8,
        timestamp_text(t)[7] == 45u8,
        timestamp_text(t)[10] == 84u8,
        timestamp_text(t)[13] == 58u8,
        timestamp_text(t)[16] == 58u8,
        timestamp_text(t)[19] == 90u8,
        forall|i: int|
            0 <= i < 20 && i != 4 && i != 7 && i != 10 && i != 13 && i != 16 && i != 19 ==> 48 <= #[trigger] timestamp_text(t)[i] <= 57,
{
    assert forall|i: int|
        0 <= i < 20 && i != 4 && i != 7 && i != 10 && i != 13 && i != 16 && i != 19 implies 48 <= #[trigger] timestamp_text(t)[i] <= 57 by {
        assert(0 <= (t.year as int / 1000) % 10 <= 9);
        assert(0 <= (t.year as int / 100) % 10 <= 9);
        assert(0 <= (t.year as int / 10) % 10 <= 9);
        assert(0 <= (t.year as int) % 10 <= 9);
        assert(0 <= (t.month as int / 10) % 10 <= 9);
        assert(0 <= (t.month as int) % 10 <= 9);
        assert(0 <= (t.day as int / 10) % 10 <= 9);
        assert(0 <= (t.day as int) % 10 <= 9);
        assert(0 <= (t.hour as int / 10) % 10 <= 9);
        assert(0 <= (t.hour as int) % 10 <= 9);
        assert(0 <= (t.minute as int / 10) % 10 <= 9);
        assert(0 <= (t.minute as int) % 10 <= 9);
        assert(0 <= (t.second as int / 10) % 10 <= 9);
        assert(0 <= (t.second as int) % 10 <= 9);
    }
}

} // verus!
