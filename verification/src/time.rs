//! Wall-clock values and their textual renderings.
//!
//! A [`Timestamp`] holds the local wall-clock time truncated to the second,
//! as plain calendar fields. The renderings are the two the backup operation
//! needs: the `YYYYMMDD_HHMMSS` token embedded in a backup filename, and the
//! short `HH:MM` display time returned to the caller on success. Both are
//! zero-padded and locale-independent.

use chrono::Datelike;
use chrono::Timelike;
use vstd::prelude::*;
use vstd::string::*;

verus! {

/// A local wall-clock time, truncated to the second.
#[derive(Clone, Copy, Debug, PartialEq, Eq, Structural)]
pub struct Timestamp {
    pub year: u32,
    pub month: u32,
    pub day: u32,
    pub hour: u32,
    pub minute: u32,
    pub second: u32,
}

impl Timestamp {
    /// The fields form a renderable calendar time: the year has at most four
    /// digits and every other field lies in its calendar range.
    pub open spec fn wf(self) -> bool {
        &&& self.year <= 9999
        &&& 1 <= self.month <= 12
        &&& 1 <= self.day <= 31
        &&& self.hour <= 23
        &&& self.minute <= 59
        &&& self.second <= 59
    }

    /// Builds a timestamp, accepting exactly the field values that [`Self::wf`]
    /// allows.
    pub fn new(year: u32, month: u32, day: u32, hour: u32, minute: u32, second: u32)
        -> (r: Option<Timestamp>)
        ensures
            r matches Some(t) ==> t == (Timestamp { year, month, day, hour, minute, second }),
            r is Some <==> (Timestamp { year, month, day, hour, minute, second }).wf(),
    {
        if year <= 9999 && 1 <= month && month <= 12 && 1 <= day && day <= 31 && hour <= 23
            && minute <= 59 && second <= 59 {
            Some(Timestamp { year, month, day, hour, minute, second })
        } else {
            None
        }
    }

    /// Runtime check for [`Self::wf`].
    pub fn is_wf(&self) -> (r: bool)
        ensures
            r == self.wf(),
    {
        self.year <= 9999 && 1 <= self.month && self.month <= 12 && 1 <= self.day
            && self.day <= 31 && self.hour <= 23 && self.minute <= 59 && self.second <= 59
    }
}

/// The decimal digit character for `d`.
pub open spec fn digit_char(d: int) -> char {
    if d == 0 {
        '0'
    } else if d == 1 {
        '1'
    } else if d == 2 {
        '2'
    } else if d == 3 {
        '3'
    } else if d == 4 {
        '4'
    } else if d == 5 {
        '5'
    } else if d == 6 {
        '6'
    } else if d == 7 {
        '7'
    } else if d == 8 {
        '8'
    } else {
        '9'
    }
}

/// `n` rendered as exactly two decimal digits, zero-padded.
pub open spec fn two_digits(n: int) -> Seq<char> {
    seq![digit_char(n / 10), digit_char(n % 10)]
}

/// `n` rendered as exactly four decimal digits, zero-padded.
pub open spec fn four_digits(n: int) -> Seq<char> {
    seq![
        digit_char(n / 1000),
        digit_char((n / 100) % 10),
        digit_char((n / 10) % 10),
        digit_char(n % 10),
    ]
}

/// The `YYYYMMDD_HHMMSS` token of a timestamp.
pub open spec fn timestamp_chars(t: Timestamp) -> Seq<char> {
    four_digits(t.year as int) + two_digits(t.month as int) + two_digits(t.day as int) + "_"@
        + two_digits(t.hour as int) + two_digits(t.minute as int) + two_digits(t.second as int)
}

/// The short `HH:MM` display time of a timestamp.
pub open spec fn display_chars(t: Timestamp) -> Seq<char> {
    two_digits(t.hour as int) + ":"@ + two_digits(t.minute as int)
}

fn digit_str(d: u32) -> (r: &'static str)
    requires
        d < 10,
    ensures
        r@ == seq![digit_char(d as int)],
{
    proof {
        reveal_strlit("0");
        reveal_strlit("1");
        reveal_strlit("2");
        reveal_strlit("3");
        reveal_strlit("4");
        reveal_strlit("5");
        reveal_strlit("6");
        reveal_strlit("7");
        reveal_strlit("8");
        reveal_strlit("9");
    }
    let r = match d {
        0 => "0",
        1 => "1",
        2 => "2",
        3 => "3",
        4 => "4",
        5 => "5",
        6 => "6",
        7 => "7",
        8 => "8",
        _ => "9",
    };
    proof {
        assert(r@ =~= seq![digit_char(d as int)]);
    }
    r
}

/// Appends `n` to `s` as two zero-padded decimal digits.
fn append_two_digits(s: &mut String, n: u32)
    requires
        n < 100,
    ensures
        final(s)@ == old(s)@ + two_digits(n as int),
{
    s.append(digit_str(n / 10));
    s.append(digit_str(n % 10));
    proof {
        assert(final(s)@ =~= old(s)@ + two_digits(n as int));
    }
}

/// Appends `n` to `s` as four zero-padded decimal digits.
fn append_four_digits(s: &mut String, n: u32)
    requires
        n < 10000,
    ensures
        final(s)@ == old(s)@ + four_digits(n as int),
{
    s.append(digit_str(n / 1000));
    s.append(digit_str((n / 100) % 10));
    s.append(digit_str((n / 10) % 10));
    s.append(digit_str(n % 10));
    proof {
        assert(final(s)@ =~= old(s)@ + four_digits(n as int));
    }
}

/// Renders the `YYYYMMDD_HHMMSS` token of `t`.
pub fn timestamp_token(t: &Timestamp) -> (r: String)
    requires
        t.wf(),
    ensures
        r@ == timestamp_chars(*t),
{
    let mut s = String::new();
    append_four_digits(&mut s, t.year);
    append_two_digits(&mut s, t.month);
    append_two_digits(&mut s, t.day);
    s.append("_");
    append_two_digits(&mut s, t.hour);
    append_two_digits(&mut s, t.minute);
    append_two_digits(&mut s, t.second);
    proof {
        assert(s@ =~= timestamp_chars(*t));
    }
    s
}

/// Renders the short `HH:MM` display time of `t`.
pub fn display_time(t: &Timestamp) -> (r: String)
    requires
        t.wf(),
    ensures
        r@ == display_chars(*t),
{
    let mut s = String::new();
    append_two_digits(&mut s, t.hour);
    s.append(":");
    append_two_digits(&mut s, t.minute);
    proof {
        assert(s@ =~= display_chars(*t));
    }
    s
}

/// Relies on `std::time::SystemTime::now` and `duration_since` for the
/// seconds past the Unix epoch — a host clock before the epoch comes back as
/// `None`, not a panic — and on `chrono::TimeZone::timestamp_opt` for
/// `Local`, which maps a timestamp outside chrono's representable range to
/// `MappedLocalTime::None` rather than panicking, and on chrono's
/// `Datelike` / `Timelike` accessors. Chrono documents the accessor ranges
/// stated below (`month` and `day` starting from 1, `hour` below 24,
/// `minute` and `second` below 60); it makes no such promise for the year,
/// which is returned as it came.
#[verifier::external_body]
fn local_now_fields() -> (r: Option<(i32, u32, u32, u32, u32, u32)>)
    ensures
        r matches Some(f) ==> 1 <= f.1 <= 12 && 1 <= f.2 <= 31 && f.3 <= 23 && f.4 <= 59
            && f.5 <= 59,
{
    let since_epoch = std::time::SystemTime::now().duration_since(std::time::UNIX_EPOCH).ok()?;
    let secs = i64::try_from(since_epoch.as_secs()).ok()?;
    match chrono::TimeZone::timestamp_opt(&chrono::Local, secs, 0) {
        chrono::MappedLocalTime::Single(now) => Some(
            (now.year(), now.month(), now.day(), now.hour(), now.minute(), now.second()),
        ),
        _ => None,
    }
}

/// Builds the timestamp for raw clock fields, accepting exactly the
/// renderable values: a year the four-digit format can hold, and every other
/// field in its calendar range.
pub fn timestamp_from_clock_fields(
    year: i32,
    month: u32,
    day: u32,
    hour: u32,
    minute: u32,
    second: u32,
) -> (r: Option<Timestamp>)
    ensures
        r is Some <==> (0 <= year <= 9999 && (Timestamp {
            year: year as u32,
            month,
            day,
            hour,
            minute,
            second,
        }).wf()),
        r matches Some(t) ==> t == (Timestamp {
            year: year as u32,
            month,
            day,
            hour,
            minute,
            second,
        }),
{
    if 0 <= year && year <= 9999 {
        Timestamp::new(year as u32, month, day, hour, minute, second)
    } else {
        None
    }
}

/// Reads the local wall clock, truncated to the second.
///
/// Returns `None` when the platform clock cannot supply a renderable time:
/// a clock before the Unix epoch, one beyond the range chrono represents, or
/// a year outside the four-digit range.
pub fn local_now() -> (r: Option<Timestamp>)
    ensures
        r matches Some(t) ==> t.wf(),
{
    match local_now_fields() {
        Some((year, month, day, hour, minute, second)) => timestamp_from_clock_fields(
            year,
            month,
            day,
            hour,
            minute,
            second,
        ),
        None => None,
    }
}

} // verus!
