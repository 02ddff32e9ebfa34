//! The decision core of the rotating error logger.
//!
//! The host layer does the file work (create, append, list, delete) and
//! supplies the current date; this module decides file names, renders
//! dates, timestamps and log lines, gates pruning to once per day, and
//! decides which log files fall outside the retention window.

use vstd::prelude::*;

use crate::text::{digit_char, digit_str, spec_str_lt, str_lt};

verus! {

/// How many daily log files are retained, today's included.
pub const RETENTION_DAYS: u32 = 7;

/// A decimal digit character.
pub open spec fn is_digit(c: char) -> bool {
    48 <= c as u32 <= 57
}

/// The shape of a rendered date: `YYYY-MM-DD`, ten characters, digits
/// everywhere but the two hyphens.
pub open spec fn spec_is_date_str(s: Seq<char>) -> bool {
    &&& s.len() == 10
    &&& s[4] == '-'
    &&& s[7] == '-'
    &&& (forall|i: int| 0 <= i < 10 && i != 4 && i != 7 ==> is_digit(#[trigger] s[i]))
}

/// Whether the string is a rendered date, `YYYY-MM-DD`.
pub fn is_date_str(value: &str) -> (r: bool)
    ensures
        r == spec_is_date_str(value@),
{
    let n: usize = value.unicode_len();
    if n != 10 {
        return false;
    }
    let mut i: usize = 0;
    while i < 10
        invariant
            i <= 10,
            value@.len() == 10,
            forall|j: int|
                0 <= j < i ==> (if j == 4 || j == 7 {
                    value@[j] == '-'
                } else {
                    is_digit(#[trigger] value@[j])
                }),
        decreases 10 - i,
    {
        let c = value.get_char(i);
        if i == 4 || i == 7 {
            if c != '-' {
                return false;
            }
        } else {
            if (c as u32) < 48 || (c as u32) > 57 {
                return false;
            }
        }
        i = i + 1;
    }
    true
}

/// The two decimal digits of a value below one hundred.
pub open spec fn spec_two_digits(v: int) -> Seq<char> {
    seq![digit_char((v / 10) % 10), digit_char(v % 10)]
}

/// The rendered date `YYYY-MM-DD`, zero padded.
pub open spec fn spec_format_date(y: int, m: int, d: int) -> Seq<char> {
    seq![
        digit_char((y / 1000) % 10),
        digit_char((y / 100) % 10),
        digit_char((y / 10) % 10),
        digit_char(y % 10),
        '-',
    ] + spec_two_digits(m) + seq!['-'] + spec_two_digits(d)
}

/// Renders a date as `YYYY-MM-DD`.
pub fn format_date(y: i32, m: u8, d: u8) -> (r: String)
    requires
        0 <= y <= 9999,
        m < 100,
        d < 100,
    ensures
        r@ == spec_format_date(y as int, m as int, d as int),
{
    let yy: u32 = y as u32;
    let mut r = String::new();
    r.append(digit_str(((yy / 1000) % 10) as u8));
    r.append(digit_str(((yy / 100) % 10) as u8));
    r.append(digit_str(((yy / 10) % 10) as u8));
    r.append(digit_str((yy % 10) as u8));
    r.append("-");
    r.append(digit_str((m / 10) % 10));
    r.append(digit_str(m % 10));
    r.append("-");
    r.append(digit_str((d / 10) % 10));
    r.append(digit_str(d % 10));
    proof {
        reveal_strlit("-");
        assert(r@ =~= spec_format_date(y as int, m as int, d as int));
    }
    r
}

/// The rendered timestamp `YYYY-MM-DDTHH:MM:SSZ`.
pub open spec fn spec_format_timestamp(
    y: int,
    mo: int,
    d: int,
    h: int,
    mi: int,
    s: int,
) -> Seq<char> {
    spec_format_date(y, mo, d) + seq!['T'] + spec_two_digits(h) + seq![':'] + spec_two_digits(mi)
        + seq![':'] + spec_two_digits(s) + seq!['Z']
}

/// Renders a UTC timestamp as `YYYY-MM-DDTHH:MM:SSZ`.
pub fn format_timestamp(y: i32, mo: u8, d: u8, h: u8, mi: u8, s: u8) -> (r: String)
    requires
        0 <= y <= 9999,
        mo < 100,
        d < 100,
        h < 100,
        mi < 100,
        s < 100,
    ensures
        r@ == spec_format_timestamp(y as int, mo as int, d as int, h as int, mi as int, s as int),
{
    let mut r = format_date(y, mo, d);
    r.append("T");
    r.append(digit_str((h / 10) % 10));
    r.append(digit_str(h % 10));
    r.append(":");
    r.append(digit_str((mi / 10) % 10));
    r.append(digit_str(mi % 10));
    r.append(":");
    r.append(digit_str((s / 10) % 10));
    r.append(digit_str(s % 10));
    r.append("Z");
    proof {
        reveal_strlit("T");
        reveal_strlit(":");
        reveal_strlit("Z");
        assert(r@ =~= spec_format_timestamp(
            y as int,
            mo as int,
            d as int,
            h as int,
            mi as int,
            s as int,
        ));
    }
    r
}

/// One rendered log line: `[timestamp] LEVEL message`, newline ended.
pub open spec fn spec_log_line(ts: Seq<char>, level: Seq<char>, msg: Seq<char>) -> Seq<char> {
    "["@ + ts + "] "@ + level + " "@ + msg + "\n"@
}

/// Renders one log line.
pub fn format_log_line(ts: &str, level: &str, msg: &str) -> (r: String)
    ensures
        r@ == spec_log_line(ts@, level@, msg@),
{
    let mut r = String::from_str("[");
    r.append(ts);
    r.append("] ");
    r.append(level);
    r.append(" ");
    r.append(msg);
    r.append("\n");
    r
}

/// Whether a year is a Gregorian leap year.
pub open spec fn spec_is_leap_year(y: int) -> bool {
    (y % 4 == 0 && y % 100 != 0) || y % 400 == 0
}

/// Days in a month of a year; zero for an invalid month.
pub open spec fn spec_days_in_month(y: int, m: int) -> int {
    if m == 1 || m == 3 || m == 5 || m == 7 || m == 8 || m == 10 || m == 12 {
        31
    } else if m == 4 || m == 6 || m == 9 || m == 11 {
        30
    } else if m == 2 {
        if spec_is_leap_year(y) {
            29
        } else {
            28
        }
    } else {
        0
    }
}

/// A valid Gregorian calendar date.
pub open spec fn spec_valid_date(y: int, m: int, d: int) -> bool {
    1 <= m <= 12 && 1 <= d <= spec_days_in_month(y, m)
}

/// Whether year, month and day form a valid calendar date.
pub fn is_valid_date(y: i32, m: u8, d: u8) -> (r: bool)
    requires
        0 <= y,
    ensures
        r == spec_valid_date(y as int, m as int, d as int),
{
    let yy: u32 = y as u32;
    let leap: bool = (yy % 4 == 0 && yy % 100 != 0) || yy % 400 == 0;
    let dim: u8 = if m == 1 || m == 3 || m == 5 || m == 7 || m == 8 || m == 10 || m == 12 {
        31
    } else if m == 4 || m == 6 || m == 9 || m == 11 {
        30
    } else if m == 2 {
        if leap {
            29
        } else {
            28
        }
    } else {
        0
    };
    1 <= m && m <= 12 && 1 <= d && d <= dim
}

/// The calendar date `n` days before the given date.
pub uninterp spec fn days_back(y: int, m: int, d: int, n: int) -> (int, int, int);

/// Relies on `time::Date::from_calendar_date` and `Date::checked_sub`:
/// the date a fixed number of days earlier is a function of the
/// starting date alone, and `time` covers years -9999 through 9999, so
/// stepping back at most a year from a valid date of year 1 or later
/// stays in range.
#[verifier::external_body]
fn date_minus_days(y: i32, m: u8, d: u8, n: u32) -> (r: Option<(i32, u8, u8)>)
    ensures
        r matches Some(t) ==> (t.0 as int, t.1 as int, t.2 as int) == days_back(
            y as int,
            m as int,
            d as int,
            n as int,
        ),
        r matches Some(t) ==> -9999 <= t.0 <= 9999 && 1 <= t.1 <= 12 && 1 <= t.2 <= 31,
        spec_valid_date(y as int, m as int, d as int) && 1 <= y <= 9999 && n <= 366 ==> r is Some,
{
    let month = match time::Month::try_from(m) {
        Ok(mo) => mo,
        Err(_) => return None,
    };
    let date = match time::Date::from_calendar_date(y, month, d) {
        Ok(dt) => dt,
        Err(_) => return None,
    };
    let back = date.checked_sub(time::Duration::days(n as i64))?;
    Some((back.year(), u8::from(back.month()), back.day()))
}

/// The rendered date before which a log file falls out of the retention
/// window: `RETENTION_DAYS - 1` days before today.  `None` only if the
/// cutoff would fall before year zero.
pub fn cutoff_date(y: i32, m: u8, d: u8) -> (r: Option<String>)
    requires
        1 <= y <= 9999,
        spec_valid_date(y as int, m as int, d as int),
    ensures
        ({
            let back = days_back(y as int, m as int, d as int, (RETENTION_DAYS - 1) as int);
            &&& (r matches Some(t) ==> back.0 >= 0 && t@ == spec_format_date(
                back.0,
                back.1,
                back.2,
            ))
            &&& (r is None ==> back.0 < 0)
        }),
{
    match date_minus_days(y, m, d, RETENTION_DAYS - 1) {
        Some((by, bm, bd)) => {
            if by < 0 {
                None
            } else {
                Some(format_date(by, bm, bd))
            }
        },
        None => {
            proof {
                assert(false);
            }
            None
        },
    }
}

/// Whether a log file named by `file_stem` is pruned: its stem is a
/// rendered date that orders strictly before the cutoff.
pub fn should_delete_log(file_stem: &str, cutoff: &str) -> (r: bool)
    ensures
        r == (spec_is_date_str(file_stem@) && spec_str_lt(file_stem@, cutoff@)),
{
    is_date_str(file_stem) && str_lt(file_stem, cutoff)
}

/// The decision core of the rotating logger: remembers the last day a
/// prune ran so pruning happens at most once per day.
pub struct SystemLogger {
    pub last_prune_date: Option<String>,
}

impl SystemLogger {
    /// A fresh logger core that has never pruned.
    pub fn new() -> (s: SystemLogger)
        ensures
            s.last_prune_date is None,
    {
        SystemLogger { last_prune_date: None }
    }

    /// The file name for a day's log.
    pub fn file_path(&self, date_str: &str) -> (r: String)
        ensures
            r@ == date_str@ + ".log"@,
    {
        let mut r = date_str.to_owned();
        r.append(".log");
        r
    }

    /// Whether a prune should run now: yes unless one already ran
    /// today.  Remembers today either way.
    pub fn prune_if_needed(&mut self, today: &str) -> (r: bool)
        ensures
            r == !(old(self).last_prune_date matches Some(p) && p@ == today@),
            final(self).last_prune_date matches Some(p) && p@ == today@,
    {
        let should: bool = match &self.last_prune_date {
            Some(p) => !crate::text::str_eq(p.as_str(), today),
            None => true,
        };
        self.last_prune_date = Some(today.to_owned());
        should
    }
}

} // verus!
