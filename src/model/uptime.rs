use vstd::prelude::*;

use chrono::TimeZone;

use crate::error::{ErrorKind, WinfetchError, WinfetchResult};
use crate::record::{text_spec, Record};
use crate::text::{chars_of, decimal, parse_decimal, parse_decimal_spec, push_decimal, push_str, string_from_chars};

verus! {

pub const SECONDS_PER_MINUTE: u64 = 60;

pub const SECONDS_PER_HOUR: u64 = 3600;

pub const SECONDS_PER_DAY: u64 = 86400;

/// A calendar timestamp read from the service, in the host's local time.
#[derive(Clone, Copy, Debug, PartialEq, Eq, Structural)]
pub struct BootTime {
    pub year: u32,
    pub month: u32,
    pub day: u32,
    pub hour: u32,
    pub minute: u32,
    pub second: u32,
}

/// Time since the last boot, in whole days, hours and minutes.
#[derive(Clone, Copy, Debug, PartialEq, Eq, Structural)]
pub struct SystemUptime {
    Days: u64,
    Hours: u64,
    Minutes: u64,
}

/// The number that characters `a..b` of `s` write in decimal.
pub open spec fn number_at(s: Seq<char>, a: int, b: int) -> Option<nat> {
    parse_decimal_spec(s.subrange(a, b))
}

/// The timestamp at the start of `s`, written `YYYYMMDDHHMMSS` (anything may
/// follow), or `None` where it is malformed or its month is not 1 to 12.
pub open spec fn boot_time_spec(s: Seq<char>) -> Option<BootTime> {
    if s.len() < 14 {
        None
    } else {
        match (
            number_at(s, 0, 4),
            number_at(s, 4, 6),
            number_at(s, 6, 8),
            number_at(s, 8, 10),
            number_at(s, 10, 12),
            number_at(s, 12, 14),
        ) {
            (Some(y), Some(mo), Some(d), Some(h), Some(mi), Some(se)) => if 1 <= mo <= 12 {
                Some(
                    BootTime {
                        year: y as u32,
                        month: mo as u32,
                        day: d as u32,
                        hour: h as u32,
                        minute: mi as u32,
                        second: se as u32,
                    },
                )
            } else {
                None
            },
            _ => None,
        }
    }
}

/// Whether `year` is a leap year of the proleptic Gregorian calendar.
pub open spec fn is_leap_year(year: int) -> bool {
    year % 4 == 0 && (year % 100 != 0 || year % 400 == 0)
}

/// The number of days of `month` (1 to 12) in `year`.
pub open spec fn days_in_month(year: int, month: int) -> int {
    if month == 2 {
        if is_leap_year(year) {
            29
        } else {
            28
        }
    } else if month == 4 || month == 6 || month == 9 || month == 11 {
        30
    } else {
        31
    }
}

/// The last year that chrono's dates can hold.
pub const MAX_CALENDAR_YEAR: u32 = 262142;

/// Whether the fields name a date of the calendar and a time of day without
/// leap second, in the range of years that chrono's dates hold.
pub open spec fn calendar_date_time(b: BootTime) -> bool {
    &&& b.year <= MAX_CALENDAR_YEAR
    &&& 1 <= b.month <= 12
    &&& 1 <= b.day <= days_in_month(b.year as int, b.month as int)
    &&& b.hour < 24
    &&& b.minute < 60
    &&& b.second < 60
}

/// The uptime after `elapsed` seconds: whole days, then the whole hours and
/// whole minutes left over, each truncated.
pub open spec fn uptime_of(elapsed: nat) -> (nat, nat, nat) {
    (elapsed / 86400, (elapsed % 86400) / 3600, (elapsed % 3600) / 60)
}

/// The days from 1970-01-01 to the given date of the proleptic Gregorian
/// calendar: years counted from March, so that leap days fall last.
pub open spec fn days_from_civil(year: int, month: int, day: int) -> int {
    let y = if month <= 2 {
        year - 1
    } else {
        year
    };
    let m = if month > 2 {
        month - 3
    } else {
        month + 9
    };
    365 * y + y / 4 - y / 100 + y / 400 + (153 * m + 2) / 5 + day - 1 - 719468
}

/// The seconds since the Unix epoch of the fields read as a UTC date and time.
pub open spec fn utc_seconds(b: BootTime) -> int {
    days_from_civil(b.year as int, b.month as int, b.day as int) * 86400 + b.hour * 3600 + b.minute
        * 60 + b.second
}

/// Seconds from `boot` to `now`; none where the boot lies in the future.
pub open spec fn elapsed_between(boot: int, now: int) -> nat {
    if now >= boot {
        (now - boot) as nat
    } else {
        0
    }
}

/// The uptime line of the report: "D day(s) H hour(s) M minute(s)".
pub open spec fn uptime_text(d: nat, h: nat, m: nat) -> Seq<char> {
    decimal(d) + " day(s) "@ + decimal(h) + " hour(s) "@ + decimal(m) + " minute(s)"@
}

/// Relies on chrono's `TimeZone::with_ymd_and_hms` for `Local`, its
/// `MappedLocalTime::earliest` and `DateTime::timestamp`: the seconds since
/// the Unix epoch of a local date and time, or `None` where the fields are no
/// date and time of the calendar (`NaiveDate::from_ymd_opt`,
/// `NaiveTime::from_hms_opt`) or the local time does not exist. The local
/// time less its offset is the result, and an offset (`FixedOffset::east_opt`)
/// lies strictly within a day.
#[verifier::external_body]
fn local_timestamp(b: &BootTime) -> (r: Option<i64>)
    requires
        b.year <= MAX_CALENDAR_YEAR,
    ensures
        !calendar_date_time(*b) ==> r is None,
        r matches Some(t) ==> utc_seconds(*b) - 86400 < t < utc_seconds(*b) + 86400,
{
    let t = chrono::Local.with_ymd_and_hms(b.year as i32, b.month, b.day, b.hour, b.minute, b.second);
    match t.earliest() {
        Some(t) => Some(t.timestamp()),
        None => None,
    }
}

fn number_at_exec(s: &Vec<char>, a: usize, b: usize) -> (r: Option<u64>)
    requires
        a <= b <= s.len(),
    ensures
        match r {
            Some(n) => number_at(s@, a as int, b as int) == Some(n as nat),
            None => number_at(s@, a as int, b as int) is None,
        },
{
    let mut part: Vec<char> = Vec::new();
    let mut i: usize = a;
    while i < b
        invariant
            a <= i <= b <= s.len(),
            part@ == s@.subrange(a as int, i as int),
        decreases b - i,
    {
        part.push(s[i]);
        i = i + 1;
        assert(part@ =~= s@.subrange(a as int, i as int));
    }
    parse_decimal(&part)
}

impl BootTime {
    /// Reads the timestamp at the start of `s`, written `YYYYMMDDHHMMSS`.
    pub fn parse(s: &str) -> (r: Option<BootTime>)
        ensures
            r == boot_time_spec(s@),
    {
        let cs = chars_of(s);
        if cs.len() < 14 {
            return None;
        }
        let y = number_at_exec(&cs, 0, 4);
        let mo = number_at_exec(&cs, 4, 6);
        let d = number_at_exec(&cs, 6, 8);
        let h = number_at_exec(&cs, 8, 10);
        let mi = number_at_exec(&cs, 10, 12);
        let se = number_at_exec(&cs, 12, 14);
        match (y, mo, d, h, mi, se) {
            (Some(y), Some(mo), Some(d), Some(h), Some(mi), Some(se)) => {
                if 1 <= mo && mo <= 12 {
                    Some(
                        BootTime {
                            year: y as u32,
                            month: mo as u32,
                            day: d as u32,
                            hour: h as u32,
                            minute: mi as u32,
                            second: se as u32,
                        },
                    )
                } else {
                    None
                }
            },
            _ => None,
        }
    }
}

impl SystemUptime {
    pub closed spec fn view_parts(&self) -> (nat, nat, nat) {
        (self.Days as nat, self.Hours as nat, self.Minutes as nat)
    }

    /// The uptime after `seconds` seconds.
    pub fn FromElapsed(seconds: u64) -> (u: SystemUptime)
        ensures
            u.view_parts() == uptime_of(seconds as nat),
    {
        SystemUptime {
            Days: seconds / SECONDS_PER_DAY,
            Hours: (seconds % SECONDS_PER_DAY) / SECONDS_PER_HOUR,
            Minutes: (seconds % SECONDS_PER_HOUR) / SECONDS_PER_MINUTE,
        }
    }

    /// The uptime from a boot at `boot` to `now`, both in seconds since the
    /// Unix epoch; a boot in the future counts as no time at all.
    pub fn FromTimestamps(boot: i64, now: i64) -> (u: SystemUptime)
        ensures
            u.view_parts() == uptime_of(elapsed_between(boot as int, now as int)),
    {
        let diff: i128 = (now as i128) - (boot as i128);
        let elapsed: u64 = if diff >= 0 {
            diff as u64
        } else {
            0
        };
        SystemUptime::FromElapsed(elapsed)
    }

    /// The uptime from the last boot time of the first operating-system
    /// record, read as local time, to `now` (seconds since the Unix epoch).
    /// A missing or mistyped field, a malformed timestamp and a date that does
    /// not exist are errors; what succeeds is the time from some boot instant
    /// to `now`, decomposed.
    pub fn GetSystemUptime(record: &Record, now: i64) -> (r: WinfetchResult<SystemUptime>)
        ensures
            text_spec(record.fields@, "LastBootUpTime"@) matches Err(k) ==> r is Err && r->Err_0.0
                == k,
            text_spec(record.fields@, "LastBootUpTime"@) matches Ok(s) ==> (
            boot_time_spec(s) is None ==> r is Err && r->Err_0.0 == ErrorKind::Parse),
            text_spec(record.fields@, "LastBootUpTime"@) matches Ok(s) ==> (boot_time_spec(
                s,
            ) matches Some(b) ==> (!calendar_date_time(b) ==> r is Err && r->Err_0.0
                == ErrorKind::Parse)),
            r is Err ==> r->Err_0.0 == ErrorKind::Parse || text_spec(record.fields@, "LastBootUpTime"@)
                == Err::<Seq<char>, ErrorKind>(r->Err_0.0),
            r matches Ok(u) ==> (text_spec(record.fields@, "LastBootUpTime"@) matches Ok(s) && (
            boot_time_spec(s) matches Some(b) && calendar_date_time(b) && exists|t: i64|
                utc_seconds(b) - 86400 < t < utc_seconds(b) + 86400 && u.view_parts() == uptime_of(
                elapsed_between(t as int, now as int),
            ))),
    {
        let text = record.GetText("LastBootUpTime")?;
        let boot = match BootTime::parse(text.as_str()) {
            Some(b) => b,
            None => {
                return Err(WinfetchError::new(ErrorKind::Parse, "the last boot time is not a timestamp of a valid month"));
            },
        };
        if boot.year > MAX_CALENDAR_YEAR {
            return Err(WinfetchError::new(ErrorKind::Parse, "the last boot time lies beyond the calendar"));
        }
        match local_timestamp(&boot) {
            Some(t) => {
                let u = SystemUptime::FromTimestamps(t, now);
                Ok(u)
            },
            None => Err(WinfetchError::new(ErrorKind::Parse, "the last boot time is no valid local time")),
        }
    }

    pub fn Days(&self) -> (n: u64)
        ensures
            n as nat == self.view_parts().0,
    {
        self.Days
    }

    pub fn Hours(&self) -> (n: u64)
        ensures
            n as nat == self.view_parts().1,
    {
        self.Hours
    }

    pub fn Minutes(&self) -> (n: u64)
        ensures
            n as nat == self.view_parts().2,
    {
        self.Minutes
    }

    /// The uptime line of the report.
    pub fn to_text(&self) -> (r: String)
        ensures
            r@ == uptime_text(self.view_parts().0, self.view_parts().1, self.view_parts().2),
    {
        let mut out: Vec<char> = Vec::new();
        push_decimal(&mut out, self.Days);
        push_str(&mut out, " day(s) ");
        push_decimal(&mut out, self.Hours);
        push_str(&mut out, " hour(s) ");
        push_decimal(&mut out, self.Minutes);
        push_str(&mut out, " minute(s)");
        assert(out@ =~= uptime_text(self.view_parts().0, self.view_parts().1, self.view_parts().2));
        string_from_chars(&out)
    }
}

} // verus!
