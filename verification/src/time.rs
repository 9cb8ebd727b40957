//! Times in China Standard Time (UTC+8), which every stored record uses.
use vstd::prelude::*;
use chrono::Datelike;
use chrono::FixedOffset;
use chrono::Timelike;
use crate::text::{push_decimal_pad2, push_signed_decimal, string_push, signed_decimal, decimal, decimal_pad2};

verus! {

/// One reading of the clock, in the plain values the recorder uses: the
/// instant in milliseconds since the Unix epoch, its RFC 3339 text, and its
/// calendar date and time of day, all at the offset the clock was read at,
/// which is kept in seconds east of UTC.
pub struct ClockReading {
    pub utc_offset_secs: i32,
    pub timestamp_millis: i64,
    pub rfc3339: String,
    pub year: i32,
    pub month: u32,
    pub day: u32,
    pub hour: u32,
    pub minute: u32,
    pub second: u32,
    pub nanosecond: u32,
}

/// How RFC 3339 text ends for an offset of `off` seconds east of UTC: the
/// sign, then hours and minutes (seconds rounded to the nearest minute),
/// each two digits, separated by a colon.
pub open spec fn rfc3339_offset_text(off: int) -> Seq<char> {
    let a = if off < 0 { -off } else { off };
    let minutes = (a + 30) / 60;
    seq![if off < 0 { '-' } else { '+' }] + decimal_pad2((minutes / 60) as nat) + seq![':']
        + decimal_pad2((minutes % 60) as nat)
}

/// `s` with zeros put in front until it is at least `width` long.
pub open spec fn pad_zeros(s: Seq<char>, width: nat) -> Seq<char>
    decreases (if s.len() >= width { 0 } else { width - s.len() }),
{
    if s.len() >= width {
        s
    } else {
        pad_zeros(seq!['0'] + s, width)
    }
}

/// The year as RFC 3339 text writes it: four digits for a year in 0..=9999,
/// otherwise a sign and at least four digits (`{:+05}`).
pub open spec fn rfc3339_year_text(year: int) -> Seq<char> {
    if 0 <= year <= 9999 {
        decimal_pad2((year / 100) as nat) + decimal_pad2((year % 100) as nat)
    } else {
        seq![if year < 0 { '-' } else { '+' }] + pad_zeros(decimal((if year < 0 { -year } else { year }) as nat), 4)
    }
}

/// The fraction of a second as RFC 3339 text writes it: nothing for a whole
/// second, otherwise a point and 3, 6 or 9 digits, the fewest that show it
/// exactly.
pub open spec fn rfc3339_fraction_text(nanos: nat) -> Seq<char> {
    if nanos == 0 {
        Seq::empty()
    } else if nanos % 1_000_000 == 0 {
        seq!['.'] + pad_zeros(decimal(nanos / 1_000_000), 3)
    } else if nanos % 1_000 == 0 {
        seq!['.'] + pad_zeros(decimal(nanos / 1_000), 6)
    } else {
        seq!['.'] + pad_zeros(decimal(nanos), 9)
    }
}

/// The RFC 3339 text of a local date and time at an offset: year, `-`,
/// month, `-`, day, `T`, hour, `:`, minute, `:`, second (two digits each;
/// a leap second's extra nanoseconds count as one more second), the fraction
/// of a second, and the offset.
pub open spec fn rfc3339_text(
    year: int,
    month: nat,
    day: nat,
    hour: nat,
    minute: nat,
    second: nat,
    nanos: nat,
    off: int,
) -> Seq<char> {
    let sec = if nanos >= 1_000_000_000 { second + 1 } else { second };
    let frac = if nanos >= 1_000_000_000 { (nanos - 1_000_000_000) as nat } else { nanos };
    rfc3339_year_text(year) + seq!['-'] + decimal_pad2(month) + seq!['-'] + decimal_pad2(day) + seq!['T']
        + decimal_pad2(hour) + seq![':'] + decimal_pad2(minute) + seq![':'] + decimal_pad2(sec)
        + rfc3339_fraction_text(frac) + rfc3339_offset_text(off)
}

/// The time of day a reading names is that of its instant moved by its
/// offset: hours, minutes, seconds and whole milliseconds since local
/// midnight.
pub open spec fn time_of_instant(
    timestamp_millis: int,
    offset_secs: int,
    hour: int,
    minute: int,
    second: int,
    nanos: int,
) -> bool {
    &&& 0 <= hour < 24
    &&& 0 <= minute < 60
    &&& 0 <= second < 60
    &&& 0 <= nanos < 1_000_000_000
    &&& (timestamp_millis + offset_secs * 1000) % 86_400_000 == hour * 3_600_000 + minute * 60_000 + second
        * 1000 + nanos / 1_000_000
}

/// Whether `year` is a leap year of the Gregorian calendar.
pub open spec fn is_leap_year(year: int) -> bool {
    year % 4 == 0 && (year % 100 != 0 || year % 400 == 0)
}

/// The number of days in a month of the Gregorian calendar.
pub open spec fn days_in_month(year: int, month: int) -> int {
    if month == 2 {
        if is_leap_year(year) { 29 } else { 28 }
    } else if month == 4 || month == 6 || month == 9 || month == 11 {
        30
    } else {
        31
    }
}

/// A date of the (proleptic) Gregorian calendar.
pub open spec fn is_valid_date(year: int, month: int, day: int) -> bool {
    1 <= month <= 12 && 1 <= day <= days_in_month(year, month)
}

/// The number of days from 1970-01-01 to a date of the Gregorian calendar
/// (negative before it), counted in 400-year eras of 146097 days.
pub open spec fn days_from_civil(year: int, month: int, day: int) -> int {
    let y = if month <= 2 { year - 1 } else { year };
    let era = y / 400;
    let yoe = y - era * 400;
    let mp = if month > 2 { month - 3 } else { month + 9 };
    let doy = (153 * mp + 2) / 5 + day - 1;
    let doe = yoe * 365 + yoe / 4 - yoe / 100 + doy;
    era * 146097 + doe - 719468
}

/// The date a reading names is the calendar date of its instant moved by its
/// offset: the day number of the date is the number of whole days from the
/// epoch to `timestamp_millis + offset`.
pub open spec fn date_of_instant(timestamp_millis: int, offset_secs: int, year: int, month: int, day: int) -> bool {
    &&& is_valid_date(year, month, day)
    &&& days_from_civil(year, month, day) == (timestamp_millis + offset_secs * 1000) / 86_400_000
}

/// Reads the clock at `offset_secs` seconds east of UTC.
///
/// Trusted: builds the offset with `chrono::FixedOffset::east_opt` (whose
/// source accepts exactly the offsets strictly within one day, which the
/// `requires` asks for), reads the system clock with
/// `std::time::SystemTime::now`, turns it into a chrono time with
/// `DateTime::<Utc>::from` (which handles times before 1970; its `unwrap` fails
/// only for a clock about 262,000 years away from 1970, outside chrono's
/// range), moves it to the offset with `DateTime::with_timezone`, and reads
/// it out with `offset().local_minus_utc()`, `timestamp_millis`, `to_rfc3339`,
/// `year`, `month` and `day`.
///
/// The reading depends on the clock; what is claimed holds of every reading:
/// the offset read back is the one asked for; the date is a valid Gregorian
/// date, and date and time of day (`year`, `month`, `day`, `hour`, `minute`,
/// `second`, `nanosecond`, all read from the same local time) are those of
/// the instant moved by the offset (chrono adds the offset to the UTC date
/// and time, and `timestamp_millis` counts the milliseconds of that UTC
/// instant since 1970; a time taken from `SystemTime` never falls in a leap
/// second, so the nanoseconds stay below one second); and the RFC 3339 text
/// is what chrono's `write_rfc3339` writes for that local time and offset
/// with `SecondsFormat::AutoSi` and no `Z` (`rfc3339_text`).
#[verifier::external_body]
fn read_clock(offset_secs: i32) -> (res: ClockReading)
    requires
        -86_400 < offset_secs < 86_400,
    ensures
        res.utc_offset_secs == offset_secs,
        date_of_instant(res.timestamp_millis as int, offset_secs as int, res.year as int, res.month as int, res.day as int),
        time_of_instant(res.timestamp_millis as int, offset_secs as int, res.hour as int, res.minute as int, res.second as int, res.nanosecond as int),
        res.rfc3339@ == rfc3339_text(res.year as int, res.month as nat, res.day as nat, res.hour as nat, res.minute as nat, res.second as nat, res.nanosecond as nat, offset_secs as int),
{
    let offset = FixedOffset::east_opt(offset_secs).unwrap();
    let dt = chrono::DateTime::<chrono::Utc>::from(std::time::SystemTime::now()).with_timezone(&offset);
    ClockReading {
        utc_offset_secs: dt.offset().local_minus_utc(),
        timestamp_millis: dt.timestamp_millis(),
        rfc3339: dt.to_rfc3339(),
        year: dt.year(),
        month: dt.month(),
        day: dt.day(),
        hour: dt.hour(),
        minute: dt.minute(),
        second: dt.second(),
        nanosecond: dt.nanosecond(),
    }
}

/// The current time in China Standard Time: eight hours east of UTC.
pub fn now_shanghai() -> (res: ClockReading)
    ensures
        res.utc_offset_secs == 8 * 3600,
        1 <= res.month <= 12,
        1 <= res.day <= 31,
        date_of_instant(res.timestamp_millis as int, 28800int, res.year as int, res.month as int, res.day as int),
        time_of_instant(res.timestamp_millis as int, 28800int, res.hour as int, res.minute as int, res.second as int, res.nanosecond as int),
        res.rfc3339@ == rfc3339_text(res.year as int, res.month as nat, res.day as nat, res.hour as nat, res.minute as nat, res.second as nat, res.nanosecond as nat, 28800int),
{
    let r = read_clock(8 * 3600);
    assert(days_in_month(r.year as int, r.month as int) <= 31);
    r
}

} // verus!

verus! {

/// A date as the `YYYY/MM/DD` path the recorder files things under: the year
/// in decimal, then month and day zero padded to two digits.
pub open spec fn date_path_spec(year: int, month: nat, day: nat) -> Seq<char> {
    signed_decimal(year) + seq!['/'] + decimal_pad2(month) + seq!['/'] + decimal_pad2(day)
}

/// Formats a date as `YYYY/MM/DD`.
pub fn date_path(year: i32, month: u32, day: u32) -> (res: String)
    ensures
        res@ == date_path_spec(year as int, month as nat, day as nat),
{
    let mut s = String::new();
    push_signed_decimal(&mut s, year as i64);
    string_push(&mut s, '/');
    push_decimal_pad2(&mut s, month as u64);
    string_push(&mut s, '/');
    push_decimal_pad2(&mut s, day as u64);
    assert(s@ =~= date_path_spec(year as int, month as nat, day as nat));
    s
}

/// Milliseconds since the Unix epoch, now. The value is whatever the clock
/// reads, and nothing is claimed of it beyond what holds of every instant:
/// moved to UTC+8, its day number names a valid calendar date.
pub fn now_timestamp_millis() -> (res: i64)
    ensures
        exists|year: i32, month: u32, day: u32|
            #[trigger] date_of_instant(res as int, 28800int, year as int, month as int, day as int),
{
    let now = now_shanghai();
    assert(date_of_instant(now.timestamp_millis as int, 28800int, now.year as int, now.month as int, now.day as int));
    now.timestamp_millis
}

/// The current time as RFC 3339 text in China Standard Time: the text, at
/// `+08:00`, of the date and time of day that the instant the clock read
/// has eight hours east of UTC (so, by
/// [`lemma_china_time_is_utc_plus_eight`], eight hours ahead of UTC's).
pub fn now_iso8601() -> (res: String)
    ensures
        exists|ms: i64, year: i32, month: u32, day: u32, hour: u32, minute: u32, second: u32, nanos: u32|
            #![trigger date_of_instant(ms as int, 28800int, year as int, month as int, day as int), time_of_instant(ms as int, 28800int, hour as int, minute as int, second as int, nanos as int)]
            date_of_instant(ms as int, 28800int, year as int, month as int, day as int)
                && time_of_instant(ms as int, 28800int, hour as int, minute as int, second as int, nanos as int)
                && res@ == rfc3339_text(
                year as int,
                month as nat,
                day as nat,
                hour as nat,
                minute as nat,
                second as nat,
                nanos as nat,
                28800int,
            ),
        exists|year: i32, month: u32, day: u32, hour: u32, minute: u32, second: u32, nanos: u32|
            is_valid_date(year as int, month as int, day as int) && hour < 24 && minute < 60 && second < 60
                && nanos < 1_000_000_000 && res@ == #[trigger] rfc3339_text(
                year as int,
                month as nat,
                day as nat,
                hour as nat,
                minute as nat,
                second as nat,
                nanos as nat,
                28800int,
            ),
{
    let now = now_shanghai();
    assert(date_of_instant(now.timestamp_millis as int, 28800int, now.year as int, now.month as int, now.day as int));
    assert(time_of_instant(now.timestamp_millis as int, 28800int, now.hour as int, now.minute as int, now.second as int, now.nanosecond as int));
    assert(rfc3339_text(
        now.year as int,
        now.month as nat,
        now.day as nat,
        now.hour as nat,
        now.minute as nat,
        now.second as nat,
        now.nanosecond as nat,
        28800int,
    ) == now.rfc3339@);
    now.rfc3339
}

/// China Standard Time is UTC moved eight hours ahead: for one instant, the
/// time of day at `+08:00` has the minutes, seconds and milliseconds of the
/// UTC time of day and the hour eight later (modulo 24), and its date is the
/// UTC date, or the next day from 16:00 UTC on.
pub proof fn lemma_china_time_is_utc_plus_eight(
    ms: int,
    cst_year: int,
    cst_month: int,
    cst_day: int,
    cst_hour: int,
    cst_minute: int,
    cst_second: int,
    cst_nanos: int,
    utc_year: int,
    utc_month: int,
    utc_day: int,
    utc_hour: int,
    utc_minute: int,
    utc_second: int,
    utc_nanos: int,
)
    requires
        date_of_instant(ms, 28800, cst_year, cst_month, cst_day),
        time_of_instant(ms, 28800, cst_hour, cst_minute, cst_second, cst_nanos),
        date_of_instant(ms, 0, utc_year, utc_month, utc_day),
        time_of_instant(ms, 0, utc_hour, utc_minute, utc_second, utc_nanos),
    ensures
        cst_hour == (utc_hour + 8) % 24,
        cst_minute == utc_minute,
        cst_second == utc_second,
        cst_nanos / 1_000_000 == utc_nanos / 1_000_000,
        days_from_civil(cst_year, cst_month, cst_day) == days_from_civil(utc_year, utc_month, utc_day) + (if utc_hour
            >= 16 { 1int } else { 0int }),
{
    let d: int = 86_400_000;
    let shifted = ms + 28800 * 1000;
    vstd::arithmetic::div_mod::lemma_fundamental_div_mod(ms, d);
    vstd::arithmetic::div_mod::lemma_fundamental_div_mod(shifted, d);
    assert(ms + 0 * 1000 == ms);
    let q0 = ms / d;
    let r0 = ms % d;
    let q8 = shifted / d;
    let r8 = shifted % d;
    assert(0 <= r0 < d);
    assert(0 <= r8 < d);
    let cst_ms = cst_nanos / 1_000_000;
    let utc_ms = utc_nanos / 1_000_000;
    assert(0 <= cst_ms < 1000);
    assert(0 <= utc_ms < 1000);
    assert(r8 == cst_hour * 3_600_000 + cst_minute * 60_000 + cst_second * 1000 + cst_ms);
    assert(r0 == utc_hour * 3_600_000 + utc_minute * 60_000 + utc_second * 1000 + utc_ms);
    if utc_hour < 16 {
        assert(r0 + 28_800_000 < d);
        assert(q8 == q0 && r8 == r0 + 28_800_000) by {
            vstd::arithmetic::div_mod::lemma_fundamental_div_mod_converse(shifted, d, q0, r0 + 28_800_000);
        }
        assert(cst_hour == utc_hour + 8);
    } else {
        assert(r0 + 28_800_000 >= d);
        assert(q8 == q0 + 1 && r8 == r0 + 28_800_000 - d) by {
            vstd::arithmetic::div_mod::lemma_fundamental_div_mod_converse(shifted, d, q0 + 1, r0 + 28_800_000 - d);
        }
        assert(cst_hour == utc_hour - 16);
    }
}

/// Today's date in China Standard Time as `YYYY/MM/DD`: whatever the clock
/// reads, the path is that of a valid date.
pub fn now_date_path() -> (res: String)
    ensures
        exists|year: i32, month: u32, day: u32|
            is_valid_date(year as int, month as int, day as int) && res@ == #[trigger] date_path_spec(
                year as int,
                month as nat,
                day as nat,
            ),
{
    let now = now_shanghai();
    let res = date_path(now.year, now.month, now.day);
    assert(date_path_spec(now.year as int, now.month as nat, now.day as nat) == res@);
    res
}

} // verus!

