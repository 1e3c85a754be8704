//! Instants, calendar days and times of day as plain numbers.
//!
//! An instant is a number of seconds since 1970-01-01T00:00:00Z and a number of nanoseconds
//! in that second. A leap second is written as the second before it with a thousand million
//! nanoseconds more. A day is numbered from the day before 0001-01-01.
use crate::json::{json_text, JsonItem, JsonKey, JsonTree, ToJson};
use crate::ordered::{Key, Rank};
use vstd::prelude::*;

verus! {

/// The first and the last day of the calendar.
pub const FIRST_DAY: i32 = -95_746_129;

pub const LAST_DAY: i32 = 95_745_399;

/// The day 1970-01-01.
pub const EPOCH_DAY: i32 = 719_163;

pub const DAY_SECONDS: i64 = 86_400;

/// The first and the last second of the calendar.
pub const FIRST_SECOND: i64 = -8_334_601_228_800;

pub const LAST_SECOND: i64 = 8_210_266_876_799;

/// How far, in seconds, New York ever lay behind UTC.
pub const NEW_YORK_LAG: i64 = 17_762;

/// An instant of the calendar. From a whole second of nanoseconds on it stands in the leap
/// second that follows.
pub open spec fn is_instant(secs: int, nanos: int) -> bool {
    &&& FIRST_SECOND <= secs <= LAST_SECOND
    &&& 0 <= nanos < 2_000_000_000
}

pub open spec fn is_clock_time(secs: int, nanos: int) -> bool {
    &&& 0 <= secs < 86_400
    &&& 0 <= nanos < 2_000_000_000
}

/// The RFC 3339 text of an instant, as `chrono` writes it: in UTC with `Z`, and with three,
/// six or nine digits of the second where it is not whole.
pub uninterp spec fn rfc3339_text(secs: int, nanos: int) -> Seq<char>;

/// The text of an instant for people, as `chrono` writes it.
pub uninterp spec fn display_text(secs: int, nanos: int) -> Seq<char>;

/// The text of a calendar day, as `chrono` writes it.
pub uninterp spec fn day_text(day: int) -> Seq<char>;

/// The calendar day that `chrono` reads from a text in the form `%Y-%m-%d`.
pub uninterp spec fn day_read(text: Seq<char>) -> Option<int>;

/// The seconds and nanoseconds of a time of day that `chrono` reads from a text in a form.
pub uninterp spec fn clock_read(text: Seq<char>, form: Seq<char>) -> Option<(int, int)>;

/// The calendar day in New York at an instant.
pub uninterp spec fn new_york_day(secs: int, nanos: int) -> int;

/// The instant of a time of day in New York on a calendar day, where there is exactly one.
pub uninterp spec fn new_york_instant(day: int, secs: int, nanos: int) -> Option<(int, int)>;

/// The quotient rounded towards zero.
pub open spec fn truncated(x: int, by: int) -> int {
    if x >= 0 {
        x / by
    } else {
        -((-x) / by)
    }
}

/// An instant.
#[derive(Clone, Copy, Debug, PartialEq, Eq, PartialOrd, Ord, Hash, Structural)]
pub struct UtcTime {
    secs: i64,
    nanos: u32,
}

/// The first instant is earlier than the second.
pub open spec fn earlier(a: UtcTime, b: UtcTime) -> bool {
    a.secs() < b.secs() || (a.secs() == b.secs() && a.nanos() < b.nanos())
}

/// An instant is its seconds and nanoseconds.
pub proof fn instants_are_their_parts(a: UtcTime, b: UtcTime)
    ensures
        a.secs() == b.secs() && a.nanos() == b.nanos() ==> a == b,
{
}

/// The nanoseconds from `from` to `to`. A leap second counts where one of the two instants
/// stands in it.
pub open spec fn elapsed_nanos(from: UtcTime, to: UtcTime) -> int {
    let leap: int = if to.secs() % 86_400 > from.secs() % 86_400 && from.nanos() >= 1_000_000_000 {
        1
    } else if to.secs() % 86_400 < from.secs() % 86_400 && to.nanos() >= 1_000_000_000 {
        -1
    } else {
        0
    };
    (to.secs() - from.secs() + leap) * 1_000_000_000 + (to.nanos() - from.nanos())
}

impl UtcTime {
    #[verifier::type_invariant]
    closed spec fn in_calendar(self) -> bool {
        is_instant(self.secs as int, self.nanos as int)
    }

    /// The seconds since 1970-01-01T00:00:00Z.
    pub closed spec fn secs(self) -> int {
        self.secs as int
    }

    /// The nanoseconds in the second.
    pub closed spec fn nanos(self) -> int {
        self.nanos as int
    }

    /// The calendar day of the instant in UTC.
    pub open spec fn day(self) -> int {
        self.secs() / 86_400 + EPOCH_DAY
    }

    pub fn from_timestamp(secs: i64, nanos: u32) -> (r: Option<UtcTime>)
        ensures
            r is Some <==> is_instant(secs as int, nanos as int),
            r matches Some(t) ==> t.secs() == secs && t.nanos() == nanos,
    {
        if secs < FIRST_SECOND || secs > LAST_SECOND || nanos >= 2_000_000_000 {
            None
        } else {
            Some(UtcTime { secs, nanos })
        }
    }

    pub fn timestamp(&self) -> (r: i64)
        ensures
            r == self.secs(),
            FIRST_SECOND <= r <= LAST_SECOND,
    {
        proof {
            use_type_invariant(self);
        }
        self.secs
    }

    pub fn subsec_nanos(&self) -> (r: u32)
        ensures
            r == self.nanos(),
            is_instant(self.secs(), self.nanos()),
    {
        proof {
            use_type_invariant(self);
        }
        self.nanos
    }

    pub fn is_before(&self, other: &UtcTime) -> (r: bool)
        ensures
            r == earlier(*self, *other),
    {
        self.secs < other.secs || (self.secs == other.secs && self.nanos < other.nanos)
    }

    /// The nanoseconds since an instant.
    fn nanos_since(&self, from: &UtcTime) -> (r: i128)
        ensures
            r == elapsed_nanos(*from, *self),
            -17_000_000_000_000_000_000_000 <= r <= 17_000_000_000_000_000_000_000,
    {
        proof {
            use_type_invariant(self);
            use_type_invariant(from);
        }
        let a: i64 = (self.secs - FIRST_SECOND) % 86_400;
        let b: i64 = (from.secs - FIRST_SECOND) % 86_400;
        proof {
            assert(a == self.secs % 86_400);
            assert(b == from.secs % 86_400);
        }
        let leap: i128 = if a > b && from.nanos >= 1_000_000_000 {
            1
        } else if a < b && self.nanos >= 1_000_000_000 {
            -1
        } else {
            0
        };
        ((self.secs - from.secs) as i128 + leap) * 1_000_000_000 + (self.nanos as i128
            - from.nanos as i128)
    }

    /// The whole milliseconds since an instant.
    pub fn millis_since(&self, from: &UtcTime) -> (r: i64)
        ensures
            r == truncated(elapsed_nanos(*from, *self), 1_000_000),
    {
        let n: i128 = self.nanos_since(from);
        if n >= 0 {
            let q: i128 = n / 1_000_000;
            q as i64
        } else {
            let q: i128 = (-n) / 1_000_000;
            -(q as i64)
        }
    }

    /// The whole seconds since an instant.
    pub fn seconds_since(&self, from: &UtcTime) -> (r: i64)
        ensures
            r == truncated(elapsed_nanos(*from, *self), 1_000_000_000),
    {
        let n: i128 = self.nanos_since(from);
        if n >= 0 {
            let q: i128 = n / 1_000_000_000;
            q as i64
        } else {
            let q: i128 = (-n) / 1_000_000_000;
            -(q as i64)
        }
    }

    /// More than so many days lie behind an instant.
    pub open spec fn is_days_past(&self, from: UtcTime, days: int) -> bool {
        elapsed_nanos(from, *self) > days * 86_400_000_000_000
    }

    /// Whether more than the given number of days has passed since an instant.
    pub fn is_more_than_days_after(&self, from: &UtcTime, days: u32) -> (r: bool)
        ensures
            r == self.is_days_past(*from, days as int),
    {
        self.nanos_since(from) > (days as i128) * 86_400_000_000_000
    }

    /// The instant a positive number of days later. A leap second is left on the way.
    pub fn plus_days(&self, days: u32) -> (r: UtcTime)
        requires
            days > 0,
            self.secs() + days * 86_400 <= LAST_SECOND,
        ensures
            r.secs() == self.secs() + days * 86_400,
            r.nanos() == self.nanos() % 1_000_000_000,
    {
        proof {
            use_type_invariant(self);
        }
        let nanos: u32 = if self.nanos >= 1_000_000_000 {
            self.nanos - 1_000_000_000
        } else {
            self.nanos
        };
        UtcTime { secs: self.secs + (days as i64) * DAY_SECONDS, nanos }
    }

    /// The calendar day in UTC.
    pub fn date(&self) -> (r: CalendarDay)
        ensures
            r.day() == self.day(),
    {
        proof {
            use_type_invariant(self);
        }
        let whole: i64 = (self.secs - FIRST_SECOND) / DAY_SECONDS;
        proof {
            assert(FIRST_SECOND == (FIRST_DAY - EPOCH_DAY) * 86_400);
            assert(self.secs / 86_400 == whole + (FIRST_DAY - EPOCH_DAY));
        }
        CalendarDay { day: (whole + FIRST_DAY as i64) as i32 }
    }

    /// The instant as people read it.
    pub fn text(&self) -> (r: String)
        ensures
            r@ == display_text(self.secs(), self.nanos()),
    {
        proof {
            use_type_invariant(self);
        }
        write_display(self.secs, self.nanos)
    }

    pub fn rfc3339(&self) -> (r: String)
        ensures
            r@ == rfc3339_text(self.secs(), self.nanos()),
    {
        proof {
            use_type_invariant(self);
        }
        write_rfc3339(self.secs, self.nanos)
    }
}

/// `chrono::DateTime` in UTC, written in its own form. The result is named.
#[verifier::external_body]
fn write_display(secs: i64, nanos: u32) -> (r: String)
    requires
        is_instant(secs as int, nanos as int),
    ensures
        r@ == display_text(secs as int, nanos as int),
{
    let second = chrono::DateTime::from_timestamp(secs, 0).unwrap().naive_utc();
    chrono::Timelike::with_nanosecond(&second, nanos).unwrap().and_utc().to_string()
}

/// `chrono::DateTime::to_rfc3339_opts`, in UTC, with the digits of the second that are needed
/// and with `Z`, which is also the text of an instant in JSON. The result is named.
#[verifier::external_body]
fn write_rfc3339(secs: i64, nanos: u32) -> (r: String)
    requires
        is_instant(secs as int, nanos as int),
    ensures
        r@ == rfc3339_text(secs as int, nanos as int),
{
    let second = chrono::DateTime::from_timestamp(secs, 0).unwrap().naive_utc();
    chrono::Timelike::with_nanosecond(&second, nanos).unwrap().and_utc().to_rfc3339_opts(
        chrono::SecondsFormat::AutoSi,
        true,
    )
}

impl ToJson for UtcTime {
    open spec fn json(&self) -> JsonTree {
        JsonTree::Text(rfc3339_text(self.secs(), self.nanos()))
    }

    fn to_json(&self) -> (r: serde_json::Value) {
        json_text(self.rfc3339().as_str())
    }
}

/// A calendar day.
#[derive(Clone, Copy, Debug, PartialEq, Eq, PartialOrd, Ord, Hash, Structural)]
pub struct CalendarDay {
    day: i32,
}

impl CalendarDay {
    #[verifier::type_invariant]
    closed spec fn in_calendar(self) -> bool {
        FIRST_DAY <= self.day <= LAST_DAY
    }

    /// The number of the day.
    pub closed spec fn day(self) -> int {
        self.day as int
    }

    /// The day with a number.
    pub fn from_number(day: i32) -> (r: Option<CalendarDay>)
        ensures
            r is Some <==> FIRST_DAY <= day <= LAST_DAY,
            r matches Some(d) ==> d.day() == day,
    {
        if day < FIRST_DAY || day > LAST_DAY {
            None
        } else {
            Some(CalendarDay { day })
        }
    }

    pub fn number(&self) -> (r: i32)
        ensures
            r == self.day(),
            FIRST_DAY <= r <= LAST_DAY,
    {
        proof {
            use_type_invariant(self);
        }
        self.day
    }

    pub fn is_before(&self, other: &CalendarDay) -> (r: bool)
        ensures
            r == (self.day() < other.day()),
    {
        self.day < other.day
    }

    /// The day a number of days later, where the calendar has it.
    pub fn plus(&self, days: i32) -> (r: Option<CalendarDay>)
        ensures
            r is Some <==> FIRST_DAY <= self.day() + days <= LAST_DAY,
            r matches Some(d) ==> d.day() == self.day() + days,
            FIRST_DAY <= self.day() <= LAST_DAY,
    {
        proof {
            use_type_invariant(self);
        }
        let sum: i64 = self.day as i64 + days as i64;
        if sum < FIRST_DAY as i64 || sum > LAST_DAY as i64 {
            None
        } else {
            Some(CalendarDay { day: sum as i32 })
        }
    }

    pub fn text(&self) -> (r: String)
        ensures
            r@ == day_text(self.day()),
            !r@.contains(':'),
    {
        proof {
            use_type_invariant(self);
        }
        write_day(self.day)
    }

    /// The day that a text in the form `%Y-%m-%d` names.
    pub fn parse(text: &str) -> (r: Option<CalendarDay>)
        ensures
            r is Some <==> day_read(text@) is Some,
            r matches Some(d) ==> d.day() == day_read(text@)->0,
    {
        match read_day(text) {
            Some(day) => {
                Some(CalendarDay { day })
            },
            None => None,
        }
    }
}

/// `chrono::NaiveDate`, written in its own form, which is also that of a day in JSON and that
/// of the format `%Y-%m-%d`. The result is named; it is made of digits and signs and holds no
/// colon.
#[verifier::external_body]
fn write_day(day: i32) -> (r: String)
    requires
        FIRST_DAY <= day <= LAST_DAY,
    ensures
        r@ == day_text(day as int),
        !r@.contains(':'),
{
    chrono::NaiveDate::from_num_days_from_ce_opt(day).unwrap().format("%Y-%m-%d").to_string()
}

/// `chrono::NaiveDate::parse_from_str` with the format `%Y-%m-%d`. The result is named; a day
/// that was read is a day of the calendar.
#[verifier::external_body]
fn read_day(text: &str) -> (r: Option<i32>)
    ensures
        r is Some <==> day_read(text@) is Some,
        r matches Some(day) ==> day == day_read(text@)->0 && FIRST_DAY <= day <= LAST_DAY,
{
    chrono::NaiveDate::parse_from_str(text, "%Y-%m-%d").ok().map(
        |date| chrono::Datelike::num_days_from_ce(&date),
    )
}

impl View for CalendarDay {
    type V = CalendarDay;

    open spec fn view(&self) -> CalendarDay {
        *self
    }
}

impl Key for CalendarDay {
    closed spec fn code(key: CalendarDay) -> Seq<int> {
        seq![key.day as int]
    }

    proof fn code_is_injective(a: CalendarDay, b: CalendarDay) {
        assert(Self::code(a)[0] == a.day as int && Self::code(b)[0] == b.day as int);
    }

    fn rank(&self, other: &Self) -> (r: Rank) {
        let ghost x = seq![self.day as int];
        let ghost y = seq![other.day as int];
        proof {
            assert(x[0] == self.day && y[0] == other.day);
            if self.day < other.day {
                assert(crate::ordered::diverges(x, y, 0));
            } else if self.day > other.day {
                assert(crate::ordered::diverges(y, x, 0));
                crate::ordered::precedes_is_asymmetric(y, x);
            }
        }
        if self.day < other.day {
            Rank::Before
        } else if self.day == other.day {
            Rank::Same
        } else {
            Rank::After
        }
    }

    fn duplicate(&self) -> (r: Self) {
        *self
    }
}

impl JsonItem for CalendarDay {
    open spec fn item_json(key: CalendarDay) -> JsonTree {
        JsonTree::Text(day_text(key.day()))
    }

    fn to_item_json(&self) -> (r: serde_json::Value) {
        self.to_json()
    }
}

impl JsonKey for CalendarDay {
    open spec fn key_text(key: CalendarDay) -> Seq<char> {
        day_text(key.day())
    }

    fn to_key_text(&self) -> (r: String) {
        self.text()
    }
}

impl ToJson for CalendarDay {
    open spec fn json(&self) -> JsonTree {
        JsonTree::Text(day_text(self.day()))
    }

    fn to_json(&self) -> (r: serde_json::Value) {
        json_text(self.text().as_str())
    }
}

/// A time of day.
#[derive(Clone, Copy, Debug, PartialEq, Eq, PartialOrd, Ord, Hash, Structural)]
pub struct ClockTime {
    secs: u32,
    nanos: u32,
}

impl ClockTime {
    #[verifier::type_invariant]
    closed spec fn in_day(self) -> bool {
        is_clock_time(self.secs as int, self.nanos as int)
    }

    /// The seconds since midnight.
    pub closed spec fn secs(self) -> int {
        self.secs as int
    }

    pub closed spec fn nanos(self) -> int {
        self.nanos as int
    }

    pub fn from_seconds(secs: u32, nanos: u32) -> (r: Option<ClockTime>)
        ensures
            r is Some <==> is_clock_time(secs as int, nanos as int),
            r matches Some(t) ==> t.secs() == secs && t.nanos() == nanos,
    {
        if secs >= 86_400 || nanos >= 2_000_000_000 {
            None
        } else {
            Some(ClockTime { secs, nanos })
        }
    }

    /// A full hour of the day.
    pub fn at_hour(hour: u32) -> (r: ClockTime)
        requires
            hour < 24,
        ensures
            r.secs() == hour * 3_600,
            r.nanos() == 0,
    {
        ClockTime { secs: hour * 3_600, nanos: 0 }
    }

    pub fn is_before(&self, other: &ClockTime) -> (r: bool)
        ensures
            r == (self.secs() < other.secs() || (self.secs() == other.secs() && self.nanos()
                < other.nanos())),
    {
        self.secs < other.secs || (self.secs == other.secs && self.nanos < other.nanos)
    }

    pub fn seconds(&self) -> (r: u32)
        ensures
            r == self.secs(),
            is_clock_time(self.secs(), self.nanos()),
    {
        proof {
            use_type_invariant(self);
        }
        self.secs
    }

    pub fn subsec_nanos(&self) -> (r: u32)
        ensures
            r == self.nanos(),
    {
        self.nanos
    }

    /// The time of day that a text in a form names.
    pub fn parse(text: &str, form: &str) -> (r: Option<ClockTime>)
        ensures
            r is Some <==> clock_read(text@, form@) is Some,
            r matches Some(t) ==> (t.secs(), t.nanos()) == clock_read(text@, form@)->0,
    {
        match read_clock(text, form) {
            Some((secs, nanos)) => Some(ClockTime { secs, nanos }),
            None => None,
        }
    }
}

/// `chrono::NaiveTime::parse_from_str`. The result is named; a time that was read is a time of
/// day.
#[verifier::external_body]
fn read_clock(text: &str, form: &str) -> (r: Option<(u32, u32)>)
    ensures
        r is Some <==> clock_read(text@, form@) is Some,
        r matches Some(t) ==> (t.0 as int, t.1 as int) == clock_read(text@, form@)->0
            && is_clock_time(t.0 as int, t.1 as int),
{
    chrono::NaiveTime::parse_from_str(text, form).ok().map(
        |time|
            (
                chrono::Timelike::num_seconds_from_midnight(&time),
                chrono::Timelike::nanosecond(&time),
            ),
    )
}

impl UtcTime {
    /// The calendar day in New York.
    pub fn new_york_date(&self) -> (r: CalendarDay)
        requires
            FIRST_SECOND + NEW_YORK_LAG <= self.secs(),
        ensures
            r.day() == new_york_day(self.secs(), self.nanos()),
    {
        proof {
            use_type_invariant(self);
        }
        CalendarDay { day: find_new_york_day(self.secs, self.nanos) }
    }

    /// The instant of a time of day in New York, where the clock there shows it exactly once.
    pub fn from_new_york(date: &CalendarDay, time: &ClockTime) -> (r: Option<UtcTime>)
        ensures
            r is Some <==> new_york_time(*date, *time) is Some,
            r matches Some(t) ==> (t.secs(), t.nanos()) == new_york_time(*date, *time)->0,
    {
        proof {
            use_type_invariant(date);
            use_type_invariant(time);
        }
        match find_new_york_instant(date.day, time.secs, time.nanos) {
            Some((secs, nanos)) => UtcTime::from_timestamp(secs, nanos),
            None => None,
        }
    }
}

/// The instant of a time of day in New York, where there is exactly one.
pub open spec fn new_york_time(date: CalendarDay, time: ClockTime) -> Option<(int, int)> {
    new_york_instant(date.day(), time.secs(), time.nanos())
}

/// `chrono::DateTime::with_timezone` with `chrono_tz::America::New_York`, and the day of the
/// local time. The result is named; it is a day of the calendar. An instant so soon
/// after the beginning of the calendar that the local time does not exist is left out.
#[verifier::external_body]
fn find_new_york_day(secs: i64, nanos: u32) -> (r: i32)
    requires
        is_instant(secs as int, nanos as int),
        FIRST_SECOND + NEW_YORK_LAG <= secs,
    ensures
        r == new_york_day(secs as int, nanos as int),
        FIRST_DAY <= r <= LAST_DAY,
{
    let second = chrono::DateTime::from_timestamp(secs, 0).unwrap().naive_utc();
    let at = chrono::Timelike::with_nanosecond(&second, nanos).unwrap().and_utc();
    let local = at.with_timezone(&chrono_tz::America::New_York).date_naive();
    chrono::Datelike::num_days_from_ce(&local)
}

/// `chrono::TimeZone::from_local_datetime` with `chrono_tz::America::New_York`, where its
/// result is single, in UTC. The result is named; it is an instant of the calendar.
#[verifier::external_body]
fn find_new_york_instant(day: i32, secs: u32, nanos: u32) -> (r: Option<(i64, u32)>)
    requires
        FIRST_DAY <= day <= LAST_DAY,
        is_clock_time(secs as int, nanos as int),
    ensures
        r is Some <==> new_york_instant(day as int, secs as int, nanos as int) is Some,
        r matches Some(t) ==> (t.0 as int, t.1 as int) == new_york_instant(
            day as int,
            secs as int,
            nanos as int,
        )->0 && is_instant(t.0 as int, t.1 as int),
{
    let date = chrono::NaiveDate::from_num_days_from_ce_opt(day).unwrap();
    let second = chrono::NaiveTime::from_num_seconds_from_midnight_opt(secs, 0).unwrap();
    let time = chrono::Timelike::with_nanosecond(&second, nanos).unwrap();
    let zone = chrono_tz::America::New_York;
    chrono::TimeZone::from_local_datetime(&zone, &date.and_time(time)).single().map(
        |at| (at.timestamp(), at.timestamp_subsec_nanos()),
    )
}

} // verus!
