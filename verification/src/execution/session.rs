//! Sessions of the exchange, as the calendar of the broker gives them.
use crate::error::{budget, invalid_budget, DomainError, ErrorView};
use crate::foundation::Asset;
use crate::json::{
    json_as_bool, json_as_list, json_as_text, json_content, json_contents, json_member, json_text,
    member_of, JsonTree, ToJson,
};
use crate::lists::{all_of, any_of};
use crate::ordered::OrderedSet;
use crate::text::same_text;
use crate::time::{
    clock_read, day_read, new_york_day, new_york_instant, new_york_time, CalendarDay, ClockTime,
    UtcTime, FIRST_DAY, FIRST_SECOND, NEW_YORK_LAG,
};
use vstd::prelude::*;

verus! {

/// The sessions of a trading day, and none.
#[derive(Clone, Copy, Debug, PartialEq, Eq, PartialOrd, Ord, Hash, Structural)]
pub enum TradingSession {
    PreMarket,
    Regular,
    AfterHours,
    Overnight,
    Closed,
}

impl TradingSession {
    /// The name of the variant in JSON.
    pub open spec fn wire(self) -> Seq<char> {
        match self {
            TradingSession::PreMarket => "pre_market"@,
            TradingSession::Regular => "regular"@,
            TradingSession::AfterHours => "after_hours"@,
            TradingSession::Overnight => "overnight"@,
            TradingSession::Closed => "closed"@,
        }
    }

    /// The name of the variant in JSON.
    pub fn wire_name(self) -> (r: &'static str)
        ensures
            r@ == self.wire(),
    {
        match self {
            TradingSession::PreMarket => "pre_market",
            TradingSession::Regular => "regular",
            TradingSession::AfterHours => "after_hours",
            TradingSession::Overnight => "overnight",
            TradingSession::Closed => "closed",
        }
    }
}

impl ToJson for TradingSession {
    open spec fn json(&self) -> JsonTree {
        JsonTree::Text(self.wire())
    }

    fn to_json(&self) -> (r: serde_json::Value) {
        json_text(self.wire_name())
    }
}

impl TradingSession {
    /// The session is one outside the regular hours.
    pub open spec fn is_extended(self) -> bool {
        self is PreMarket || self is AfterHours || self is Overnight
    }

    /// Whether the session is one outside the regular hours.
    pub fn extended_hours(self) -> (r: bool)
        ensures
            r == self.is_extended(),
    {
        matches!(
            self,
            TradingSession::PreMarket | TradingSession::AfterHours | TradingSession::Overnight
        )
    }
}

/// A flag of an asset: what a member of that name says; where there is none, whether it is
/// among the attributes, if those are texts.
pub open spec fn asset_flag(tree: JsonTree, name: Seq<char>) -> Option<bool> {
    match member_of(tree, name) {
        Some(JsonTree::Bool(truth)) => Some(truth),
        Some(_) => None,
        None => match member_of(tree, "attributes"@) {
            Some(JsonTree::List(items)) => if forall|i: int|
                0 <= i < items.len() ==> #[trigger] items[i] is Text {
                Some(
                    exists|i: int|
                        0 <= i < items.len() && #[trigger] items[i] == JsonTree::Text(name),
                )
            } else {
                None
            },
            _ => None,
        },
    }
}

/// The description of an asset is of this one, active and tradable, also overnight, and not
/// halted then.
pub open spec fn is_overnight_asset(tree: JsonTree, symbol: Seq<char>) -> bool {
    &&& member_of(tree, "symbol"@) == Some(JsonTree::Text(symbol))
    &&& member_of(tree, "status"@) == Some(JsonTree::Text("active"@))
    &&& member_of(tree, "tradable"@) == Some(JsonTree::Bool(true))
    &&& asset_flag(tree, "overnight_tradable"@) == Some(true)
    &&& asset_flag(tree, "overnight_halted"@) == Some(false)
}

fn has_text(value: &serde_json::Value, name: &str, text: &str) -> (r: bool)
    ensures
        r == (member_of(json_content(*value), name@) == Some(JsonTree::Text(text@))),
{
    match json_member(value, name) {
        Some(member) => match json_as_text(member) {
            Some(own) => same_text(own, text),
            None => false,
        },
        None => false,
    }
}

fn find_flag(value: &serde_json::Value, name: &str) -> (r: Option<bool>)
    ensures
        r == asset_flag(json_content(*value), name@),
{
    if let Some(member) = json_member(value, name) {
        return json_as_bool(member);
    }
    let attributes = match json_member(value, "attributes") {
        Some(attributes) => attributes,
        None => {
            return None;
        },
    };
    let items = match json_as_list(attributes) {
        Some(items) => items,
        None => {
            return None;
        },
    };
    let ghost trees = json_contents(items@);
    let is_text = |item: &serde_json::Value| -> (b: bool)
        ensures
            b == (json_content(*item) is Text),
        { json_as_text(item).is_some() };
    let is_name = |item: &serde_json::Value| -> (b: bool)
        ensures
            b == (json_content(*item) == JsonTree::Text(name@)),
        {
            match json_as_text(item) {
                Some(own) => same_text(own, name),
                None => false,
            }
        };
    let texts = all_of(items.as_slice(), is_text);
    proof {
        assert forall|i: int| 0 <= i < items@.len() implies #[trigger] trees[i] == json_content(
            items@[i],
        ) by {}
        if texts {
            assert forall|i: int| 0 <= i < trees.len() implies #[trigger] trees[i] is Text by {
                assert(json_content(items@[i]) is Text);
            }
        } else {
            let i = choose|i: int|
                0 <= i < items@.len() && !(json_content(#[trigger] items@[i]) is Text);
            assert(!(trees[i] is Text));
        }
    }
    if !texts {
        return None;
    }
    let found = any_of(items.as_slice(), is_name);
    proof {
        if found {
            let i = choose|i: int|
                0 <= i < items@.len() && json_content(#[trigger] items@[i]) == JsonTree::Text(
                    name@,
                );
            assert(trees[i] == JsonTree::Text(name@));
        } else {
            assert forall|i: int| 0 <= i < trees.len() implies #[trigger] trees[i]
                != JsonTree::Text(name@) by {
                assert(json_content(items@[i]) != JsonTree::Text(name@));
            }
        }
    }
    Some(found)
}

/// Whether an asset can be traded overnight, as the broker describes it. A flag that is false
/// or missing, and a halt, all mean that it cannot.
pub fn alpaca_overnight_asset_available(value: &serde_json::Value, asset: Asset) -> (r: bool)
    ensures
        r == is_overnight_asset(json_content(*value), asset.wire()),
{
    let tradable = match json_member(value, "tradable") {
        Some(member) => match json_as_bool(member) {
            Some(truth) => truth,
            None => false,
        },
        None => false,
    };
    let overnight = match find_flag(value, "overnight_tradable") {
        Some(truth) => truth,
        None => false,
    };
    let free = match find_flag(value, "overnight_halted") {
        Some(halted) => !halted,
        None => false,
    };
    has_text(value, "symbol", asset.symbol()) && has_text(value, "status", "active") && tradable
        && overnight && free
}

/// The session that the market is in.
#[derive(Debug, Clone, PartialEq, Eq)]
pub struct TradingSessionSnapshot {
    pub kind: TradingSession,
    pub trade_date: CalendarDay,
    pub next_open: Option<UtcTime>,
    pub ends_at: Option<UtcTime>,
    pub overnight_assets: OrderedSet<Asset>,
}

/// A day of the exchange, with the times of its regular session in New York.
#[derive(Clone, Copy, Debug, PartialEq, Eq, Structural)]
pub struct ExchangeSession {
    pub date: CalendarDay,
    pub open: ClockTime,
    pub close: ClockTime,
}

/// What a row of the calendar holds: the day, and the seconds and nanoseconds of the open and
/// the close.
pub ghost struct CalendarRow {
    pub date: int,
    pub open: (int, int),
    pub close: (int, int),
}

/// The time of day in a member of a row, with or without seconds.
pub open spec fn row_time(row: JsonTree, name: Seq<char>) -> Option<(int, int)> {
    match member_of(row, name) {
        Some(JsonTree::Text(text)) => if clock_read(text, "%H:%M"@) is Some {
            clock_read(text, "%H:%M"@)
        } else {
            clock_read(text, "%H:%M:%S"@)
        },
        _ => None,
    }
}

pub open spec fn row_date(row: JsonTree) -> Option<int> {
    match member_of(row, "date"@) {
        Some(JsonTree::Text(text)) => day_read(text),
        _ => None,
    }
}

/// What a row of the calendar says, where it can be read.
pub open spec fn calendar_row(row: JsonTree) -> Option<CalendarRow> {
    match (row_date(row), row_time(row, "open"@), row_time(row, "close"@)) {
        (Some(date), Some(open), Some(close)) => Some(CalendarRow { date, open, close }),
        _ => None,
    }
}

impl ExchangeSession {
    pub open spec fn row(&self) -> CalendarRow {
        CalendarRow {
            date: self.date.day(),
            open: (self.open.secs(), self.open.nanos()),
            close: (self.close.secs(), self.close.nanos()),
        }
    }

    fn read_time(row: &serde_json::Value, name: &str) -> (r: Option<ClockTime>)
        ensures
            match r {
                Some(time) => row_time(json_content(*row), name@) == Some(
                    (time.secs(), time.nanos()),
                ),
                None => row_time(json_content(*row), name@) is None,
            },
    {
        match json_member(row, name) {
            Some(member) => match json_as_text(member) {
                Some(text) => match ClockTime::parse(text, "%H:%M") {
                    Some(time) => Some(time),
                    None => ClockTime::parse(text, "%H:%M:%S"),
                },
                None => None,
            },
            None => None,
        }
    }

    fn read_date(row: &serde_json::Value) -> (r: Option<CalendarDay>)
        ensures
            match r {
                Some(date) => row_date(json_content(*row)) == Some(date.day()),
                None => row_date(json_content(*row)) is None,
            },
    {
        match json_member(row, "date") {
            Some(member) => match json_as_text(member) {
                Some(text) => CalendarDay::parse(text),
                None => None,
            },
            None => None,
        }
    }

    /// The days of a calendar of the broker, where every row can be read.
    pub fn from_alpaca(value: &serde_json::Value) -> (r: Result<Vec<ExchangeSession>, DomainError>)
        ensures
            match r {
                Ok(days) => json_content(*value) matches JsonTree::List(rows) && rows.len()
                    == days@.len() && forall|i: int|
                    0 <= i < rows.len() ==> calendar_row(#[trigger] rows[i]) == Some(
                        days@[i].row(),
                    ),
                Err(e) => e@ == budget("trading_session.calendar"@) && !(json_content(
                    *value,
                ) matches JsonTree::List(rows) && forall|i: int|
                    0 <= i < rows.len() ==> calendar_row(#[trigger] rows[i]) is Some),
            },
    {
        let rows = match json_as_list(value) {
            Some(rows) => rows,
            None => {
                return Err(invalid_budget("trading_session.calendar"));
            },
        };
        let ghost trees = json_contents(rows@);
        let mut days: Vec<ExchangeSession> = Vec::new();
        let mut i: usize = 0;
        while i < rows.len()
            invariant
                i <= rows.len(),
                days.len() == i,
                trees == json_contents(rows@),
                json_content(*value) == JsonTree::List(trees),
                forall|j: int|
                    0 <= j < i ==> calendar_row(#[trigger] trees[j]) == Some(days@[j].row()),
            decreases rows.len() - i,
        {
            let row = &rows[i];
            proof {
                assert(trees[i as int] == json_content(*row));
            }
            match (Self::read_date(row), Self::read_time(row, "open"), Self::read_time(row, "close")) {
                (Some(date), Some(open), Some(close)) => {
                    days.push(ExchangeSession { date, open, close });
                },
                _ => {
                    proof {
                        assert(calendar_row(trees[i as int]) is None);
                    }
                    return Err(invalid_budget("trading_session.calendar"));
                },
            }
            i += 1;
        }
        Ok(days)
    }
}

/// An instant, as seconds and nanoseconds.
pub open spec fn instant(t: UtcTime) -> (int, int) {
    (t.secs(), t.nanos())
}

pub open spec fn is_before(a: (int, int), b: (int, int)) -> bool {
    a.0 < b.0 || (a.0 == b.0 && a.1 < b.1)
}

/// When the sessions of a day begin and end.
pub ghost struct DayTimes {
    pub overnight: (int, int),
    pub pre: (int, int),
    pub open: (int, int),
    pub close: (int, int),
    pub end: (int, int),
}

/// A full hour in New York on a day of the calendar, where there is exactly one.
pub open spec fn hour_in_new_york(day: int, hour: int) -> Option<(int, int)> {
    new_york_instant(day, hour * 3_600, 0)
}

/// The regular session lies between four in the morning and eight in the evening.
pub open spec fn hours_are_sound(day: ExchangeSession) -> bool {
    &&& is_before(day.row().open, day.row().close)
    &&& !is_before(day.row().open, (14_400, 0))
    &&& !is_before((72_000, 0), day.row().close)
}

/// The sessions of a day, or why they cannot be told.
pub open spec fn day_times(day: ExchangeSession) -> Result<DayTimes, ErrorView> {
    if !hours_are_sound(day) {
        Err(budget("trading_session.calendar"@))
    } else if day.date.day() - 1 < FIRST_DAY {
        Err(budget("trading_session.date"@))
    } else {
        match (
            hour_in_new_york(day.date.day() - 1, 20),
            hour_in_new_york(day.date.day(), 4),
            new_york_time(day.date, day.open),
            new_york_time(day.date, day.close),
            hour_in_new_york(day.date.day(), 20),
        ) {
            (Some(overnight), Some(pre), Some(open), Some(close), Some(end)) => Ok(
                DayTimes { overnight, pre, open, close, end },
            ),
            _ => Err(budget("trading_session.calendar_time"@)),
        }
    }
}

/// The session of a day that an instant lies in, with its end. The regular session counts only
/// while the broker says that the market is open.
pub open spec fn session_in(times: DayTimes, now: (int, int), regular_open: bool) -> Option<
    (TradingSession, (int, int)),
> {
    if !is_before(now, times.overnight) && is_before(now, times.pre) {
        Some((TradingSession::Overnight, times.pre))
    } else if !is_before(now, times.pre) && is_before(now, times.open) {
        Some((TradingSession::PreMarket, times.open))
    } else if !is_before(now, times.open) && is_before(now, times.close) && regular_open {
        Some((TradingSession::Regular, times.close))
    } else if !is_before(now, times.close) && is_before(now, times.end) {
        Some((TradingSession::AfterHours, times.end))
    } else {
        None
    }
}

/// The earlier of an instant that may be there and another.
pub open spec fn soonest(known: Option<(int, int)>, next: (int, int)) -> (int, int) {
    match known {
        Some(at) => if is_before(next, at) {
            next
        } else {
            at
        },
        None => next,
    }
}

/// What a calendar says of an instant.
pub ghost enum Finding {
    /// A session, with its trading day and its end.
    InSession { kind: TradingSession, date: CalendarDay, ends_at: (int, int) },
    /// None, with the next beginning that the calendar knows of.
    OutOfSession { next_open: Option<(int, int)> },
}

/// The first session of the days that the instant lies in, or the soonest beginning after it.
pub open spec fn find_session(
    days: Seq<ExchangeSession>,
    now: (int, int),
    regular_open: bool,
    known: Option<(int, int)>,
) -> Result<Finding, ErrorView>
    decreases days.len(),
{
    if days.len() == 0 {
        Ok(Finding::OutOfSession { next_open: known })
    } else {
        match day_times(days[0]) {
            Err(e) => Err(e),
            Ok(times) => match session_in(times, now, regular_open) {
                Some((kind, ends_at)) => Ok(
                    Finding::InSession { kind, date: days[0].date, ends_at },
                ),
                None => find_session(
                    days.drop_first(),
                    now,
                    regular_open,
                    if is_before(now, times.overnight) {
                        Some(soonest(known, times.overnight))
                    } else {
                        known
                    },
                ),
            },
        }
    }
}

/// When the sessions of a day begin and end.
#[derive(Clone, Copy, Debug, PartialEq, Eq)]
pub struct DayMoments {
    pub overnight: UtcTime,
    pub pre: UtcTime,
    pub open: UtcTime,
    pub close: UtcTime,
    pub end: UtcTime,
}

impl DayMoments {
    pub open spec fn times(&self) -> DayTimes {
        DayTimes {
            overnight: instant(self.overnight),
            pre: instant(self.pre),
            open: instant(self.open),
            close: instant(self.close),
            end: instant(self.end),
        }
    }
}

fn moment(date: &CalendarDay, time: &ClockTime) -> (r: Result<UtcTime, DomainError>)
    ensures
        match r {
            Ok(at) => new_york_time(*date, *time) == Some(instant(at)),
            Err(e) => new_york_time(*date, *time) is None && e@ == budget(
                "trading_session.calendar_time"@,
            ),
        },
{
    match UtcTime::from_new_york(date, time) {
        Some(at) => Ok(at),
        None => Err(invalid_budget("trading_session.calendar_time")),
    }
}

/// The sessions of a day of the calendar.
pub fn moments_of(day: &ExchangeSession) -> (r: Result<DayMoments, DomainError>)
    ensures
        match r {
            Ok(moments) => day_times(*day) == Ok::<DayTimes, ErrorView>(moments.times()),
            Err(e) => day_times(*day) == Err::<DayTimes, ErrorView>(e@),
        },
{
    let morning = ClockTime::at_hour(4);
    let evening = ClockTime::at_hour(20);
    if !day.open.is_before(&day.close) || day.open.is_before(&morning) || evening.is_before(
        &day.close,
    ) {
        return Err(invalid_budget("trading_session.calendar"));
    }
    let prior = match day.date.plus(-1) {
        Some(prior) => prior,
        None => {
            return Err(invalid_budget("trading_session.date"));
        },
    };
    let overnight = moment(&prior, &evening)?;
    let pre = moment(&day.date, &morning)?;
    let open = moment(&day.date, &day.open)?;
    let close = moment(&day.date, &day.close)?;
    let end = moment(&day.date, &evening)?;
    Ok(DayMoments { overnight, pre, open, close, end })
}

/// The session that an instant lies in, with its end.
pub fn session_at(moments: &DayMoments, now: &UtcTime, regular_open: bool) -> (r: Option<
    (TradingSession, UtcTime),
>)
    ensures
        match r {
            Some(found) => session_in(moments.times(), instant(*now), regular_open) == Some(
                (found.0, instant(found.1)),
            ),
            None => session_in(moments.times(), instant(*now), regular_open) is None,
        },
{
    if !now.is_before(&moments.overnight) && now.is_before(&moments.pre) {
        Some((TradingSession::Overnight, moments.pre))
    } else if !now.is_before(&moments.pre) && now.is_before(&moments.open) {
        Some((TradingSession::PreMarket, moments.open))
    } else if !now.is_before(&moments.open) && now.is_before(&moments.close) && regular_open {
        Some((TradingSession::Regular, moments.close))
    } else if !now.is_before(&moments.close) && now.is_before(&moments.end) {
        Some((TradingSession::AfterHours, moments.end))
    } else {
        None
    }
}

/// The soonest beginning after an instant, of those known so far and that of a day.
pub fn next_beginning(known: Option<UtcTime>, moments: &DayMoments, now: &UtcTime) -> (r: Option<
    UtcTime,
>)
    ensures
        instant_of(r) == (if is_before(instant(*now), moments.times().overnight) {
            Some(soonest(instant_of(known), moments.times().overnight))
        } else {
            instant_of(known)
        }),
{
    if !now.is_before(&moments.overnight) {
        return known;
    }
    match known {
        Some(at) => if moments.overnight.is_before(&at) {
            Some(moments.overnight)
        } else {
            Some(at)
        },
        None => Some(moments.overnight),
    }
}

/// An instant that may be there, as seconds and nanoseconds.
pub open spec fn instant_of(t: Option<UtcTime>) -> Option<(int, int)> {
    match t {
        Some(at) => Some(instant(at)),
        None => None,
    }
}

impl TradingSessionSnapshot {
    /// The snapshot says what the calendar says of the instant.
    pub open spec fn says(&self, finding: Finding, now: UtcTime) -> bool {
        &&& self.overnight_assets@ == Set::<Asset>::empty()
        &&& match finding {
            Finding::InSession { kind, date, ends_at } => {
                &&& self.kind == kind
                &&& self.trade_date == date
                &&& self.next_open is None
                &&& instant_of(self.ends_at) == Some(ends_at)
            },
            Finding::OutOfSession { next_open } => {
                &&& self.kind is Closed
                &&& self.trade_date.day() == new_york_day(now.secs(), now.nanos())
                &&& instant_of(self.next_open) == next_open
                &&& self.ends_at is None
            },
        }
    }

    /// The session that an instant lies in. An instant so soon after the beginning of the
    /// calendar that New York had no day of it yet is left out.
    pub fn from_calendar(now: UtcTime, regular_open: bool, calendar: &[ExchangeSession]) -> (r: Result<
        TradingSessionSnapshot,
        DomainError,
    >)
        requires
            FIRST_SECOND + NEW_YORK_LAG <= now.secs(),
        ensures
            match (r, find_session(calendar@, instant(now), regular_open, None)) {
                (Ok(snapshot), Ok(finding)) => snapshot.says(finding, now),
                (Err(e), Err(why)) => e@ == why,
                _ => false,
            },
    {
        let local_date = now.new_york_date();
        let mut next_open: Option<UtcTime> = None;
        let mut i: usize = 0;
        let ghost whole = find_session(calendar@, instant(now), regular_open, None);
        proof {
            assert(calendar@.skip(0) =~= calendar@);
        }
        while i < calendar.len()
            invariant
                i <= calendar.len(),
                whole == find_session(calendar@, instant(now), regular_open, None),
                whole == find_session(
                    calendar@.skip(i as int),
                    instant(now),
                    regular_open,
                    instant_of(next_open),
                ),
            decreases calendar.len() - i,
        {
            let day = &calendar[i];
            proof {
                assert(calendar@.skip(i as int)[0] == *day);
                assert(calendar@.skip(i as int).drop_first() =~= calendar@.skip(i + 1));
            }
            let moments = moments_of(day)?;
            if let Some(found) = session_at(&moments, &now, regular_open) {
                return Ok(
                    TradingSessionSnapshot {
                        kind: found.0,
                        trade_date: day.date,
                        next_open: None,
                        ends_at: Some(found.1),
                        overnight_assets: OrderedSet::new(),
                    },
                );
            }
            next_open = next_beginning(next_open, &moments, &now);
            i += 1;
        }
        Ok(
            TradingSessionSnapshot {
                kind: TradingSession::Closed,
                trade_date: local_date,
                next_open,
                ends_at: None,
                overnight_assets: OrderedSet::new(),
            },
        )
    }
}

/// A session that the market is in has not ended.
pub proof fn session_ends_after_the_instant(
    days: Seq<ExchangeSession>,
    now: (int, int),
    regular_open: bool,
    known: Option<(int, int)>,
)
    requires
        find_session(days, now, regular_open, known) matches Ok(finding)
            && finding is InSession,
    ensures
        find_session(days, now, regular_open, known)->Ok_0 matches Finding::InSession {
            kind,
            date,
            ends_at,
        } && is_before(now, ends_at) && !(kind is Closed),
    decreases days.len(),
{
    match day_times(days[0]) {
        Ok(times) => {
            if session_in(times, now, regular_open) is None {
                session_ends_after_the_instant(
                    days.drop_first(),
                    now,
                    regular_open,
                    if is_before(now, times.overnight) {
                        Some(soonest(known, times.overnight))
                    } else {
                        known
                    },
                );
            }
        },
        Err(_) => {},
    }
}

/// The next beginning of a session lies after the instant.
pub proof fn next_session_begins_after_the_instant(
    days: Seq<ExchangeSession>,
    now: (int, int),
    regular_open: bool,
    known: Option<(int, int)>,
)
    requires
        known matches Some(at) ==> is_before(now, at),
        find_session(days, now, regular_open, known) matches Ok(finding)
            && finding is OutOfSession,
    ensures
        find_session(days, now, regular_open, known)->Ok_0 matches Finding::OutOfSession {
            next_open,
        } && (next_open matches Some(at) ==> is_before(now, at)),
    decreases days.len(),
{
    if days.len() > 0 {
        match day_times(days[0]) {
            Ok(times) => {
                if session_in(times, now, regular_open) is None {
                    next_session_begins_after_the_instant(
                        days.drop_first(),
                        now,
                        regular_open,
                        if is_before(now, times.overnight) {
                            Some(soonest(known, times.overnight))
                        } else {
                            known
                        },
                    );
                }
            },
            Err(_) => {},
        }
    }
}

/// Without a calendar the market is closed, even where the broker says that it is open.
pub proof fn without_a_calendar_the_market_is_closed(now: (int, int), regular_open: bool)
    ensures
        find_session(Seq::empty(), now, regular_open, None) == Ok::<Finding, ErrorView>(
            Finding::OutOfSession { next_open: None },
        ),
{
}

/// An asset that is not said to be tradable overnight, or is said to be halted then, whether by a
/// field or among its attributes, is not available: what is unknown counts against it.
pub proof fn halted_asset_is_not_available(tree: JsonTree, symbol: Seq<char>)
    requires
        asset_flag(tree, "overnight_halted"@) != Some(false) || asset_flag(
            tree,
            "overnight_tradable"@,
        ) != Some(true),
    ensures
        !is_overnight_asset(tree, symbol),
{
}

/// Two assets never share one description.
pub proof fn description_is_of_one_asset(tree: JsonTree, a: Seq<char>, b: Seq<char>)
    requires
        is_overnight_asset(tree, a),
        is_overnight_asset(tree, b),
    ensures
        a == b,
{
}

} // verus!
