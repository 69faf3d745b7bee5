//! Dates and times: native calendar values, their form at the host, and the
//! conversions between the two.

use vstd::prelude::*;
use crate::memgraph::{lemma_continues_chain, Memgraph};
use crate::mgp::{
    DateField, DateParameters, Entry, Exchange, Handle, Host, Kind, LocalTimeParameters,
    TimeField, Token,
};
use crate::result::MgpError;

verus! {

/// The first year that the host can represent.
pub const MINIMUM_YEAR: i32 = 0;

/// The last year that the host can represent.
pub const MAXIMUM_YEAR: i32 = 9999;

pub const NANOS_PER_SECOND: u32 = 1_000_000_000;

pub const NANOS_PER_MILLI: u32 = 1_000_000;

pub const NANOS_PER_MICRO: u32 = 1_000;

pub const MICROS_PER_MILLI: u32 = 1_000;

pub const MICROS_PER_SECOND: u32 = 1_000_000;

/// Whether `year` is a leap year of the proleptic Gregorian calendar.
pub open spec fn is_leap_year(year: int) -> bool {
    year % 4 == 0 && (year % 100 != 0 || year % 400 == 0)
}

/// The number of days of `month` in `year`; 0 if there is no such month.
pub open spec fn days_in_month(year: int, month: int) -> int {
    if month == 2 {
        if is_leap_year(year) {
            29
        } else {
            28
        }
    } else if month == 4 || month == 6 || month == 9 || month == 11 {
        30
    } else if 1 <= month <= 12 {
        31
    } else {
        0
    }
}

/// Whether the calendar has the day `day` of `month` in `year`.
pub open spec fn is_date(year: int, month: int, day: int) -> bool {
    1 <= month <= 12 && 1 <= day <= days_in_month(year, month)
}

/// Whether the clock shows `hour:minute:second` with `nanosecond` into the
/// second. A nanosecond part of a second or more stands for a leap second.
pub open spec fn is_time(hour: int, minute: int, second: int, nanosecond: int) -> bool {
    0 <= hour < 24 && 0 <= minute < 60 && 0 <= second < 60 && 0 <= nanosecond < 2
        * NANOS_PER_SECOND
}

/// A date of the proleptic Gregorian calendar, without a time zone.
#[derive(Clone, Copy, Debug, PartialEq, Eq)]
pub struct CalendarDate {
    year: i32,
    month: u32,
    day: u32,
}

/// A time of day, without a time zone, to the nanosecond.
#[derive(Clone, Copy, Debug, PartialEq, Eq)]
pub struct ClockTime {
    hour: u32,
    minute: u32,
    second: u32,
    nanosecond: u32,
}

/// Year, month and day of a date, as contracts see them.
pub struct DateView {
    pub year: int,
    pub month: int,
    pub day: int,
}

/// The parts of a time of day, as contracts see them.
pub struct TimeView {
    pub hour: int,
    pub minute: int,
    pub second: int,
    pub nanosecond: int,
}

fn leap_year(year: i32) -> (b: bool)
    ensures
        b == is_leap_year(year as int),
{
    // The rule has a period of 400 years, so the year can be moved into the
    // naturals first.
    let shifted: i64 = year as i64 + 2_147_483_600;
    assert(shifted % 4 == (year as int) % 4);
    assert(shifted % 100 == (year as int) % 100);
    assert(shifted % 400 == (year as int) % 400);
    shifted % 4 == 0 && (shifted % 100 != 0 || shifted % 400 == 0)
}

fn month_length(year: i32, month: u32) -> (n: u32)
    ensures
        n == days_in_month(year as int, month as int),
{
    if month == 2 {
        if leap_year(year) {
            29
        } else {
            28
        }
    } else if month == 4 || month == 6 || month == 9 || month == 11 {
        30
    } else if 1 <= month && month <= 12 {
        31
    } else {
        0
    }
}

impl View for CalendarDate {
    type V = DateView;

    closed spec fn view(&self) -> DateView {
        DateView { year: self.year as int, month: self.month as int, day: self.day as int }
    }
}

impl View for ClockTime {
    type V = TimeView;

    closed spec fn view(&self) -> TimeView {
        TimeView {
            hour: self.hour as int,
            minute: self.minute as int,
            second: self.second as int,
            nanosecond: self.nanosecond as int,
        }
    }
}

impl CalendarDate {
    #[verifier::type_invariant]
    spec fn well_formed(&self) -> bool {
        is_date(self.year as int, self.month as int, self.day as int)
    }

    /// Whether this is a date of the calendar. Every date that the
    /// constructors hand out is one.
    pub open spec fn is_valid(&self) -> bool {
        is_date(self@.year, self@.month, self@.day)
    }

    /// The date `year`-`month`-`day`, if the calendar has it.
    pub fn from_ymd(year: i32, month: u32, day: u32) -> (date: Option<CalendarDate>)
        ensures
            date is Some <==> is_date(year as int, month as int, day as int),
            date matches Some(d) ==> d@ == (DateView {
                year: year as int,
                month: month as int,
                day: day as int,
            }) && d.is_valid(),
    {
        if 1 <= month && month <= 12 && 1 <= day && day <= month_length(year, month) {
            Some(CalendarDate { year, month, day })
        } else {
            None
        }
    }

    pub fn year(&self) -> (year: i32)
        ensures
            year == self@.year,
    {
        self.year
    }

    /// The month, from 1 to 12.
    pub fn month(&self) -> (month: u32)
        ensures
            month == self@.month,
            1 <= month <= 12,
    {
        proof {
            use_type_invariant(self);
        }
        self.month
    }

    /// The day of the month, from 1 to 31.
    pub fn day(&self) -> (day: u32)
        ensures
            day == self@.day,
            1 <= day <= 31,
            self.is_valid(),
    {
        proof {
            use_type_invariant(self);
        }
        self.day
    }
}

impl ClockTime {
    #[verifier::type_invariant]
    spec fn well_formed(&self) -> bool {
        is_time(
            self.hour as int,
            self.minute as int,
            self.second as int,
            self.nanosecond as int,
        )
    }

    /// Whether this is a time that a clock can show. Every time that the
    /// constructors hand out is one.
    pub open spec fn is_valid(&self) -> bool {
        is_time(self@.hour, self@.minute, self@.second, self@.nanosecond)
    }

    /// The time `hour:minute:second` with `nanosecond` into the second, if a
    /// clock can show it.
    pub fn from_hms_nano(hour: u32, minute: u32, second: u32, nanosecond: u32) -> (time: Option<
        ClockTime,
    >)
        ensures
            time is Some <==> is_time(hour as int, minute as int, second as int, nanosecond as int),
            time matches Some(t) ==> t@ == (TimeView {
                hour: hour as int,
                minute: minute as int,
                second: second as int,
                nanosecond: nanosecond as int,
            }) && t.is_valid(),
    {
        if hour < 24 && minute < 60 && second < 60 && nanosecond < 2_000_000_000 {
            Some(ClockTime { hour, minute, second, nanosecond })
        } else {
            None
        }
    }

    /// The time `hour:minute:second` with `microsecond` into the second, if
    /// a clock can show it. A microsecond part of a second or more stands for
    /// a leap second.
    pub fn from_hms_micro(hour: u32, minute: u32, second: u32, microsecond: u32) -> (time: Option<
        ClockTime,
    >)
        ensures
            time is Some <==> is_time(
                hour as int,
                minute as int,
                second as int,
                microsecond * NANOS_PER_MICRO,
            ),
            time matches Some(t) ==> t@ == (TimeView {
                hour: hour as int,
                minute: minute as int,
                second: second as int,
                nanosecond: microsecond * NANOS_PER_MICRO,
            }) && t.is_valid(),
    {
        if microsecond < 2_000_000 {
            ClockTime::from_hms_nano(hour, minute, second, microsecond * NANOS_PER_MICRO)
        } else {
            None
        }
    }

    pub fn hour(&self) -> (hour: u32)
        ensures
            hour == self@.hour,
            hour < 24,
    {
        proof {
            use_type_invariant(self);
        }
        self.hour
    }

    pub fn minute(&self) -> (minute: u32)
        ensures
            minute == self@.minute,
            minute < 60,
    {
        proof {
            use_type_invariant(self);
        }
        self.minute
    }

    pub fn second(&self) -> (second: u32)
        ensures
            second == self@.second,
            second < 60,
    {
        proof {
            use_type_invariant(self);
        }
        self.second
    }

    /// The nanoseconds into the second; a second or more during a leap
    /// second.
    pub fn nanosecond(&self) -> (nanosecond: u32)
        ensures
            nanosecond == self@.nanosecond,
            nanosecond < 2 * NANOS_PER_SECOND,
            self.is_valid(),
    {
        proof {
            use_type_invariant(self);
        }
        self.nanosecond
    }
}

/// Whether the host can represent the year.
pub open spec fn is_representable_year(year: int) -> bool {
    MINIMUM_YEAR <= year <= MAXIMUM_YEAR
}

/// A date in the form in which the host takes it.
pub open spec fn date_parameters_of(date: DateView) -> DateParameters {
    DateParameters { year: date.year as i32, month: date.month as i32, day: date.day as i32 }
}

/// The whole milliseconds in the sub-second part `nanosecond`, which is
/// taken modulo one second first.
pub open spec fn millisecond_of(nanosecond: int) -> int {
    (nanosecond % (NANOS_PER_SECOND as int)) / (NANOS_PER_MILLI as int)
}

/// The whole microseconds that the sub-second part `nanosecond`, taken
/// modulo one second, leaves beyond its whole milliseconds.
pub open spec fn microsecond_of(nanosecond: int) -> int {
    (nanosecond % (NANOS_PER_SECOND as int)) % (NANOS_PER_MILLI as int) / (NANOS_PER_MICRO as int)
}

/// A time of day in the form in which the host takes it. The sub-second part
/// is reduced modulo one second, so a leap second folds onto the second
/// before it, and what is finer than a microsecond is dropped.
pub open spec fn local_time_parameters_of(time: TimeView) -> LocalTimeParameters {
    LocalTimeParameters {
        hour: time.hour as i32,
        minute: time.minute as i32,
        second: time.second as i32,
        millisecond: millisecond_of(time.nanosecond) as i32,
        microsecond: microsecond_of(time.nanosecond) as i32,
    }
}

/// The date that the host's year, month and day stand for, if they are a
/// date of the calendar.
pub open spec fn date_of_parameters(parameters: DateParameters) -> Option<DateView> {
    if is_date(parameters.year as int, parameters.month as int, parameters.day as int) {
        Some(
            DateView {
                year: parameters.year as int,
                month: parameters.month as int,
                day: parameters.day as int,
            },
        )
    } else {
        None
    }
}

/// The time of day that the host's parts stand for, if a clock can show it
/// and the milliseconds and microseconds are each below a thousand.
pub open spec fn time_of_parameters(parameters: LocalTimeParameters) -> Option<TimeView> {
    if is_time(parameters.hour as int, parameters.minute as int, parameters.second as int, 0)
        && 0 <= parameters.millisecond < 1000 && 0 <= parameters.microsecond < 1000 {
        Some(
            TimeView {
                hour: parameters.hour as int,
                minute: parameters.minute as int,
                second: parameters.second as int,
                nanosecond: parameters.millisecond * NANOS_PER_MILLI + parameters.microsecond
                    * NANOS_PER_MICRO,
            },
        )
    } else {
        None
    }
}

/// The form in which the host takes `date`. A year that the host cannot
/// represent is refused here, before anything is asked of the host.
pub fn date_parameters(date: &CalendarDate) -> (r: Result<DateParameters, MgpError>)
    ensures
        is_representable_year(date@.year) ==> r == Ok::<DateParameters, MgpError>(
            date_parameters_of(date@),
        ),
        !is_representable_year(date@.year) ==> r == Err::<DateParameters, MgpError>(
            MgpError::UnableToCreateDateFromNaiveDate,
        ),
{
    let year = date.year();
    if year < MINIMUM_YEAR || year > MAXIMUM_YEAR {
        return Err(MgpError::UnableToCreateDateFromNaiveDate);
    }
    Ok(DateParameters { year, month: date.month() as i32, day: date.day() as i32 })
}

/// The form in which the host takes `time`.
pub fn local_time_parameters(time: &ClockTime) -> (parameters: LocalTimeParameters)
    ensures
        parameters == local_time_parameters_of(time@),
        0 <= parameters.millisecond < 1000,
        0 <= parameters.microsecond < 1000,
{
    let nanosecond = time.nanosecond() % NANOS_PER_SECOND;
    LocalTimeParameters {
        hour: time.hour() as i32,
        minute: time.minute() as i32,
        second: time.second() as i32,
        millisecond: (nanosecond / NANOS_PER_MILLI) as i32,
        microsecond: (nanosecond % NANOS_PER_MILLI / NANOS_PER_MICRO) as i32,
    }
}

/// The date that the host's year, month and day stand for, if there is one.
pub fn calendar_date(parameters: DateParameters) -> (date: Option<CalendarDate>)
    ensures
        date_view(date) == date_of_parameters(parameters),
{
    if parameters.month < 0 || parameters.day < 0 {
        return None;
    }
    CalendarDate::from_ymd(parameters.year, parameters.month as u32, parameters.day as u32)
}

/// The time of day that the host's parts stand for, if there is one.
pub fn clock_time(parameters: LocalTimeParameters) -> (time: Option<ClockTime>)
    ensures
        time_view(time) == time_of_parameters(parameters),
{
    if parameters.hour < 0 || parameters.minute < 0 || parameters.second < 0
        || parameters.millisecond < 0 || parameters.millisecond >= 1000
        || parameters.microsecond < 0 || parameters.microsecond >= 1000 {
        return None;
    }
    let nanosecond: u32 = parameters.millisecond as u32 * NANOS_PER_MILLI
        + parameters.microsecond as u32 * NANOS_PER_MICRO;
    ClockTime::from_hms_nano(
        parameters.hour as u32,
        parameters.minute as u32,
        parameters.second as u32,
        nanosecond,
    )
}

/// A date that may be missing, taken by its view.
pub open spec fn date_view(date: Option<CalendarDate>) -> Option<DateView> {
    match date {
        Some(d) => Some(d@),
        None => None,
    }
}

/// A time of day that may be missing, taken by its view.
pub open spec fn time_view(time: Option<ClockTime>) -> Option<TimeView> {
    match time {
        Some(t) => Some(t@),
        None => None,
    }
}

/// The exchanges `d` are those of reading, in the order of `entries`, parts
/// that are integers, up to the first that cannot be read.
pub open spec fn reads_asked(entries: Seq<Entry>, error: MgpError, d: Seq<Exchange>) -> bool {
    &&& d.len() <= entries.len()
    &&& entries.len() > 0 ==> d.len() > 0
    &&& forall|i: int| 0 <= i < d.len() ==> (#[trigger] d[i]).asks(entries[i], Seq::empty())
    &&& forall|i: int| 0 <= i < d.len() - 1 ==> (#[trigger] d[i]).reply.spec_i32_or(error) is Ok
    &&& 0 < d.len() < entries.len() ==> d.last().reply.spec_i32_or(error) is Err
}

/// The parts that the exchanges `d` yielded, if each of them yielded one.
pub open spec fn parts_read(d: Seq<Exchange>, error: MgpError) -> Result<Seq<i32>, MgpError> {
    if forall|i: int| 0 <= i < d.len() ==> (#[trigger] d[i]).reply.spec_i32_or(error) is Ok {
        Ok(Seq::new(d.len(), |i: int| d[i].reply.spec_i32_or(error)->Ok_0))
    } else {
        Err(error)
    }
}

/// A result that carries parts, with the parts taken by their view.
pub open spec fn parts_result(r: Result<Vec<i32>, MgpError>) -> Result<Seq<i32>, MgpError> {
    match r {
        Ok(parts) => Ok(parts@),
        Err(e) => Err(e),
    }
}

/// Reads, in the order of `entries`, parts that are integers. The first
/// that cannot be read ends the reading.
#[verifier::loop_isolation(false)]
fn read_parts<H: Host>(entries: &Vec<Entry>, error: MgpError, mg: &mut Memgraph<H>) -> (r: Result<
    Vec<i32>,
    MgpError,
>)
    requires
        forall|i: int| 0 <= i < entries@.len() ==> (#[trigger] entries@[i]).moves_nothing(),
    ensures
        final(mg).continues(*old(mg)),
        final(mg).balanced(*old(mg), None),
        reads_asked(entries@, error, final(mg).since(*old(mg))),
        parts_result(r) == parts_read(final(mg).since(*old(mg)), error),
        r matches Ok(parts) ==> parts@.len() == entries@.len(),
{
    let ghost s0 = *mg;
    let mut parts: Vec<i32> = Vec::new();
    let mut i: usize = 0;
    assert(mg.since(s0) =~= Seq::<Exchange>::empty());
    assert(mg.trace() + Seq::<Exchange>::empty() =~= mg.trace());
    while i < entries.len()
        invariant
            i <= entries.len(),
            mg.continues(s0),
            mg.balanced(s0, None),
            mg.since(s0).len() == i,
            parts@.len() == i,
            forall|k: int| 0 <= k < entries@.len() ==> (#[trigger] entries@[k]).moves_nothing(),
            forall|k: int| 0 <= k < i ==> (#[trigger] mg.since(s0)[k]).asks(entries@[k], Seq::empty()),
            forall|k: int|
                0 <= k < i ==> (#[trigger] mg.since(s0)[k]).reply.spec_i32_or(error) == Ok::<
                    i32,
                    MgpError,
                >(parts@[k]),
        decreases entries.len() - i,
    {
        let ghost a = *mg;
        let entry = entries[i];
        let reply = mg.call(entry);
        proof {
            lemma_continues_chain(s0, a, *mg);
            assert(mg.since(s0) =~= a.since(s0).push(mg.answer()));
        }
        match reply.i32_or(error) {
            Ok(part) => {
                parts.push(part);
            },
            Err(e) => {
                return Err(e);
            },
        }
        i = i + 1;
    }
    proof {
        let d = mg.since(s0);
        assert(parts@ =~= Seq::new(d.len(), |k: int| d[k].reply.spec_i32_or(error)->Ok_0));
    }
    Ok(parts)
}

/// A borrowed view of a date that the host owns.
#[derive(Clone, Copy, Debug, PartialEq, Eq, Structural)]
pub struct DateRef {
    pub handle: Handle,
}

/// A borrowed view of a time of day that the host owns.
#[derive(Clone, Copy, Debug, PartialEq, Eq, Structural)]
pub struct LocalTimeRef {
    pub handle: Handle,
}

/// A borrowed view of a date with a time of day that the host owns.
#[derive(Clone, Copy, Debug, PartialEq, Eq, Structural)]
pub struct LocalDateTimeRef {
    pub handle: Handle,
}

/// A borrowed view of a duration that the host owns.
#[derive(Clone, Copy, Debug, PartialEq, Eq, Structural)]
pub struct DurationRef {
    pub handle: Handle,
}

/// A date that this layer owns at the host, made from a native date. It is
/// handed back by [`Date::release`], once.
#[derive(Debug, PartialEq, Eq)]
pub struct Date {
    handle: Handle,
}

/// A time of day that this layer owns at the host, made from a native time.
/// It is handed back by [`LocalTime::release`], once.
#[derive(Debug, PartialEq, Eq)]
pub struct LocalTime {
    handle: Handle,
}

/// A date with a time of day that this layer owns at the host. It is handed
/// back by [`LocalDateTime::release`], once.
#[derive(Debug, PartialEq, Eq)]
pub struct LocalDateTime {
    handle: Handle,
}

/// A duration that this layer owns at the host. It is handed back by
/// [`Duration::release`], once.
#[derive(Debug, PartialEq, Eq)]
pub struct Duration {
    handle: Handle,
}

/// A date together with a time of day, without a time zone.
#[derive(Clone, Copy, Debug, PartialEq, Eq)]
pub struct CalendarDateTime {
    pub date: CalendarDate,
    pub time: ClockTime,
}

/// A signed span of time: whole seconds, and nanoseconds that count forward
/// from them.
#[derive(Clone, Copy, Debug, PartialEq, Eq)]
pub struct TimeSpan {
    seconds: i64,
    nanoseconds: u32,
}

/// A span of time as contracts see it, in nanoseconds.
pub struct SpanView {
    pub seconds: int,
    pub nanoseconds: int,
}

impl View for TimeSpan {
    type V = SpanView;

    closed spec fn view(&self) -> SpanView {
        SpanView { seconds: self.seconds as int, nanoseconds: self.nanoseconds as int }
    }
}

/// The whole microseconds in a span, toward the past for what is finer.
pub open spec fn microseconds_of(span: SpanView) -> int {
    span.seconds * MICROS_PER_SECOND + span.nanoseconds / (NANOS_PER_MICRO as int)
}

/// The span of `microseconds` microseconds.
pub open spec fn span_of_microseconds(microseconds: int) -> SpanView {
    SpanView {
        seconds: microseconds / (MICROS_PER_SECOND as int),
        nanoseconds: (microseconds % (MICROS_PER_SECOND as int)) * NANOS_PER_MICRO,
    }
}

impl TimeSpan {
    #[verifier::type_invariant]
    spec fn well_formed(&self) -> bool {
        self.nanoseconds < NANOS_PER_SECOND
    }

    /// Whether the nanoseconds are less than a second. They are in every span
    /// that the constructors hand out.
    pub open spec fn is_valid(&self) -> bool {
        0 <= self@.nanoseconds < NANOS_PER_SECOND
    }

    /// The span of `seconds` seconds and `nanoseconds` nanoseconds, if the
    /// nanoseconds are less than a second.
    pub fn new(seconds: i64, nanoseconds: u32) -> (span: Option<TimeSpan>)
        ensures
            span is Some <==> nanoseconds < NANOS_PER_SECOND,
            span matches Some(s) ==> s@ == (SpanView {
                seconds: seconds as int,
                nanoseconds: nanoseconds as int,
            }) && s.is_valid(),
    {
        if nanoseconds < NANOS_PER_SECOND {
            Some(TimeSpan { seconds, nanoseconds })
        } else {
            None
        }
    }

    /// The span of `microseconds` microseconds.
    pub fn from_microseconds(microseconds: i64) -> (span: TimeSpan)
        ensures
            span@ == span_of_microseconds(microseconds as int),
            span.is_valid(),
    {
        if microseconds >= 0 {
            let seconds = microseconds / 1_000_000;
            let rest = (microseconds % 1_000_000) as u32;
            TimeSpan { seconds, nanoseconds: rest * NANOS_PER_MICRO }
        } else {
            // Whole seconds are counted toward the past, so that what is
            // left counts forward.
            let back: i128 = -(microseconds as i128);
            let whole: i128 = (back + 999_999) / 1_000_000;
            let rest: i128 = whole * 1_000_000 - back;
            assert(-whole == (microseconds as int) / 1_000_000);
            assert(rest == (microseconds as int) % 1_000_000);
            TimeSpan { seconds: (-whole) as i64, nanoseconds: (rest as u32) * NANOS_PER_MICRO }
        }
    }

    pub fn seconds(&self) -> (seconds: i64)
        ensures
            seconds == self@.seconds,
    {
        self.seconds
    }

    /// The nanoseconds beyond the whole seconds, less than a second.
    pub fn nanoseconds(&self) -> (nanoseconds: u32)
        ensures
            nanoseconds == self@.nanoseconds,
            nanoseconds < NANOS_PER_SECOND,
            self.is_valid(),
    {
        proof {
            use_type_invariant(self);
        }
        self.nanoseconds
    }

    /// The whole microseconds in the span, if they fit in 64 bits.
    pub fn microseconds(&self) -> (microseconds: Option<i64>)
        ensures
            i64::MIN <= microseconds_of(self@) <= i64::MAX ==> microseconds == Some(
                microseconds_of(self@) as i64,
            ),
            !(i64::MIN <= microseconds_of(self@) <= i64::MAX) ==> microseconds is None,
    {
        let total: i128 = self.seconds() as i128 * 1_000_000 + (self.nanoseconds()
            / NANOS_PER_MICRO) as i128;
        if total < -9_223_372_036_854_775_808 || total > 9_223_372_036_854_775_807 {
            None
        } else {
            Some(total as i64)
        }
    }
}

/// The calls that read the year, the month and the day of `date`.
pub open spec fn date_entries(date: Handle) -> Seq<Entry> {
    seq![
        Entry::DateGet { field: DateField::Year, date },
        Entry::DateGet { field: DateField::Month, date },
        Entry::DateGet { field: DateField::Day, date },
    ]
}

/// The calls that read the parts of the time of day `time`.
pub open spec fn time_entries(time: Handle) -> Seq<Entry> {
    seq![
        Entry::LocalTimeGet { field: TimeField::Hour, time },
        Entry::LocalTimeGet { field: TimeField::Minute, time },
        Entry::LocalTimeGet { field: TimeField::Second, time },
        Entry::LocalTimeGet { field: TimeField::Millisecond, time },
        Entry::LocalTimeGet { field: TimeField::Microsecond, time },
    ]
}

/// The calls that read the parts of the date with time of day `date_time`.
pub open spec fn date_time_entries(date_time: Handle) -> Seq<Entry> {
    seq![
        Entry::LocalDateTimeGetDate { field: DateField::Year, date_time },
        Entry::LocalDateTimeGetDate { field: DateField::Month, date_time },
        Entry::LocalDateTimeGetDate { field: DateField::Day, date_time },
        Entry::LocalDateTimeGetTime { field: TimeField::Hour, date_time },
        Entry::LocalDateTimeGetTime { field: TimeField::Minute, date_time },
        Entry::LocalDateTimeGetTime { field: TimeField::Second, date_time },
        Entry::LocalDateTimeGetTime { field: TimeField::Millisecond, date_time },
        Entry::LocalDateTimeGetTime { field: TimeField::Microsecond, date_time },
    ]
}

/// The date that three parts read from the host stand for. Parts that are
/// no date of the calendar are a failure.
pub open spec fn date_from_parts(parts: Result<Seq<i32>, MgpError>, error: MgpError) -> Result<
    DateView,
    MgpError,
> {
    match parts {
        Err(e) => Err(e),
        Ok(p) => match date_of_parameters(DateParameters { year: p[0], month: p[1], day: p[2] }) {
            Some(date) => Ok(date),
            None => Err(error),
        },
    }
}

/// The time of day that five parts read from the host stand for. Parts that
/// no clock can show are a failure.
pub open spec fn time_from_parts(parts: Result<Seq<i32>, MgpError>, error: MgpError) -> Result<
    TimeView,
    MgpError,
> {
    match parts {
        Err(e) => Err(e),
        Ok(p) => match time_of_parameters(
            LocalTimeParameters {
                hour: p[0],
                minute: p[1],
                second: p[2],
                millisecond: p[3],
                microsecond: p[4],
            },
        ) {
            Some(time) => Ok(time),
            None => Err(error),
        },
    }
}

/// The date and the time of day that eight parts read from the host stand
/// for.
pub open spec fn date_time_from_parts(parts: Result<Seq<i32>, MgpError>, error: MgpError) -> Result<
    (DateView, TimeView),
    MgpError,
> {
    match parts {
        Err(e) => Err(e),
        Ok(p) => match (
            date_from_parts(Ok(p.take(3)), error),
            time_from_parts(Ok(p.skip(3)), error),
        ) {
            (Ok(date), Ok(time)) => Ok((date, time)),
            _ => Err(error),
        },
    }
}

/// A result that carries a native date, with the date taken by its view.
pub open spec fn date_result(r: Result<CalendarDate, MgpError>) -> Result<DateView, MgpError> {
    match r {
        Ok(date) => Ok(date@),
        Err(e) => Err(e),
    }
}

/// A result that carries a native time, with the time taken by its view.
pub open spec fn time_result(r: Result<ClockTime, MgpError>) -> Result<TimeView, MgpError> {
    match r {
        Ok(time) => Ok(time@),
        Err(e) => Err(e),
    }
}

/// A result that carries a native date and time, with both taken by their
/// views.
pub open spec fn date_time_result(r: Result<CalendarDateTime, MgpError>) -> Result<
    (DateView, TimeView),
    MgpError,
> {
    match r {
        Ok(date_time) => Ok((date_time.date@, date_time.time@)),
        Err(e) => Err(e),
    }
}

/// The exchanges `d` are those of making a date of the host from `date`, and
/// `r` is what they come to. A year that the host cannot represent is
/// refused without a call.
pub open spec fn date_make_run(date: DateView, d: Seq<Exchange>, r: Result<Handle, MgpError>) -> bool {
    let error = MgpError::UnableToCreateDateFromNaiveDate;
    if is_representable_year(date.year) {
        &&& d.len() == 1
        &&& d[0].asks(
            Entry::DateFromParameters { parameters: date_parameters_of(date) },
            Seq::empty(),
        )
        &&& r == d[0].reply.spec_handle_or(error)
    } else {
        d.len() == 0 && r == Err::<Handle, MgpError>(error)
    }
}

/// The exchanges `d` are those of making a date with time of day of the host
/// from `date` and `time`, and `r` is what they come to. A year that the host
/// cannot represent is refused without a call.
pub open spec fn date_time_make_run(
    date: DateView,
    time: TimeView,
    d: Seq<Exchange>,
    r: Result<Handle, MgpError>,
) -> bool {
    let error = MgpError::UnableToCreateLocalDateTimeFromNaiveDateTime;
    if is_representable_year(date.year) {
        &&& d.len() == 1
        &&& d[0].asks(
            Entry::LocalDateTimeFromParameters {
                date: date_parameters_of(date),
                time: local_time_parameters_of(time),
            },
            Seq::empty(),
        )
        &&& r == d[0].reply.spec_handle_or(error)
    } else {
        d.len() == 0 && r == Err::<Handle, MgpError>(error)
    }
}

/// The exchanges `d` are those of making a duration of the host from `span`,
/// and `r` is what they come to. A span whose microseconds do not fit in 64
/// bits is refused without a call.
pub open spec fn duration_make_run(span: SpanView, d: Seq<Exchange>, r: Result<Handle, MgpError>) -> bool {
    let error = MgpError::UnableToCreateDurationFromChronoDuration;
    if i64::MIN <= microseconds_of(span) <= i64::MAX {
        &&& d.len() == 1
        &&& d[0].asks(
            Entry::DurationFromMicroseconds { microseconds: microseconds_of(span) as i64 },
            Seq::empty(),
        )
        &&& r == d[0].reply.spec_handle_or(error)
    } else {
        d.len() == 0 && r == Err::<Handle, MgpError>(error)
    }
}


impl DateRef {
    /// A view of the date behind `handle`.
    pub fn new(handle: Handle) -> (date: DateRef)
        ensures
            date.handle == handle,
    {
        DateRef { handle }
    }

    /// The year, as the host reports it.
    pub fn year<H: Host>(&self, mg: &mut Memgraph<H>) -> (r: Result<i32, MgpError>)
        ensures
            final(mg).one_call(*old(mg), Entry::DateGet { field: DateField::Year, date: self.handle }, Seq::empty()),
            r == final(mg).answer().reply.spec_i32_or(MgpError::UnableToReadDate),
            final(mg).balanced(*old(mg), None),
    {
        mg.call(Entry::DateGet { field: DateField::Year, date: self.handle }).i32_or(MgpError::UnableToReadDate)
    }

    /// The month, as the host reports it.
    pub fn month<H: Host>(&self, mg: &mut Memgraph<H>) -> (r: Result<u32, MgpError>)
        ensures
            final(mg).one_call(*old(mg), Entry::DateGet { field: DateField::Month, date: self.handle }, Seq::empty()),
            r == final(mg).answer().reply.spec_u32_or(MgpError::UnableToReadDate),
            final(mg).balanced(*old(mg), None),
    {
        mg.call(Entry::DateGet { field: DateField::Month, date: self.handle }).u32_or(MgpError::UnableToReadDate)
    }

    /// The day of the month, as the host reports it.
    pub fn day<H: Host>(&self, mg: &mut Memgraph<H>) -> (r: Result<u32, MgpError>)
        ensures
            final(mg).one_call(*old(mg), Entry::DateGet { field: DateField::Day, date: self.handle }, Seq::empty()),
            r == final(mg).answer().reply.spec_u32_or(MgpError::UnableToReadDate),
            final(mg).balanced(*old(mg), None),
    {
        mg.call(Entry::DateGet { field: DateField::Day, date: self.handle }).u32_or(MgpError::UnableToReadDate)
    }

    /// Reads the date into a native one: year, month and day are asked for in
    /// turn, and what they make has to be a date of the calendar.
    pub fn to_calendar_date<H: Host>(&self, mg: &mut Memgraph<H>) -> (r: Result<
        CalendarDate,
        MgpError,
    >)
        ensures
            final(mg).continues(*old(mg)),
            final(mg).balanced(*old(mg), None),
            reads_asked(
                date_entries(self.handle),
                MgpError::UnableToReadDate,
                final(mg).since(*old(mg)),
            ),
            date_result(r) == date_from_parts(
                parts_read(final(mg).since(*old(mg)), MgpError::UnableToReadDate),
                MgpError::UnableToReadDate,
            ),
    {
        let date = self.handle;
        let entries = vec![
            Entry::DateGet { field: DateField::Year, date },
            Entry::DateGet { field: DateField::Month, date },
            Entry::DateGet { field: DateField::Day, date },
        ];
        assert(entries@ =~= date_entries(date));
        let parts = match read_parts(&entries, MgpError::UnableToReadDate, mg) {
            Ok(parts) => parts,
            Err(e) => {
                return Err(e);
            },
        };
        match calendar_date(DateParameters { year: parts[0], month: parts[1], day: parts[2] }) {
            Some(date) => Ok(date),
            None => Err(MgpError::UnableToReadDate),
        }
    }
}

/// A result that carries an owned date, with the date taken by its handle.
pub open spec fn date_made(r: Result<Date, MgpError>) -> Result<Handle, MgpError> {
    match r {
        Ok(made) => Ok(made.spec_as_ref().handle),
        Err(e) => Err(e),
    }
}

impl Date {
    /// The object that this value stands for in the account of owned objects.
    pub open spec fn token(&self) -> Token {
        Token { kind: Kind::Date, handle: self.spec_as_ref().handle }
    }

    pub closed spec fn spec_as_ref(&self) -> DateRef {
        DateRef { handle: self.handle }
    }

    /// A borrowed view, through which the parts are read.
    #[verifier::when_used_as_spec(spec_as_ref)]
    pub fn as_ref(&self) -> (view: DateRef)
        ensures
            view == self.spec_as_ref(),
    {
        DateRef { handle: self.handle }
    }

    /// Hands the object back to the host. It is consumed, so it cannot be
    /// released a second time.
    pub fn release<H: Host>(self, mg: &mut Memgraph<H>)
        ensures
            final(mg).one_call(
                *old(mg),
                Entry::Destroy { kind: Kind::Date, object: self.spec_as_ref().handle },
                Seq::empty(),
            ),
            final(mg).gave_up(*old(mg), self.token()),
    {
        mg.destroy(Kind::Date, self.handle);
    }

    /// Makes a date of the host from `date`. The year has to be one that the
    /// host can represent, which is checked before the host is asked.
    pub fn from_calendar_date<H: Host>(date: &CalendarDate, mg: &mut Memgraph<H>) -> (r: Result<
        Date,
        MgpError,
    >)
        ensures
            final(mg).continues(*old(mg)),
            date_make_run(date@, final(mg).since(*old(mg)), date_made(r)),
            !is_representable_year(date@.year) ==> final(mg).silent(*old(mg)),
            match r {
                Ok(made) => final(mg).balanced(*old(mg), Some(made.token())),
                Err(_) => final(mg).balanced(*old(mg), None),
            },
    {
        let parameters = match date_parameters(date) {
            Ok(parameters) => parameters,
            Err(e) => {
                assert(mg.since(*mg) =~= Seq::<Exchange>::empty());
                assert(mg.trace() + Seq::<Exchange>::empty() =~= mg.trace());
                return Err(e);
            },
        };
        match mg.call(Entry::DateFromParameters { parameters }).handle_or(
            MgpError::UnableToCreateDateFromNaiveDate,
        ) {
            Ok(handle) => Ok(Date { handle }),
            Err(e) => Err(e),
        }
    }
}

impl LocalTimeRef {
    /// A view of the time of day behind `handle`.
    pub fn new(handle: Handle) -> (time: LocalTimeRef)
        ensures
            time.handle == handle,
    {
        LocalTimeRef { handle }
    }

    /// The hour, as the host reports it.
    pub fn hour<H: Host>(&self, mg: &mut Memgraph<H>) -> (r: Result<u32, MgpError>)
        ensures
            final(mg).one_call(*old(mg), Entry::LocalTimeGet { field: TimeField::Hour, time: self.handle }, Seq::empty()),
            r == final(mg).answer().reply.spec_u32_or(MgpError::UnableToReadLocalTime),
            final(mg).balanced(*old(mg), None),
    {
        mg.call(Entry::LocalTimeGet { field: TimeField::Hour, time: self.handle }).u32_or(MgpError::UnableToReadLocalTime)
    }

    /// The minute, as the host reports it.
    pub fn minute<H: Host>(&self, mg: &mut Memgraph<H>) -> (r: Result<u32, MgpError>)
        ensures
            final(mg).one_call(*old(mg), Entry::LocalTimeGet { field: TimeField::Minute, time: self.handle }, Seq::empty()),
            r == final(mg).answer().reply.spec_u32_or(MgpError::UnableToReadLocalTime),
            final(mg).balanced(*old(mg), None),
    {
        mg.call(Entry::LocalTimeGet { field: TimeField::Minute, time: self.handle }).u32_or(MgpError::UnableToReadLocalTime)
    }

    /// The second, as the host reports it.
    pub fn second<H: Host>(&self, mg: &mut Memgraph<H>) -> (r: Result<u32, MgpError>)
        ensures
            final(mg).one_call(*old(mg), Entry::LocalTimeGet { field: TimeField::Second, time: self.handle }, Seq::empty()),
            r == final(mg).answer().reply.spec_u32_or(MgpError::UnableToReadLocalTime),
            final(mg).balanced(*old(mg), None),
    {
        mg.call(Entry::LocalTimeGet { field: TimeField::Second, time: self.handle }).u32_or(MgpError::UnableToReadLocalTime)
    }

    /// The whole milliseconds into the second, as the host reports it.
    pub fn millisecond<H: Host>(&self, mg: &mut Memgraph<H>) -> (r: Result<u32, MgpError>)
        ensures
            final(mg).one_call(*old(mg), Entry::LocalTimeGet { field: TimeField::Millisecond, time: self.handle }, Seq::empty()),
            r == final(mg).answer().reply.spec_u32_or(MgpError::UnableToReadLocalTime),
            final(mg).balanced(*old(mg), None),
    {
        mg.call(Entry::LocalTimeGet { field: TimeField::Millisecond, time: self.handle }).u32_or(MgpError::UnableToReadLocalTime)
    }

    /// The microseconds beyond the whole milliseconds, as the host reports it.
    pub fn microsecond<H: Host>(&self, mg: &mut Memgraph<H>) -> (r: Result<u32, MgpError>)
        ensures
            final(mg).one_call(*old(mg), Entry::LocalTimeGet { field: TimeField::Microsecond, time: self.handle }, Seq::empty()),
            r == final(mg).answer().reply.spec_u32_or(MgpError::UnableToReadLocalTime),
            final(mg).balanced(*old(mg), None),
    {
        mg.call(Entry::LocalTimeGet { field: TimeField::Microsecond, time: self.handle }).u32_or(MgpError::UnableToReadLocalTime)
    }

    /// Reads the time of day into a native one: the five parts are asked for
    /// in turn, and what they make has to be a time that a clock can show.
    pub fn to_clock_time<H: Host>(&self, mg: &mut Memgraph<H>) -> (r: Result<ClockTime, MgpError>)
        ensures
            final(mg).continues(*old(mg)),
            final(mg).balanced(*old(mg), None),
            reads_asked(
                time_entries(self.handle),
                MgpError::UnableToReadLocalTime,
                final(mg).since(*old(mg)),
            ),
            time_result(r) == time_from_parts(
                parts_read(final(mg).since(*old(mg)), MgpError::UnableToReadLocalTime),
                MgpError::UnableToReadLocalTime,
            ),
    {
        let time = self.handle;
        let entries = vec![
            Entry::LocalTimeGet { field: TimeField::Hour, time },
            Entry::LocalTimeGet { field: TimeField::Minute, time },
            Entry::LocalTimeGet { field: TimeField::Second, time },
            Entry::LocalTimeGet { field: TimeField::Millisecond, time },
            Entry::LocalTimeGet { field: TimeField::Microsecond, time },
        ];
        assert(entries@ =~= time_entries(time));
        let parts = match read_parts(&entries, MgpError::UnableToReadLocalTime, mg) {
            Ok(parts) => parts,
            Err(e) => {
                return Err(e);
            },
        };
        match clock_time(
            LocalTimeParameters {
                hour: parts[0],
                minute: parts[1],
                second: parts[2],
                millisecond: parts[3],
                microsecond: parts[4],
            },
        ) {
            Some(time) => Ok(time),
            None => Err(MgpError::UnableToReadLocalTime),
        }
    }
}

/// A result that carries an owned local time, with the local time taken by its handle.
pub open spec fn local_time_made(r: Result<LocalTime, MgpError>) -> Result<Handle, MgpError> {
    match r {
        Ok(made) => Ok(made.spec_as_ref().handle),
        Err(e) => Err(e),
    }
}

impl LocalTime {
    /// The object that this value stands for in the account of owned objects.
    pub open spec fn token(&self) -> Token {
        Token { kind: Kind::LocalTime, handle: self.spec_as_ref().handle }
    }

    pub closed spec fn spec_as_ref(&self) -> LocalTimeRef {
        LocalTimeRef { handle: self.handle }
    }

    /// A borrowed view, through which the parts are read.
    #[verifier::when_used_as_spec(spec_as_ref)]
    pub fn as_ref(&self) -> (view: LocalTimeRef)
        ensures
            view == self.spec_as_ref(),
    {
        LocalTimeRef { handle: self.handle }
    }

    /// Hands the object back to the host. It is consumed, so it cannot be
    /// released a second time.
    pub fn release<H: Host>(self, mg: &mut Memgraph<H>)
        ensures
            final(mg).one_call(
                *old(mg),
                Entry::Destroy { kind: Kind::LocalTime, object: self.spec_as_ref().handle },
                Seq::empty(),
            ),
            final(mg).gave_up(*old(mg), self.token()),
    {
        mg.destroy(Kind::LocalTime, self.handle);
    }

    /// Makes a time of day of the host from `time`. A leap second folds onto
    /// the second before it, and what is finer than a microsecond is dropped.
    pub fn from_clock_time<H: Host>(time: &ClockTime, mg: &mut Memgraph<H>) -> (r: Result<
        LocalTime,
        MgpError,
    >)
        ensures
            final(mg).one_call(
                *old(mg),
                Entry::LocalTimeFromParameters { parameters: local_time_parameters_of(time@) },
                Seq::empty(),
            ),
            local_time_made(r) == final(mg).answer().reply.spec_handle_or(
                MgpError::UnableToCreateLocalTimeFromNaiveTime,
            ),
            match r {
                Ok(made) => final(mg).balanced(*old(mg), Some(made.token())),
                Err(_) => final(mg).balanced(*old(mg), None),
            },
    {
        let parameters = local_time_parameters(time);
        match mg.call(Entry::LocalTimeFromParameters { parameters }).handle_or(
            MgpError::UnableToCreateLocalTimeFromNaiveTime,
        ) {
            Ok(handle) => Ok(LocalTime { handle }),
            Err(e) => Err(e),
        }
    }
}

impl LocalDateTimeRef {
    /// A view of the date with time of day behind `handle`.
    pub fn new(handle: Handle) -> (date_time: LocalDateTimeRef)
        ensures
            date_time.handle == handle,
    {
        LocalDateTimeRef { handle }
    }

    /// A part of the date, as the host reports it.
    pub fn date_part<H: Host>(&self, field: DateField, mg: &mut Memgraph<H>) -> (r: Result<
        i32,
        MgpError,
    >)
        ensures
            final(mg).one_call(
                *old(mg),
                Entry::LocalDateTimeGetDate { field, date_time: self.handle },
                Seq::empty(),
            ),
            r == final(mg).answer().reply.spec_i32_or(MgpError::UnableToReadLocalDateTime),
            final(mg).balanced(*old(mg), None),
    {
        mg.call(Entry::LocalDateTimeGetDate { field, date_time: self.handle }).i32_or(
            MgpError::UnableToReadLocalDateTime,
        )
    }

    /// A part of the time of day, as the host reports it.
    pub fn time_part<H: Host>(&self, field: TimeField, mg: &mut Memgraph<H>) -> (r: Result<
        u32,
        MgpError,
    >)
        ensures
            final(mg).one_call(
                *old(mg),
                Entry::LocalDateTimeGetTime { field, date_time: self.handle },
                Seq::empty(),
            ),
            r == final(mg).answer().reply.spec_u32_or(MgpError::UnableToReadLocalDateTime),
            final(mg).balanced(*old(mg), None),
    {
        mg.call(Entry::LocalDateTimeGetTime { field, date_time: self.handle }).u32_or(
            MgpError::UnableToReadLocalDateTime,
        )
    }

    /// Reads the date and the time of day into native ones: the eight parts
    /// are asked for in turn.
    pub fn to_calendar_date_time<H: Host>(&self, mg: &mut Memgraph<H>) -> (r: Result<
        CalendarDateTime,
        MgpError,
    >)
        ensures
            final(mg).continues(*old(mg)),
            final(mg).balanced(*old(mg), None),
            reads_asked(
                date_time_entries(self.handle),
                MgpError::UnableToReadLocalDateTime,
                final(mg).since(*old(mg)),
            ),
            date_time_result(r) == date_time_from_parts(
                parts_read(final(mg).since(*old(mg)), MgpError::UnableToReadLocalDateTime),
                MgpError::UnableToReadLocalDateTime,
            ),
    {
        let date_time = self.handle;
        let entries = vec![
            Entry::LocalDateTimeGetDate { field: DateField::Year, date_time },
            Entry::LocalDateTimeGetDate { field: DateField::Month, date_time },
            Entry::LocalDateTimeGetDate { field: DateField::Day, date_time },
            Entry::LocalDateTimeGetTime { field: TimeField::Hour, date_time },
            Entry::LocalDateTimeGetTime { field: TimeField::Minute, date_time },
            Entry::LocalDateTimeGetTime { field: TimeField::Second, date_time },
            Entry::LocalDateTimeGetTime { field: TimeField::Millisecond, date_time },
            Entry::LocalDateTimeGetTime { field: TimeField::Microsecond, date_time },
        ];
        assert(entries@ =~= date_time_entries(date_time));
        let parts = match read_parts(&entries, MgpError::UnableToReadLocalDateTime, mg) {
            Ok(parts) => parts,
            Err(e) => {
                return Err(e);
            },
        };
        let date = calendar_date(DateParameters { year: parts[0], month: parts[1], day: parts[2] });
        let time = clock_time(
            LocalTimeParameters {
                hour: parts[3],
                minute: parts[4],
                second: parts[5],
                millisecond: parts[6],
                microsecond: parts[7],
            },
        );
        match (date, time) {
            (Some(date), Some(time)) => Ok(CalendarDateTime { date, time }),
            _ => Err(MgpError::UnableToReadLocalDateTime),
        }
    }
}

/// A result that carries an owned local date time, with the local date time taken by its handle.
pub open spec fn local_date_time_made(r: Result<LocalDateTime, MgpError>) -> Result<Handle, MgpError> {
    match r {
        Ok(made) => Ok(made.spec_as_ref().handle),
        Err(e) => Err(e),
    }
}

impl LocalDateTime {
    /// The object that this value stands for in the account of owned objects.
    pub open spec fn token(&self) -> Token {
        Token { kind: Kind::LocalDateTime, handle: self.spec_as_ref().handle }
    }

    pub closed spec fn spec_as_ref(&self) -> LocalDateTimeRef {
        LocalDateTimeRef { handle: self.handle }
    }

    /// A borrowed view, through which the parts are read.
    #[verifier::when_used_as_spec(spec_as_ref)]
    pub fn as_ref(&self) -> (view: LocalDateTimeRef)
        ensures
            view == self.spec_as_ref(),
    {
        LocalDateTimeRef { handle: self.handle }
    }

    /// Hands the object back to the host. It is consumed, so it cannot be
    /// released a second time.
    pub fn release<H: Host>(self, mg: &mut Memgraph<H>)
        ensures
            final(mg).one_call(
                *old(mg),
                Entry::Destroy { kind: Kind::LocalDateTime, object: self.spec_as_ref().handle },
                Seq::empty(),
            ),
            final(mg).gave_up(*old(mg), self.token()),
    {
        mg.destroy(Kind::LocalDateTime, self.handle);
    }

    /// Makes a date with time of day of the host from `date_time`. The year
    /// has to be one that the host can represent, which is checked before the
    /// host is asked.
    pub fn from_calendar_date_time<H: Host>(date_time: &CalendarDateTime, mg: &mut Memgraph<H>) -> (r:
        Result<LocalDateTime, MgpError>)
        ensures
            final(mg).continues(*old(mg)),
            date_time_make_run(
                date_time.date@,
                date_time.time@,
                final(mg).since(*old(mg)),
                local_date_time_made(r),
            ),
            !is_representable_year(date_time.date@.year) ==> final(mg).silent(*old(mg)),
            match r {
                Ok(made) => final(mg).balanced(*old(mg), Some(made.token())),
                Err(_) => final(mg).balanced(*old(mg), None),
            },
    {
        let date = match date_parameters(&date_time.date) {
            Ok(date) => date,
            Err(_) => {
                assert(mg.since(*mg) =~= Seq::<Exchange>::empty());
                assert(mg.trace() + Seq::<Exchange>::empty() =~= mg.trace());
                return Err(MgpError::UnableToCreateLocalDateTimeFromNaiveDateTime);
            },
        };
        let time = local_time_parameters(&date_time.time);
        match mg.call(Entry::LocalDateTimeFromParameters { date, time }).handle_or(
            MgpError::UnableToCreateLocalDateTimeFromNaiveDateTime,
        ) {
            Ok(handle) => Ok(LocalDateTime { handle }),
            Err(e) => Err(e),
        }
    }
}

impl DurationRef {
    /// A view of the duration behind `handle`.
    pub fn new(handle: Handle) -> (duration: DurationRef)
        ensures
            duration.handle == handle,
    {
        DurationRef { handle }
    }

    /// The duration in microseconds, as the host reports it.
    pub fn microseconds<H: Host>(&self, mg: &mut Memgraph<H>) -> (r: Result<i64, MgpError>)
        ensures
            final(mg).one_call(*old(mg), Entry::DurationGetMicroseconds { duration: self.handle }, Seq::empty()),
            r == final(mg).answer().reply.spec_int_or(MgpError::UnableToReadDuration),
            final(mg).balanced(*old(mg), None),
    {
        mg.call(Entry::DurationGetMicroseconds { duration: self.handle }).int_or(MgpError::UnableToReadDuration)
    }

    /// Reads the duration into a native span.
    pub fn to_time_span<H: Host>(&self, mg: &mut Memgraph<H>) -> (r: Result<TimeSpan, MgpError>)
        ensures
            final(mg).one_call(
                *old(mg),
                Entry::DurationGetMicroseconds { duration: self.handle },
                Seq::empty(),
            ),
            final(mg).balanced(*old(mg), None),
            match final(mg).answer().reply.spec_int_or(MgpError::UnableToReadDuration) {
                Ok(microseconds) => r matches Ok(span) && span@ == span_of_microseconds(
                    microseconds as int,
                ),
                Err(e) => r == Err::<TimeSpan, MgpError>(e),
            },
    {
        match self.microseconds(mg) {
            Ok(microseconds) => Ok(TimeSpan::from_microseconds(microseconds)),
            Err(e) => Err(e),
        }
    }
}

/// A result that carries an owned duration, with the duration taken by its handle.
pub open spec fn duration_made(r: Result<Duration, MgpError>) -> Result<Handle, MgpError> {
    match r {
        Ok(made) => Ok(made.spec_as_ref().handle),
        Err(e) => Err(e),
    }
}

impl Duration {
    /// The object that this value stands for in the account of owned objects.
    pub open spec fn token(&self) -> Token {
        Token { kind: Kind::Duration, handle: self.spec_as_ref().handle }
    }

    pub closed spec fn spec_as_ref(&self) -> DurationRef {
        DurationRef { handle: self.handle }
    }

    /// A borrowed view, through which the parts are read.
    #[verifier::when_used_as_spec(spec_as_ref)]
    pub fn as_ref(&self) -> (view: DurationRef)
        ensures
            view == self.spec_as_ref(),
    {
        DurationRef { handle: self.handle }
    }

    /// Hands the object back to the host. It is consumed, so it cannot be
    /// released a second time.
    pub fn release<H: Host>(self, mg: &mut Memgraph<H>)
        ensures
            final(mg).one_call(
                *old(mg),
                Entry::Destroy { kind: Kind::Duration, object: self.spec_as_ref().handle },
                Seq::empty(),
            ),
            final(mg).gave_up(*old(mg), self.token()),
    {
        mg.destroy(Kind::Duration, self.handle);
    }

    /// Makes a duration of the host from `span`, to the microsecond. The
    /// microseconds have to fit in 64 bits, which is checked before the host
    /// is asked.
    pub fn from_time_span<H: Host>(span: &TimeSpan, mg: &mut Memgraph<H>) -> (r: Result<
        Duration,
        MgpError,
    >)
        ensures
            final(mg).continues(*old(mg)),
            duration_make_run(span@, final(mg).since(*old(mg)), duration_made(r)),
            match r {
                Ok(made) => final(mg).balanced(*old(mg), Some(made.token())),
                Err(_) => final(mg).balanced(*old(mg), None),
            },
    {
        let microseconds = match span.microseconds() {
            Some(microseconds) => microseconds,
            None => {
                assert(mg.since(*mg) =~= Seq::<Exchange>::empty());
                assert(mg.trace() + Seq::<Exchange>::empty() =~= mg.trace());
                return Err(MgpError::UnableToCreateDurationFromChronoDuration);
            },
        };
        match mg.call(Entry::DurationFromMicroseconds { microseconds }).handle_or(
            MgpError::UnableToCreateDurationFromChronoDuration,
        ) {
            Ok(handle) => Ok(Duration { handle }),
            Err(e) => Err(e),
        }
    }
}

} // verus!
