use rsmgp_sys::memgraph::{Context, Memgraph};
use rsmgp_sys::mgp::{
    DateField, DateParameters, Entry, Handle, Kind, LocalTimeParameters, Payload, Reply,
    TimeField,
};
use rsmgp_sys::result::MgpError;
use rsmgp_sys::scripted::Scripted;
use rsmgp_sys::status::Status;
use rsmgp_sys::temporal::{
    calendar_date, clock_time, date_parameters, local_time_parameters, CalendarDate,
    CalendarDateTime, ClockTime, Date, DateRef, Duration, DurationRef, LocalDateTime,
    LocalDateTimeRef, LocalTime, LocalTimeRef, TimeSpan,
};

fn memgraph_with(replies: Vec<Reply>) -> Memgraph<Scripted> {
    Memgraph::new(Scripted::new(replies), Context::default())
}

fn handle(addr: u64) -> Handle {
    Handle { addr }
}

fn gives(addr: u64) -> Reply {
    Reply::success(Payload::Handle(handle(addr)))
}

fn integer(value: i64) -> Reply {
    Reply::success(Payload::Int(value))
}

fn entries(memgraph: &Memgraph<Scripted>) -> Vec<Entry> {
    memgraph.host().requests().iter().map(|request| request.entry).collect()
}

fn date(year: i32, month: u32, day: u32) -> CalendarDate {
    CalendarDate::from_ymd(year, month, day).unwrap()
}

fn time(hour: u32, minute: u32, second: u32, microsecond: u32) -> ClockTime {
    ClockTime::from_hms_micro(hour, minute, second, microsecond).unwrap()
}

fn check_date_reaches_the_host(native: CalendarDate) {
    let mut memgraph = memgraph_with(vec![gives(30)]);
    let made = Date::from_calendar_date(&native, &mut memgraph).unwrap();
    assert_eq!(
        entries(&memgraph),
        vec![Entry::DateFromParameters {
            parameters: DateParameters {
                year: native.year(),
                month: native.month() as i32,
                day: native.day() as i32,
            },
        }]
    );
    made.release(&mut memgraph);
    assert_eq!(
        entries(&memgraph)[1..],
        [Entry::Destroy { kind: Kind::Date, object: handle(30) }]
    );
}

#[test]
fn test_from_naive_date() {
    check_date_reaches_the_host(date(0, 1, 1));
    check_date_reaches_the_host(date(1834, 1, 1));
    check_date_reaches_the_host(date(1996, 12, 7));
    check_date_reaches_the_host(date(9999, 12, 31));
}

#[test]
fn test_date_accessors() {
    let year = 1934;
    let month = 2;
    let day = 31;
    let mut memgraph = memgraph_with(vec![integer(year), integer(month), integer(day)]);
    let date = DateRef::new(handle(30));
    assert_eq!(date.year(&mut memgraph).unwrap() as i64, year);
    assert_eq!(date.month(&mut memgraph).unwrap() as i64, month);
    assert_eq!(date.day(&mut memgraph).unwrap() as i64, day);
    assert_eq!(
        entries(&memgraph),
        vec![
            Entry::DateGet { field: DateField::Year, date: handle(30) },
            Entry::DateGet { field: DateField::Month, date: handle(30) },
            Entry::DateGet { field: DateField::Day, date: handle(30) },
        ]
    );
}

fn check_invalid_date(native: CalendarDate) {
    let mut memgraph = memgraph_with(vec![gives(30)]);
    let result = Date::from_calendar_date(&native, &mut memgraph);
    assert!(result.is_err());
    assert_eq!(result.err().unwrap(), MgpError::UnableToCreateDateFromNaiveDate);
    // The host was not asked.
    assert_eq!(memgraph.host().calls(), 0);
}

#[test]
fn test_invalid_date() {
    check_invalid_date(date(-1, 12, 31));
    check_invalid_date(date(10000, 1, 1));
}

#[test]
fn test_date_unable_to_allocate() {
    let mut memgraph = memgraph_with(vec![Reply::failure(Status::UnableToAllocate)]);
    // Day zero of the common era: the last day of the year 0.
    let error = Date::from_calendar_date(&date(0, 12, 31), &mut memgraph);
    assert!(error.is_err());
    assert_eq!(error.err().unwrap(), MgpError::UnableToCreateDateFromNaiveDate);
    assert_eq!(memgraph.host().calls(), 1);
}

fn check_time_reaches_the_host(native: ClockTime, millis: i32, micros: i32) {
    let mut memgraph = memgraph_with(vec![gives(40)]);
    let made = LocalTime::from_clock_time(&native, &mut memgraph).unwrap();
    assert_eq!(
        entries(&memgraph),
        vec![Entry::LocalTimeFromParameters {
            parameters: LocalTimeParameters {
                hour: native.hour() as i32,
                minute: native.minute() as i32,
                second: native.second() as i32,
                millisecond: millis,
                microsecond: micros,
            },
        }]
    );
    made.release(&mut memgraph);
    assert_eq!(
        entries(&memgraph)[1..],
        [Entry::Destroy { kind: Kind::LocalTime, object: handle(40) }]
    );
}

#[test]
fn test_from_naive_time() {
    check_time_reaches_the_host(time(0, 0, 0, 0), 0, 0);
    check_time_reaches_the_host(time(23, 59, 59, 999_999), 999, 999);
    check_time_reaches_the_host(time(1, 2, 3, 444_555), 444, 555);
    // Leap seconds
    check_time_reaches_the_host(time(23, 59, 59, 1_999_999), 999, 999);
    check_time_reaches_the_host(time(1, 2, 3, 1_444_555), 444, 555);
}

#[test]
fn test_local_time_accessors() {
    let hour = 23;
    let minute = 1;
    let second = 2;
    let millisecond = 3;
    let microsecond = 4;
    let mut memgraph = memgraph_with(vec![
        integer(hour),
        integer(minute),
        integer(second),
        integer(millisecond),
        integer(microsecond),
    ]);
    let time = LocalTimeRef::new(handle(40));
    assert_eq!(time.hour(&mut memgraph).unwrap() as i64, hour);
    assert_eq!(time.minute(&mut memgraph).unwrap() as i64, minute);
    assert_eq!(time.second(&mut memgraph).unwrap() as i64, second);
    assert_eq!(time.millisecond(&mut memgraph).unwrap() as i64, millisecond);
    assert_eq!(time.microsecond(&mut memgraph).unwrap() as i64, microsecond);
    assert_eq!(
        entries(&memgraph),
        vec![
            Entry::LocalTimeGet { field: TimeField::Hour, time: handle(40) },
            Entry::LocalTimeGet { field: TimeField::Minute, time: handle(40) },
            Entry::LocalTimeGet { field: TimeField::Second, time: handle(40) },
            Entry::LocalTimeGet { field: TimeField::Millisecond, time: handle(40) },
            Entry::LocalTimeGet { field: TimeField::Microsecond, time: handle(40) },
        ]
    );
}

#[test]
fn test_local_time_unable_to_allocate() {
    let mut memgraph = memgraph_with(vec![Reply::failure(Status::UnableToAllocate)]);
    let error = LocalTime::from_clock_time(&time(0, 0, 0, 0), &mut memgraph);
    assert!(error.is_err());
    assert_eq!(
        error.err().unwrap(),
        MgpError::UnableToCreateLocalTimeFromNaiveTime
    );
}

#[test]
fn the_calendar_knows_its_leap_years() {
    assert!(CalendarDate::from_ymd(2000, 2, 29).is_some());
    assert!(CalendarDate::from_ymd(1900, 2, 29).is_none());
    assert!(CalendarDate::from_ymd(1996, 2, 29).is_some());
    assert!(CalendarDate::from_ymd(1997, 2, 29).is_none());
    assert!(CalendarDate::from_ymd(0, 2, 29).is_some());
    assert!(CalendarDate::from_ymd(-4, 2, 29).is_some());
    assert!(CalendarDate::from_ymd(-1, 2, 29).is_none());
    assert!(CalendarDate::from_ymd(-100, 2, 29).is_none());
    assert!(CalendarDate::from_ymd(-400, 2, 29).is_some());
    assert!(CalendarDate::from_ymd(i32::MIN, 2, 29).is_some());
    assert!(CalendarDate::from_ymd(i32::MAX, 2, 29).is_none());
}

#[test]
fn the_calendar_knows_the_length_of_each_month() {
    let lengths = [31, 28, 31, 30, 31, 30, 31, 31, 30, 31, 30, 31];
    for (index, length) in lengths.iter().enumerate() {
        let month = index as u32 + 1;
        assert!(CalendarDate::from_ymd(2021, month, *length).is_some());
        assert!(CalendarDate::from_ymd(2021, month, *length + 1).is_none());
        assert!(CalendarDate::from_ymd(2021, month, 0).is_none());
    }
    assert!(CalendarDate::from_ymd(2021, 0, 1).is_none());
    assert!(CalendarDate::from_ymd(2021, 13, 1).is_none());
}

#[test]
fn the_clock_refuses_what_it_cannot_show() {
    assert!(ClockTime::from_hms_micro(24, 0, 0, 0).is_none());
    assert!(ClockTime::from_hms_micro(0, 60, 0, 0).is_none());
    assert!(ClockTime::from_hms_micro(0, 0, 60, 0).is_none());
    assert!(ClockTime::from_hms_micro(0, 0, 0, 2_000_000).is_none());
    assert!(ClockTime::from_hms_micro(0, 0, 0, 1_999_999).is_some());
    assert!(ClockTime::from_hms_nano(23, 59, 59, 1_999_999_999).is_some());
    assert!(ClockTime::from_hms_nano(23, 59, 59, 2_000_000_000).is_none());
    assert_eq!(time(1, 2, 3, 4).nanosecond(), 4_000);
}

#[test]
fn years_out_of_range_are_refused_before_the_host_is_asked() {
    for year in [-1, -9999, 10000, 12345, i32::MIN, i32::MAX] {
        let native = date(year, 1, 1);
        assert_eq!(
            date_parameters(&native),
            Err(MgpError::UnableToCreateDateFromNaiveDate)
        );
        let mut memgraph = memgraph_with(vec![gives(30)]);
        let made = Date::from_calendar_date(&native, &mut memgraph);
        assert_eq!(made.err().unwrap(), MgpError::UnableToCreateDateFromNaiveDate);
        assert_eq!(memgraph.host().calls(), 0);
        assert_eq!(memgraph.host().served(), 0);
    }
    for year in [0, 1, 9999] {
        assert!(date_parameters(&date(year, 1, 1)).is_ok());
    }
}

#[test]
fn every_representable_date_survives_the_round_trip() {
    let lengths = [31, 28, 31, 30, 31, 30, 31, 31, 30, 31, 30, 31];
    for year in 0..=9999 {
        for month in 1..=12u32 {
            let last = if month == 2 && CalendarDate::from_ymd(year, 2, 29).is_some() {
                29
            } else {
                lengths[month as usize - 1]
            };
            for day in [1, 15, last] {
                let native = date(year, month, day);
                let parameters = date_parameters(&native).unwrap();
                assert_eq!(
                    parameters,
                    DateParameters { year, month: month as i32, day: day as i32 }
                );
                let back = calendar_date(parameters).unwrap();
                assert_eq!((back.year(), back.month(), back.day()), (year, month, day));
                assert_eq!(back, native);
            }
        }
    }
}

#[test]
fn a_date_survives_the_round_trip_through_the_host() {
    for native in [date(0, 1, 1), date(2024, 2, 29), date(9999, 12, 31)] {
        // A host that keeps what it is given.
        let mut memgraph = memgraph_with(vec![gives(30)]);
        let made = Date::from_calendar_date(&native, &mut memgraph).unwrap();
        let kept = match memgraph.host().requests()[0].entry {
            Entry::DateFromParameters { parameters } => parameters,
            other => panic!("unexpected call {:?}", other),
        };
        let mut memgraph = memgraph_with(vec![
            integer(kept.year as i64),
            integer(kept.month as i64),
            integer(kept.day as i64),
        ]);
        assert_eq!(made.as_ref().to_calendar_date(&mut memgraph), Ok(native));
    }
}

#[test]
fn what_is_no_date_cannot_be_read_into_one() {
    let mut memgraph = memgraph_with(vec![integer(1934), integer(2), integer(31)]);
    assert_eq!(
        DateRef::new(handle(30)).to_calendar_date(&mut memgraph),
        Err(MgpError::UnableToReadDate)
    );
    assert_eq!(memgraph.host().calls(), 3);

    let mut memgraph = memgraph_with(vec![integer(1934), integer(-2), integer(3)]);
    assert_eq!(
        DateRef::new(handle(30)).to_calendar_date(&mut memgraph),
        Err(MgpError::UnableToReadDate)
    );

    assert_eq!(calendar_date(DateParameters { year: 2021, month: 2, day: 29 }), None);
    assert_eq!(calendar_date(DateParameters { year: 2021, month: -1, day: 1 }), None);
}

#[test]
fn reading_a_date_stops_at_the_first_part_that_fails() {
    let mut memgraph = memgraph_with(vec![integer(1934), Reply::failure(Status::DeletedObject)]);
    assert_eq!(
        DateRef::new(handle(30)).to_calendar_date(&mut memgraph),
        Err(MgpError::UnableToReadDate)
    );
    assert_eq!(memgraph.host().calls(), 2);

    let mut memgraph = memgraph_with(vec![integer(1 << 40)]);
    assert_eq!(
        DateRef::new(handle(30)).year(&mut memgraph),
        Err(MgpError::UnableToReadDate)
    );
    let mut memgraph = memgraph_with(vec![integer(-1)]);
    assert_eq!(
        DateRef::new(handle(30)).month(&mut memgraph),
        Err(MgpError::UnableToReadDate)
    );
}

#[test]
fn a_leap_second_folds_onto_the_second_before_it() {
    let leap = local_time_parameters(&time(23, 59, 59, 1_999_999));
    let plain = local_time_parameters(&time(23, 59, 59, 999_999));
    assert_eq!(
        (leap.millisecond, leap.microsecond),
        (plain.millisecond, plain.microsecond)
    );
    assert_eq!((leap.millisecond, leap.microsecond), (999, 999));
    assert_eq!(leap, plain);

    let leap = local_time_parameters(&time(1, 2, 3, 1_000_000));
    assert_eq!((leap.millisecond, leap.microsecond), (0, 0));
}

#[test]
fn what_is_finer_than_a_microsecond_is_dropped() {
    let native = ClockTime::from_hms_nano(4, 5, 6, 123_456_789).unwrap();
    let parameters = local_time_parameters(&native);
    assert_eq!(
        parameters,
        LocalTimeParameters { hour: 4, minute: 5, second: 6, millisecond: 123, microsecond: 456 }
    );
    let back = clock_time(parameters).unwrap();
    assert_eq!(
        (back.hour(), back.minute(), back.second(), back.nanosecond()),
        (4, 5, 6, 123_456_000)
    );
}

#[test]
fn a_time_is_read_back_part_by_part() {
    let mut memgraph = memgraph_with(vec![integer(23), integer(1), integer(2), integer(3), integer(4)]);
    let read = LocalTimeRef::new(handle(40)).to_clock_time(&mut memgraph).unwrap();
    assert_eq!(read, time(23, 1, 2, 3_004));

    let mut memgraph = memgraph_with(vec![integer(24), integer(1), integer(2), integer(3), integer(4)]);
    assert_eq!(
        LocalTimeRef::new(handle(40)).to_clock_time(&mut memgraph),
        Err(MgpError::UnableToReadLocalTime)
    );
    let mut memgraph = memgraph_with(vec![integer(23), integer(1), integer(2), integer(1000), integer(4)]);
    assert_eq!(
        LocalTimeRef::new(handle(40)).to_clock_time(&mut memgraph),
        Err(MgpError::UnableToReadLocalTime)
    );
    let mut memgraph = memgraph_with(vec![integer(23), integer(1), Reply::failure(Status::UnknownError)]);
    assert_eq!(
        LocalTimeRef::new(handle(40)).to_clock_time(&mut memgraph),
        Err(MgpError::UnableToReadLocalTime)
    );
    assert_eq!(memgraph.host().calls(), 3);
}

#[test]
fn a_date_with_time_reaches_the_host_in_both_parts() {
    let native = CalendarDateTime { date: date(2021, 3, 4), time: time(5, 6, 7, 1_008_009) };
    let mut memgraph = memgraph_with(vec![gives(45)]);
    let made = LocalDateTime::from_calendar_date_time(&native, &mut memgraph).unwrap();
    assert_eq!(
        entries(&memgraph),
        vec![Entry::LocalDateTimeFromParameters {
            date: DateParameters { year: 2021, month: 3, day: 4 },
            time: LocalTimeParameters {
                hour: 5,
                minute: 6,
                second: 7,
                millisecond: 8,
                microsecond: 9,
            },
        }]
    );
    assert_eq!(made.as_ref(), LocalDateTimeRef::new(handle(45)));
    made.release(&mut memgraph);
    assert_eq!(
        entries(&memgraph)[1],
        Entry::Destroy { kind: Kind::LocalDateTime, object: handle(45) }
    );

    let mut memgraph = memgraph_with(vec![Reply::failure(Status::UnableToAllocate)]);
    assert_eq!(
        LocalDateTime::from_calendar_date_time(&native, &mut memgraph).err().unwrap(),
        MgpError::UnableToCreateLocalDateTimeFromNaiveDateTime
    );

    let early = CalendarDateTime { date: date(-1, 3, 4), time: time(5, 6, 7, 0) };
    let mut memgraph = memgraph_with(vec![gives(45)]);
    assert_eq!(
        LocalDateTime::from_calendar_date_time(&early, &mut memgraph).err().unwrap(),
        MgpError::UnableToCreateLocalDateTimeFromNaiveDateTime
    );
    assert_eq!(memgraph.host().calls(), 0);
}

#[test]
fn a_date_with_time_is_read_back_part_by_part() {
    let mut memgraph = memgraph_with(vec![
        integer(2021),
        integer(3),
        integer(4),
        integer(5),
        integer(6),
        integer(7),
        integer(8),
        integer(9),
    ]);
    let view = LocalDateTimeRef::new(handle(45));
    let read = view.to_calendar_date_time(&mut memgraph).unwrap();
    assert_eq!(read, CalendarDateTime { date: date(2021, 3, 4), time: time(5, 6, 7, 8_009) });
    assert_eq!(
        entries(&memgraph)[3],
        Entry::LocalDateTimeGetTime { field: TimeField::Hour, date_time: handle(45) }
    );

    let mut memgraph = memgraph_with(vec![integer(2021), integer(61)]);
    assert_eq!(view.date_part(DateField::Year, &mut memgraph), Ok(2021));
    assert_eq!(view.time_part(TimeField::Minute, &mut memgraph), Ok(61));

    let mut memgraph = memgraph_with(vec![
        integer(2021),
        integer(2),
        integer(30),
        integer(5),
        integer(6),
        integer(7),
        integer(8),
        integer(9),
    ]);
    assert_eq!(
        view.to_calendar_date_time(&mut memgraph),
        Err(MgpError::UnableToReadLocalDateTime)
    );
}

#[test]
fn a_span_is_counted_in_whole_microseconds() {
    assert_eq!(TimeSpan::new(1, 500).unwrap().microseconds(), Some(1_000_000));
    assert_eq!(TimeSpan::new(0, 999_999_999).unwrap().microseconds(), Some(999_999));
    assert_eq!(TimeSpan::new(-1, 999_999_000).unwrap().microseconds(), Some(-1));
    assert_eq!(TimeSpan::new(-2, 0).unwrap().microseconds(), Some(-2_000_000));
    assert!(TimeSpan::new(0, 1_000_000_000).is_none());
    assert_eq!(TimeSpan::new(i64::MAX, 0).unwrap().microseconds(), None);
    assert_eq!(TimeSpan::new(i64::MIN, 0).unwrap().microseconds(), None);
    assert_eq!(
        TimeSpan::new(9_223_372_036_854, 775_807_000).unwrap().microseconds(),
        Some(i64::MAX)
    );
    assert_eq!(
        TimeSpan::new(9_223_372_036_854, 775_808_000).unwrap().microseconds(),
        None
    );
}

#[test]
fn microseconds_survive_the_way_into_a_span_and_back() {
    for microseconds in [0, 1, -1, 999_999, 1_000_000, -1_000_000, -1_000_001, i64::MAX, i64::MIN]
    {
        let span = TimeSpan::from_microseconds(microseconds);
        assert!(span.nanoseconds() < 1_000_000_000);
        assert_eq!(span.microseconds(), Some(microseconds));
    }
    let span = TimeSpan::from_microseconds(-1);
    assert_eq!((span.seconds(), span.nanoseconds()), (-1, 999_999_000));
    let span = TimeSpan::from_microseconds(-1_000_000);
    assert_eq!((span.seconds(), span.nanoseconds()), (-1, 0));
}

#[test]
fn a_duration_reaches_the_host_in_microseconds() {
    let mut memgraph = memgraph_with(vec![gives(60), integer(-5)]);
    let made = Duration::from_time_span(&TimeSpan::new(2, 3_000).unwrap(), &mut memgraph).unwrap();
    assert_eq!(
        entries(&memgraph),
        vec![Entry::DurationFromMicroseconds { microseconds: 2_000_003 }]
    );
    assert_eq!(made.as_ref().microseconds(&mut memgraph), Ok(-5));
    made.release(&mut memgraph);
    assert_eq!(
        entries(&memgraph)[2],
        Entry::Destroy { kind: Kind::Duration, object: handle(60) }
    );

    let mut memgraph = memgraph_with(vec![integer(-1)]);
    assert_eq!(
        DurationRef::new(handle(60)).to_time_span(&mut memgraph),
        Ok(TimeSpan::new(-1, 999_999_000).unwrap())
    );
}

#[test]
fn a_span_that_does_not_fit_is_refused_before_the_host_is_asked() {
    let mut memgraph = memgraph_with(vec![gives(60)]);
    let made = Duration::from_time_span(&TimeSpan::new(i64::MAX, 0).unwrap(), &mut memgraph);
    assert_eq!(
        made.err().unwrap(),
        MgpError::UnableToCreateDurationFromChronoDuration
    );
    assert_eq!(memgraph.host().calls(), 0);

    let mut memgraph = memgraph_with(vec![Reply::failure(Status::UnableToAllocate)]);
    let made = Duration::from_time_span(&TimeSpan::new(1, 0).unwrap(), &mut memgraph);
    assert_eq!(
        made.err().unwrap(),
        MgpError::UnableToCreateDurationFromChronoDuration
    );
    assert_eq!(memgraph.host().calls(), 1);
}
