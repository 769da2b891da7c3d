use chrono::{DateTime, Datelike, Local, TimeZone, Timelike};
use chrono_tz::Asia::Kolkata;
use chrono_tz::Europe::London;
use chrono_tz::Tz;
use tz::instant::{at_wall_clock, parse_lowered, the_single};
use tz::{convert, parse_datetime_in_tz, parse_tz, Catalog, LocalTimes, ResolvedInstant, WallClock, Zone};

fn zone(tz: Tz) -> Zone {
    Catalog::iana().find(tz.name()).unwrap()
}

fn instant(dt: DateTime<Tz>) -> ResolvedInstant {
    ResolvedInstant {
        seconds: dt.timestamp(),
        nanos: dt.timestamp_subsec_nanos(),
        zone: zone(dt.timezone()),
    }
}

fn on(tz: Tz, year: i32, month: u32, day: u32, hour: u32, minute: u32, second: u32) -> ResolvedInstant {
    instant(tz.with_ymd_and_hms(year, month, day, hour, minute, second).unwrap())
}

fn reading(year: i32, month: u32, day: u32, hour: u32, minute: u32, second: u32) -> WallClock {
    WallClock { year, month, day, hour, minute, second, nanosecond: 0 }
}

fn ninth_of_july() -> WallClock {
    WallClock { year: 2021, month: 7, day: 9, hour: 18, minute: 19, second: 20, nanosecond: 21 }
}

#[test]
fn test_convert() {
    let date = on(London, 2021, 1, 1, 8, 8, 8);
    let to_date = on(Kolkata, 2021, 1, 1, 13, 38, 8);
    assert_eq!(convert(date, zone(Kolkata)), to_date);
}

#[test]
fn test_parse_datetime_in_tz() {
    let today = Local::now();
    let now = WallClock {
        year: today.year(),
        month: today.month(),
        day: today.day(),
        hour: today.hour(),
        minute: today.minute(),
        second: today.second(),
        nanosecond: today.nanosecond(),
    };

    assert_eq!(
        parse_datetime_in_tz(zone(Kolkata), "2021-07-09 05:00", &now),
        Some(on(Kolkata, 2021, 07, 09, 5, 0, 0))
    );

    assert_eq!(
        parse_datetime_in_tz(zone(Kolkata), "2021-07-09 5:00", &now),
        Some(on(Kolkata, 2021, 07, 09, 5, 0, 0))
    );

    assert_eq!(
        parse_datetime_in_tz(zone(Kolkata), "2021-07-09", &now),
        Some(on(Kolkata, 2021, 07, 09, 0, 0, 0))
    );

    assert_eq!(
        parse_datetime_in_tz(zone(Kolkata), "05:00", &now),
        Some(on(Kolkata, today.year(), today.month(), today.day(), 5, 0, 0))
    );

    assert_eq!(
        parse_datetime_in_tz(zone(Kolkata), "3am", &now),
        Some(on(Kolkata, today.year(), today.month(), today.day(), 3, 0, 0))
    );

    assert_eq!(
        parse_datetime_in_tz(zone(Kolkata), "10pm", &now),
        Some(on(Kolkata, today.year(), today.month(), today.day(), 22, 0, 0))
    );

    assert_eq!(
        parse_datetime_in_tz(zone(Kolkata), "5:30pm", &now),
        Some(on(Kolkata, today.year(), today.month(), today.day(), 17, 30, 0))
    );
}

#[test]
fn each_shape_gives_its_instant() {
    let now = ninth_of_july();
    for tz in [Kolkata, London, Tz::America__New_York, Tz::UTC, Tz::Pacific__Auckland].iter() {
        assert_eq!(
            parse_datetime_in_tz(zone(*tz), "2021-07-09", &now),
            Some(on(*tz, 2021, 7, 9, 0, 0, 0))
        );
        assert_eq!(
            parse_datetime_in_tz(zone(*tz), "2021-07-09 5:00", &now),
            Some(on(*tz, 2021, 7, 9, 5, 0, 0))
        );
        assert_eq!(
            parse_datetime_in_tz(zone(*tz), "05:00", &now),
            Some(on(*tz, 2021, 7, 9, 5, 0, 0))
        );
        assert_eq!(
            parse_datetime_in_tz(zone(*tz), "3am", &now),
            Some(on(*tz, 2021, 7, 9, 3, 0, 0))
        );
        assert_eq!(
            parse_datetime_in_tz(zone(*tz), "10pm", &now),
            Some(on(*tz, 2021, 7, 9, 22, 0, 0))
        );
        assert_eq!(
            parse_datetime_in_tz(zone(*tz), "5:30pm", &now),
            Some(on(*tz, 2021, 7, 9, 17, 30, 0))
        );
    }
}

#[test]
fn the_instant_is_counted_from_1970_in_utc() {
    let now = ninth_of_july();
    let parsed = parse_datetime_in_tz(zone(Kolkata), "2021-07-09 05:00", &now).unwrap();
    assert_eq!(parsed.seconds, 1625787000);
    assert_eq!(parsed.nanos, 0);
    assert_eq!(parsed.zone.name(), "Asia/Kolkata");
    let epoch = parse_datetime_in_tz(zone(Tz::UTC), "1970-01-01", &now).unwrap();
    assert_eq!(epoch.seconds, 0);
    let before = parse_datetime_in_tz(zone(Kolkata), "1970-01-01 05:29", &now).unwrap();
    assert_eq!(before.seconds, -60);
}

#[test]
fn a_text_that_is_no_date_gives_no_instant() {
    assert_eq!(parse_datetime_in_tz(zone(Kolkata), "not a date", &ninth_of_july()), None);
    assert_eq!(parse_datetime_in_tz(zone(London), "", &ninth_of_july()), None);
    assert_eq!(parse_datetime_in_tz(zone(London), "tomorrow", &ninth_of_july()), None);
}

#[test]
fn capitals_in_a_date_text_do_not_count() {
    let now = ninth_of_july();
    assert_eq!(parse_datetime_in_tz(zone(Kolkata), "5PM", &now), Some(on(Kolkata, 2021, 7, 9, 17, 0, 0)));
    assert_eq!(parse_datetime_in_tz(zone(Kolkata), "5:30 Am", &now), Some(on(Kolkata, 2021, 7, 9, 5, 30, 0)));
    assert_eq!(parse_lowered(zone(Kolkata), "5PM", &now), None);
    assert_eq!(parse_lowered(zone(Kolkata), "5pm", &now), Some(on(Kolkata, 2021, 7, 9, 17, 0, 0)));
}

#[test]
fn the_hour_is_not_folded_onto_a_dial() {
    let now = ninth_of_july();
    assert_eq!(parse_datetime_in_tz(zone(Kolkata), "12am", &now), Some(on(Kolkata, 2021, 7, 9, 12, 0, 0)));
    assert_eq!(parse_datetime_in_tz(zone(Kolkata), "12pm", &now), None);
    assert_eq!(parse_datetime_in_tz(zone(Kolkata), "11pm", &now), Some(on(Kolkata, 2021, 7, 9, 23, 0, 0)));
    assert_eq!(parse_datetime_in_tz(zone(Kolkata), "13am", &now), Some(on(Kolkata, 2021, 7, 9, 13, 0, 0)));
    assert_eq!(parse_datetime_in_tz(zone(Kolkata), "13pm", &now), None);
    assert_eq!(parse_datetime_in_tz(zone(Kolkata), "0am", &now), Some(on(Kolkata, 2021, 7, 9, 0, 0, 0)));
}

#[test]
fn a_reading_that_the_calendar_lacks_gives_no_instant() {
    let now = ninth_of_july();
    for text in [
        "2021-02-29", "2021-02-30", "2021-13-01", "2021-00-10", "2021-04-31", "2021-07-00",
        "2021-07-09 24:00", "2021-07-09 5:60", "24:00", "7:60", "99:99", "5:60pm", "5:99am",
    ]
    .iter()
    {
        assert_eq!(parse_datetime_in_tz(zone(Kolkata), text, &now), None, "for {:?}", text);
    }
    assert_eq!(
        parse_datetime_in_tz(zone(Kolkata), "2020-02-29", &now),
        Some(on(Kolkata, 2020, 2, 29, 0, 0, 0))
    );
    let never = WallClock { year: 2021, month: 2, day: 30, hour: 0, minute: 0, second: 0, nanosecond: 0 };
    assert_eq!(parse_datetime_in_tz(zone(Kolkata), "5:00", &never), None);
    assert_eq!(
        parse_datetime_in_tz(zone(Kolkata), "2021-07-09 5:00", &never),
        Some(on(Kolkata, 2021, 7, 9, 5, 0, 0))
    );
}

#[test]
fn a_reading_that_the_clocks_skipped_gives_no_instant() {
    let now = ninth_of_july();
    assert_eq!(parse_datetime_in_tz(zone(London), "2021-03-28 1:30", &now), None);
    assert_eq!(parse_datetime_in_tz(zone(London), "2021-03-28 0:59", &now), Some(on(London, 2021, 3, 28, 0, 59, 0)));
    assert_eq!(parse_datetime_in_tz(zone(London), "2021-03-28 2:00", &now), Some(on(London, 2021, 3, 28, 2, 0, 0)));
    assert_eq!(
        parse_datetime_in_tz(zone(Kolkata), "2021-03-28 1:30", &now),
        Some(on(Kolkata, 2021, 3, 28, 1, 30, 0))
    );
    assert_eq!(at_wall_clock(zone(London), &reading(2021, 3, 28, 1, 30, 0)), None);
}

#[test]
fn a_reading_that_the_clocks_showed_twice_gives_no_instant() {
    let now = ninth_of_july();
    assert_eq!(parse_datetime_in_tz(zone(London), "2021-10-31 1:30", &now), None);
    assert_eq!(parse_datetime_in_tz(zone(London), "2021-10-31 0:59", &now), Some(on(London, 2021, 10, 31, 0, 59, 0)));
    assert_eq!(parse_datetime_in_tz(zone(London), "2021-10-31 2:00", &now), Some(on(London, 2021, 10, 31, 2, 0, 0)));
    assert_eq!(at_wall_clock(zone(London), &reading(2021, 10, 31, 1, 30, 0)), None);
}

#[test]
fn only_a_single_instant_is_picked() {
    assert_eq!(the_single(LocalTimes::Never, zone(London)), None);
    assert_eq!(the_single(LocalTimes::Twice, zone(London)), None);
    assert_eq!(
        the_single(LocalTimes::Once { seconds: 12, nanos: 34 }, zone(London)),
        Some(ResolvedInstant { seconds: 12, nanos: 34, zone: zone(London) })
    );
}

#[test]
fn a_reading_with_seconds_is_placed_in_its_zone() {
    assert_eq!(
        at_wall_clock(zone(London), &reading(2021, 1, 1, 8, 8, 8)),
        Some(on(London, 2021, 1, 1, 8, 8, 8))
    );
    let fine = WallClock { year: 2021, month: 1, day: 1, hour: 8, minute: 8, second: 8, nanosecond: 123456789 };
    let placed = at_wall_clock(zone(Kolkata), &fine).unwrap();
    assert_eq!(placed.seconds, Kolkata.with_ymd_and_hms(2021, 1, 1, 8, 8, 8).unwrap().timestamp());
    assert_eq!(placed.nanos, 123456789);
    assert_eq!(placed.wall_clock(), Some(fine));
}

#[test]
fn a_zone_that_the_database_lacks_has_no_instants() {
    let catalog = Catalog::from_names(vec!["Middle/Earth".to_string()]);
    let shire = catalog.resolve("earth").unwrap();
    assert_eq!(at_wall_clock(shire.clone(), &reading(2021, 1, 1, 8, 8, 8)), None);
    assert_eq!(parse_datetime_in_tz(shire.clone(), "2021-07-09", &ninth_of_july()), None);
    let nowhere = ResolvedInstant { seconds: 0, nanos: 0, zone: shire };
    assert_eq!(nowhere.wall_clock(), None);
}

#[test]
fn london_in_the_morning_is_kolkata_after_noon() {
    let london = parse_tz("Europe/London").unwrap();
    let kolkata = parse_tz("Asia/Kolkata").unwrap();
    let there = at_wall_clock(london, &reading(2021, 1, 1, 8, 8, 8)).unwrap();
    assert_eq!(there.wall_clock(), Some(reading(2021, 1, 1, 8, 8, 8)));
    let here = convert(there.clone(), kolkata);
    assert_eq!(here.wall_clock(), Some(reading(2021, 1, 1, 13, 38, 8)));
    assert_eq!(here.zone.name(), "Asia/Kolkata");
    assert_eq!(here.seconds, there.seconds);
    assert_eq!(here.nanos, there.nanos);
}

#[test]
fn converting_there_and_back_keeps_the_instant() {
    let start = on(London, 2021, 10, 31, 0, 30, 0);
    for there in [Kolkata, Tz::America__New_York, Tz::Pacific__Kiritimati, London].iter() {
        for back in [London, Kolkata, Tz::UTC].iter() {
            let returned = convert(convert(start.clone(), zone(*there)), zone(*back));
            assert_eq!(returned.seconds, start.seconds);
            assert_eq!(returned.nanos, start.nanos);
            assert_eq!(returned.zone, zone(*back));
        }
        assert_eq!(convert(convert(start.clone(), zone(*there)), zone(London)), start);
    }
}

#[test]
fn converting_changes_what_the_wall_clock_shows() {
    let summer = on(Tz::UTC, 2021, 7, 9, 12, 0, 0);
    assert_eq!(convert(summer.clone(), zone(London)).wall_clock(), Some(reading(2021, 7, 9, 13, 0, 0)));
    assert_eq!(convert(summer.clone(), zone(Kolkata)).wall_clock(), Some(reading(2021, 7, 9, 17, 30, 0)));
    assert_eq!(
        convert(summer.clone(), zone(Tz::Pacific__Kiritimati)).wall_clock(),
        Some(reading(2021, 7, 10, 2, 0, 0))
    );
    assert_eq!(
        convert(summer.clone(), zone(Tz::America__Los_Angeles)).wall_clock(),
        Some(reading(2021, 7, 9, 5, 0, 0))
    );
    assert_eq!(summer.wall_clock(), Some(reading(2021, 7, 9, 12, 0, 0)));
}

#[test]
fn an_instant_beyond_the_calendar_shows_nothing() {
    let far = ResolvedInstant { seconds: i64::MAX, nanos: 0, zone: zone(London) };
    assert_eq!(far.wall_clock(), None);
    let moved = convert(far, zone(Kolkata));
    assert_eq!(moved.seconds, i64::MAX);
    assert_eq!(moved.wall_clock(), None);
}
