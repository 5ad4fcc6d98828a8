use chrono::{NaiveDate, TimeZone};
use chrono_tz::Tz;
use climate_bot::sources::geo_time::{
    clock_zone_name, localize_timestamp, requested_time, RequestedTime,
};

fn local(year: i32, month: u32, day: u32, hour: u32, minute: u32) -> i64 {
    NaiveDate::from_ymd_opt(year, month, day)
        .unwrap()
        .and_hms_opt(hour, minute, 0)
        .unwrap()
        .and_utc()
        .timestamp()
}

fn at(time: RequestedTime) -> (i64, i32, String, String) {
    match time {
        RequestedTime::At(t) => (
            t.epoch_seconds(),
            t.utc_offset_seconds(),
            t.zone_name().to_string(),
            t.local_date().to_string(),
        ),
        other => panic!("unexpected time {:?}", other),
    }
}

fn unlocalizable(time: RequestedTime) -> String {
    match time {
        RequestedTime::Unlocalizable { timezone } => timezone,
        other => panic!("unexpected time {:?}", other),
    }
}

#[test]
fn winter_time_in_vienna_is_one_hour_ahead() {
    let asked = local(2023, 11, 14, 23, 10);
    let (epoch, offset, zone, date) = at(localize_timestamp(asked, "Europe/Vienna"));
    assert_eq!(offset, 3600);
    assert_eq!(epoch, asked - 3600);
    assert_eq!(zone, "Europe/Vienna");
    assert_eq!(date, "2023-11-14");
}

#[test]
fn summer_time_in_vienna_is_two_hours_ahead() {
    let asked = local(2023, 7, 1, 0, 30);
    let (epoch, offset, _, date) = at(localize_timestamp(asked, "Europe/Vienna"));
    assert_eq!(offset, 7200);
    assert_eq!(epoch, asked - 7200);
    assert_eq!(date, "2023-07-01");
}

#[test]
fn zone_west_of_greenwich_is_behind() {
    let asked = local(2020, 1, 15, 12, 0);
    let (epoch, offset, zone, _) = at(localize_timestamp(asked, "America/New_York"));
    assert_eq!(offset, -18_000);
    assert_eq!(epoch, asked + 18_000);
    assert_eq!(zone, "America/New_York");
}

#[test]
fn localization_agrees_with_the_calendar_library() {
    for (zone, asked) in [
        ("Asia/Kolkata", local(1999, 12, 31, 23, 59)),
        ("Australia/Lord_Howe", local(2024, 2, 29, 6, 0)),
        ("UTC", local(1970, 1, 1, 0, 0)),
        ("America/St_Johns", local(1945, 5, 8, 12, 0)),
    ] {
        let tz: Tz = zone.parse().unwrap();
        let naive = chrono::DateTime::from_timestamp(asked, 0).unwrap().naive_utc();
        let expected = tz.from_local_datetime(&naive).single().unwrap();
        let (epoch, offset, name, date) = at(localize_timestamp(asked, zone));
        assert_eq!(epoch, expected.timestamp());
        assert_eq!(epoch + offset as i64, asked);
        assert_eq!(name, tz.name());
        assert_eq!(date, expected.date_naive().to_string());
    }
}

#[test]
fn time_that_the_clock_skips_names_no_instant() {
    // clocks in Vienna went from 02:00 straight to 03:00 on 2023-03-26
    let timezone = unlocalizable(localize_timestamp(local(2023, 3, 26, 2, 30), "Europe/Vienna"));
    assert_eq!(timezone, "Some(Europe/Vienna)");
}

#[test]
fn time_that_the_clock_shows_twice_names_no_instant() {
    // clocks in Vienna went from 03:00 back to 02:00 on 2023-10-29
    let timezone = unlocalizable(localize_timestamp(local(2023, 10, 29, 2, 30), "Europe/Vienna"));
    assert_eq!(timezone, "Some(Europe/Vienna)");
}

#[test]
fn unknown_zone_is_met_with_the_clock_of_vienna() {
    let asked = local(2023, 7, 1, 12, 0);
    for zone in ["", "Mars/Olympus_Mons", "europe/vienna"] {
        let (epoch, offset, name, _) = at(localize_timestamp(asked, zone));
        assert_eq!(offset, 7200);
        assert_eq!(epoch, asked - 7200);
        assert_eq!(name, "Europe/Vienna");
    }
    let timezone = unlocalizable(localize_timestamp(local(2023, 3, 26, 2, 30), ""));
    assert_eq!(timezone, "None");
}

#[test]
fn time_beyond_the_calendar_names_no_instant() {
    assert_eq!(unlocalizable(localize_timestamp(i64::MAX, "UTC")), "Some(UTC)");
    assert_eq!(unlocalizable(localize_timestamp(i64::MIN, "Nowhere")), "None");
}

#[test]
fn requested_time_follows_the_instant_that_was_found() {
    let (epoch, offset, zone, date) = at(requested_time("Asia/Tokyo", true, Some((0, 32_400))));
    assert_eq!((epoch, offset), (0, 32_400));
    assert_eq!(zone, "Asia/Tokyo");
    assert_eq!(date, "1970-01-01");
    let (_, _, zone, _) = at(requested_time("Atlantis", false, Some((0, 3600))));
    assert_eq!(zone, "Europe/Vienna");
    assert_eq!(unlocalizable(requested_time("Asia/Tokyo", true, None)), "Some(Asia/Tokyo)");
    assert_eq!(unlocalizable(requested_time("Atlantis", false, None)), "None");
    assert_eq!(unlocalizable(requested_time("UTC", true, Some((i64::MAX, 0)))), "Some(UTC)");
}

#[test]
fn clock_zone_falls_back_to_vienna() {
    assert_eq!(clock_zone_name("Asia/Tokyo", true), "Asia/Tokyo");
    assert_eq!(clock_zone_name("Atlantis", false), "Europe/Vienna");
}

#[test]
fn instant_at_the_ends_of_the_calendar_names_no_time_once_the_clock_leaves_it() {
    const LAST: i64 = 8_210_266_876_799;
    const FIRST: i64 = -8_334_601_228_800;
    assert_eq!(unlocalizable(requested_time("UTC", true, Some((LAST, 1)))), "Some(UTC)");
    assert_eq!(unlocalizable(requested_time("UTC", true, Some((FIRST, -1)))), "Some(UTC)");
    assert_eq!(unlocalizable(requested_time("Atlantis", false, Some((LAST, 86_399)))), "None");
    assert_eq!(unlocalizable(requested_time("UTC", true, Some((0, 86_400)))), "Some(UTC)");
    let (epoch, offset, _, date) = at(requested_time("UTC", true, Some((LAST, 0))));
    assert_eq!((epoch, offset), (LAST, 0));
    assert_eq!(date, "+262142-12-31");
    let (_, _, _, date) = at(requested_time("UTC", true, Some((FIRST, 0))));
    assert_eq!(date, "-262143-01-01");
}

#[test]
fn local_time_at_the_ends_of_the_calendar_is_localized_or_refused_without_panic() {
    const LAST: i64 = 8_210_266_876_799;
    const FIRST: i64 = -8_334_601_228_800;
    for zone in ["UTC", "Asia/Tokyo", "America/New_York", "Pacific/Kiritimati", "Etc/GMT+12", ""] {
        for local in [LAST, LAST - 50_000, LAST + 1, FIRST, FIRST + 50_000, FIRST - 1] {
            match localize_timestamp(local, zone) {
                RequestedTime::At(t) => {
                    assert_eq!(t.epoch_seconds() + t.utc_offset_seconds() as i64, local)
                }
                RequestedTime::Unlocalizable { timezone } => {
                    assert_eq!(timezone, if zone.is_empty() { "None".to_string() } else { format!("Some({})", zone) })
                }
                RequestedTime::Now => panic!("a time was given"),
            }
        }
    }
    let (epoch, offset, _, date) = at(localize_timestamp(LAST, "UTC"));
    assert_eq!((epoch, offset), (LAST, 0));
    assert_eq!(date, "+262142-12-31");
}
