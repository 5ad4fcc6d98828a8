use chrono::{DateTime, DurationRound, FixedOffset, NaiveDate, TimeDelta};
use climate_bot::sources::climate_historical::{
    hour_request, past_temperature, past_temperature_request, temperature_series,
    temperature_series_request,
    HistoricalTemperature, TemperatureDataPoint, TemperatureSeries, ZonedTimestamp, EARLIEST_DAY,
};
use climate_bot::sources::common::ApiError;

const NOW: i64 = 1_767_225_600; // 2026-01-01T00:00:00Z

fn pair(key: &str, value: &str) -> (String, String) {
    (String::from(key), String::from(value))
}

fn vienna(epoch: i64) -> ZonedTimestamp {
    ZonedTimestamp::new(epoch, 3600, "Europe/Vienna").unwrap()
}

fn bad_request(result: Result<climate_bot::sources::climate_historical::SeriesRequest, ApiError>) -> String {
    match result {
        Err(ApiError::BadRequest { reason }) => reason,
        other => panic!("unexpected outcome {:?}", other),
    }
}

fn samples() -> Vec<TemperatureDataPoint<f32>> {
    TemperatureSeries {
        times: vec![1_700_000_000, 1_700_003_600, 1_700_007_200, 1_700_010_800],
        temperatures: vec![4.5f32, 5.0, 5.5, 6.0],
    }
    .points()
}

#[test]
fn timestamp_knows_its_local_date() {
    let t = ZonedTimestamp::new(1_700_000_000, 3600, "Europe/Vienna").unwrap();
    assert_eq!(t.epoch_seconds(), 1_700_000_000);
    assert_eq!(t.utc_offset_seconds(), 3600);
    assert_eq!(t.zone_name(), "Europe/Vienna");
    assert_eq!(t.local_date(), "2023-11-14");
    // 23:30 UTC is already the next day in Vienna
    let late = ZonedTimestamp::new(1_700_004_600, 3600, "Europe/Vienna").unwrap();
    assert_eq!(late.local_date(), "2023-11-15");
    let utc = ZonedTimestamp::new(1_700_004_600, 0, "UTC").unwrap();
    assert_eq!(utc.local_date(), "2023-11-14");
}

#[test]
fn timestamp_outside_the_calendar_does_not_exist() {
    assert!(ZonedTimestamp::new(i64::MAX, 0, "UTC").is_none());
    assert!(ZonedTimestamp::new(i64::MIN, 0, "UTC").is_none());
    assert!(ZonedTimestamp::new(0, 86_400, "UTC").is_none());
    assert!(ZonedTimestamp::new(0, -86_400, "UTC").is_none());
    assert!(ZonedTimestamp::new(0, 86_399, "Nowhere").is_some());
}

#[test]
fn rounding_goes_to_the_nearest_hour() {
    // 2023-11-14 22:13:20 UTC
    let down = ZonedTimestamp::new(1_700_000_000, 0, "UTC").unwrap().rounded_to_hour().unwrap();
    assert_eq!(down.epoch_seconds(), 1_699_999_200);
    let up = ZonedTimestamp::new(1_700_001_000, 0, "UTC").unwrap().rounded_to_hour().unwrap();
    assert_eq!(up.epoch_seconds(), 1_700_002_800);
    let exact = ZonedTimestamp::new(1_700_002_800, 0, "UTC").unwrap().rounded_to_hour().unwrap();
    assert_eq!(exact.epoch_seconds(), 1_700_002_800);
}

#[test]
fn rounding_takes_the_later_hour_at_the_half() {
    let half = ZonedTimestamp::new(1_699_999_200 + 1800, 0, "UTC").unwrap();
    assert_eq!(half.rounded_to_hour().unwrap().epoch_seconds(), 1_700_002_800);
    let just_before = ZonedTimestamp::new(1_699_999_200 + 1799, 0, "UTC").unwrap();
    assert_eq!(just_before.rounded_to_hour().unwrap().epoch_seconds(), 1_699_999_200);
    let before_epoch = ZonedTimestamp::new(-1800, 0, "UTC").unwrap();
    assert_eq!(before_epoch.rounded_to_hour().unwrap().epoch_seconds(), 0);
    let further_before = ZonedTimestamp::new(-1801, 0, "UTC").unwrap();
    assert_eq!(further_before.rounded_to_hour().unwrap().epoch_seconds(), -3600);
}

#[test]
fn rounding_follows_the_local_clock() {
    // India is five and a half hours ahead: 10:00 UTC is 15:30 there and rounds to 16:00.
    let india = ZonedTimestamp::new(1_700_042_400, 19_800, "Asia/Kolkata").unwrap();
    let rounded = india.rounded_to_hour().unwrap();
    assert_eq!(rounded.epoch_seconds(), 1_700_042_400 + 1800);
    assert_eq!(rounded.utc_offset_seconds(), 19_800);
    assert_eq!(rounded.zone_name(), "Asia/Kolkata");
    assert_eq!(rounded.local_date(), "2023-11-15");
}

#[test]
fn rounding_agrees_with_the_calendar_library() {
    for (epoch, offset) in [
        (1_700_000_000i64, 0i32),
        (1_700_000_000, 3600),
        (1_700_001_799, -12_600),
        (-86_400 * 365 * 20 + 1234, 7200),
        (951_782_399, 0),
        (4_102_444_799, 20_700),
    ] {
        let zone = FixedOffset::east_opt(offset).unwrap();
        let expected = DateTime::from_timestamp(epoch, 0)
            .unwrap()
            .with_timezone(&zone)
            .duration_round(TimeDelta::hours(1))
            .unwrap();
        let rounded = ZonedTimestamp::new(epoch, offset, "zone").unwrap().rounded_to_hour().unwrap();
        assert_eq!(rounded.epoch_seconds(), expected.timestamp());
        assert_eq!(rounded.local_date(), expected.date_naive().to_string());
        let local = epoch + offset as i64;
        assert_eq!(rounded.epoch_seconds(), (local + 1800).div_euclid(3600) * 3600 - offset as i64);
    }
}

#[test]
fn rounding_gives_up_beyond_what_nanoseconds_can_count() {
    let far = ZonedTimestamp::new(10_000_000_000, 0, "UTC").unwrap();
    assert!(far.rounded_to_hour().is_none());
    match past_temperature_request("1", "2", &far, NOW) {
        Err(ApiError::BadRequest { reason }) => {
            assert_eq!(reason, "Rounding the timestamp exceeded its possible value space")
        }
        other => panic!("unexpected outcome {:?}", other),
    }
}

#[test]
fn earliest_day_is_the_first_of_january_1940() {
    let epoch = NaiveDate::from_ymd_opt(1970, 1, 1).unwrap();
    let earliest = NaiveDate::from_ymd_opt(1940, 1, 1).unwrap();
    assert_eq!((earliest - epoch).num_days(), EARLIEST_DAY);
}

#[test]
fn series_request_has_the_seven_parameters() {
    let start = vienna(1_700_000_000);
    let end = vienna(1_700_100_000);
    let request = temperature_series_request("48.21", "16.37", &start, &end, NOW).unwrap();
    assert_eq!(
        request.params,
        vec![
            pair("latitude", "48.21"),
            pair("longitude", "16.37"),
            pair("hourly", "temperature_2m"),
            pair("start_date", "2023-11-14"),
            pair("end_date", "2023-11-16"),
            pair("timezone", "Europe/Vienna"),
            pair("timeformat", "unixtime"),
        ]
    );
    assert_eq!(request.start, 1_700_000_000);
    assert_eq!(request.end, 1_700_100_000);
}

#[test]
fn reversed_span_is_rejected() {
    let reason = bad_request(temperature_series_request(
        "1",
        "2",
        &vienna(1_700_000_001),
        &vienna(1_700_000_000),
        NOW,
    ));
    assert_eq!(reason, "Start date must be less than or equal to end date");
}

#[test]
fn span_before_the_archive_is_rejected() {
    // 1939-12-31T22:59:59Z is 23:59:59 in Vienna, one second before the archive starts
    let first = -10958 * 86_400 - 3600;
    let reason = bad_request(temperature_series_request(
        "1",
        "2",
        &vienna(first - 1),
        &vienna(1_700_000_000),
        NOW,
    ));
    assert_eq!(reason, "There is no climate data available before 1940-01-01");
    let request =
        temperature_series_request("1", "2", &vienna(first), &vienna(1_700_000_000), NOW).unwrap();
    assert_eq!(request.params[3], pair("start_date", "1940-01-01"));
}

#[test]
fn span_into_the_future_is_rejected() {
    // NOW is midnight UTC: in Vienna the day is the same until 23:00 UTC
    let last = NOW + 86_400 - 3600 - 1;
    let request = temperature_series_request("1", "2", &vienna(NOW), &vienna(last), NOW).unwrap();
    assert_eq!(request.params[4], pair("end_date", "2026-01-01"));
    let reason = bad_request(temperature_series_request("1", "2", &vienna(NOW), &vienna(last + 1), NOW));
    assert_eq!(reason, "Cannot predict climate data in the future!");
}

#[test]
fn reversed_span_is_reported_before_the_other_faults() {
    let reason = bad_request(temperature_series_request(
        "1",
        "2",
        &vienna(NOW + 10 * 86_400),
        &vienna(-2_000_000_000),
        NOW,
    ));
    assert_eq!(reason, "Start date must be less than or equal to end date");
}

#[test]
fn past_temperature_request_asks_for_the_rounded_hour() {
    let request = past_temperature_request("48.21", "16.37", &vienna(1_700_001_000), NOW).unwrap();
    assert_eq!(request.start, 1_700_002_800);
    assert_eq!(request.end, 1_700_002_800);
    assert_eq!(request.params[3], pair("start_date", "2023-11-15"));
    assert_eq!(request.params[4], pair("end_date", "2023-11-15"));
    assert_eq!(request.params[5], pair("timezone", "Europe/Vienna"));
}

#[test]
fn series_zips_times_and_values() {
    let points = samples();
    assert_eq!(points.len(), 4);
    assert_eq!(points[0].time, 1_700_000_000);
    assert_eq!(points[0].value, 4.5);
    assert_eq!(points[3].time, 1_700_010_800);
    assert_eq!(points[3].value, 6.0);
}

#[test]
fn series_zip_stops_at_the_shorter_side() {
    let answer = HistoricalTemperature {
        series: TemperatureSeries { times: vec![10, 20, 30], temperatures: vec![1.0f32, 2.0] },
    };
    let points = answer.series.points();
    assert_eq!(points.len(), 2);
    assert_eq!(points[1].time, 20);
    let empty = TemperatureSeries::<f32> { times: vec![], temperatures: vec![1.0] }.points();
    assert!(empty.is_empty());
}

#[test]
fn series_keeps_only_the_span_with_both_ends() {
    let series = temperature_series(&samples(), 1_700_003_600, 1_700_007_200);
    let times: Vec<i64> = series.keys().copied().collect();
    assert_eq!(times, vec![1_700_003_600, 1_700_007_200]);
    assert_eq!(series[&1_700_003_600].value, 5.0);
    assert_eq!(series[&1_700_003_600].time, 1_700_003_600);
}

#[test]
fn series_keeps_the_later_of_two_samples_for_one_instant() {
    let points = TemperatureSeries { times: vec![100, 200, 100], temperatures: vec![1.0f32, 2.0, 3.0] }.points();
    let series = temperature_series(&points, 0, 1000);
    assert_eq!(series.len(), 2);
    assert_eq!(series[&100].value, 3.0);
}

#[test]
fn sample_of_the_rounded_hour_is_found() {
    let series = temperature_series(&samples(), 1_700_003_600, 1_700_003_600);
    assert_eq!(series.len(), 1);
    let found = past_temperature(&series, 1_700_003_600).unwrap();
    assert_eq!(found.epoch, 1_700_003_600);
    assert_eq!(found.temperature_2m, 5.0);
}

#[test]
fn missing_sample_is_not_found() {
    let series = temperature_series(&samples(), 1_700_014_400, 1_700_014_400);
    assert!(series.is_empty());
    assert!(matches!(past_temperature(&series, 1_700_014_400), Err(ApiError::NotFound)));
    let all = temperature_series(&samples(), i64::MIN, i64::MAX);
    assert!(matches!(past_temperature(&all, 1_700_003_601), Err(ApiError::NotFound)));
    let none = temperature_series(&Vec::<TemperatureDataPoint<f32>>::new(), 0, 10);
    assert!(matches!(past_temperature(&none, 5), Err(ApiError::NotFound)));
}

#[test]
fn samples_are_equal_and_ordered_by_their_instant() {
    let early = TemperatureDataPoint { time: 100, value: 9.0f32 };
    let same_instant = TemperatureDataPoint { time: 100, value: -3.0f32 };
    let late = TemperatureDataPoint { time: 200, value: 9.0f32 };
    assert!(early == same_instant);
    assert!(early != late);
    assert!(early < late);
    assert!(late > early);
    assert!(early <= same_instant);
    assert_eq!(early.partial_cmp(&late), Some(std::cmp::Ordering::Less));
    assert_eq!(late.partial_cmp(&early), Some(std::cmp::Ordering::Greater));
    assert_eq!(early.partial_cmp(&same_instant), Some(std::cmp::Ordering::Equal));
}

#[test]
fn answer_converts_into_points_and_series() {
    let answer = HistoricalTemperature {
        series: TemperatureSeries { times: vec![10, 20, 10], temperatures: vec![1.0f32, 2.0, 3.0] },
    };
    let points = answer.clone().into_points();
    assert_eq!(points.len(), 3);
    let series = answer.into_series();
    assert_eq!(series.len(), 2);
    assert_eq!(series[&10].value, 3.0);
    assert_eq!(series[&20].value, 2.0);
}

#[test]
fn sample_converts_into_a_single_temperature() {
    let single = climate_bot::sources::common::SingleTemperature::from(TemperatureDataPoint {
        time: 1_700_000_000,
        value: 2.5f32,
    });
    assert_eq!(single.epoch, 1_700_000_000);
    assert_eq!(single.temperature_2m, 2.5);
}

#[test]
fn hour_request_spans_the_single_hour() {
    let hour = vienna(1_700_002_800);
    let request = hour_request("48.21", "16.37", Some(hour), NOW).unwrap();
    assert_eq!(request.start, 1_700_002_800);
    assert_eq!(request.end, 1_700_002_800);
    assert_eq!(request.params[3], pair("start_date", "2023-11-15"));
    assert_eq!(request.params[4], pair("end_date", "2023-11-15"));
}

#[test]
fn hour_request_without_an_hour_is_a_bad_request() {
    let reason = bad_request(hour_request("48.21", "16.37", None, NOW));
    assert_eq!(reason, "Rounding the timestamp exceeded its possible value space");
    let reason = bad_request(hour_request("1", "2", Some(vienna(NOW + 86_400 * 3)), NOW));
    assert_eq!(reason, "Cannot predict climate data in the future!");
}

#[test]
fn timestamp_at_the_ends_of_the_calendar_exists_only_within_it() {
    const LAST: i64 = 8_210_266_876_799;
    const FIRST: i64 = -8_334_601_228_800;
    let last = ZonedTimestamp::new(LAST, 0, "UTC").unwrap();
    assert_eq!(last.local_date(), "+262142-12-31");
    assert!(ZonedTimestamp::new(LAST + 1, 0, "UTC").is_none());
    assert!(ZonedTimestamp::new(LAST, 1, "UTC").is_none());
    assert!(ZonedTimestamp::new(LAST, 86_399, "UTC").is_none());
    assert!(ZonedTimestamp::new(LAST - 3600, 3601, "UTC").is_none());
    assert_eq!(ZonedTimestamp::new(LAST - 3600, 3600, "UTC").unwrap().local_date(), "+262142-12-31");
    assert_eq!(ZonedTimestamp::new(LAST, -1, "UTC").unwrap().local_date(), "+262142-12-31");

    let first = ZonedTimestamp::new(FIRST, 0, "UTC").unwrap();
    assert_eq!(first.local_date(), "-262143-01-01");
    assert!(ZonedTimestamp::new(FIRST - 1, 0, "UTC").is_none());
    assert!(ZonedTimestamp::new(FIRST, -1, "UTC").is_none());
    assert!(ZonedTimestamp::new(FIRST, -86_399, "UTC").is_none());
    assert!(ZonedTimestamp::new(FIRST + 3600, -3601, "UTC").is_none());
    assert_eq!(ZonedTimestamp::new(FIRST + 3600, -3600, "UTC").unwrap().local_date(), "-262143-01-01");
    assert_eq!(ZonedTimestamp::new(FIRST, 1, "UTC").unwrap().local_date(), "-262143-01-01");
}

#[test]
fn timestamp_at_the_ends_of_the_calendar_cannot_be_rounded() {
    for (epoch, offset) in [
        (8_210_266_876_799i64, 0i32),
        (8_210_266_876_799, -86_399),
        (-8_334_601_228_800, 0),
        (-8_334_601_228_800, 86_399),
    ] {
        let timestamp = ZonedTimestamp::new(epoch, offset, "UTC").unwrap();
        assert!(timestamp.rounded_to_hour().is_none());
    }
}

#[test]
fn rounding_works_exactly_as_far_as_nanoseconds_can_be_counted() {
    const LIMIT: i64 = 9_223_372_036;
    for offset in [0i32, 1, -1, 3600, -3600, 19_800, 86_399, -86_399] {
        for local in [LIMIT, LIMIT - 1, LIMIT - 1800, -LIMIT, -LIMIT + 1, -LIMIT + 1800, 0] {
            let epoch = local - offset as i64;
            let rounded = ZonedTimestamp::new(epoch, offset, "zone").unwrap().rounded_to_hour().unwrap();
            assert_eq!(rounded.epoch_seconds(), (local + 1800).div_euclid(3600) * 3600 - offset as i64);
            assert_eq!(rounded.utc_offset_seconds(), offset);
        }
        for local in [LIMIT + 1, LIMIT + 3600, -LIMIT - 1, -LIMIT - 3600] {
            let epoch = local - offset as i64;
            assert!(ZonedTimestamp::new(epoch, offset, "zone").unwrap().rounded_to_hour().is_none());
        }
    }
}
