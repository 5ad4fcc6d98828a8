//! Temperatures of the past: which request asks the archive for them, and
//! what its answer holds for a given hour.
//!
//! The archive keeps one sample for every full hour. A lookup therefore
//! rounds the time that was asked for to the nearest hour, asks for the
//! day on which that hour lies, and picks the sample of exactly that hour
//! from the answer.

use vstd::prelude::*;
use vstd::string::*;
use std::collections::BTreeMap;
use crate::sources::common::{pairs, ApiError, SingleTemperature};
pub use crate::sources::data_point::TemperatureDataPoint;

verus! {

/// The greatest number of seconds, before or after the epoch, whose
/// nanoseconds a count of 64 bits holds. Rounding works on nanoseconds and
/// gives up on a local time beyond that, which lies in the years 1677 and
/// 2262.
pub const ROUNDING_LIMIT: i64 = 9_223_372_036;

/// The first day for which the archive has data, the first of January
/// 1940, counted in days from the first of January 1970.
pub const EARLIEST_DAY: i64 = -10958;

/// The full hour that lies nearest to `seconds`; the later one where two
/// are equally near.
pub open spec fn nearest_hour(seconds: int) -> int {
    (seconds + 1800) / 3600 * 3600
}

/// The day, counted from the first of January 1970, on which an instant
/// falls for a clock that is `utc_offset_seconds` ahead of UTC.
pub open spec fn local_day(epoch_seconds: i64, utc_offset_seconds: i32) -> int {
    (epoch_seconds + utc_offset_seconds) / 86400
}

/// An instant rounded to the hour on a clock that is `utc_offset_seconds`
/// ahead of UTC, in seconds since the epoch: the nearest full hour of the
/// local clock, the later one where two are equally near. There is none
/// where the clock is a day or more off UTC, or where the local time lies
/// further from the epoch than `ROUNDING_LIMIT`.
pub open spec fn hour_rounded(epoch_seconds: i64, utc_offset_seconds: i32) -> Option<i64> {
    let local = epoch_seconds + utc_offset_seconds;
    if -86400 < utc_offset_seconds < 86400 && -ROUNDING_LIMIT <= local <= ROUNDING_LIMIT {
        Some((nearest_hour(local) - utc_offset_seconds) as i64)
    } else {
        None
    }
}

/// What `chrono` prints for the calendar date of an instant on a clock that
/// is `utc_offset_seconds` ahead of UTC, or nothing where its calendar
/// cannot express the instant.
pub uninterp spec fn calendar_date(epoch_seconds: i64, utc_offset_seconds: i32) -> Option<
    Seq<char>,
>;

/// Whether `r` stands for the date `date`, text for text.
pub open spec fn is_date(r: Option<String>, date: Option<Seq<char>>) -> bool {
    match r {
        Some(text) => date == Some(text@),
        None => date is None,
    }
}

/// Rounds an instant to the nearest hour of the local clock:
/// `DurationRound::duration_round` of `chrono` with a span of one hour, on
/// the `DateTime` that `FixedOffset::east_opt`, `DateTime::from_timestamp`
/// and `DateTime::with_timezone` make of the two numbers, once
/// `NaiveDateTime::checked_add_offset` has shown that the calendar holds
/// the local time. The contract claims that an instant is rounded exactly
/// where the offset is less than a day and
/// `DateTime::timestamp_nanos_opt` can count the local time, and that it
/// is rounded to the nearest full hour of the local clock, the later one
/// where two are equally near.
#[verifier::external_body]
fn round_to_hour(epoch_seconds: i64, utc_offset_seconds: i32) -> (r: Option<i64>)
    ensures
        r == hour_rounded(epoch_seconds, utc_offset_seconds),
{
    let zone = chrono::FixedOffset::east_opt(utc_offset_seconds)?;
    let instant = chrono::DateTime::from_timestamp(epoch_seconds, 0)?;
    instant.naive_utc().checked_add_offset(zone)?;
    let local = instant.with_timezone(&zone);
    let rounded = chrono::DurationRound::duration_round(local, chrono::TimeDelta::hours(1));
    rounded.ok().map(|instant| instant.timestamp())
}

/// Prints the calendar date of an instant on the local clock:
/// `NaiveDateTime::date` of `chrono` and the `Display` of the date, on the
/// local time that `FixedOffset::east_opt`, `DateTime::from_timestamp` and
/// `NaiveDateTime::checked_add_offset` make of the two numbers. There is
/// no date where one of the three has none to give. The contract only
/// names the result.
#[verifier::external_body]
fn local_date_text(epoch_seconds: i64, utc_offset_seconds: i32) -> (r: Option<String>)
    ensures
        is_date(r, calendar_date(epoch_seconds, utc_offset_seconds)),
{
    let zone = chrono::FixedOffset::east_opt(utc_offset_seconds)?;
    let instant = chrono::DateTime::from_timestamp(epoch_seconds, 0)?;
    let local = instant.naive_utc().checked_add_offset(zone)?;
    Some(local.date().to_string())
}

/// An instant together with the clock of the place it is meant for: the
/// seconds since the epoch, how far the local clock is ahead of UTC at that
/// instant, and the name of the time zone. Only instants that the calendar
/// can express exist as values of this type.
#[derive(Debug)]
pub struct ZonedTimestamp {
    epoch_seconds: i64,
    utc_offset_seconds: i32,
    zone_name: String,
    local_date: String,
}

impl ZonedTimestamp {
    /// The date that is kept is the date of the instant.
    #[verifier::type_invariant]
    spec fn date_is_kept(&self) -> bool {
        calendar_date(self.epoch_seconds, self.utc_offset_seconds) == Some(self.local_date@)
    }

    /// The seconds since the epoch.
    pub closed spec fn epoch(&self) -> i64 {
        self.epoch_seconds
    }

    /// The seconds by which the local clock is ahead of UTC.
    pub closed spec fn offset(&self) -> i32 {
        self.utc_offset_seconds
    }

    /// The name of the time zone.
    pub closed spec fn zone(&self) -> Seq<char> {
        self.zone_name@
    }

    /// The calendar date on the local clock, as text.
    pub closed spec fn date(&self) -> Seq<char> {
        self.local_date@
    }

    /// The day on which the instant falls on the local clock, counted from
    /// the first of January 1970.
    pub open spec fn day(&self) -> int {
        local_day(self.epoch(), self.offset())
    }

    /// The instant `epoch_seconds` on the clock of the zone `zone_name`,
    /// which is `utc_offset_seconds` ahead of UTC then; nothing where the
    /// calendar cannot express the instant.
    pub fn new(epoch_seconds: i64, utc_offset_seconds: i32, zone_name: &str) -> (r: Option<
        ZonedTimestamp,
    >)
        ensures
            r is Some <==> calendar_date(epoch_seconds, utc_offset_seconds) is Some,
            r matches Some(t) ==> t.epoch() == epoch_seconds && t.offset() == utc_offset_seconds
                && t.zone() == zone_name@ && Some(t.date()) == calendar_date(
                epoch_seconds,
                utc_offset_seconds,
            ),
    {
        match local_date_text(epoch_seconds, utc_offset_seconds) {
            Some(local_date) => Some(
                ZonedTimestamp {
                    epoch_seconds,
                    utc_offset_seconds,
                    zone_name: String::from_str(zone_name),
                    local_date,
                },
            ),
            None => None,
        }
    }

    /// The seconds since the epoch.
    pub fn epoch_seconds(&self) -> (r: i64)
        ensures
            r == self.epoch(),
    {
        self.epoch_seconds
    }

    /// The seconds by which the local clock is ahead of UTC.
    pub fn utc_offset_seconds(&self) -> (r: i32)
        ensures
            r == self.offset(),
    {
        self.utc_offset_seconds
    }

    /// The name of the time zone.
    pub fn zone_name(&self) -> (r: &str)
        ensures
            r@ == self.zone(),
    {
        self.zone_name.as_str()
    }

    /// The calendar date on the local clock, as text.
    pub fn local_date(&self) -> (r: &str)
        ensures
            r@ == self.date(),
            Some(r@) == calendar_date(self.epoch(), self.offset()),
    {
        proof {
            use_type_invariant(self);
        }
        self.local_date.as_str()
    }

    /// The instant rounded to the nearest full hour of the local clock, the
    /// later one where two are equally near; nothing where the instant
    /// cannot be rounded.
    pub fn rounded_to_hour(&self) -> (r: Option<ZonedTimestamp>)
        ensures
            r is Some <==> (hour_rounded(self.epoch(), self.offset()) matches Some(rounded)
                && calendar_date(rounded, self.offset()) is Some),
            r matches Some(t) ==> Some(t.epoch()) == hour_rounded(self.epoch(), self.offset())
                && t.epoch() == nearest_hour(self.epoch() + self.offset()) - self.offset()
                && t.offset() == self.offset() && t.zone() == self.zone() && Some(t.date())
                == calendar_date(t.epoch(), t.offset()),
    {
        match round_to_hour(self.epoch_seconds, self.utc_offset_seconds) {
            Some(rounded) => ZonedTimestamp::new(
                rounded,
                self.utc_offset_seconds,
                self.zone_name.as_str(),
            ),
            None => None,
        }
    }
}

/// The day on which an instant falls on a clock that is
/// `utc_offset_seconds` ahead of UTC.
fn day_of(epoch_seconds: i64, utc_offset_seconds: i32) -> (day: i64)
    ensures
        day == local_day(epoch_seconds, utc_offset_seconds),
{
    // Dividing a negative number rounds towards zero, so the count is
    // taken from a day that lies before every instant.
    let shift: i128 = 106_751_991_200_000;
    let local: i128 = epoch_seconds as i128 + utc_offset_seconds as i128;
    let shifted: i128 = local + shift * 86400;
    let day: i128 = shifted / 86400 - shift;
    assert((local + shift * 86400) / 86400 == local / 86400 + shift);
    day as i64
}

/// What is wrong with a span of time that the archive is asked for.
#[derive(Debug, Clone, Copy, PartialEq, Eq, Structural)]
pub enum RangeFault {
    /// The span ends before it starts.
    Reversed,
    /// The span starts on a day for which the archive has no data.
    BeforeArchive,
    /// The span ends on a day that has not begun yet.
    InFuture,
}

/// What is wrong with the span from `start` to `end` at the instant
/// `now_epoch_seconds`, if anything is; of several faults the first in the
/// order of [`RangeFault`]. An instant is given by its seconds since the
/// epoch and by the seconds that its clock is ahead of UTC.
pub open spec fn range_fault(
    start: (i64, i32),
    end: (i64, i32),
    now_epoch_seconds: i64,
) -> Option<RangeFault> {
    if start.0 > end.0 {
        Some(RangeFault::Reversed)
    } else if local_day(start.0, start.1) < EARLIEST_DAY {
        Some(RangeFault::BeforeArchive)
    } else if local_day(end.0, end.1) > local_day(now_epoch_seconds, 0) {
        Some(RangeFault::InFuture)
    } else {
        None
    }
}

/// The words in which a fault is reported.
pub open spec fn fault_text(fault: RangeFault) -> Seq<char> {
    match fault {
        RangeFault::Reversed => "Start date must be less than or equal to end date"@,
        RangeFault::BeforeArchive => "There is no climate data available before 1940-01-01"@,
        RangeFault::InFuture => "Cannot predict climate data in the future!"@,
    }
}

/// The parameters that ask the archive for the hourly temperatures at a
/// place, from one calendar date to another, with times counted in seconds
/// since the epoch.
pub open spec fn archive_params(
    latitude: Seq<char>,
    longitude: Seq<char>,
    start_date: Seq<char>,
    end_date: Seq<char>,
    zone: Seq<char>,
) -> Seq<(Seq<char>, Seq<char>)> {
    seq![
        ("latitude"@, latitude),
        ("longitude"@, longitude),
        ("hourly"@, "temperature_2m"@),
        ("start_date"@, start_date),
        ("end_date"@, end_date),
        ("timezone"@, zone),
        ("timeformat"@, "unixtime"@),
    ]
}

/// Whether `r` is the refusal of a span with the fault `fault`, or, where
/// there is no fault, a request with the parameters `params` for the span
/// from `start` to `end`.
pub open spec fn is_series_request(
    r: Result<SeriesRequest, ApiError>,
    fault: Option<RangeFault>,
    params: Seq<(Seq<char>, Seq<char>)>,
    start: i64,
    end: i64,
) -> bool {
    match fault {
        Some(fault) => r matches Err(ApiError::BadRequest { reason }) && reason@ == fault_text(fault),
        None => r matches Ok(request) && pairs(request.params@) == params && request.start == start
            && request.end == end,
    }
}

/// Whether `r` is the refusal of an instant that cannot be rounded.
pub open spec fn is_rounding_failure(r: Result<SeriesRequest, ApiError>) -> bool {
    r matches Err(ApiError::BadRequest { reason }) && reason@
        == "Rounding the timestamp exceeded its possible value space"@
}

/// A request to the archive, and the span of time that its answer is to be
/// cut down to.
#[derive(Debug)]
pub struct SeriesRequest {
    pub params: Vec<(String, String)>,
    /// The first instant of the span, in seconds since the epoch.
    pub start: i64,
    /// The last instant of the span, in seconds since the epoch.
    pub end: i64,
}

/// One pair of a parameter list.
fn param(key: &str, value: &str) -> (r: (String, String))
    ensures
        r.0@ == key@,
        r.1@ == value@,
{
    (String::from_str(key), String::from_str(value))
}

/// Prepares the request for the hourly temperatures at a place between
/// `start` and `end`, both included. `now_epoch_seconds` is the instant at
/// which the request is made. A span that ends before it starts, starts
/// before the archive does or ends on a day that has not begun is a
/// [`ApiError::BadRequest`] that says so; nothing is sent for it.
pub fn temperature_series_request(
    latitude: &str,
    longitude: &str,
    start: &ZonedTimestamp,
    end: &ZonedTimestamp,
    now_epoch_seconds: i64,
) -> (r: Result<SeriesRequest, ApiError>)
    ensures
        is_series_request(
            r,
            range_fault(
                (start.epoch(), start.offset()),
                (end.epoch(), end.offset()),
                now_epoch_seconds,
            ),
            archive_params(latitude@, longitude@, start.date(), end.date(), start.zone()),
            start.epoch(),
            end.epoch(),
        ),
{
    if start.epoch_seconds() > end.epoch_seconds() {
        return Err(
            ApiError::BadRequest {
                reason: String::from_str("Start date must be less than or equal to end date"),
            },
        );
    }
    if day_of(start.epoch_seconds(), start.utc_offset_seconds()) < EARLIEST_DAY {
        return Err(
            ApiError::BadRequest {
                reason: String::from_str("There is no climate data available before 1940-01-01"),
            },
        );
    }
    if day_of(end.epoch_seconds(), end.utc_offset_seconds()) > day_of(now_epoch_seconds, 0) {
        return Err(
            ApiError::BadRequest {
                reason: String::from_str("Cannot predict climate data in the future!"),
            },
        );
    }
    let mut params: Vec<(String, String)> = Vec::new();
    params.push(param("latitude", latitude));
    params.push(param("longitude", longitude));
    params.push(param("hourly", "temperature_2m"));
    params.push(param("start_date", start.local_date()));
    params.push(param("end_date", end.local_date()));
    params.push(param("timezone", start.zone_name()));
    params.push(param("timeformat", "unixtime"));
    assert(pairs(params@) == archive_params(
        latitude@,
        longitude@,
        start.date(),
        end.date(),
        start.zone(),
    ));
    Ok(SeriesRequest { params, start: start.epoch_seconds(), end: end.epoch_seconds() })
}

/// Prepares the request for the temperature at a place at one full hour:
/// the span of the request starts and ends at that hour. `rounded` is the
/// instant that was asked for, rounded to the hour, or nothing where it
/// could not be rounded, which is a [`ApiError::BadRequest`].
pub fn hour_request(
    latitude: &str,
    longitude: &str,
    rounded: Option<ZonedTimestamp>,
    now_epoch_seconds: i64,
) -> (r: Result<SeriesRequest, ApiError>)
    ensures
        match rounded {
            Some(hour) => is_series_request(
                r,
                range_fault(
                    (hour.epoch(), hour.offset()),
                    (hour.epoch(), hour.offset()),
                    now_epoch_seconds,
                ),
                archive_params(latitude@, longitude@, hour.date(), hour.date(), hour.zone()),
                hour.epoch(),
                hour.epoch(),
            ),
            None => is_rounding_failure(r),
        },
{
    match rounded {
        Some(hour) => temperature_series_request(latitude, longitude, &hour, &hour, now_epoch_seconds),
        None => Err(
            ApiError::BadRequest {
                reason: String::from_str("Rounding the timestamp exceeded its possible value space"),
            },
        ),
    }
}

/// Prepares the request for the temperature at a place at `timestamp`.
/// The archive keeps one sample for each full hour, so the request asks
/// for the hour nearest to `timestamp`, the later one where two are equally
/// near; `request.start` is that hour, under which the sample is then
/// found. An instant that cannot be rounded is a
/// [`ApiError::BadRequest`].
pub fn past_temperature_request(
    latitude: &str,
    longitude: &str,
    timestamp: &ZonedTimestamp,
    now_epoch_seconds: i64,
) -> (r: Result<SeriesRequest, ApiError>)
    ensures
        match hour_rounded(timestamp.epoch(), timestamp.offset()) {
            Some(hour) => match calendar_date(hour, timestamp.offset()) {
                Some(date) => is_series_request(
                    r,
                    range_fault(
                        (hour, timestamp.offset()),
                        (hour, timestamp.offset()),
                        now_epoch_seconds,
                    ),
                    archive_params(latitude@, longitude@, date, date, timestamp.zone()),
                    hour,
                    hour,
                ),
                None => is_rounding_failure(r),
            },
            None => is_rounding_failure(r),
        },
        r matches Ok(request) ==> request.start == nearest_hour(
            timestamp.epoch() + timestamp.offset(),
        ) - timestamp.offset(),
{
    hour_request(latitude, longitude, timestamp.rounded_to_hour(), now_epoch_seconds)
}

/// A series of temperatures as the archive sends it: the instants and the
/// values side by side.
#[derive(Debug, Clone)]
pub struct TemperatureSeries<V> {
    pub times: Vec<u32>,
    pub temperatures: Vec<V>,
}

/// The answer of the archive.
#[derive(Debug, Clone)]
pub struct HistoricalTemperature<V> {
    pub series: TemperatureSeries<V>,
}

/// The samples that instants and values side by side stand for: the first
/// instant with the first value and so on, as far as both reach.
pub open spec fn zipped<V>(times: Seq<u32>, values: Seq<V>) -> Seq<TemperatureDataPoint<V>> {
    Seq::new(
        if times.len() <= values.len() {
            times.len()
        } else {
            values.len()
        },
        |i: int| TemperatureDataPoint { time: times[i] as i64, value: values[i] },
    )
}

/// Samples by their instant. Of two samples for one instant the later one
/// in the sequence counts.
pub open spec fn indexed<V>(points: Seq<TemperatureDataPoint<V>>) -> Map<
    i64,
    TemperatureDataPoint<V>,
>
    decreases points.len(),
{
    if points.len() == 0 {
        Map::empty()
    } else {
        indexed(points.drop_last()).insert(points.last().time, points.last())
    }
}

/// The part of a series that lies between `start` and `end`, both included.
pub open spec fn between<V>(
    series: Map<i64, TemperatureDataPoint<V>>,
    start: i64,
    end: i64,
) -> Map<i64, TemperatureDataPoint<V>> {
    series.restrict(Set::new(|time: i64| start <= time <= end))
}

/// A series holds a sample for an instant exactly if one of the samples it
/// was made from is of that instant, and only holds samples under their
/// own instant.
pub proof fn lemma_indexed_keys<V>(points: Seq<TemperatureDataPoint<V>>, time: i64)
    ensures
        indexed(points).contains_key(time) <==> exists|i: int|
            0 <= i < points.len() && (#[trigger] points[i]).time == time,
        indexed(points).contains_key(time) ==> indexed(points)[time].time == time,
    decreases points.len(),
{
    if points.len() > 0 {
        let front = points.drop_last();
        lemma_indexed_keys(front, time);
        if points.last().time == time {
            assert(points[points.len() - 1].time == time);
        } else if indexed(points).contains_key(time) {
            let i = choose|i: int| 0 <= i < front.len() && (#[trigger] front[i]).time == time;
            assert(points[i].time == time);
        } else if exists|i: int| 0 <= i < points.len() && (#[trigger] points[i]).time == time {
            let i = choose|i: int| 0 <= i < points.len() && (#[trigger] points[i]).time == time;
            assert(front[i].time == time);
        }
    }
}

/// Asking for a single hour finds a sample exactly if the archive sent one
/// for that hour.
pub proof fn law_sample_of_the_hour<V>(points: Seq<TemperatureDataPoint<V>>, hour: i64)
    ensures
        between(indexed(points), hour, hour).contains_key(hour) <==> exists|i: int|
            0 <= i < points.len() && (#[trigger] points[i]).time == hour,
        forall|time: i64|
            between(indexed(points), hour, hour).contains_key(time) ==> time == hour,
{
    lemma_indexed_keys(points, hour);
}

impl<V> From<TemperatureDataPoint<V>> for SingleTemperature<V> {
    /// The sample as a temperature at one instant.
    fn from(data_point: TemperatureDataPoint<V>) -> (r: SingleTemperature<V>) {
        SingleTemperature { epoch: data_point.time, temperature_2m: data_point.value }
    }
}

impl<V> vstd::std_specs::convert::FromSpecImpl<TemperatureDataPoint<V>> for SingleTemperature<V> {
    open spec fn obeys_from_spec() -> bool {
        true
    }

    open spec fn from_spec(data_point: TemperatureDataPoint<V>) -> SingleTemperature<V> {
        SingleTemperature { epoch: data_point.time, temperature_2m: data_point.value }
    }
}

impl<V: Copy> HistoricalTemperature<V> {
    /// The samples of the answer, in the order in which the archive sent
    /// them.
    pub fn into_points(self) -> (r: Vec<TemperatureDataPoint<V>>)
        ensures
            r@ == zipped(self.series.times@, self.series.temperatures@),
    {
        self.series.points()
    }

    /// The samples of the answer by their instant, the whole of them.
    pub fn into_series(self) -> (r: BTreeMap<i64, TemperatureDataPoint<V>>)
        ensures
            r@ == indexed(zipped(self.series.times@, self.series.temperatures@)),
    {
        let points = self.series.points();
        let series = temperature_series(&points, i64::MIN, i64::MAX);
        assert(series@ =~= indexed(points@));
        series
    }
}

impl<V: Copy> TemperatureSeries<V> {
    /// The samples of the series, in the order in which the archive sent
    /// them.
    pub fn points(&self) -> (r: Vec<TemperatureDataPoint<V>>)
        ensures
            r@ == zipped(self.times@, self.temperatures@),
    {
        let count: usize = if self.times.len() <= self.temperatures.len() {
            self.times.len()
        } else {
            self.temperatures.len()
        };
        let mut r: Vec<TemperatureDataPoint<V>> = Vec::new();
        let mut i: usize = 0;
        while i < count
            invariant
                i <= count,
                count <= self.times.len(),
                count <= self.temperatures.len(),
                r@.len() == i,
                forall|j: int|
                    0 <= j < i ==> r@[j] == (TemperatureDataPoint {
                        time: self.times@[j] as i64,
                        value: self.temperatures@[j],
                    }),
            decreases count - i,
        {
            r.push(TemperatureDataPoint { time: self.times[i] as i64, value: self.temperatures[i] });
            i = i + 1;
        }
        assert(r@ =~= zipped(self.times@, self.temperatures@));
        r
    }
}

/// The samples between `start` and `end`, both included, by their
/// instant. Of two samples for one instant the later one counts.
pub fn temperature_series<V: Copy>(
    points: &Vec<TemperatureDataPoint<V>>,
    start: i64,
    end: i64,
) -> (series: BTreeMap<i64, TemperatureDataPoint<V>>)
    ensures
        series@ == between(indexed(points@), start, end),
{
    let mut series: BTreeMap<i64, TemperatureDataPoint<V>> = BTreeMap::new();
    let mut i: usize = 0;
    assert(series@ =~= between(indexed(points@.take(0)), start, end));
    while i < points.len()
        invariant
            i <= points.len(),
            series@ == between(indexed(points@.take(i as int)), start, end),
        decreases points.len() - i,
    {
        proof {
            assert(points@.take(i + 1).drop_last() == points@.take(i as int));
        }
        let point = points[i];
        if start <= point.time && point.time <= end {
            series.insert(point.time, point);
        }
        assert(series@ =~= between(indexed(points@.take(i + 1)), start, end));
        i = i + 1;
    }
    proof {
        assert(points@.take(points.len() as int) == points@);
    }
    series
}

/// The temperature that `series` holds for exactly the instant
/// `timestamp`; [`ApiError::NotFound`] where it holds none.
pub fn past_temperature<V: Copy>(
    series: &BTreeMap<i64, TemperatureDataPoint<V>>,
    timestamp: i64,
) -> (r: Result<SingleTemperature<V>, ApiError>)
    ensures
        match r {
            Ok(found) => series@.contains_key(timestamp) && found == (SingleTemperature {
                epoch: series@[timestamp].time,
                temperature_2m: series@[timestamp].value,
            }),
            Err(error) => !series@.contains_key(timestamp) && error == ApiError::NotFound,
        },
{
    match series.get(&timestamp) {
        Some(point) => Ok(SingleTemperature::from(*point)),
        None => Err(ApiError::NotFound),
    }
}

} // verus!
