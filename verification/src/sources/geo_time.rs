//! The clock of a place: from a date and a time of day as they are read
//! off a clock in some time zone to the instant that they name.
//!
//! Which zone a place lies in is the caller's to find out; the zone comes
//! here by its name. A name that stands for no zone is met with the clock
//! of Vienna.

use vstd::prelude::*;
use vstd::string::*;
use crate::sources::climate_historical::{calendar_date, ZonedTimestamp};

verus! {

/// Whether `chrono_tz` knows a time zone of the name `name`.
pub uninterp spec fn is_zone(name: Seq<char>) -> bool;

/// What `chrono` and `chrono_tz` make of a date and time on the clock of
/// the time zone `zone`: the one instant at which the clock shows it, as
/// the seconds since the epoch and the seconds that the clock is ahead of
/// UTC then; nothing where the clock shows it twice or never, as it does
/// around a change between summer and winter time, or where there is no
/// such zone. The date and time are given as the seconds that a clock set
/// to UTC would have counted since the epoch when showing them.
pub uninterp spec fn instant_of(local_seconds: i64, zone: Seq<char>) -> Option<(i64, i32)>;

/// Whether there is a time zone of this name: `str::parse` into a
/// `chrono_tz::Tz`. The contract only names the result.
#[verifier::external_body]
fn zone_exists(name: &str) -> (r: bool)
    ensures
        r == is_zone(name@),
{
    name.parse::<chrono_tz::Tz>().is_ok()
}

/// The instant that a date and time name on the clock of a time zone:
/// `NaiveDateTime::and_local_timezone` of `chrono` with the `chrono_tz::Tz`
/// of that name, and `single` of what it returns. The contract names the
/// result, and claims of an instant that the local clock shows what was
/// asked for: the instant and the clock's lead add up to it.
#[verifier::external_body]
fn local_instant(local_seconds: i64, zone: &str) -> (r: Option<(i64, i32)>)
    ensures
        r == instant_of(local_seconds, zone@),
        r matches Some((epoch_seconds, utc_offset_seconds)) ==> epoch_seconds + utc_offset_seconds
            == local_seconds,
{
    let zone = zone.parse::<chrono_tz::Tz>().ok()?;
    let local = chrono::DateTime::from_timestamp(local_seconds, 0)?.naive_utc();
    let instant = local.and_local_timezone(zone).single()?;
    Some((instant.timestamp(), chrono::Offset::fix(instant.offset()).local_minus_utc()))
}

/// The name of the zone whose clock is used for a place in the zone
/// `zone`: the zone itself, and Vienna where nothing is known of a zone of
/// that name.
pub open spec fn clock_zone(zone: Seq<char>, known: bool) -> Seq<char> {
    if known {
        zone
    } else {
        "Europe/Vienna"@
    }
}

/// How the zone of a place is described in an error report.
pub open spec fn zone_report(zone: Seq<char>, known: bool) -> Seq<char> {
    if known {
        "Some("@ + zone + ")"@
    } else {
        "None"@
    }
}

/// The time that is asked for.
#[derive(Debug)]
pub enum RequestedTime {
    /// The moment at which the command is handled.
    Now,
    /// An instant of the past, on the clock of the place.
    At(ZonedTimestamp),
    /// A date and time that do not name one instant on the clock of the
    /// place. `timezone` describes the zone of the place.
    Unlocalizable { timezone: String },
}

/// Whether `r` is what the instant `instant` on the clock of `zone` is
/// asked as. `known` says whether `zone` is the name of a zone.
pub open spec fn is_requested_time(
    r: RequestedTime,
    zone: Seq<char>,
    known: bool,
    instant: Option<(i64, i32)>,
) -> bool {
    match instant {
        Some((epoch_seconds, utc_offset_seconds)) => match calendar_date(
            epoch_seconds,
            utc_offset_seconds,
        ) {
            Some(date) => r matches RequestedTime::At(timestamp) && timestamp.epoch()
                == epoch_seconds && timestamp.offset() == utc_offset_seconds && timestamp.zone()
                == clock_zone(zone, known) && timestamp.date() == date,
            None => r matches RequestedTime::Unlocalizable { timezone } && timezone@
                == zone_report(zone, known),
        },
        None => r matches RequestedTime::Unlocalizable { timezone } && timezone@ == zone_report(
            zone,
            known,
        ),
    }
}

/// The name of the zone whose clock is used for a place in the zone
/// `zone`: the zone itself, and Vienna where `known` says that nothing is
/// known of a zone of that name.
pub fn clock_zone_name(zone: &str, known: bool) -> (r: &str)
    ensures
        r@ == clock_zone(zone@, known),
{
    if known {
        zone
    } else {
        "Europe/Vienna"
    }
}

/// Turns what the local clock made of a date and time into the time that
/// is asked for. `instant` is the instant that the date and time name on
/// the clock of `zone`, or of Vienna where `known` says that `zone` names
/// no zone; it is missing where they name no instant or more than one.
pub fn requested_time(zone: &str, known: bool, instant: Option<(i64, i32)>) -> (r: RequestedTime)
    ensures
        is_requested_time(r, zone@, known, instant),
{
    let at = match instant {
        Some((epoch_seconds, utc_offset_seconds)) => ZonedTimestamp::new(
            epoch_seconds,
            utc_offset_seconds,
            clock_zone_name(zone, known),
        ),
        None => None,
    };
    match at {
        Some(timestamp) => RequestedTime::At(timestamp),
        None => {
            let timezone = if known {
                let mut text = String::from_str("Some(");
                text.append(zone);
                text.append(")");
                text
            } else {
                String::from_str("None")
            };
            RequestedTime::Unlocalizable { timezone }
        },
    }
}

/// Finds the instant that a date and time name at a place. `local_seconds`
/// are the date and time, counted as seconds since the epoch on a clock
/// that knows no time zones; `zone` is the name of the time zone of the
/// place. A date and time that the clock of the zone shows twice or never
/// name no instant and cannot be asked for.
pub fn localize_timestamp(local_seconds: i64, zone: &str) -> (r: RequestedTime)
    ensures
        is_requested_time(
            r,
            zone@,
            is_zone(zone@),
            instant_of(local_seconds, clock_zone(zone@, is_zone(zone@))),
        ),
        r matches RequestedTime::At(timestamp) ==> timestamp.epoch() + timestamp.offset()
            == local_seconds,
{
    let known = zone_exists(zone);
    let instant = local_instant(local_seconds, clock_zone_name(zone, known));
    requested_time(zone, known, instant)
}

} // verus!
