//! The temperature of the moment: which request asks the forecast
//! provider for it, and what its answer holds.

use vstd::prelude::*;
use vstd::string::*;
use crate::sources::common::{pairs, SingleTemperature};

verus! {

/// For how many seconds a temperature that was fetched stands for the
/// temperature of the moment.
pub const CACHE_TTL_SECONDS: u64 = 120;

/// The answer of the forecast provider.
#[derive(Debug, Clone)]
pub struct CurrentTempResult<V> {
    pub current: SingleTemperature<V>,
}

impl<V> From<CurrentTempResult<V>> for SingleTemperature<V> {
    /// The temperature that the answer holds.
    fn from(result: CurrentTempResult<V>) -> (r: SingleTemperature<V>) {
        result.current
    }
}

impl<V> vstd::std_specs::convert::FromSpecImpl<CurrentTempResult<V>> for SingleTemperature<V> {
    open spec fn obeys_from_spec() -> bool {
        true
    }

    open spec fn from_spec(result: CurrentTempResult<V>) -> SingleTemperature<V> {
        result.current
    }
}

/// The parameters that ask for the temperature of the moment at a place,
/// with the time counted in seconds since the epoch.
pub open spec fn forecast_params(latitude: Seq<char>, longitude: Seq<char>) -> Seq<
    (Seq<char>, Seq<char>),
> {
    seq![
        ("latitude"@, latitude),
        ("longitude"@, longitude),
        ("current"@, "temperature_2m"@),
        ("timeformat"@, "unixtime"@),
    ]
}

/// Prepares the request for the temperature of the moment at the place
/// with the given coordinates.
pub fn current_temperature_request(latitude: &str, longitude: &str) -> (params: Vec<
    (String, String),
>)
    ensures
        pairs(params@) == forecast_params(latitude@, longitude@),
{
    let mut params: Vec<(String, String)> = Vec::new();
    params.push((String::from_str("latitude"), String::from_str(latitude)));
    params.push((String::from_str("longitude"), String::from_str(longitude)));
    params.push((String::from_str("current"), String::from_str("temperature_2m")));
    params.push((String::from_str("timeformat"), String::from_str("unixtime")));
    assert(pairs(params@) == forecast_params(latitude@, longitude@));
    params
}

} // verus!
