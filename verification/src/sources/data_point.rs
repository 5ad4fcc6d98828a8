//! One sample of a series of temperatures. Samples are told apart and put
//! in order by their instant alone, so that a series holds at most one
//! sample for an instant.

use vstd::prelude::*;
use vstd::std_specs::cmp::{PartialEqSpecImpl, PartialOrdSpecImpl};
use std::cmp::Ordering;

verus! {

/// A temperature and the instant at which it was taken. The kind of number
/// that holds the temperature is the caller's choice.
#[derive(Debug, Clone, Copy)]
pub struct TemperatureDataPoint<V> {
    /// The instant of the sample, in seconds since the epoch.
    pub time: i64,
    pub value: V,
}

impl<V> PartialEq for TemperatureDataPoint<V> {
    /// Whether two samples are of the same instant.
    fn eq(&self, other: &Self) -> (r: bool) {
        self.time == other.time
    }
}

impl<V> PartialEqSpecImpl for TemperatureDataPoint<V> {
    open spec fn obeys_eq_spec() -> bool {
        true
    }

    open spec fn eq_spec(&self, other: &Self) -> bool {
        self.time == other.time
    }
}

impl<V> Eq for TemperatureDataPoint<V> {

}

impl<V> PartialOrd for TemperatureDataPoint<V> {
    /// The order of two samples in time.
    fn partial_cmp(&self, other: &Self) -> (r: Option<Ordering>) {
        if self.time < other.time {
            Some(Ordering::Less)
        } else if self.time == other.time {
            Some(Ordering::Equal)
        } else {
            Some(Ordering::Greater)
        }
    }
}

impl<V> PartialOrdSpecImpl for TemperatureDataPoint<V> {
    open spec fn obeys_partial_cmp_spec() -> bool {
        true
    }

    open spec fn partial_cmp_spec(&self, other: &Self) -> Option<Ordering> {
        if self.time < other.time {
            Some(Ordering::Less)
        } else if self.time == other.time {
            Some(Ordering::Equal)
        } else {
            Some(Ordering::Greater)
        }
    }
}

} // verus!
