//! Data sources: the provider client and the model of what providers return.

pub mod climate_forecast;
pub mod climate_historical;
pub mod common;
pub mod data_point;
pub mod geo_time;
pub mod geocoding;
pub mod nominatim;
