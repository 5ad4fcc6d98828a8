//! Resolution of free-text place names to a single place, and the weather
//! lookups that follow from it.
//!
//! The crate holds the decisions of a chat bot that answers temperature
//! queries: how a list of candidate places is narrowed down to one, how the
//! answers of the weather and geocoding providers are classified, and how
//! places are summarised for display. Sending messages and talking to the
//! network is left to the caller.

pub mod commands;
pub mod error;
pub mod localization;
pub mod sources;
pub mod utils;
