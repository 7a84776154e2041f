//! Air-quality query library: the verified core of a small poller that
//! fetches pollutant observations for a postal code, renders them as a
//! fixed-width console table, and republishes the latest readings as named
//! integer gauges in a line-oriented text exposition format.

pub mod datetime;
pub mod metrics;
pub mod observation;
pub mod report;
pub mod schedule;
pub mod text;
