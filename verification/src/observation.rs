//! The decoded observation record and the library's error type.

use vstd::prelude::*;

verus! {

/// One pollutant reading decoded from the remote air-quality API: the
/// observation date, the hour of day, a time-zone label, the reporting
/// location, the pollutant's name and its integer air-quality index.
pub struct AqiData {
    pub date_observed: String,
    pub hour_observed: u32,
    pub local_time_zone: String,
    pub state_code: String,
    pub reporting_area: String,
    pub parameter_name: String,
    pub aqi: u32,
}

/// An error of this library, carrying a human-readable message.
pub struct AqiError {
    details: String,
}

impl AqiError {
    pub fn new(msg: &str) -> (e: AqiError)
        ensures
            e.spec_message() == msg@,
    {
        AqiError { details: msg.to_owned() }
    }

    /// The message this error was built with.
    pub closed spec fn spec_message(&self) -> Seq<char> {
        self.details@
    }

    pub fn message(&self) -> (r: &str)
        ensures
            r@ == self.spec_message(),
    {
        self.details.as_str()
    }
}

} // verus!
