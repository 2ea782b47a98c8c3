//! Live monitoring of a wireless meat thermometer: the decoding of telemetry,
//! the projection of a reading onto what the terminal shows, the colour band
//! of the internal temperature, and the hand-off between the polling loop and
//! the render loop.
//!
//! Temperatures are fixed-point integers: a reading in Celsius is held in
//! hundredths of a degree, and its Fahrenheit conversion in thousandths of a
//! degree, which makes the conversion exact.
use vstd::prelude::*;

pub mod format;
pub mod telemetry;
pub mod color;
pub mod display;
pub mod channel;
pub mod poller;

verus! {

/// The monitor: polls every `poll_interval_secs` seconds and shows the
/// latest reading.
pub struct App {
    pub poll_interval_secs: u64,
}

impl App {
    /// A monitor with the standard poll interval.
    pub fn new() -> (r: App)
        ensures
            r.poll_interval_secs == poller::POLL_INTERVAL_SECS,
    {
        App { poll_interval_secs: poller::POLL_INTERVAL_SECS }
    }
}

} // verus!
