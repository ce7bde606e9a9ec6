//! The data model: point readings, daily readings and the snapshot that holds
//! them together.

use vstd::prelude::*;

verus! {

/// Bit pattern of the single-precision number -999, the stand-in for a
/// temperature or humidity that a document does not give.
pub const MISSING_PHYSICAL: u32 = 0xC479_C000;

/// Stand-in for a condition code that a document does not give.
pub const MISSING_CODE: u16 = 0;

/// Stand-in for a timestamp that a member of a combined document does not
/// give. (The timestamp of a current-conditions document has none.)
pub const MISSING_TIMESTAMP: u64 = 0;

/// A reading at one point in time: the current conditions, or one hour of the
/// hourly forecast.
#[derive(Clone, Copy, Debug, PartialEq, Eq, Structural)]
pub struct Forecast {
    /// Seconds since the Unix epoch.
    pub timestamp: u64,
    /// Degrees Celsius, as the bit pattern of a single-precision number.
    pub temperature: u32,
    /// Percent, as the bit pattern of a single-precision number.
    pub humidity: u32,
    /// The provider's code for the conditions.
    pub condition_code: u16,
}

/// The forecast for one day.
#[derive(Clone, Copy, Debug, PartialEq, Eq, Structural)]
pub struct DailyForecast {
    /// Seconds since the Unix epoch.
    pub timestamp: u64,
    /// Mean temperature, as the bit pattern of a single-precision number.
    pub temperature: u32,
    /// Lowest temperature of the day, same representation.
    pub temp_min: u32,
    /// Highest temperature of the day, same representation.
    pub temp_max: u32,
    /// Percent, as the bit pattern of a single-precision number.
    pub humidity: u32,
    /// The provider's code for the conditions.
    pub condition_code: u16,
}

impl Forecast {
    /// The all-zero reading: timestamp 0, temperature and humidity +0.0
    /// (whose bit pattern is 0), condition code 0.
    pub open spec fn spec_empty() -> Forecast {
        Forecast { timestamp: 0, temperature: 0, humidity: 0, condition_code: 0 }
    }

    /// The reading a snapshot holds before anything was fetched.
    #[verifier::when_used_as_spec(spec_empty)]
    pub fn empty() -> (f: Forecast)
        ensures
            f == Forecast::spec_empty(),
    {
        Forecast { timestamp: 0, temperature: 0, humidity: 0, condition_code: 0 }
    }
}

/// What a `WeatherSnapshot` holds, with its sequences as mathematical
/// sequences.
pub struct SnapshotView {
    pub current: Forecast,
    pub hourly: Seq<Forecast>,
    pub daily: Seq<DailyForecast>,
}

/// The current conditions with the hourly and the daily forecast, each in the
/// order in which the provider gave it.
#[derive(Clone, Debug, PartialEq, Eq)]
pub struct WeatherSnapshot {
    pub current: Forecast,
    pub hourly: Vec<Forecast>,
    pub daily: Vec<DailyForecast>,
}

impl View for WeatherSnapshot {
    type V = SnapshotView;

    open spec fn view(&self) -> SnapshotView {
        SnapshotView { current: self.current, hourly: self.hourly@, daily: self.daily@ }
    }
}

impl SnapshotView {
    /// The snapshot before the first fetch: a zero reading and no forecasts.
    pub open spec fn empty() -> SnapshotView {
        SnapshotView { current: Forecast::spec_empty(), hourly: Seq::empty(), daily: Seq::empty() }
    }
}

impl WeatherSnapshot {
    /// The snapshot a process starts with.
    pub fn empty() -> (s: WeatherSnapshot)
        ensures
            s@ == SnapshotView::empty(),
    {
        WeatherSnapshot { current: Forecast::empty(), hourly: Vec::new(), daily: Vec::new() }
    }
}

} // verus!
