//! Common types shared by the API clients: geographic coordinates and the
//! closed unit/format vocabularies.
//!
//! Each enumeration has exactly one canonical lowercase wire string per
//! variant and a fixed default variant. Numeric values that travel to or from
//! the HTTP API (such as coordinates) are carried in their decimal text form,
//! which is exactly what the wire protocol exchanges.

use vstd::prelude::*;

verus! {

/// Geographic coordinates (WGS84), held in decimal text form.
///
/// The client performs no bounds validation; out-of-range values simply
/// produce an API error on the remote side.
#[derive(Debug, Clone, PartialEq, Eq)]
pub struct Coordinates {
    pub latitude: String,
    pub longitude: String,
}

impl Coordinates {
    /// Create new coordinates from decimal text.
    pub fn new(latitude: String, longitude: String) -> (r: Self)
        ensures
            r.latitude == latitude,
            r.longitude == longitude,
    {
        Coordinates { latitude, longitude }
    }
}

/// Temperature unit for API responses.
#[derive(Debug, Clone, Copy, PartialEq, Eq, Structural)]
pub enum TemperatureUnit {
    Celsius,
    Fahrenheit,
}

impl TemperatureUnit {
    /// The canonical lowercase wire string of this variant.
    pub open spec fn wire_spec(self) -> Seq<char> {
        match self {
            TemperatureUnit::Celsius => "celsius"@,
            TemperatureUnit::Fahrenheit => "fahrenheit"@,
        }
    }

    /// Emit the canonical lowercase wire string.
    pub fn wire(self) -> (r: &'static str)
        ensures
            r@ == self.wire_spec(),
    {
        match self {
            TemperatureUnit::Celsius => "celsius",
            TemperatureUnit::Fahrenheit => "fahrenheit",
        }
    }
}

impl Default for TemperatureUnit {
    /// The default unit is `Celsius`.
    fn default() -> (r: Self)
        ensures
            r == TemperatureUnit::Celsius,
    {
        TemperatureUnit::Celsius
    }
}

/// Wind speed unit for API responses.
#[derive(Debug, Clone, Copy, PartialEq, Eq, Structural)]
pub enum WindSpeedUnit {
    /// Kilometers per hour
    Kmh,
    /// Meters per second
    Ms,
    /// Miles per hour
    Mph,
    /// Knots
    Kn,
}

impl WindSpeedUnit {
    /// The canonical lowercase wire string of this variant.
    pub open spec fn wire_spec(self) -> Seq<char> {
        match self {
            WindSpeedUnit::Kmh => "kmh"@,
            WindSpeedUnit::Ms => "ms"@,
            WindSpeedUnit::Mph => "mph"@,
            WindSpeedUnit::Kn => "kn"@,
        }
    }

    /// Emit the canonical lowercase wire string.
    pub fn wire(self) -> (r: &'static str)
        ensures
            r@ == self.wire_spec(),
    {
        match self {
            WindSpeedUnit::Kmh => "kmh",
            WindSpeedUnit::Ms => "ms",
            WindSpeedUnit::Mph => "mph",
            WindSpeedUnit::Kn => "kn",
        }
    }
}

impl Default for WindSpeedUnit {
    /// The default unit is `Kmh`.
    fn default() -> (r: Self)
        ensures
            r == WindSpeedUnit::Kmh,
    {
        WindSpeedUnit::Kmh
    }
}

/// Precipitation unit for API responses.
#[derive(Debug, Clone, Copy, PartialEq, Eq, Structural)]
pub enum PrecipitationUnit {
    /// Millimeters
    Mm,
    /// Inches
    Inch,
}

impl PrecipitationUnit {
    /// The canonical lowercase wire string of this variant.
    pub open spec fn wire_spec(self) -> Seq<char> {
        match self {
            PrecipitationUnit::Mm => "mm"@,
            PrecipitationUnit::Inch => "inch"@,
        }
    }

    /// Emit the canonical lowercase wire string.
    pub fn wire(self) -> (r: &'static str)
        ensures
            r@ == self.wire_spec(),
    {
        match self {
            PrecipitationUnit::Mm => "mm",
            PrecipitationUnit::Inch => "inch",
        }
    }
}

impl Default for PrecipitationUnit {
    /// The default unit is `Mm`.
    fn default() -> (r: Self)
        ensures
            r == PrecipitationUnit::Mm,
    {
        PrecipitationUnit::Mm
    }
}

/// Time format for API responses.
#[derive(Debug, Clone, Copy, PartialEq, Eq, Structural)]
pub enum TimeFormat {
    Iso8601,
    Unixtime,
}

impl TimeFormat {
    /// The canonical lowercase wire string of this variant.
    pub open spec fn wire_spec(self) -> Seq<char> {
        match self {
            TimeFormat::Iso8601 => "iso8601"@,
            TimeFormat::Unixtime => "unixtime"@,
        }
    }

    /// Emit the canonical lowercase wire string.
    pub fn wire(self) -> (r: &'static str)
        ensures
            r@ == self.wire_spec(),
    {
        match self {
            TimeFormat::Iso8601 => "iso8601",
            TimeFormat::Unixtime => "unixtime",
        }
    }
}

impl Default for TimeFormat {
    /// The default format is `Iso8601`.
    fn default() -> (r: Self)
        ensures
            r == TimeFormat::Iso8601,
    {
        TimeFormat::Iso8601
    }
}

} // verus!
