//! Command-line configuration for the surrounding application: a single
//! `location` string selecting the geocoding query.

use vstd::prelude::*;

verus! {

/// Command-line configuration: the location to look up.
#[derive(Debug, Clone, PartialEq, Eq)]
pub struct TinyWeatherConfig {
    pub location: String,
}

/// Command-line arguments, wrapping the configuration.
#[derive(Debug, Clone, PartialEq, Eq)]
pub struct TinyWeatherArgs {
    pub config: TinyWeatherConfig,
}

} // verus!
