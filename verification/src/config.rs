//! Catalog and configuration data. Loading and parsing the
//! configuration files is the embedding application's job; the library
//! holds the parsed values, with angles in microdegrees.

use vstd::prelude::*;

verus! {

/// A catalog star: a name and equatorial coordinates in microdegrees.
/// Immutable once loaded from the catalog.
#[derive(Clone, Debug)]
pub struct Star {
    pub name: String,
    pub ra_udeg: i64,
    pub dec_udeg: i64,
}

impl Star {
    /// Catalog coordinates in their valid ranges: right ascension in
    /// `[0, 360)` degrees, declination in `[-90, 90]` degrees.
    pub open spec fn wf(self) -> bool {
        &&& 0 <= self.ra_udeg < 360_000_000
        &&& -90_000_000 <= self.dec_udeg <= 90_000_000
    }
}

/// Client-side configuration: the remote control endpoint and the star
/// catalog.
#[derive(Clone, Debug)]
pub struct ClientConfig {
    pub remote_url: String,
    pub stars: Vec<Star>,
}

impl ClientConfig {
    pub open spec fn wf(self) -> bool {
        forall|i: int| 0 <= i < self.stars@.len() ==> (#[trigger] self.stars@[i]).wf()
    }
}

/// Server-side (daemon) configuration.
#[derive(Clone, Debug)]
pub struct ServerConfig {
    pub ip: String,
    pub azimuth_steps_per_revolution: u32,
    pub altitude_steps_per_revolution: u32,
}

/// The observer's geographic position in microdegrees. Read-only after
/// initialization.
#[derive(Clone, Copy, PartialEq, Eq, Structural, Debug)]
pub struct Observer {
    pub latitude_udeg: i64,
    pub longitude_udeg: i64,
}

impl Observer {
    pub open spec fn wf(self) -> bool {
        &&& -90_000_000 <= self.latitude_udeg <= 90_000_000
        &&& -180_000_000 <= self.longitude_udeg <= 180_000_000
    }
}

/// The built-in observer position used before any configuration is
/// applied.
pub open spec fn spec_default_observer() -> Observer {
    Observer { latitude_udeg: 42_595_058i64, longitude_udeg: -8_743_065i64 }
}

impl Default for Observer {
    fn default() -> (r: Self)
        ensures
            r == spec_default_observer(),
            r.wf(),
    {
        Observer { latitude_udeg: 42_595_058, longitude_udeg: -8_743_065 }
    }
}

} // verus!
