use vstd::prelude::*;

use crate::rng::random_in_range;

verus! {

/// Coordinates are held in millionths of a degree.
pub const MICRODEGREES_PER_DEGREE: i64 = 1_000_000;

/// Valid latitudes, in microdegrees.
pub const LATITUDE_MIN: i64 = -90_000_000;
pub const LATITUDE_MAX: i64 = 90_000_000;

/// Valid longitudes, in microdegrees.
pub const LONGITUDE_MIN: i64 = -180_000_000;
pub const LONGITUDE_MAX: i64 = 180_000_000;

/// Operational area from which a location is synthesized when the remote
/// document holds none: half-open ranges, in microdegrees.
pub const SYNTH_LATITUDE_LOW: i64 = 53_908_754;
pub const SYNTH_LATITUDE_HIGH: i64 = 53_956_915;
pub const SYNTH_LONGITUDE_LOW: i64 = 8_594_901;
pub const SYNTH_LONGITUDE_HIGH: i64 = 8_741_848;

/// A geographic position in microdegrees.
#[derive(Clone, Copy, Debug, PartialEq, Eq, Structural)]
pub struct Location {
    pub latitude: i64,
    pub longitude: i64,
}

/// The location sub-document of a desired-property payload as it was found:
/// each coordinate is `None` when the field is missing or not a number.
#[derive(Clone, Copy, Debug, PartialEq, Eq, Structural)]
pub struct LocationDoc {
    pub latitude: Option<i64>,
    pub longitude: Option<i64>,
}

pub open spec fn latitude_valid(lat: i64) -> bool {
    LATITUDE_MIN <= lat <= LATITUDE_MAX
}

pub open spec fn longitude_valid(lon: i64) -> bool {
    LONGITUDE_MIN <= lon <= LONGITUDE_MAX
}

/// Whether a location lies on the globe.
pub open spec fn location_valid(l: Location) -> bool {
    latitude_valid(l.latitude) && longitude_valid(l.longitude)
}

/// Whether a location lies in the operational area used for synthesis.
pub open spec fn in_synthesis_area(l: Location) -> bool {
    &&& SYNTH_LATITUDE_LOW <= l.latitude < SYNTH_LATITUDE_HIGH
    &&& SYNTH_LONGITUDE_LOW <= l.longitude < SYNTH_LONGITUDE_HIGH
}

/// A location sub-document is well formed when both coordinates are present
/// numbers within their valid ranges.
pub open spec fn doc_well_formed(d: Option<LocationDoc>) -> bool {
    match d {
        Some(doc) => match (doc.latitude, doc.longitude) {
            (Some(lat), Some(lon)) => latitude_valid(lat) && longitude_valid(lon),
            _ => false,
        },
        None => false,
    }
}

/// The location that a well-formed sub-document states.
pub open spec fn doc_location(d: Option<LocationDoc>) -> Location
    recommends
        doc_well_formed(d),
{
    Location { latitude: d->Some_0.latitude->Some_0, longitude: d->Some_0.longitude->Some_0 }
}

/// The location adopted from a payload: the one it states when well formed,
/// else the synthesized `fallback`.
pub open spec fn adopted_location(d: Option<LocationDoc>, fallback: Location) -> Location {
    if doc_well_formed(d) {
        doc_location(d)
    } else {
        fallback
    }
}

impl Location {
    /// A location from coordinates given in microdegrees; `None` unless both
    /// lie in their valid ranges.
    pub fn new(latitude: i64, longitude: i64) -> (r: Option<Location>)
        ensures
            r is Some <==> latitude_valid(latitude) && longitude_valid(longitude),
            r matches Some(l) ==> l.latitude == latitude && l.longitude == longitude,
    {
        if LATITUDE_MIN <= latitude && latitude <= LATITUDE_MAX && LONGITUDE_MIN <= longitude
            && longitude <= LONGITUDE_MAX {
            Some(Location { latitude, longitude })
        } else {
            None
        }
    }
}

/// Checks a location sub-document.
pub fn is_well_formed(doc: &Option<LocationDoc>) -> (r: bool)
    ensures
        r == doc_well_formed(*doc),
{
    match doc {
        Some(d) => match (d.latitude, d.longitude) {
            (Some(lat), Some(lon)) => Location::new(lat, lon).is_some(),
            _ => false,
        },
        None => false,
    }
}

/// The location to adopt from a payload, given the location that would be
/// synthesized if the payload states none.
pub fn choose_location(doc: &Option<LocationDoc>, fallback: Location) -> (r: Location)
    ensures
        r == adopted_location(*doc, fallback),
{
    match doc {
        Some(d) => match (d.latitude, d.longitude) {
            (Some(lat), Some(lon)) => match Location::new(lat, lon) {
                Some(l) => l,
                None => fallback,
            },
            _ => fallback,
        },
        None => fallback,
    }
}

/// Draws a location uniformly from the operational area, each coordinate
/// independently.
pub fn synthesize_location() -> (r: Location)
    ensures
        in_synthesis_area(r),
        location_valid(r),
{
    let latitude = random_in_range(SYNTH_LATITUDE_LOW, SYNTH_LATITUDE_HIGH);
    let longitude = random_in_range(SYNTH_LONGITUDE_LOW, SYNTH_LONGITUDE_HIGH);
    Location { latitude, longitude }
}

} // verus!
