//! Where the simulated flight is, and what zero altitude means for it.
//!
//! One value, read by everything that has an opinion about altitude: ground
//! contact, the barometer, and GPS altitude. When they do not agree, the
//! estimator has to absorb the difference as a standing altitude error.
use crate::ieee::Real64;
use crate::terrain;
use crate::terrain::TerrainCache;
use vstd::prelude::*;

verus! {

/// The origin of a flight.
#[derive(Clone, Copy, Debug, PartialEq, Eq, Structural)]
pub struct OriginValues {
    /// Latitude.
    pub lat: Real64,
    /// Longitude.
    pub lon: Real64,
    /// Metres above sea level at the origin: terrain elevation where it is
    /// known, otherwise the configured altitude.
    pub alt_datum: Real64,
    /// Whether the datum came from terrain. False means that the configured
    /// altitude is standing in.
    pub from_terrain: bool,
}

/// Holder of the origin.
#[derive(Clone, Copy, Debug)]
pub struct SharedOrigin {
    values: OriginValues,
}

impl View for SharedOrigin {
    type V = OriginValues;

    closed spec fn view(&self) -> OriginValues {
        self.values
    }
}

/// The origin that a choice leads to.
pub open spec fn chosen_origin(
    lat: Real64,
    lon: Real64,
    elevation_msl: Option<Real64>,
    fallback_alt: Real64,
) -> OriginValues {
    OriginValues {
        lat,
        lon,
        alt_datum: match elevation_msl {
            Some(e) => e,
            None => fallback_alt,
        },
        from_terrain: elevation_msl is Some,
    }
}

impl SharedOrigin {
    /// An origin whose altitude is configured, not known from terrain.
    pub fn new(lat: Real64, lon: Real64, alt_datum: Real64) -> (r: SharedOrigin)
        ensures
            r@ == (OriginValues { lat, lon, alt_datum, from_terrain: false }),
    {
        SharedOrigin { values: OriginValues { lat, lon, alt_datum, from_terrain: false } }
    }

    /// The origin.
    pub fn get(&self) -> (r: OriginValues)
        ensures
            r == self@,
    {
        self.values
    }

    /// Adopt an origin. Without elevation data the fallback becomes the datum,
    /// for every reader together.
    pub fn set(
        &mut self,
        lat: Real64,
        lon: Real64,
        elevation_msl: Option<Real64>,
        fallback_alt: Real64,
    )
        ensures
            final(self)@ == chosen_origin(lat, lon, elevation_msl, fallback_alt),
    {
        self.values = OriginValues {
            lat,
            lon,
            alt_datum: match elevation_msl {
                Some(e) => e,
                None => fallback_alt,
            },
            from_terrain: elevation_msl.is_some(),
        };
    }
}

/// Anchor the whole vertical stack to a flight origin, `moved_m` metres from
/// where the terrain was anchored.
///
/// The origin is what the barometer and GPS read; ground contact reads the
/// terrain cache, which carries a datum of its own. Both are set from one
/// resolved origin, so they cannot disagree. A cache without a datum finds no
/// ground anywhere, however many tiles it holds.
pub fn anchor_origin(
    origin: &mut SharedOrigin,
    cache: &mut TerrainCache,
    lat: Real64,
    lon: Real64,
    elevation_msl: Option<Real64>,
    fallback_alt: Real64,
    moved_m: Real64,
)
    requires
        old(cache).wf(),
    ensures
        final(cache).wf(),
        final(origin)@ == chosen_origin(lat, lon, elevation_msl, fallback_alt),
        final(cache)@ == terrain::anchored(
            old(cache)@,
            lat,
            lon,
            Some(final(origin)@.alt_datum),
            moved_m,
        ),
{
    origin.set(lat, lon, elevation_msl, fallback_alt);
    let resolved: OriginValues = origin.get();
    cache.set_origin(resolved.lat, resolved.lon, Some(resolved.alt_datum), moved_m);
}

/// Ground contact has a datum whatever elevation data the browser had: what it
/// sampled, sea level included, or else the configured altitude.
pub proof fn law_every_chosen_origin_has_a_datum(
    lat: Real64,
    lon: Real64,
    elevation_msl: Option<Real64>,
    fallback_alt: Real64,
)
    ensures
        ({
            let o = chosen_origin(lat, lon, elevation_msl, fallback_alt);
            &&& elevation_msl matches Some(e) ==> o.alt_datum == e && o.from_terrain
            &&& elevation_msl is None ==> o.alt_datum == fallback_alt && !o.from_terrain
        }),
{
}

/// The place is the one that was chosen, and the datum is one value for all who
/// read it: ground contact is anchored at the height that the barometer and the
/// GPS start from.
pub proof fn law_one_datum_for_all_readers(
    lat: Real64,
    lon: Real64,
    elevation_msl: Option<Real64>,
    fallback_alt: Real64,
    s: terrain::TerrainState,
    moved_m: Real64,
)
    ensures
        ({
            let o = chosen_origin(lat, lon, elevation_msl, fallback_alt);
            let cache = terrain::anchored(s, lat, lon, Some(o.alt_datum), moved_m);
            &&& o.lat == lat
            &&& o.lon == lon
            &&& cache.origin_lat == o.lat
            &&& cache.origin_lon == o.lon
            &&& cache.origin_elevation == Some(o.alt_datum)
            &&& elevation_msl matches Some(e) ==> cache.origin_elevation == Some(e)
            &&& elevation_msl is None ==> cache.origin_elevation == Some(fallback_alt)
            &&& o.from_terrain <==> elevation_msl is Some
        }),
{
}

} // verus!
