use hitl_daemon::handler::terrain_ingress::{
    ingest, ingest_reply, no_terrain_message, submitted_tiles, Ingest,
};
use hitl_daemon::ieee::{Real32, Real64};
use hitl_daemon::protocol::config::FlightLocation;
use hitl_daemon::protocol::terrain_tiles::{TerrainTiles, TerrainTilesHeader, WireTileCoord};
use hitl_daemon::terrain::{
    slope_rule, InsertReport, SlopeRule, SubmittedTile, TerrainCache, TileCoord, TilePoint,
    TileRejection, TILE_SIZE, ZOOM_LEVELS,
};
use std::collections::HashMap;

const R_EARTH: f64 = 6378137.0;
const MAX_ZOOM: u32 = 24;

fn r32(x: f32) -> Real32 {
    Real32::from_bits(x.to_bits())
}

fn wide(x: f64) -> Real64 {
    Real64::from_bits(x.to_bits())
}

fn low(x: Real32) -> f64 {
    f32::from_bits(x.bits) as f64
}

fn high(x: Real64) -> f64 {
    f64::from_bits(x.bits)
}

fn from_lon_lat(lon: f64, lat: f64, z: u32) -> TileCoord {
    let n = 2_u32.pow(z.min(MAX_ZOOM)) as f64;
    let x = ((lon + 180.0) / 360.0 * n).floor() as u32;
    let lat_rad = lat.to_radians();
    let y = ((1.0 - (lat_rad.tan() + 1.0 / lat_rad.cos()).ln() / std::f64::consts::PI) / 2.0 * n)
        .floor() as u32;
    TileCoord { x, y, z }
}

fn tile_to_lon_lat(x: u32, y: u32, z: u32) -> (f64, f64) {
    let n = 2_u32.pow(z.min(MAX_ZOOM)) as f64;
    let lon = x as f64 / n * 360.0 - 180.0;
    let lat_rad = (std::f64::consts::PI * (1.0 - 2.0 * y as f64 / n))
        .sinh()
        .atan();
    (lon, lat_rad.to_degrees())
}

fn distance_m(lat_a: f64, lon_a: f64, lat_b: f64, lon_b: f64) -> f64 {
    let dn = (lat_b - lat_a).to_radians() * R_EARTH;
    let de = (lon_b - lon_a).to_radians() * R_EARTH * lat_a.to_radians().cos();
    (dn * dn + de * de).sqrt()
}

fn ned_to_lat_lon(north: f64, east: f64, origin_lat: f64, origin_lon: f64) -> (f64, f64) {
    let lat = origin_lat + (north / R_EARTH) * (180.0 / std::f64::consts::PI);
    let cos_lat = origin_lat.to_radians().cos();
    let lon = origin_lon + (east / (R_EARTH * cos_lat)) * (180.0 / std::f64::consts::PI);
    (lat, lon)
}

/// The cache with the projections an application supplies.
struct Terrain {
    cache: TerrainCache,
}

impl Terrain {
    fn new() -> Terrain {
        Terrain {
            cache: TerrainCache::new(),
        }
    }

    fn with_capacity(n: usize) -> Terrain {
        Terrain {
            cache: TerrainCache::with_capacity(n),
        }
    }

    fn set_origin(&mut self, lat: f64, lon: f64, elevation: Option<f64>) {
        let moved = match self.cache.origin() {
            Some((a, b)) => distance_m(high(a), high(b), lat, lon),
            None => 0.0,
        };
        self.cache
            .set_origin(wide(lat), wide(lon), elevation.map(wide), wide(moved));
    }

    fn set_vehicle_ned(&mut self, north: f64, east: f64) {
        self.cache.set_vehicle_ned(wide(north), wide(east));
    }

    fn at(&self, north: f64, east: f64) -> (f64, f64) {
        let (lat, lon) = self.cache.origin().unwrap_or((wide(0.0), wide(0.0)));
        ned_to_lat_lon(north, east, high(lat), high(lon))
    }

    fn vehicle_at(&self) -> Vec<TilePoint> {
        let (north, east) = self.cache.vehicle_ned();
        let (lat, lon) = self.at(high(north), high(east));
        (0..ZOOM_LEVELS as u32)
            .map(|z| {
                let c = from_lon_lat(lon, lat, z);
                TilePoint { x: c.x, y: c.y }
            })
            .collect()
    }

    fn insert_tiles(
        &mut self,
        tile_size: u32,
        tiles: Vec<(TileCoord, Vec<f32>, bool)>,
    ) -> InsertReport {
        let origin = self.cache.origin().unwrap_or((wide(0.0), wide(0.0)));
        let batch = tiles
            .into_iter()
            .map(|(coord, heights, approximate)| {
                let (lon, lat) = tile_to_lon_lat(coord.x, coord.y, coord.z);
                SubmittedTile {
                    coord,
                    heights: heights.into_iter().map(r32).collect(),
                    approximate,
                    metres: wide(distance_m(high(origin.0), high(origin.1), lat, lon)),
                }
            })
            .collect();
        let at = self.vehicle_at();
        self.cache.insert_tiles(tile_size, batch, &at)
    }

    fn missing_around_vehicle(&self, radius: u32) -> Vec<TileCoord> {
        self.cache.missing_around_vehicle(radius, &self.vehicle_at())
    }

    fn sample_ground_ned(&self, north: f64, east: f64) -> Option<f32> {
        let datum = high(self.cache.origin_elevation_msl()?);
        let z = self.cache.zoom()?;
        let (lat, lon) = self.at(north, east);
        let coord = from_lon_lat(lon, lat, z);
        let (nw_lon, nw_lat) = tile_to_lon_lat(coord.x, coord.y, z);
        let (se_lon, se_lat) = tile_to_lon_lat(coord.x + 1, coord.y + 1, z);
        let last = (TILE_SIZE - 1) as f64;
        let fx = ((lon - nw_lon) / (se_lon - nw_lon) * last).clamp(0.0, last);
        let fy = ((nw_lat - lat) / (nw_lat - se_lat) * last).clamp(0.0, last);
        let (x0, y0) = (fx.floor() as usize, fy.floor() as usize);
        let (dx, dy) = (fx - x0 as f64, fy - y0 as f64);
        let p = self.cache.ground_posts(coord, x0, y0)?;
        let msl = low(p.nw) * (1.0 - dx) * (1.0 - dy)
            + low(p.ne) * dx * (1.0 - dy)
            + low(p.sw) * (1.0 - dx) * dy
            + low(p.se) * dx * dy;
        Some((datum - msl) as f32)
    }

    fn sample_ground_normal_ned(&self, north: f64, east: f64) -> Option<[f32; 3]> {
        const PROBE_M: f64 = 5.0;
        let h = |n: f64, e: f64| self.sample_ground_ned(n, e).map(|z| -(z as f64));
        let centre = h(north, east)?;
        let slope = |pos: Option<f64>, neg: Option<f64>| {
            let (a, b) = (pos.unwrap_or(0.0), neg.unwrap_or(0.0));
            match slope_rule(pos.is_some(), neg.is_some()) {
                SlopeRule::Central => (a - b) / (2.0 * PROBE_M),
                SlopeRule::Forward => (a - centre) / PROBE_M,
                SlopeRule::Backward => (centre - b) / PROBE_M,
                SlopeRule::Level => 0.0,
            }
        };
        let dn = slope(h(north + PROBE_M, east), h(north - PROBE_M, east));
        let de = slope(h(north, east + PROBE_M), h(north, east - PROBE_M));
        let len = (dn * dn + de * de + 1.0).sqrt();
        Some([(-dn / len) as f32, (-de / len) as f32, (-1.0 / len) as f32])
    }
}

#[test]
fn a_slope_is_taken_from_whichever_side_is_known() {
    assert_eq!(slope_rule(true, true), SlopeRule::Central);
    assert_eq!(slope_rule(true, false), SlopeRule::Forward);
    assert_eq!(slope_rule(false, true), SlopeRule::Backward);
    assert_eq!(slope_rule(false, false), SlopeRule::Level);
}

const LAT: f64 = 40.015;
const LON: f64 = -105.2705;
const Z: u32 = 14;

/// The 3x3 tile block around (LAT, LON). `height_at(lat, lon)` supplies MSL
/// metres, so tests can express real-world gradients without caring which tile
/// a sample lands in.
fn cache_with_tiles(height_at: impl Fn(f64, f64) -> f32) -> Terrain {
    let center = from_lon_lat(LON, LAT, Z);
    let mut tiles = Vec::new();

    for dy in -1i32..=1 {
        for dx in -1i32..=1 {
            let coord = TileCoord {
                x: (center.x as i32 + dx) as u32,
                y: (center.y as i32 + dy) as u32,
                z: Z,
            };
            let (nw_lon, nw_lat) = tile_to_lon_lat(coord.x, coord.y, coord.z);
            let (se_lon, se_lat) = tile_to_lon_lat(coord.x + 1, coord.y + 1, coord.z);
            let last = (TILE_SIZE - 1) as f64;

            let mut heights = vec![0.0f32; TILE_SIZE * TILE_SIZE];
            for row in 0..TILE_SIZE {
                let lat = nw_lat - (row as f64 / last) * (nw_lat - se_lat);
                for col in 0..TILE_SIZE {
                    let lon = nw_lon + (col as f64 / last) * (se_lon - nw_lon);
                    heights[row * TILE_SIZE + col] = height_at(lat, lon);
                }
            }
            tiles.push((coord, heights, false));
        }
    }

    let mut cache = Terrain::new();
    cache.set_origin(LAT, LON, Some(height_at(LAT, LON) as f64));
    let report = cache.insert_tiles(TILE_SIZE as u32, tiles);
    assert_eq!(report.accepted, 9, "rejected: {:?}", report.rejected);
    cache
}

/// The NED ground datum is defined so that ground == 0 exactly at the origin,
/// whatever the terrain's absolute MSL elevation.
#[test]
fn sample_ground_ned_is_zero_at_origin() {
    for elevation in [0.0f32, 1655.0, -50.0] {
        let cache = cache_with_tiles(|_, _| elevation);
        let ground = cache
            .sample_ground_ned(0.0, 0.0)
            .expect("origin is inside the loaded tile");
        assert!(
            ground.abs() < 1e-3,
            "ground at origin must be 0 for elevation {elevation}, got {ground}"
        );
    }
}

/// NED is down-positive: terrain higher than the origin must report a negative
/// ground coordinate, terrain lower must report positive.
#[test]
fn sample_ground_ned_sign_follows_ned_down_convention() {
    // Ground rises 1 m per 0.001 deg of latitude (~9 m per 100 m north).
    let cache = cache_with_tiles(|lat, _| (1655.0 + (lat - LAT) * 1000.0) as f32);

    let north = cache
        .sample_ground_ned(500.0, 0.0)
        .expect("500 m north stays inside the 3x3 block");
    let south = cache
        .sample_ground_ned(-500.0, 0.0)
        .expect("500 m south stays inside the 3x3 block");

    assert!(
        north < 0.0,
        "higher terrain to the north must be negative in NED, got {north}"
    );
    assert!(
        south > 0.0,
        "lower terrain to the south must be positive in NED, got {south}"
    );
}

/// Outside the cached tiles the sampler must report "unknown" rather than
/// silently implying flat ground at the origin datum.
#[test]
fn sample_ground_ned_returns_none_outside_coverage() {
    let cache = cache_with_tiles(|_, _| 1655.0);
    // 50 km north is many tiles away at zoom 14.
    assert!(cache.sample_ground_ned(50_000.0, 0.0).is_none());
    assert!(cache.sample_ground_ned(0.0, 50_000.0).is_none());
}

#[test]
fn sample_ground_ned_returns_none_when_not_loaded() {
    let cache = Terrain::new();
    assert!(!cache.cache.is_loaded());
    assert!(cache.sample_ground_ned(0.0, 0.0).is_none());
}

/// Level ground must produce a normal that points straight up in NED.
#[test]
fn ground_normal_is_straight_up_on_level_terrain() {
    let cache = cache_with_tiles(|_, _| 1655.0);
    let n = cache
        .sample_ground_normal_ned(0.0, 0.0)
        .expect("inside tiles");
    assert!(n[0].abs() < 1e-4, "north component should vanish, got {}", n[0]);
    assert!(n[1].abs() < 1e-4, "east component should vanish, got {}", n[1]);
    assert!(
        (n[2] + 1.0).abs() < 1e-4,
        "down component should be -1 (pointing up), got {}",
        n[2]
    );
}

/// On a slope rising to the north, the normal must lean south.
#[test]
fn ground_normal_tilts_away_from_rising_terrain() {
    // 1 m of rise per 1 m north: a 45-degree slope.
    let cache = cache_with_tiles(|lat, _| (1655.0 + (lat - LAT) * 111_320.0) as f32);
    let n = cache
        .sample_ground_normal_ned(0.0, 0.0)
        .expect("inside tiles");

    assert!(
        n[0] < 0.0,
        "normal should lean south (negative north) on north-rising ground, got {}",
        n[0]
    );
    assert!(n[1].abs() < 1e-3, "no east tilt expected, got {}", n[1]);
    // 45 degrees: north and down components have equal magnitude.
    assert!(
        (n[0].abs() - n[2].abs()).abs() < 1e-2,
        "45-degree slope should split the normal evenly, got {n:?}"
    );
}

#[test]
fn ground_normal_is_unit_length() {
    let cache = cache_with_tiles(|lat, lon| {
        (1655.0 + (lat - LAT) * 40_000.0 + (lon - LON) * 25_000.0) as f32
    });
    let n = cache
        .sample_ground_normal_ned(0.0, 0.0)
        .expect("inside tiles");
    let len = (n[0] * n[0] + n[1] * n[1] + n[2] * n[2]).sqrt();
    assert!(
        (len - 1.0).abs() < 1e-5,
        "expected unit normal, got length {len}"
    );
}

#[test]
fn ground_normal_returns_none_outside_coverage() {
    let cache = cache_with_tiles(|_, _| 1655.0);
    assert!(cache.sample_ground_normal_ned(50_000.0, 0.0).is_none());
    assert!(Terrain::new().sample_ground_normal_ned(0.0, 0.0).is_none());
}

/// The normal must be available at exactly the same points the height is.
#[test]
fn ground_normal_coverage_matches_ground_height_coverage() {
    let cache = cache_with_tiles(|lat, _| (1655.0 + (lat - LAT) * 20_000.0) as f32);

    let mut inside = 0;
    let mut outside = 0;
    for i in 0..600 {
        let north = i as f64 * 10.0;
        if cache.sample_ground_ned(north, 0.0).is_some() {
            assert!(
                cache.sample_ground_normal_ned(north, 0.0).is_some(),
                "height resolved but normal did not at {north} m north"
            );
            inside += 1;
        } else {
            assert!(
                cache.sample_ground_normal_ned(north, 0.0).is_none(),
                "normal resolved but height did not at {north} m north"
            );
            outside += 1;
        }
    }
    assert!(
        inside > 0 && outside > 0,
        "test must span the coverage edge"
    );
}

/// At the very edge the one-sided difference must still see the slope.
#[test]
fn ground_normal_at_the_coverage_edge_still_reports_slope() {
    let cache = cache_with_tiles(|lat, _| (1655.0 + (lat - LAT) * 20_000.0) as f32);

    let mut last_inside = 0.0;
    for i in 0..600 {
        let north = i as f64 * 10.0;
        if cache.sample_ground_ned(north, 0.0).is_some() {
            last_inside = north;
        }
    }

    let edge = cache
        .sample_ground_normal_ned(last_inside, 0.0)
        .expect("edge point has a height, so it must have a normal");
    let interior = cache.sample_ground_normal_ned(0.0, 0.0).expect("interior");

    assert!(
        edge[0] < 0.0,
        "edge normal should still lean off the rising slope, got {}",
        edge[0]
    );
    assert!(
        (edge[0] - interior[0]).abs() < 0.05,
        "edge normal {edge:?} should closely match interior {interior:?}"
    );
}

#[test]
fn origin_elevation_msl_reports_sampled_dem_value() {
    let cache = cache_with_tiles(|_, _| 1655.0);
    let elev = high(
        cache
            .cache
            .origin_elevation_msl()
            .expect("origin inside tile"),
    );
    assert!(
        (elev - 1655.0).abs() < 1e-3,
        "expected 1655 m MSL at origin, got {elev}"
    );
}

// ---- what is let in ----

fn cache() -> Terrain {
    let mut c = Terrain::new();
    c.set_origin(LAT, LON, Some(1655.0));
    c
}

fn origin_coord() -> TileCoord {
    from_lon_lat(LON, LAT, Z)
}

fn flat(v: f32) -> Vec<f32> {
    vec![v; TILE_SIZE * TILE_SIZE]
}

#[test]
fn a_valid_tile_is_accepted() {
    let mut c = cache();
    let report = c.insert_tiles(
        TILE_SIZE as u32,
        vec![(origin_coord(), flat(1655.0), false)],
    );
    assert_eq!(report.accepted, 1, "rejected: {:?}", report.rejected);
    assert!(report.rejected.is_empty());
    assert!(c.cache.is_loaded());
}

#[test]
fn a_tile_with_the_wrong_sample_count_is_rejected() {
    let mut c = cache();
    let report = c.insert_tiles(
        TILE_SIZE as u32,
        vec![(origin_coord(), vec![1655.0; 10], false)],
    );
    assert_eq!(report.accepted, 0);
    assert!(matches!(
        report.rejected[0].1,
        TileRejection::WrongSampleCount { .. }
    ));
}

#[test]
fn a_declared_tile_size_that_does_not_match_the_cache_is_rejected() {
    let mut c = cache();
    // 128 would silently halve every index into the height grid.
    let report = c.insert_tiles(128, vec![(origin_coord(), vec![1655.0; 128 * 128], false)]);
    assert_eq!(report.accepted, 0);
    assert!(matches!(
        report.rejected[0].1,
        TileRejection::UnsupportedTileSize { .. }
    ));
}

#[test]
fn a_coordinate_outside_the_range_for_its_zoom_is_rejected() {
    let mut c = cache();
    let n = 2u32.pow(Z);
    for bad in [
        TileCoord { x: n, y: 0, z: Z },
        TileCoord { x: 0, y: n, z: Z },
    ] {
        let report = c.insert_tiles(TILE_SIZE as u32, vec![(bad, flat(1655.0), false)]);
        assert_eq!(report.accepted, 0, "{bad:?} must be rejected");
        assert!(matches!(
            report.rejected[0].1,
            TileRejection::CoordOutOfRange { .. }
        ));
    }
}

#[test]
fn an_absurd_zoom_is_rejected_before_it_is_used_as_an_exponent() {
    let mut c = cache();
    let report = c.insert_tiles(
        TILE_SIZE as u32,
        vec![(TileCoord { x: 0, y: 0, z: 40 }, flat(1655.0), false)],
    );
    assert_eq!(report.accepted, 0);
}

#[test]
fn a_tile_far_from_the_origin_is_rejected() {
    let mut c = cache();
    // Same zoom, but on the other side of the planet.
    let far = from_lon_lat(100.0, -30.0, Z);
    let report = c.insert_tiles(TILE_SIZE as u32, vec![(far, flat(0.0), false)]);
    assert_eq!(report.accepted, 0);
    assert!(matches!(
        report.rejected[0].1,
        TileRejection::TooFarFromOrigin { .. }
    ));
}

#[test]
fn non_finite_heights_are_rejected() {
    let mut c = cache();
    for bad in [f32::NAN, f32::INFINITY, f32::NEG_INFINITY] {
        let mut heights = flat(1655.0);
        heights[42] = bad;
        let report = c.insert_tiles(TILE_SIZE as u32, vec![(origin_coord(), heights, false)]);
        assert_eq!(report.accepted, 0, "{bad} must be rejected");
        assert!(matches!(
            report.rejected[0].1,
            TileRejection::ImplausibleElevation { .. }
        ));
    }
}

#[test]
fn elevations_outside_earths_real_range_are_rejected() {
    let mut c = cache();
    // Everest is 8849 m; the Dead Sea shore is about -430 m. Anything well
    // outside that is corrupt data, and colliding against it would fling the
    // vehicle.
    for bad in [-20_000.0f32, 100_000.0] {
        let mut heights = flat(1655.0);
        heights[7] = bad;
        let report = c.insert_tiles(TILE_SIZE as u32, vec![(origin_coord(), heights, false)]);
        assert_eq!(report.accepted, 0, "{bad} m must be rejected");
    }
}

#[test]
fn a_rejected_tile_leaves_previously_accepted_terrain_untouched() {
    let mut c = cache();
    c.insert_tiles(
        TILE_SIZE as u32,
        vec![(origin_coord(), flat(1655.0), false)],
    );
    let before = c.sample_ground_ned(0.0, 0.0);

    let mut poison = flat(1655.0);
    poison[0] = f32::NAN;
    let report = c.insert_tiles(TILE_SIZE as u32, vec![(origin_coord(), poison, false)]);

    assert_eq!(report.accepted, 0);
    assert_eq!(
        c.sample_ground_ned(0.0, 0.0),
        before,
        "a bad tile must not overwrite good terrain"
    );
}

#[test]
fn a_mixed_batch_accepts_the_good_and_names_the_bad() {
    let mut c = cache();
    let good = origin_coord();
    let bad = TileCoord {
        x: good.x + 1,
        y: good.y,
        z: Z,
    };
    let report = c.insert_tiles(
        TILE_SIZE as u32,
        vec![(good, flat(1655.0), false), (bad, vec![0.0; 4], false)],
    );
    assert_eq!(report.accepted, 1);
    assert_eq!(report.rejected.len(), 1);
    assert_eq!(report.rejected[0].0, bad);
}

#[test]
fn provenance_survives_ingestion() {
    // The "approximate terrain" warning is driven by this flag; losing it would
    // tell the user authoritative ground was under them when it was not.
    let mut c = cache();
    c.insert_tiles(TILE_SIZE as u32, vec![(origin_coord(), flat(1655.0), true)]);
    assert!(c.cache.any_approximate());
}

#[test]
fn tiles_are_refused_before_there_is_an_origin() {
    let mut c = Terrain::new();
    let report = c.insert_tiles(TILE_SIZE as u32, vec![(origin_coord(), flat(0.0), false)]);
    assert_eq!(report.accepted, 0);
    assert!(matches!(report.rejected[0].1, TileRejection::NoOrigin));
}

#[test]
fn a_tile_of_another_zoom_replaces_the_set() {
    let mut c = cache();
    c.insert_tiles(TILE_SIZE as u32, ring(origin_coord(), 1));
    assert_eq!(c.cache.resident_tiles(), 9);
    let other = from_lon_lat(LON, LAT, 13);
    c.insert_tiles(TILE_SIZE as u32, vec![(other, flat(1655.0), false)]);
    assert_eq!(c.cache.resident_tiles(), 1);
    assert_eq!(c.cache.zoom(), Some(13));
    assert_eq!(c.cache.resident_coords(), vec![other]);
}

#[test]
fn rejections_name_what_is_wrong() {
    let coord = TileCoord { x: 1, y: 2, z: 3 };
    assert_eq!(
        TileRejection::UnsupportedTileSize {
            declared: 128,
            supported: 256
        }
        .text("", ""),
        "tile_size 128 is not the supported 256"
    );
    assert_eq!(
        TileRejection::WrongSampleCount {
            got: 10,
            expected: 65536
        }
        .text("", ""),
        "10 samples, expected 65536"
    );
    assert_eq!(
        TileRejection::CoordOutOfRange { coord }.text("", ""),
        "coord 3/1/2 is out of range for its zoom"
    );
    assert_eq!(
        TileRejection::TooFarFromOrigin {
            metres: wide(300000.0),
            limit: wide(200000.0)
        }
        .text("300000", "200000"),
        "300000 m from the origin, limit 200000 m"
    );
    assert_eq!(
        TileRejection::ImplausibleElevation {
            index: 7,
            value: r32(100000.0)
        }
        .text("100000", ""),
        "sample 7 is 100000, not a real elevation"
    );
    assert_eq!(TileRejection::NoOrigin.text("", ""), "no flight origin has been set");
}

// ---- streaming ----

fn ring(centre: TileCoord, r: i64) -> Vec<(TileCoord, Vec<f32>, bool)> {
    let mut out = Vec::new();
    for dy in -r..=r {
        for dx in -r..=r {
            out.push((
                TileCoord {
                    x: (centre.x as i64 + dx) as u32,
                    y: (centre.y as i64 + dy) as u32,
                    z: centre.z,
                },
                flat(1655.0),
                false,
            ));
        }
    }
    out
}

fn bounded(max_resident: usize) -> Terrain {
    let mut c = Terrain::with_capacity(max_resident);
    c.set_origin(LAT, LON, Some(1655.0));
    c
}

#[test]
fn the_resident_bound_holds_across_a_long_traverse() {
    let mut c = bounded(9);
    let start = from_lon_lat(LON, LAT, Z);

    // Fly north across many tiles, feeding a ring at each step: more distinct
    // tiles than the bound by a wide margin.
    for step in 0..12 {
        let north = step as f64 * 1_900.0; // ~one z14 tile at this latitude
        c.set_vehicle_ned(north, 0.0);
        let centre = TileCoord {
            x: start.x,
            y: start.y - step,
            z: Z,
        };
        c.insert_tiles(TILE_SIZE as u32, ring(centre, 1));
        assert!(
            c.cache.resident_tiles() <= 9,
            "resident {} exceeded the bound at step {step}",
            c.cache.resident_tiles()
        );
    }
}

#[test]
fn the_tile_under_the_vehicle_is_never_the_one_evicted() {
    let mut c = bounded(4);
    let centre = from_lon_lat(LON, LAT, Z);
    c.set_vehicle_ned(0.0, 0.0);

    // Nine tiles into a cache that holds four: five must go, and the one the
    // vehicle is standing on must not be among them.
    let report = c.insert_tiles(TILE_SIZE as u32, ring(centre, 1));
    assert_eq!(report.accepted, 9);
    assert_eq!(report.evicted, 5);
    assert_eq!(c.cache.resident_tiles(), 4);
    assert!(
        c.sample_ground_ned(0.0, 0.0).is_some(),
        "the ground under the vehicle was evicted"
    );
}

#[test]
fn eviction_drops_the_furthest_tiles_first() {
    let mut c = bounded(1);
    let centre = from_lon_lat(LON, LAT, Z);
    c.set_vehicle_ned(0.0, 0.0);
    c.insert_tiles(TILE_SIZE as u32, ring(centre, 1));

    assert_eq!(c.cache.resident_tiles(), 1);
    // The single survivor is the centre tile, so a sample at the vehicle still
    // resolves and a sample two tiles away does not.
    assert!(c.sample_ground_ned(0.0, 0.0).is_some());
    assert!(c.sample_ground_ned(4_000.0, 0.0).is_none());
}

#[test]
fn a_flood_cannot_grow_memory_without_bound() {
    let mut c = bounded(16);
    let centre = from_lon_lat(LON, LAT, Z);
    // Twenty batches of 25 tiles: 500 submissions against a 16-tile bound.
    for _ in 0..20 {
        c.insert_tiles(TILE_SIZE as u32, ring(centre, 2));
        assert!(c.cache.resident_tiles() <= 16);
    }
    assert!(c.cache.resident_tiles() <= 16);
}

#[test]
fn re_anchoring_discards_terrain_tied_to_the_old_origin() {
    let mut c = bounded(64);
    let centre = from_lon_lat(LON, LAT, Z);
    c.insert_tiles(TILE_SIZE as u32, ring(centre, 1));
    assert!(c.cache.is_loaded());

    // A materially different place. Keeping the old tiles would compute ground
    // contact against terrain anchored somewhere else entirely.
    c.set_origin(51.5, -0.12, Some(35.0));
    assert!(!c.cache.is_loaded());
    assert_eq!(c.cache.resident_tiles(), 0);
    assert!(c.sample_ground_ned(0.0, 0.0).is_none());
}

#[test]
fn re_anchoring_to_effectively_the_same_place_keeps_its_tiles() {
    // Origin reports jitter by centimetres. Throwing the whole set away on
    // every one of them would keep the physics permanently without ground.
    let mut c = bounded(64);
    let centre = from_lon_lat(LON, LAT, Z);
    c.insert_tiles(TILE_SIZE as u32, ring(centre, 1));
    let before = c.cache.resident_tiles();

    c.set_origin(LAT + 0.000_001, LON, Some(1655.0));
    assert_eq!(c.cache.resident_tiles(), before);
}

#[test]
fn missing_coords_are_reported_around_the_vehicle() {
    let mut c = bounded(64);
    let centre = from_lon_lat(LON, LAT, Z);
    // Seed one tile so the cache knows which zoom to ask at.
    c.insert_tiles(TILE_SIZE as u32, vec![(centre, flat(1655.0), false)]);

    let missing = c.missing_around_vehicle(1);
    assert_eq!(
        missing.len(),
        8,
        "the centre is held, its 8 neighbours are not"
    );
    assert!(!missing.contains(&centre));
}

#[test]
fn nothing_is_missing_once_the_ring_is_complete() {
    // The steady state, which is what keeps the exchange quiet.
    let mut c = bounded(64);
    let centre = from_lon_lat(LON, LAT, Z);
    c.insert_tiles(TILE_SIZE as u32, ring(centre, 1));
    assert!(c.missing_around_vehicle(1).is_empty());
}

#[test]
fn moving_the_vehicle_makes_new_tiles_missing() {
    let mut c = bounded(64);
    let centre = from_lon_lat(LON, LAT, Z);
    c.insert_tiles(TILE_SIZE as u32, ring(centre, 1));
    assert!(c.missing_around_vehicle(1).is_empty());

    c.set_vehicle_ned(4_000.0, 0.0);
    assert!(
        !c.missing_around_vehicle(1).is_empty(),
        "the vehicle moved off the loaded ring and nothing was requested"
    );
}

#[test]
fn nothing_is_requested_before_any_terrain_has_arrived() {
    // There is no zoom to ask at yet. The browser sends the first batch
    // unprompted after configuration.
    let c = bounded(64);
    assert!(c.missing_around_vehicle(1).is_empty());
}

// ---- what the viewer draws and what the physics collides against ----

fn sloped_tile() -> Vec<f32> {
    // A real gradient, so a disagreement between the two paths shows up as a
    // number rather than cancelling out on a flat surface.
    let mut h = vec![0.0f32; TILE_SIZE * TILE_SIZE];
    for row in 0..TILE_SIZE {
        for col in 0..TILE_SIZE {
            h[row * TILE_SIZE + col] = 1600.0 + row as f32 * 0.35 + col as f32 * 0.15;
        }
    }
    h
}

/// The viewer's sampling, written out independently.
fn viewer_msl(tiles: &HashMap<(u32, u32), Vec<f32>>, lat: f64, lon: f64) -> Option<f64> {
    let coord = from_lon_lat(lon, lat, Z);
    let heights = tiles.get(&(coord.x, coord.y))?;
    let (nw_lon, nw_lat) = tile_to_lon_lat(coord.x, coord.y, Z);
    let (se_lon, se_lat) = tile_to_lon_lat(coord.x + 1, coord.y + 1, Z);
    let last = (TILE_SIZE - 1) as f64;

    let fx = ((lon - nw_lon) / (se_lon - nw_lon) * last).clamp(0.0, last);
    let fy = ((nw_lat - lat) / (nw_lat - se_lat) * last).clamp(0.0, last);
    let x0 = fx.floor() as usize;
    let y0 = fy.floor() as usize;
    let x1 = (x0 + 1).min(TILE_SIZE - 1);
    let y1 = (y0 + 1).min(TILE_SIZE - 1);
    let dx = fx - x0 as f64;
    let dy = fy - y0 as f64;
    let h = |r: usize, c: usize| heights[r * TILE_SIZE + c] as f64;
    Some(
        h(y0, x0) * (1.0 - dx) * (1.0 - dy)
            + h(y0, x1) * dx * (1.0 - dy)
            + h(y1, x0) * (1.0 - dx) * dy
            + h(y1, x1) * dx * dy,
    )
}

/// A 3x3 ring, and the same tiles in a plain map for the viewer.
fn scene(approximate: bool) -> (Terrain, HashMap<(u32, u32), Vec<f32>>, f64) {
    let heights = sloped_tile();
    let centre = from_lon_lat(LON, LAT, Z);
    let mut map = HashMap::new();
    let mut batch = Vec::new();
    for dy in -1i64..=1 {
        for dx in -1i64..=1 {
            let coord = TileCoord {
                x: (centre.x as i64 + dx) as u32,
                y: (centre.y as i64 + dy) as u32,
                z: Z,
            };
            map.insert((coord.x, coord.y), heights.clone());
            batch.push((coord, heights.clone(), approximate));
        }
    }

    // The datum is what the browser sampled at the origin: an input to
    // configuration, not something re-derived.
    let origin_elev = viewer_msl(&map, LAT, LON).expect("origin is covered");

    let mut cache = Terrain::new();
    cache.set_origin(LAT, LON, Some(origin_elev));
    let report = cache.insert_tiles(TILE_SIZE as u32, batch);
    assert_eq!(report.accepted, 9, "rejected: {:?}", report.rejected);
    (cache, map, origin_elev)
}

#[test]
fn a_vehicle_at_rest_at_the_origin_is_on_the_ground_in_both() {
    // Ground contact and the drawn surface must put the origin at the same
    // height, or a vehicle sitting still reads as hovering in one of them.
    let (cache, _, _) = scene(false);
    let physics_ground = cache.sample_ground_ned(0.0, 0.0).expect("covered") as f64;
    assert!(
        physics_ground.abs() < 1e-3,
        "physics puts the origin {physics_ground} m off the viewer's ground plane"
    );
}

#[test]
fn the_two_paths_agree_away_from_the_origin_on_a_slope() {
    let (cache, map, origin_elev) = scene(false);

    for (north, east) in [
        (0.0, 0.0),
        (120.0, 0.0),
        (0.0, 200.0),
        (-90.0, -150.0),
        (900.0, 900.0),
        (-1500.0, 1200.0),
    ] {
        let physics = cache.sample_ground_ned(north, east).expect("covered") as f64;
        let (lat, lon) = ned_to_lat_lon(north, east, LAT, LON);
        let viewer_local_y = viewer_msl(&map, lat, lon).expect("covered") - origin_elev;

        // ground_z (NED, down-positive) == -local_y (viewer, up-positive)
        assert!(
            (physics - (-viewer_local_y)).abs() < 1e-3,
            "at ({north}, {east}): physics {physics} vs viewer {viewer_local_y}"
        );
    }
}

#[test]
fn a_fallback_sourced_tile_is_collided_against_not_ignored() {
    // The browser must not draw hills from the fallback while the physics has
    // nothing and uses flat ground.
    let (cache, _, _) = scene(true);
    let ground = cache.sample_ground_ned(300.0, 300.0);
    assert!(
        ground.is_some(),
        "fallback terrain must be collided against"
    );
    assert!(
        ground.unwrap().abs() > 0.01,
        "a sloped fallback tile must not read as flat ground"
    );
    assert!(
        cache.cache.any_approximate(),
        "provenance must survive to the label"
    );
}

#[test]
fn provenance_changes_the_label_not_the_surface() {
    let (approx, _, _) = scene(true);
    let (auth, _, _) = scene(false);
    for (north, east) in [(0.0, 0.0), (150.0, -75.0), (-400.0, 600.0)] {
        assert_eq!(
            approx.sample_ground_ned(north, east),
            auth.sample_ground_ned(north, east),
            "provenance must not change the surface"
        );
    }
    assert!(approx.cache.any_approximate());
    assert!(!auth.cache.any_approximate());
}

#[test]
fn with_no_terrain_at_all_neither_side_invents_a_surface() {
    let mut cache = Terrain::new();
    cache.set_origin(LAT, LON, None);
    // Unknown, not flat: the caller decides, and both sides get the same "no
    // data" answer rather than one of them making something up.
    assert!(cache.sample_ground_ned(0.0, 0.0).is_none());
    assert!(!cache.cache.is_loaded());
    assert!(!cache.cache.has_datum());
}

// ---- frames from the browser ----

fn frame(coord: TileCoord, samples: usize) -> TerrainTiles {
    TerrainTiles {
        header: TerrainTilesHeader {
            origin: FlightLocation {
                lat: wide(LAT),
                lon: wide(LON),
            },
            tile_size: TILE_SIZE as u32,
            coords: vec![WireTileCoord {
                x: coord.x,
                y: coord.y,
                z: coord.z,
            }],
            approximate: vec![],
        },
        tiles: vec![vec![r32(1655.0); samples]],
    }
}

#[test]
fn a_frame_for_the_current_origin_is_taken_in() {
    let mut c = cache();
    let at = c.vehicle_at();
    let outcome = ingest(
        &mut c.cache,
        frame(origin_coord(), TILE_SIZE * TILE_SIZE),
        wide(0.5),
        &vec![wide(100.0)],
        &at,
    );
    match outcome {
        Ingest::Inserted(report) => {
            assert_eq!(report.accepted, 1);
            assert_eq!(ingest_reply(&report, ""), Ok(()));
        }
        Ingest::Stale(m) => panic!("{m}"),
    }
    assert!(!c.cache.any_approximate());
}

#[test]
fn a_frame_for_an_origin_the_flight_has_left_is_refused() {
    let mut c = cache();
    let at = c.vehicle_at();
    let outcome = ingest(
        &mut c.cache,
        frame(origin_coord(), TILE_SIZE * TILE_SIZE),
        wide(1000.0),
        &vec![wide(100.0)],
        &at,
    );
    assert!(matches!(outcome, Ingest::Stale(_)));
    assert_eq!(c.cache.resident_tiles(), 0);
}

#[test]
fn a_sender_learns_that_all_its_tiles_were_refused() {
    let mut c = cache();
    let at = c.vehicle_at();
    let outcome = ingest(
        &mut c.cache,
        frame(TileCoord { x: 1, y: 2, z: 3 }, 4),
        wide(0.0),
        &vec![wide(100.0)],
        &at,
    );
    match outcome {
        Ingest::Inserted(report) => {
            let reason = report.rejected[0].1.text("", "");
            assert_eq!(
                ingest_reply(&report, &reason),
                Err(format!(
                    "All 1 terrain tiles rejected; first was 3/1/2: {reason}"
                ))
            );
        }
        Ingest::Stale(m) => panic!("{m}"),
    }
    assert_eq!(
        no_terrain_message(),
        "Terrain ingress is not configured on this daemon"
    );
}

#[test]
fn a_frames_flags_go_with_its_tiles() {
    let mut f = frame(origin_coord(), 4);
    f.header.approximate = vec![true];
    let tiles = submitted_tiles(f, &vec![wide(12.0)]);
    assert_eq!(tiles.len(), 1);
    assert!(tiles[0].approximate);
    assert_eq!(tiles[0].heights.len(), 4);
    assert_eq!(high(tiles[0].metres), 12.0);
}
