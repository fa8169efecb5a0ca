//! Terrain the physics collides against.
//!
//! The daemon does not fetch elevation data. The browser is the sole fetcher:
//! it resolves each tile, decodes it once, and pushes the decoded heights in
//! over the WebSocket. Because the WebSocket is therefore a data ingress,
//! every tile is validated at the boundary; see [`TerrainCache::insert_tiles`].
//!
//! Distances and the tile a position falls into come from floating-point
//! projections that the caller evaluates; everything decided from them is
//! decided here.
use crate::ieee::{Real32, Real64};
use crate::text;
use crate::text::push_decimal;
use vstd::arithmetic::power2::*;
use vstd::prelude::*;

verus! {

/// Samples per tile edge. A tile is `TILE_SIZE * TILE_SIZE` heights, row-major
/// from its north-west corner, in MSL metres.
pub const TILE_SIZE: usize = 256;

/// Samples per tile.
pub const TILE_SAMPLES: usize = 65536;

/// Lowest elevation taken for real terrain, -12000 m, as a bit pattern.
pub const MIN_ELEVATION_M: u32 = 0xc63b_8000;

/// Highest elevation taken for real terrain, 12000 m, as a bit pattern.
pub const MAX_ELEVATION_M: u32 = 0x463b_8000;

/// A tile further than this from the origin belongs elsewhere: 200000 m, as a
/// bit pattern.
pub const MAX_ORIGIN_DISTANCE_M: u64 = 0x4108_6a00_0000_0000;

/// An origin further than this from the previous one is another place: 1 m, as
/// a bit pattern.
pub const ORIGIN_JITTER_M: u64 = 0x3ff0_0000_0000_0000;

/// Finest slippy zoom level that exists.
pub const MAX_ZOOM: u32 = 24;

/// Zoom levels that exist, `0..=MAX_ZOOM`.
pub const ZOOM_LEVELS: usize = 25;

/// Resident tile bound. 64 tiles of 256^2 samples are 16 MiB, far more than a
/// vehicle-centred ring needs.
pub const DEFAULT_MAX_RESIDENT_TILES: usize = 64;

/// A slippy tile coordinate.
#[derive(Clone, Copy, Debug, PartialEq, Eq, Hash, Structural)]
pub struct TileCoord {
    /// Column, from the west.
    pub x: u32,
    /// Row, from the north.
    pub y: u32,
    /// Zoom level.
    pub z: u32,
}

/// Why a submitted tile was refused.
#[derive(Clone, Copy, Debug, PartialEq, Eq, Structural)]
pub enum TileRejection {
    /// The frame declares another number of samples per edge.
    UnsupportedTileSize {
        /// What the frame declares.
        declared: u32,
        /// What the cache holds.
        supported: u32,
    },
    /// The tile holds another number of samples.
    WrongSampleCount {
        /// Samples received.
        got: usize,
        /// Samples of a tile.
        expected: usize,
    },
    /// No such tile exists at that zoom.
    CoordOutOfRange {
        /// The coordinate submitted.
        coord: TileCoord,
    },
    /// The tile lies too far from the flight origin.
    TooFarFromOrigin {
        /// Distance of its north-west corner.
        metres: Real64,
        /// The limit.
        limit: Real64,
    },
    /// A sample is not an elevation on Earth.
    ImplausibleElevation {
        /// Index of the first such sample.
        index: usize,
        /// Its value.
        value: Real32,
    },
    /// No origin has been set, so "near the vehicle" has no meaning yet.
    NoOrigin,
}

/// A column and a row of the tile grid.
#[derive(Clone, Copy, Debug, PartialEq, Eq, Structural)]
pub struct TilePoint {
    /// Column.
    pub x: u32,
    /// Row.
    pub y: u32,
}

/// A tile submitted for ingestion.
#[derive(Debug)]
pub struct SubmittedTile {
    /// Where it lies.
    pub coord: TileCoord,
    /// Its samples.
    pub heights: Vec<Real32>,
    /// Whether it came from the free global fallback.
    pub approximate: bool,
    /// Distance in metres of its north-west corner from the flight origin.
    pub metres: Real64,
}

/// A tile the cache holds.
pub struct ResidentTile {
    /// Where it lies.
    pub coord: TileCoord,
    /// Its samples.
    pub heights: Vec<Real32>,
    /// Whether it came from the free global fallback.
    pub approximate: bool,
}

/// Outcome of one `insert_tiles` call.
#[derive(Debug)]
pub struct InsertReport {
    /// Tiles taken in.
    pub accepted: usize,
    /// Tiles refused, in the order submitted, with the reason.
    pub rejected: Vec<(TileCoord, TileRejection)>,
    /// Tiles dropped to stay within the resident bound.
    pub evicted: usize,
}

/// The four samples around a point of a tile, for bilinear blending.
#[derive(Clone, Copy, Debug, PartialEq, Eq, Structural)]
pub struct TilePosts {
    /// North-west sample.
    pub nw: Real32,
    /// North-east sample.
    pub ne: Real32,
    /// South-west sample.
    pub sw: Real32,
    /// South-east sample.
    pub se: Real32,
}

/// How a slope is taken from a height on either side of a point.
#[derive(Clone, Copy, Debug, PartialEq, Eq, Structural)]
pub enum SlopeRule {
    /// Both sides are known: the difference over twice the spacing.
    Central,
    /// Only the positive side is known: its difference from the centre.
    Forward,
    /// Only the negative side is known: the centre's difference from it.
    Backward,
    /// Neither side is known: level, as far as one height tells. Wherever the
    /// ground has a height it has a slope.
    Level,
}

/// What a tile holds.
pub ghost struct TileModel {
    pub heights: Seq<Real32>,
    pub approximate: bool,
}

/// The resident tiles and the one zoom they share.
pub ghost struct Held {
    pub zoom: Option<u32>,
    pub tiles: Map<TileCoord, TileModel>,
}

/// Whether a sample is an elevation on Earth.
pub open spec fn plausible(h: Real32) -> bool {
    h.finite() && Real32 { bits: MIN_ELEVATION_M }.le(h) && h.le(Real32 { bits: MAX_ELEVATION_M })
}

/// The first sample at or after `from` that is no elevation, or the length.
pub open spec fn first_implausible(h: Seq<Real32>, from: int) -> int
    decreases h.len() - from,
{
    if from < 0 || from >= h.len() || !plausible(h[from]) {
        from
    } else {
        first_implausible(h, from + 1)
    }
}

/// Whether the coordinate names a tile of its zoom.
pub open spec fn coord_exists(c: TileCoord) -> bool {
    c.z <= MAX_ZOOM && c.x < pow2(c.z as nat) && c.y < pow2(c.z as nat)
}

/// The furthest a tile may lie from the flight origin.
pub open spec fn far_limit() -> Real64 {
    Real64 { bits: MAX_ORIGIN_DISTANCE_M }
}

/// Why a tile on its own is refused, `None` when it is sound.
pub open spec fn tile_fault(t: SubmittedTile) -> Option<TileRejection> {
    if t.heights@.len() != TILE_SAMPLES {
        Some(
            TileRejection::WrongSampleCount {
                got: t.heights@.len() as usize,
                expected: TILE_SAMPLES,
            },
        )
    } else if !coord_exists(t.coord) {
        Some(TileRejection::CoordOutOfRange { coord: t.coord })
    } else if far_limit().lt(t.metres) {
        Some(TileRejection::TooFarFromOrigin { metres: t.metres, limit: far_limit() })
    } else if first_implausible(t.heights@, 0) < t.heights@.len() {
        let index = first_implausible(t.heights@, 0);
        Some(
            TileRejection::ImplausibleElevation { index: index as usize, value: t.heights@[index] },
        )
    } else {
        None
    }
}

/// The sound tiles of a batch, in order.
pub open spec fn sound_tiles(batch: Seq<SubmittedTile>) -> Seq<SubmittedTile>
    decreases batch.len(),
{
    if batch.len() == 0 {
        Seq::empty()
    } else if tile_fault(batch.last()) is None {
        sound_tiles(batch.drop_last()).push(batch.last())
    } else {
        sound_tiles(batch.drop_last())
    }
}

/// The refused tiles of a batch, in order, each with its fault.
pub open spec fn faults(batch: Seq<SubmittedTile>) -> Seq<(TileCoord, TileRejection)>
    decreases batch.len(),
{
    if batch.len() == 0 {
        Seq::empty()
    } else {
        match tile_fault(batch.last()) {
            None => faults(batch.drop_last()),
            Some(fault) => faults(batch.drop_last()).push((batch.last().coord, fault)),
        }
    }
}

/// The whole batch, refused for one reason.
pub open spec fn all_refused(batch: Seq<SubmittedTile>, reason: TileRejection) -> Seq<
    (TileCoord, TileRejection),
> {
    Seq::new(batch.len(), |i: int| (batch[i].coord, reason))
}

/// What a submitted tile holds.
pub open spec fn submitted_model(t: SubmittedTile) -> TileModel {
    TileModel { heights: t.heights@, approximate: t.approximate }
}

/// One tile taken in. A tile at another zoom replaces the whole set, so that
/// levels of detail are never mixed under the vehicle.
pub open spec fn put(held: Held, t: SubmittedTile) -> Held {
    Held {
        zoom: Some(t.coord.z),
        tiles: if held.zoom == Some(t.coord.z) {
            held.tiles.insert(t.coord, submitted_model(t))
        } else {
            Map::empty().insert(t.coord, submitted_model(t))
        },
    }
}

/// Several tiles taken in, in order.
pub open spec fn put_all(held: Held, batch: Seq<SubmittedTile>) -> Held
    decreases batch.len(),
{
    if batch.len() == 0 {
        held
    } else {
        put(put_all(held, batch.drop_last()), batch.last())
    }
}

/// Squared distance of a tile from a point, in tiles.
pub open spec fn tile_distance(c: TileCoord, centre: TilePoint) -> int {
    (c.x - centre.x) * (c.x - centre.x) + (c.y - centre.y) * (c.y - centre.y)
}

/// `after` is `before` cut down to `limit` tiles, the furthest from `centre`
/// dropped first. Which of two equally distant tiles goes is left open.
pub open spec fn trimmed(before: Held, after: Held, centre: TilePoint, limit: nat) -> bool {
    &&& after.zoom == before.zoom
    &&& before.tiles.dom().finite()
    &&& after.tiles.dom().finite()
    &&& after.tiles.dom().len() == if before.tiles.dom().len() <= limit {
        before.tiles.dom().len()
    } else {
        limit
    }
    &&& forall|c: TileCoord| #[trigger]
        after.tiles.dom().contains(c) ==> before.tiles.dom().contains(c) && before.tiles[c]
            == after.tiles[c]
    &&& forall|kept: TileCoord, gone: TileCoord|
        #![trigger after.tiles.dom().contains(kept), before.tiles.dom().contains(gone)]
        after.tiles.dom().contains(kept) && before.tiles.dom().contains(gone)
            && !after.tiles.dom().contains(gone) ==> tile_distance(kept, centre) <= tile_distance(
            gone,
            centre,
        )
}

/// Whether every tile lies at the zoom of the set.
pub open spec fn one_zoom(held: Held) -> bool {
    &&& held.zoom is None ==> held.tiles.dom() =~= Set::<TileCoord>::empty()
    &&& forall|c: TileCoord| #[trigger]
        held.tiles.dom().contains(c) ==> held.zoom == Some(c.z)
}

/// Whether a tile is one that ingestion lets in.
pub open spec fn sound_model(c: TileCoord, m: TileModel) -> bool {
    &&& coord_exists(c)
    &&& m.heights.len() == TILE_SAMPLES
    &&& forall|i: int| 0 <= i < m.heights.len() ==> plausible(#[trigger] m.heights[i])
}

/// The tile under the vehicle outlives every eviction.
pub proof fn law_vehicle_tile_is_never_evicted(
    before: Held,
    after: Held,
    centre: TilePoint,
    limit: nat,
    under: TileCoord,
)
    requires
        limit >= 1,
        one_zoom(before),
        trimmed(before, after, centre, limit),
        before.tiles.dom().contains(under),
        under.x == centre.x,
        under.y == centre.y,
    ensures
        after.tiles.dom().contains(under),
{
    if !after.tiles.dom().contains(under) {
        if after.tiles.dom().len() == 0 {
            before.tiles.dom().lemma_len0_is_empty();
        }
        let kept = after.tiles.dom().choose();
        assert(after.tiles.dom().contains(kept));
        assert(before.tiles.dom().contains(kept));
        assert(tile_distance(under, centre) == 0) by (nonlinear_arith)
            requires
                under.x == centre.x,
                under.y == centre.y,
        ;
        assert(tile_distance(kept, centre) <= 0);
        let dx = kept.x - centre.x;
        let dy = kept.y - centre.y;
        assert(dx == 0 && dy == 0) by (nonlinear_arith)
            requires
                dx * dx + dy * dy <= 0,
        ;
        assert(kept == under);
    }
}

/// What a resident tile holds.
pub open spec fn resident_model(t: ResidentTile) -> TileModel {
    TileModel { heights: t.heights@, approximate: t.approximate }
}

/// The tiles of a list by coordinate.
pub open spec fn tile_map(tiles: Seq<ResidentTile>) -> Map<TileCoord, TileModel>
    decreases tiles.len(),
{
    if tiles.len() == 0 {
        Map::empty()
    } else {
        tile_map(tiles.drop_last()).insert(tiles.last().coord, resident_model(tiles.last()))
    }
}

/// No coordinate occurs twice.
pub open spec fn distinct_coords(tiles: Seq<ResidentTile>) -> bool {
    forall|i: int, j: int|
        #![trigger tiles[i], tiles[j]]
        0 <= i < j < tiles.len() ==> tiles[i].coord != tiles[j].coord
}

/// Whether the list holds the coordinate.
spec fn listed(tiles: Seq<ResidentTile>, c: TileCoord) -> bool {
    exists|i: int| 0 <= i < tiles.len() && #[trigger] tiles[i].coord == c
}

proof fn lemma_tile_map(tiles: Seq<ResidentTile>)
    requires
        distinct_coords(tiles),
    ensures
        tile_map(tiles).dom().finite(),
        tile_map(tiles).dom().len() == tiles.len(),
        forall|c: TileCoord| #[trigger] tile_map(tiles).dom().contains(c) <==> listed(tiles, c),
        forall|i: int|
            #![trigger tiles[i]]
            0 <= i < tiles.len() ==> tile_map(tiles).dom().contains(tiles[i].coord) && tile_map(
                tiles,
            )[tiles[i].coord] == resident_model(tiles[i]),
    decreases tiles.len(),
{
    if tiles.len() > 0 {
        let rest = tiles.drop_last();
        assert(forall|i: int| 0 <= i < rest.len() ==> rest[i] == tiles[i]);
        assert(distinct_coords(rest));
        lemma_tile_map(rest);
        assert(!listed(rest, tiles.last().coord));
        assert forall|c: TileCoord| #[trigger] tile_map(tiles).dom().contains(c) <==> listed(
            tiles,
            c,
        ) by {
            if listed(rest, c) {
                let i = choose|i: int| 0 <= i < rest.len() && #[trigger] rest[i].coord == c;
                assert(tiles[i].coord == c);
            }
            if listed(tiles, c) && c != tiles.last().coord {
                let i = choose|i: int| 0 <= i < tiles.len() && #[trigger] tiles[i].coord == c;
                assert(rest[i].coord == c);
            }
            if c == tiles.last().coord {
                assert(tiles[tiles.len() - 1].coord == c);
            }
        }
        assert forall|i: int|
            #![trigger tiles[i]]
            0 <= i < tiles.len() implies tile_map(tiles).dom().contains(tiles[i].coord)
            && tile_map(tiles)[tiles[i].coord] == resident_model(tiles[i]) by {
            if i < rest.len() {
                assert(rest[i] == tiles[i]);
                assert(tiles[i].coord != tiles[tiles.len() - 1].coord);
            }
        }
    }
}

proof fn lemma_replace(tiles: Seq<ResidentTile>, i: int, t: ResidentTile)
    requires
        distinct_coords(tiles),
        0 <= i < tiles.len(),
        tiles[i].coord == t.coord,
    ensures
        distinct_coords(tiles.update(i, t)),
        tile_map(tiles.update(i, t)) == tile_map(tiles).insert(t.coord, resident_model(t)),
{
    let new = tiles.update(i, t);
    assert(forall|k: int| 0 <= k < tiles.len() ==> #[trigger] new[k].coord == tiles[k].coord);
    assert(distinct_coords(new)) by {
        assert forall|a: int, b: int|
            #![trigger new[a], new[b]]
            0 <= a < b < new.len() implies new[a].coord != new[b].coord by {
            assert(tiles[a].coord != tiles[b].coord);
        }
    }
    lemma_tile_map(tiles);
    lemma_tile_map(new);
    assert forall|c: TileCoord| listed(new, c) <==> listed(tiles, c) by {
        if listed(new, c) {
            let k = choose|k: int| 0 <= k < new.len() && #[trigger] new[k].coord == c;
            assert(tiles[k].coord == c);
        }
        if listed(tiles, c) {
            let k = choose|k: int| 0 <= k < tiles.len() && #[trigger] tiles[k].coord == c;
            assert(new[k].coord == c);
        }
    }
    let expected = tile_map(tiles).insert(t.coord, resident_model(t));
    assert(tiles[i].coord == t.coord);
    assert(tile_map(new).dom() =~= expected.dom());
    assert forall|c: TileCoord| #[trigger] tile_map(new).dom().contains(c) implies tile_map(new)[c]
        == expected[c] by {
        let k = choose|k: int| 0 <= k < new.len() && #[trigger] new[k].coord == c;
        assert(new[k].coord == c && tiles[k].coord == c);
        if k != i {
            assert(tiles[k].coord != tiles[i].coord) by {
                if k < i {
                } else {
                }
            }
        }
    }
    assert(tile_map(new) =~= expected);
}

proof fn lemma_append(tiles: Seq<ResidentTile>, t: ResidentTile)
    requires
        distinct_coords(tiles),
        !listed(tiles, t.coord),
    ensures
        distinct_coords(tiles.push(t)),
        tile_map(tiles.push(t)) == tile_map(tiles).insert(t.coord, resident_model(t)),
{
    let new = tiles.push(t);
    assert(new.drop_last() =~= tiles);
    assert forall|a: int, b: int|
        #![trigger new[a], new[b]]
        0 <= a < b < new.len() implies new[a].coord != new[b].coord by {
        assert(new[a] == tiles[a]);
        if b < tiles.len() {
            assert(new[b] == tiles[b]);
        } else {
            assert(tiles[a].coord != t.coord);
        }
    }
}

proof fn lemma_remove(tiles: Seq<ResidentTile>, i: int)
    requires
        distinct_coords(tiles),
        0 <= i < tiles.len(),
    ensures
        distinct_coords(tiles.remove(i)),
        tile_map(tiles.remove(i)) == tile_map(tiles).remove(tiles[i].coord),
{
    let new = tiles.remove(i);
    assert forall|a: int, b: int|
        #![trigger new[a], new[b]]
        0 <= a < b < new.len() implies new[a].coord != new[b].coord by {
        let x = if a < i { a } else { a + 1 };
        let y = if b < i { b } else { b + 1 };
        assert(new[a] == tiles[x] && new[b] == tiles[y]);
    }
    lemma_tile_map(tiles);
    lemma_tile_map(new);
    let expected = tile_map(tiles).remove(tiles[i].coord);
    assert forall|c: TileCoord| #[trigger] tile_map(new).dom().contains(c) <==> expected.dom().contains(
        c,
    ) by {
        if listed(new, c) {
            let k = choose|k: int| 0 <= k < new.len() && #[trigger] new[k].coord == c;
            let x = if k < i { k } else { k + 1 };
            assert(new[k] == tiles[x] && tiles[x].coord == c);
            assert(tiles[x].coord != tiles[i].coord);
        }
        if listed(tiles, c) && c != tiles[i].coord {
            let k = choose|k: int| 0 <= k < tiles.len() && #[trigger] tiles[k].coord == c;
            let x = if k < i { k } else { k - 1 };
            assert(new[x] == tiles[k] && new[x].coord == c);
        }
    }
    assert forall|c: TileCoord| #[trigger] tile_map(new).dom().contains(c) implies tile_map(new)[c]
        == expected[c] by {
        let k = choose|k: int| 0 <= k < new.len() && #[trigger] new[k].coord == c;
        let x = if k < i { k } else { k + 1 };
        assert(new[k] == tiles[x] && tiles[x].coord == c);
    }
    assert(tile_map(new) =~= expected);
}

/// Index of the tile at `coord`.
fn find_tile(tiles: &Vec<ResidentTile>, coord: TileCoord) -> (r: Option<usize>)
    requires
        distinct_coords(tiles@),
    ensures
        match r {
            Some(i) => i < tiles@.len() && tiles@[i as int].coord == coord,
            None => !listed(tiles@, coord),
        },
        r is Some <==> tile_map(tiles@).dom().contains(coord),
{
    proof {
        lemma_tile_map(tiles@);
    }
    let mut i: usize = 0;
    while i < tiles.len()
        invariant
            i <= tiles@.len(),
            forall|k: int| 0 <= k < i ==> #[trigger] tiles@[k].coord != coord,
            forall|c: TileCoord| #[trigger]
                tile_map(tiles@).dom().contains(c) <==> listed(tiles@, c),
        decreases tiles@.len() - i,
    {
        if tiles[i].coord == coord {
            assert(tiles@[i as int].coord == coord);
            return Some(i);
        }
        i = i + 1;
    }
    None
}

/// Take one tile in, replacing the tile at its coordinate if there is one.
fn place_tile(tiles: &mut Vec<ResidentTile>, t: ResidentTile)
    requires
        distinct_coords(old(tiles)@),
    ensures
        distinct_coords(final(tiles)@),
        tile_map(final(tiles)@) == tile_map(old(tiles)@).insert(t.coord, resident_model(t)),
{
    match find_tile(tiles, t.coord) {
        Some(i) => {
            proof {
                lemma_replace(tiles@, i as int, t);
            }
            tiles.set(i, t);
        },
        None => {
            proof {
                lemma_append(tiles@, t);
            }
            tiles.push(t);
        },
    }
}

/// Squared distance of a tile from a point, in tiles.
fn distance_to(c: TileCoord, centre: TilePoint) -> (r: i128)
    ensures
        r == tile_distance(c, centre),
{
    let dx: i128 = c.x as i128 - centre.x as i128;
    let dy: i128 = c.y as i128 - centre.y as i128;
    assert(0 <= dx * dx <= 0x1_0000_0000 * 0x1_0000_0000) by (nonlinear_arith)
        requires
            -0x1_0000_0000 <= dx <= 0x1_0000_0000,
    ;
    assert(0 <= dy * dy <= 0x1_0000_0000 * 0x1_0000_0000) by (nonlinear_arith)
        requires
            -0x1_0000_0000 <= dy <= 0x1_0000_0000,
    ;
    dx * dx + dy * dy
}

/// Index of a tile that no other tile is further away than.
fn furthest(tiles: &Vec<ResidentTile>, centre: TilePoint) -> (r: usize)
    requires
        tiles@.len() > 0,
    ensures
        r < tiles@.len(),
        forall|k: int|
            0 <= k < tiles@.len() ==> tile_distance(#[trigger] tiles@[k].coord, centre)
                <= tile_distance(tiles@[r as int].coord, centre),
{
    let mut best: usize = 0;
    let mut best_distance: i128 = distance_to(tiles[0].coord, centre);
    let mut i: usize = 1;
    while i < tiles.len()
        invariant
            1 <= i <= tiles@.len(),
            best < i,
            best_distance == tile_distance(tiles@[best as int].coord, centre),
            forall|k: int|
                0 <= k < i ==> tile_distance(#[trigger] tiles@[k].coord, centre) <= best_distance,
        decreases tiles@.len() - i,
    {
        let d: i128 = distance_to(tiles[i].coord, centre);
        if d > best_distance {
            best = i;
            best_distance = d;
        }
        i = i + 1;
    }
    best
}

/// Drop the tiles furthest from the vehicle until `limit` holds; the number
/// dropped.
fn evict_to_bound(
    tiles: &mut Vec<ResidentTile>,
    zoom: Option<u32>,
    centre: TilePoint,
    limit: usize,
) -> (dropped: usize)
    requires
        distinct_coords(old(tiles)@),
    ensures
        distinct_coords(final(tiles)@),
        dropped == old(tiles)@.len() - final(tiles)@.len(),
        trimmed(
            Held { zoom, tiles: tile_map(old(tiles)@) },
            Held { zoom, tiles: tile_map(final(tiles)@) },
            centre,
            limit as nat,
        ),
{
    let ghost before = tile_map(tiles@);
    let count: usize = tiles.len();
    let mut dropped: usize = 0;
    proof {
        lemma_tile_map(tiles@);
    }
    while tiles.len() > limit
        invariant
            distinct_coords(tiles@),
            dropped == count - tiles@.len(),
            count > limit ==> tiles@.len() >= limit,
            count <= limit ==> tiles@.len() == count,
            before.dom().finite(),
            before.dom().len() == count,
            forall|c: TileCoord| #[trigger]
                tile_map(tiles@).dom().contains(c) ==> before.dom().contains(c) && before[c]
                    == tile_map(tiles@)[c],
            forall|kept: TileCoord, gone: TileCoord|
                #![trigger tile_map(tiles@).dom().contains(kept), before.dom().contains(gone)]
                tile_map(tiles@).dom().contains(kept) && before.dom().contains(gone) && !tile_map(
                    tiles@,
                ).dom().contains(gone) ==> tile_distance(kept, centre) <= tile_distance(
                    gone,
                    centre,
                ),
        decreases tiles@.len(),
    {
        let worst: usize = furthest(tiles, centre);
        let ghost here = tiles@;
        proof {
            lemma_tile_map(here);
            lemma_remove(here, worst as int);
        }
        let _gone: ResidentTile = tiles.remove(worst);
        dropped = dropped + 1;
        proof {
            lemma_tile_map(tiles@);
            let now = tile_map(tiles@);
            assert forall|kept: TileCoord, gone: TileCoord|
                #![trigger now.dom().contains(kept), before.dom().contains(gone)]
                now.dom().contains(kept) && before.dom().contains(gone) && !now.dom().contains(
                    gone,
                ) implies tile_distance(kept, centre) <= tile_distance(gone, centre) by {
                assert(tile_map(here).dom().contains(kept));
                if gone == here[worst as int].coord {
                    assert(listed(here, kept));
                    let k = choose|k: int| 0 <= k < here.len() && #[trigger] here[k].coord == kept;
                    assert(here[k].coord == kept);
                } else {
                    assert(!tile_map(here).dom().contains(gone));
                }
            }
        }
    }
    proof {
        lemma_tile_map(tiles@);
    }
    dropped
}

/// Whether a sample is an elevation on Earth.
fn is_plausible(h: Real32) -> (r: bool)
    ensures
        r == plausible(h),
{
    h.is_finite() && Real32::from_bits(MIN_ELEVATION_M).at_most(h) && h.at_most(
        Real32::from_bits(MAX_ELEVATION_M),
    )
}

/// Two to the power of a zoom level.
fn tiles_per_edge(z: u32) -> (n: u32)
    requires
        z <= MAX_ZOOM,
    ensures
        n == pow2(z as nat),
        n <= 0x100_0000,
{
    let mut n: u32 = 1;
    let mut i: u32 = 0;
    proof {
        lemma2_to64();
    }
    while i < z
        invariant
            i <= z <= MAX_ZOOM,
            n == pow2(i as nat),
            pow2(24) == 0x100_0000,
        decreases z - i,
    {
        proof {
            lemma_pow2_unfold((i + 1) as nat);
            if i + 1 < 24 {
                lemma_pow2_strictly_increases((i + 1) as nat, 24);
            }
        }
        n = 2 * n;
        i = i + 1;
    }
    proof {
        if z < 24 {
            lemma_pow2_strictly_increases(z as nat, 24);
        }
    }
    n
}

/// Why a tile on its own is refused, `None` when it is sound.
///
/// The order of the checks matters: the zoom is checked before it is used as
/// an exponent.
pub fn validate_tile(t: &SubmittedTile) -> (r: Option<TileRejection>)
    ensures
        r == tile_fault(*t),
{
    if t.heights.len() != TILE_SAMPLES {
        return Some(
            TileRejection::WrongSampleCount { got: t.heights.len(), expected: TILE_SAMPLES },
        );
    }
    if t.coord.z > MAX_ZOOM {
        return Some(TileRejection::CoordOutOfRange { coord: t.coord });
    }
    let n: u32 = tiles_per_edge(t.coord.z);
    if t.coord.x >= n || t.coord.y >= n {
        return Some(TileRejection::CoordOutOfRange { coord: t.coord });
    }
    let limit: Real64 = Real64::from_bits(MAX_ORIGIN_DISTANCE_M);
    if limit.less_than(t.metres) {
        return Some(TileRejection::TooFarFromOrigin { metres: t.metres, limit });
    }
    let mut i: usize = 0;
    while i < t.heights.len()
        invariant
            i <= t.heights@.len() == TILE_SAMPLES,
            first_implausible(t.heights@, 0) == first_implausible(t.heights@, i as int),
            coord_exists(t.coord),
            !far_limit().lt(t.metres),
        decreases t.heights@.len() - i,
    {
        if !is_plausible(t.heights[i]) {
            return Some(TileRejection::ImplausibleElevation { index: i, value: t.heights[i] });
        }
        i = i + 1;
    }
    None
}

/// Terrain cache for use in the physics loop: written as tiles arrive, read at
/// the simulation rate.
pub struct TerrainCache {
    zoom: Option<u32>,
    tiles: Vec<ResidentTile>,
    origin_lat: Real64,
    origin_lon: Real64,
    origin_elevation: Option<Real64>,
    has_origin: bool,
    max_resident: usize,
    vehicle_north: Real64,
    vehicle_east: Real64,
}

/// Everything the cache holds.
pub ghost struct TerrainState {
    pub held: Held,
    pub has_origin: bool,
    pub origin_lat: Real64,
    pub origin_lon: Real64,
    pub origin_elevation: Option<Real64>,
    pub max_resident: nat,
    pub vehicle_north: Real64,
    pub vehicle_east: Real64,
}

/// What inserting tiles does. A frame with the wrong tile size, and any frame
/// before there is an origin, changes nothing and refuses every tile.
/// Otherwise every sound tile is taken in, in order, and what exceeds the bound
/// is dropped, furthest from the vehicle first.
pub open spec fn inserted(
    before: TerrainState,
    after: TerrainState,
    tile_size: u32,
    tiles: Seq<SubmittedTile>,
    vehicle_at: Seq<TilePoint>,
    report: InsertReport,
) -> bool {
    &&& after == (TerrainState { held: after.held, ..before })
    &&& if tile_size != TILE_SIZE {
        &&& after == before
        &&& report.accepted == 0
        &&& report.evicted == 0
        &&& report.rejected@ == all_refused(
            tiles,
            TileRejection::UnsupportedTileSize {
                declared: tile_size,
                supported: TILE_SIZE as u32,
            },
        )
    } else if !before.has_origin {
        &&& after == before
        &&& report.accepted == 0
        &&& report.evicted == 0
        &&& report.rejected@ == all_refused(tiles, TileRejection::NoOrigin)
    } else {
        let full = put_all(before.held, sound_tiles(tiles));
        &&& report.accepted == sound_tiles(tiles).len()
        &&& report.rejected@ == faults(tiles)
        &&& full.zoom matches Some(z) ==> trimmed(
            full,
            after.held,
            vehicle_at[z as int],
            before.max_resident,
        )
        &&& full.zoom is None ==> after.held == before.held
        &&& report.evicted == full.tiles.dom().len() - after.held.tiles.dom().len()
    }
}

impl View for TerrainCache {
    type V = TerrainState;

    closed spec fn view(&self) -> TerrainState {
        TerrainState {
            held: Held { zoom: self.zoom, tiles: tile_map(self.tiles@) },
            has_origin: self.has_origin,
            origin_lat: self.origin_lat,
            origin_lon: self.origin_lon,
            origin_elevation: self.origin_elevation,
            max_resident: self.max_resident as nat,
            vehicle_north: self.vehicle_north,
            vehicle_east: self.vehicle_east,
        }
    }
}

/// What holds of the cache between any two operations: the resident bound,
/// one zoom, sound tiles only.
pub open spec fn terrain_invariant(s: TerrainState) -> bool {
    &&& s.max_resident >= 1
    &&& s.held.tiles.dom().finite()
    &&& s.held.tiles.dom().len() <= s.max_resident
    &&& one_zoom(s.held)
    &&& s.held.zoom matches Some(z) ==> z <= MAX_ZOOM
    &&& forall|c: TileCoord| #[trigger]
        s.held.tiles.dom().contains(c) ==> sound_model(c, s.held.tiles[c])
}

/// The zero every position starts from.
pub open spec fn zero64() -> Real64 {
    Real64 { bits: 0 }
}

/// Whether the vehicle ring holds the coordinate at column and row offsets.
pub open spec fn ring_coord(centre: TilePoint, dx: int, dy: int, z: u32) -> TileCoord {
    TileCoord { x: ring_axis(centre.x, dx), y: ring_axis(centre.y, dy), z }
}

/// An offset column or row, kept from leaving the grid at zero.
pub open spec fn ring_axis(at: u32, offset: int) -> u32 {
    let v = if at + offset < 0 { 0 } else { at + offset };
    (v % 0x1_0000_0000) as u32
}

/// The first `n` coordinates of the square ring of radius `r`, row by row,
/// that `held` lacks.
pub open spec fn ring_missing(held: Held, centre: TilePoint, r: int, z: u32, n: int) -> Seq<
    TileCoord,
>
    decreases n,
{
    if n <= 0 {
        Seq::empty()
    } else {
        let side = 2 * r + 1;
        let k = n - 1;
        let c = ring_coord(centre, k % side - r, k / side - r, z);
        let rest = ring_missing(held, centre, r, z, n - 1);
        if held.tiles.dom().contains(c) {
            rest
        } else {
            rest.push(c)
        }
    }
}

impl TerrainCache {
    /// The invariant, with the tile list free of duplicates.
    pub closed spec fn wf(&self) -> bool {
        &&& distinct_coords(self.tiles@)
        &&& terrain_invariant(self@)
    }

    /// A cache never holds more tiles than its bound, all of one zoom, and every
    /// tile that it holds exists on the grid with plausible heights.
    pub proof fn law_held_tiles_are_bounded_and_sound(&self)
        requires
            self.wf(),
        ensures
            terrain_invariant(self@),
    {
    }

    /// An empty cache with the default bound.
    pub fn new() -> (r: Self)
        ensures
            r.wf(),
            r@ == empty_state(DEFAULT_MAX_RESIDENT_TILES as nat),
    {
        Self::with_capacity(DEFAULT_MAX_RESIDENT_TILES)
    }

    /// An empty cache that never holds more than `max_resident` tiles. A bound
    /// of zero is taken as one: the tile under the vehicle is always kept.
    pub fn with_capacity(max_resident: usize) -> (r: Self)
        ensures
            r.wf(),
            r@ == empty_state(if max_resident == 0 { 1 } else { max_resident as nat }),
    {
        let cache = TerrainCache {
            zoom: None,
            tiles: Vec::new(),
            origin_lat: Real64::from_bits(0),
            origin_lon: Real64::from_bits(0),
            origin_elevation: None,
            has_origin: false,
            max_resident: if max_resident == 0 { 1 } else { max_resident },
            vehicle_north: Real64::from_bits(0),
            vehicle_east: Real64::from_bits(0),
        };
        proof {
            lemma_tile_map(cache.tiles@);
            assert(tile_map(cache.tiles@) =~= Map::<TileCoord, TileModel>::empty());
        }
        cache
    }

    /// Anchor the cache to a flight origin, `moved_m` metres from the current
    /// one.
    ///
    /// Re-anchoring to a materially different place discards the resident
    /// tiles: they describe ground relative to the old origin, and keeping them
    /// would compute contact against terrain anchored somewhere else.
    pub fn set_origin(
        &mut self,
        lat: Real64,
        lon: Real64,
        elevation_msl: Option<Real64>,
        moved_m: Real64,
    )
        requires
            old(self).wf(),
        ensures
            final(self).wf(),
            final(self)@ == anchored(old(self)@, lat, lon, elevation_msl, moved_m),
    {
        if self.has_origin && Real64::from_bits(ORIGIN_JITTER_M).less_than(moved_m) {
            self.tiles = Vec::new();
            self.zoom = None;
            proof {
                lemma_tile_map(self.tiles@);
                assert(tile_map(self.tiles@) =~= Map::<TileCoord, TileModel>::empty());
            }
        }
        self.origin_lat = lat;
        self.origin_lon = lon;
        self.origin_elevation = elevation_msl;
        self.has_origin = true;
        self.vehicle_north = Real64::from_bits(0);
        self.vehicle_east = Real64::from_bits(0);
    }

    /// Whether a frame anchored `distance_m` metres from the current origin is
    /// anchored to it. Without an origin nothing is.
    pub fn is_anchored_to(&self, distance_m: Real64) -> (r: bool)
        ensures
            r == (self@.has_origin && !jitter_limit().lt(distance_m)),
    {
        self.has_origin && !Real64::from_bits(ORIGIN_JITTER_M).less_than(distance_m)
    }

    /// Report where the vehicle is, in NED metres from the origin. It orders
    /// eviction and decides which tiles to ask for.
    pub fn set_vehicle_ned(&mut self, north: Real64, east: Real64)
        requires
            old(self).wf(),
        ensures
            final(self).wf(),
            final(self)@ == (TerrainState {
                vehicle_north: north,
                vehicle_east: east,
                ..old(self)@
            }),
    {
        self.vehicle_north = north;
        self.vehicle_east = east;
    }

    /// Accept decoded elevation tiles.
    ///
    /// This is the one way terrain enters the physics. Every tile is validated
    /// before it is stored, and a rejected tile leaves previously accepted
    /// terrain untouched: a bad frame degrades to "no new terrain", never to
    /// corrupted ground. `vehicle_at[z]` is the tile the vehicle is over at
    /// zoom `z`; eviction drops the tiles furthest from it.
    pub fn insert_tiles(
        &mut self,
        tile_size: u32,
        tiles: Vec<SubmittedTile>,
        vehicle_at: &Vec<TilePoint>,
    ) -> (report: InsertReport)
        requires
            old(self).wf(),
            vehicle_at@.len() == ZOOM_LEVELS,
        ensures
            final(self).wf(),
            inserted(old(self)@, final(self)@, tile_size, tiles@, vehicle_at@, report),
    {
        let mut pending: Vec<SubmittedTile> = tiles;
        let ghost batch = pending@;
        let mut rejected: Vec<(TileCoord, TileRejection)> = Vec::new();

        if tile_size as usize != TILE_SIZE || !self.has_origin {
            let reason = if tile_size as usize != TILE_SIZE {
                TileRejection::UnsupportedTileSize { declared: tile_size, supported: TILE_SIZE as u32 }
            } else {
                TileRejection::NoOrigin
            };
            let mut i: usize = 0;
            while i < pending.len()
                invariant
                    i <= pending@.len(),
                    pending@ == batch,
                    rejected@ == all_refused(batch, reason).take(i as int),
                decreases pending@.len() - i,
            {
                rejected.push((pending[i].coord, reason));
                i = i + 1;
                assert(all_refused(batch, reason).take(i as int) =~= all_refused(
                    batch,
                    reason,
                ).take(i - 1).push((batch[i - 1].coord, reason)));
            }
            assert(all_refused(batch, reason).take(i as int) =~= all_refused(batch, reason));
            return InsertReport { accepted: 0, rejected, evicted: 0 };
        }
        let ghost start = self@.held;
        let ghost initial = self@;
        let mut accepted: usize = 0;
        let total: usize = pending.len();
        proof {
            lemma_tile_map(self.tiles@);
            assert(batch.take(0) =~= Seq::<SubmittedTile>::empty());
        }
        while pending.len() > 0
            invariant
                batch.len() == total,
                pending@ == batch.skip(total - pending@.len()),
                pending@.len() <= total,
                distinct_coords(self.tiles@),
                self@ == (TerrainState { held: self@.held, ..initial }),
                self@.held == put_all(start, sound_tiles(batch.take(total - pending@.len()))),
                accepted == sound_tiles(batch.take(total - pending@.len())).len(),
                accepted <= total - pending@.len(),
                rejected@ == faults(batch.take(total - pending@.len())),
                one_zoom(self@.held),
                self@.held.tiles.dom().finite(),
                self@.held.zoom matches Some(z) ==> z <= MAX_ZOOM,
                sound_tiles(batch.take(total - pending@.len())).len() == 0 ==> self@.held == start,
                forall|c: TileCoord| #[trigger]
                    self@.held.tiles.dom().contains(c) ==> sound_model(c, self@.held.tiles[c]),
            decreases pending@.len(),
        {
            let ghost done = total - pending@.len();
            let t: SubmittedTile = pending.remove(0);
            proof {
                assert(t == batch[done]);
                assert(batch.take(done + 1).drop_last() =~= batch.take(done));
                assert(batch.take(done + 1).last() == t);
                assert(pending@ =~= batch.skip(done + 1));
            }
            match validate_tile(&t) {
                Some(fault) => {
                    rejected.push((t.coord, fault));
                },
                None => {
                    let ghost held = self@.held;
                    proof {
                        lemma_sound(t);
                        let upto = sound_tiles(batch.take(done));
                        assert(upto.push(t).drop_last() =~= upto);
                        assert(put_all(start, upto.push(t)) == put(put_all(start, upto), t));
                    }
                    if self.zoom != Some(t.coord.z) {
                        self.tiles = Vec::new();
                        self.zoom = Some(t.coord.z);
                        assert(tile_map(self.tiles@) =~= Map::<TileCoord, TileModel>::empty());
                    }
                    let tile = ResidentTile {
                        coord: t.coord,
                        heights: t.heights,
                        approximate: t.approximate,
                    };
                    place_tile(&mut self.tiles, tile);
                    proof {
                        assert(self@.held.tiles =~= put(held, t).tiles);
                        lemma_tile_map(self.tiles@);
                    }
                    accepted = accepted + 1;
                },
            }
        }
        proof {
            assert(batch.take(total as int) =~= batch);
            lemma_tile_map(self.tiles@);
        }
        let ghost full = self@.held;
        let evicted: usize = match self.zoom {
            Some(z) => {
                let centre: TilePoint = vehicle_at[z as usize];
                let limit: usize = self.max_resident;
                evict_to_bound(&mut self.tiles, Some(z), centre, limit)
            },
            None => {
                proof {
                    assert(full == start) by {
                        lemma_zoom_of_puts(start, sound_tiles(batch));
                    }
                }
                0
            },
        };
        proof {
            lemma_tile_map(self.tiles@);
        }
        InsertReport { accepted, rejected, evicted }
    }

    /// Coordinates the physics wants around the vehicle but does not hold:
    /// the square ring of `radius` tiles, row by row. `vehicle_at[z]` is the
    /// tile the vehicle is over at zoom `z`.
    ///
    /// Before any tile has arrived there is no zoom to ask at, so nothing is
    /// asked for; an empty answer is also the steady state.
    pub fn missing_around_vehicle(&self, radius: u32, vehicle_at: &Vec<TilePoint>) -> (missing: Vec<
        TileCoord,
    >)
        requires
            self.wf(),
            vehicle_at@.len() == ZOOM_LEVELS,
        ensures
            self@.held.zoom is None || !self@.has_origin ==> missing@.len() == 0,
            self@.has_origin ==> (self@.held.zoom matches Some(z) ==> missing@ == ring_missing(
                self@.held,
                vehicle_at@[z as int],
                radius as int,
                z,
                ring_size(radius as int),
            )),
    {
        let mut missing: Vec<TileCoord> = Vec::new();
        let z: u32 = match self.zoom {
            Some(z) => z,
            None => {
                return missing;
            },
        };
        if !self.has_origin {
            return missing;
        }
        let centre: TilePoint = vehicle_at[z as usize];
        let r: i64 = radius as i64;
        let side: i64 = 2 * r + 1;
        let mut row: i64 = 0;
        assert(ring_size(radius as int) == side * side);
        while row < side
            invariant
                r == radius,
                side == 2 * r + 1,
                0 <= row <= side,
                distinct_coords(self.tiles@),
                missing@ == ring_missing(self@.held, centre, r as int, z, row * side),
            decreases side - row,
        {
            let mut column: i64 = 0;
            assert(row * side + 0 == row * side);
            while column < side
                invariant
                    r == radius,
                    side == 2 * r + 1,
                    0 <= row < side,
                    0 <= column <= side,
                    distinct_coords(self.tiles@),
                    missing@ == ring_missing(self@.held, centre, r as int, z, row * side + column),
                decreases side - column,
            {
                let coord = TileCoord {
                    x: offset_axis(centre.x, column - r),
                    y: offset_axis(centre.y, row - r),
                    z,
                };
                proof {
                    let k = row * side + column;
                    assert(k >= 0) by (nonlinear_arith)
                        requires
                            k == row * side + column,
                            row >= 0,
                            side > 0,
                            column >= 0,
                    ;
                    vstd::arithmetic::div_mod::lemma_fundamental_div_mod_converse(
                        k,
                        side as int,
                        row as int,
                        column as int,
                    );
                    assert(coord == ring_coord(centre, k % (side as int) - r, k / (side as int) - r, z));
                }
                match find_tile(&self.tiles, coord) {
                    Some(_) => {},
                    None => {
                        missing.push(coord);
                    },
                }
                column = column + 1;
            }
            assert((row + 1) * side == row * side + side) by (nonlinear_arith);
            row = row + 1;
        }
        missing
    }

    /// Whether any resident tile came from the free global fallback.
    pub fn any_approximate(&self) -> (r: bool)
        requires
            self.wf(),
        ensures
            r <==> some_approximate(self@.held),
    {
        proof {
            lemma_tile_map(self.tiles@);
        }
        let mut i: usize = 0;
        while i < self.tiles.len()
            invariant
                i <= self.tiles@.len(),
                self.wf(),
                forall|k: int| 0 <= k < i ==> !(#[trigger] self.tiles@[k]).approximate,
                forall|k: int|
                    #![trigger self.tiles@[k]]
                    0 <= k < self.tiles@.len() ==> tile_map(self.tiles@).dom().contains(
                        self.tiles@[k].coord,
                    ) && tile_map(self.tiles@)[self.tiles@[k].coord] == resident_model(
                        self.tiles@[k],
                    ),
            decreases self.tiles@.len() - i,
        {
            if self.tiles[i].approximate {
                assert(self@.held.tiles.dom().contains(self.tiles@[i as int].coord));
                return true;
            }
            i = i + 1;
        }
        proof {
            lemma_tile_map(self.tiles@);
            assert forall|c: TileCoord| #[trigger] self@.held.tiles.dom().contains(c) implies !(
            self@.held.tiles[c].approximate) by {
                assert(listed(self.tiles@, c));
                let k = choose|k: int|
                    0 <= k < self.tiles@.len() && #[trigger] self.tiles@[k].coord == c;
                assert(resident_model(self.tiles@[k]) == self@.held.tiles[c]);
            }
        }
        false
    }

    /// Number of resident tiles.
    pub fn resident_tiles(&self) -> (r: usize)
        requires
            self.wf(),
        ensures
            r == self@.held.tiles.dom().len(),
            r <= self@.max_resident,
    {
        proof {
            lemma_tile_map(self.tiles@);
        }
        self.tiles.len()
    }

    /// Whether any terrain is resident.
    pub fn is_loaded(&self) -> (r: bool)
        requires
            self.wf(),
        ensures
            r == (self@.held.zoom is Some && self@.held.tiles.dom().len() > 0),
    {
        proof {
            lemma_tile_map(self.tiles@);
        }
        self.zoom.is_some() && self.tiles.len() > 0
    }

    /// The zoom of the resident tiles.
    pub fn zoom(&self) -> (r: Option<u32>)
        ensures
            r == self@.held.zoom,
    {
        self.zoom
    }

    /// Latitude and longitude of the origin, once one has been set.
    pub fn origin(&self) -> (r: Option<(Real64, Real64)>)
        ensures
            r == if self@.has_origin {
                Some((self@.origin_lat, self@.origin_lon))
            } else {
                None
            },
    {
        if self.has_origin {
            Some((self.origin_lat, self.origin_lon))
        } else {
            None
        }
    }

    /// Where the vehicle was last reported, north and east of the origin.
    pub fn vehicle_ned(&self) -> (r: (Real64, Real64))
        ensures
            r == (self@.vehicle_north, self@.vehicle_east),
    {
        (self.vehicle_north, self.vehicle_east)
    }

    /// MSL elevation at the origin, as set by [`TerrainCache::set_origin`].
    pub fn origin_elevation_msl(&self) -> (r: Option<Real64>)
        ensures
            r == self@.origin_elevation,
    {
        self.origin_elevation
    }

    /// Whether a vertical datum has been set. Ground contact needs one: without
    /// it no ground height is known however many tiles are resident, which is
    /// a wholly different fault from being off the edge of coverage.
    pub fn has_datum(&self) -> (r: bool)
        ensures
            r == (self@.origin_elevation is Some),
    {
        self.origin_elevation.is_some()
    }

    /// The coordinates of the resident tiles, each once.
    pub fn resident_coords(&self) -> (r: Vec<TileCoord>)
        requires
            self.wf(),
        ensures
            r@.no_duplicates(),
            forall|c: TileCoord|
                #![trigger r@.contains(c)]
                r@.contains(c) <==> self@.held.tiles.dom().contains(c),
    {
        let mut coords: Vec<TileCoord> = Vec::new();
        let mut i: usize = 0;
        while i < self.tiles.len()
            invariant
                i <= self.tiles@.len(),
                coords@.len() == i,
                forall|k: int| 0 <= k < i ==> #[trigger] coords@[k] == self.tiles@[k].coord,
            decreases self.tiles@.len() - i,
        {
            coords.push(self.tiles[i].coord);
            i = i + 1;
        }
        proof {
            lemma_tile_map(self.tiles@);
            assert forall|c: TileCoord|
                #![trigger coords@.contains(c)]
                coords@.contains(c) <==> self@.held.tiles.dom().contains(c) by {
                if coords@.contains(c) {
                    let k = choose|k: int| 0 <= k < coords@.len() && coords@[k] == c;
                    assert(self.tiles@[k].coord == c);
                }
                if self@.held.tiles.dom().contains(c) {
                    assert(listed(self.tiles@, c));
                    let k = choose|k: int|
                        0 <= k < self.tiles@.len() && #[trigger] self.tiles@[k].coord == c;
                    assert(coords@[k] == c);
                }
            }
            assert forall|a: int, b: int|
                0 <= a < coords@.len() && 0 <= b < coords@.len() && a != b implies coords@[a]
                != coords@[b] by {
                assert(coords@[a] == self.tiles@[a].coord && coords@[b] == self.tiles@[b].coord);
                if a < b {
                    assert(self.tiles@[a].coord != self.tiles@[b].coord);
                } else {
                    assert(self.tiles@[b].coord != self.tiles@[a].coord);
                }
            }
        }
        coords
    }

    /// The four samples to blend at column `x0`, row `y0` of a tile; the far
    /// samples stop at the tile's edge. `None` means the height is unknown,
    /// which is not the same as flat: no datum has been set, or no tile covers
    /// the point.
    pub fn ground_posts(&self, coord: TileCoord, x0: usize, y0: usize) -> (r: Option<TilePosts>)
        requires
            self.wf(),
            x0 < TILE_SIZE,
            y0 < TILE_SIZE,
        ensures
            r == if self@.origin_elevation is Some && self@.held.tiles.dom().contains(coord) {
                Some(posts_at(self@.held.tiles[coord].heights, x0 as int, y0 as int))
            } else {
                None
            },
    {
        if self.origin_elevation.is_none() {
            return None;
        }
        match find_tile(&self.tiles, coord) {
            None => None,
            Some(i) => {
                proof {
                    lemma_tile_map(self.tiles@);
                    assert(self@.held.tiles[coord] == resident_model(self.tiles@[i as int]));
                }
                let heights: &Vec<Real32> = &self.tiles[i].heights;
                let x1: usize = if x0 + 1 < TILE_SIZE {
                    x0 + 1
                } else {
                    TILE_SIZE - 1
                };
                let y1: usize = if y0 + 1 < TILE_SIZE {
                    y0 + 1
                } else {
                    TILE_SIZE - 1
                };
                Some(
                    TilePosts {
                        nw: heights[y0 * TILE_SIZE + x0],
                        ne: heights[y0 * TILE_SIZE + x1],
                        sw: heights[y1 * TILE_SIZE + x0],
                        se: heights[y1 * TILE_SIZE + x1],
                    },
                )
            },
        }
    }
}

impl Default for TerrainCache {
    fn default() -> (r: Self)
        ensures
            r.wf(),
            r@ == empty_state(DEFAULT_MAX_RESIDENT_TILES as nat),
    {
        TerrainCache::new()
    }
}

/// The sample of column `x`, row `y`.
pub open spec fn sample(heights: Seq<Real32>, x: int, y: int) -> Real32 {
    heights[y * 256 + x]
}

/// The four samples around column `x`, row `y`, kept inside the tile.
pub open spec fn posts_at(heights: Seq<Real32>, x: int, y: int) -> TilePosts {
    let x1 = if x + 1 < 256 { x + 1 } else { 255 };
    let y1 = if y + 1 < 256 { y + 1 } else { 255 };
    TilePosts {
        nw: sample(heights, x, y),
        ne: sample(heights, x1, y),
        sw: sample(heights, x, y1),
        se: sample(heights, x1, y1),
    }
}

/// Coordinates in a ring of radius `r`.
pub open spec fn ring_size(r: int) -> int {
    (2 * r + 1) * (2 * r + 1)
}

/// An offset column or row, kept from leaving the grid at zero.
fn offset_axis(at: u32, offset: i64) -> (r: u32)
    requires
        -0x1_0000_0000 <= offset <= 0x1_0000_0000,
    ensures
        r == ring_axis(at, offset as int),
{
    let v: i64 = at as i64 + offset;
    if v < 0 {
        0
    } else {
        (v % 0x1_0000_0000) as u32
    }
}

/// How a slope is taken from what is known on either side of a point.
pub fn slope_rule(positive_known: bool, negative_known: bool) -> (r: SlopeRule)
    ensures
        slope_by(positive_known, negative_known, r),
{
    if positive_known {
        if negative_known {
            SlopeRule::Central
        } else {
            SlopeRule::Forward
        }
    } else if negative_known {
        SlopeRule::Backward
    } else {
        SlopeRule::Level
    }
}

/// The tile path `z/x/y`.
pub open spec fn coord_text(c: TileCoord) -> Seq<char> {
    text::decimal(c.z as nat) + "/"@ + text::decimal(c.x as nat) + "/"@
        + text::decimal(c.y as nat)
}

/// Append the tile path `z/x/y`.
pub fn push_coord(out: &mut String, c: TileCoord)
    ensures
        final(out)@ == old(out)@ + coord_text(c),
{
    push_decimal(out, c.z as u64);
    out.append("/");
    push_decimal(out, c.x as u64);
    out.append("/");
    push_decimal(out, c.y as u64);
}

/// What a sender is told about a refused tile. `number` renders the distance
/// or the sample the rejection carries, `limit` the distance limit.
pub open spec fn rejection_text(
    r: TileRejection,
    number: Seq<char>,
    limit: Seq<char>,
) -> Seq<char> {
    match r {
        TileRejection::UnsupportedTileSize { declared, supported } => "tile_size "@
            + text::decimal(declared as nat) + " is not the supported "@
            + text::decimal(supported as nat),
        TileRejection::WrongSampleCount { got, expected } => text::decimal(got as nat)
            + " samples, expected "@ + text::decimal(expected as nat),
        TileRejection::CoordOutOfRange { coord } => "coord "@ + coord_text(coord)
            + " is out of range for its zoom"@,
        TileRejection::TooFarFromOrigin { .. } => number + " m from the origin, limit "@
            + limit + " m"@,
        TileRejection::ImplausibleElevation { index, .. } => "sample "@ + text::decimal(
            index as nat,
        ) + " is "@ + number + ", not a real elevation"@,
        TileRejection::NoOrigin => "no flight origin has been set"@,
    }
}

impl TileRejection {
    /// What a sender is told. `number` renders the distance or the sample the
    /// rejection carries, `limit` the distance limit.
    pub fn text(&self, number: &str, limit: &str) -> (r: String)
        ensures
            r@ == rejection_text(*self, number@, limit@),
    {
        let mut out: String = String::new();
        match *self {
            TileRejection::UnsupportedTileSize { declared, supported } => {
                out.append("tile_size ");
                push_decimal(&mut out, declared as u64);
                out.append(" is not the supported ");
                push_decimal(&mut out, supported as u64);
            },
            TileRejection::WrongSampleCount { got, expected } => {
                push_decimal(&mut out, got as u64);
                out.append(" samples, expected ");
                push_decimal(&mut out, expected as u64);
            },
            TileRejection::CoordOutOfRange { coord } => {
                out.append("coord ");
                push_coord(&mut out, coord);
                out.append(" is out of range for its zoom");
            },
            TileRejection::TooFarFromOrigin { metres: _, limit: _ } => {
                out.append(number);
                out.append(" m from the origin, limit ");
                out.append(limit);
                out.append(" m");
            },
            TileRejection::ImplausibleElevation { index, value: _ } => {
                out.append("sample ");
                push_decimal(&mut out, index as u64);
                out.append(" is ");
                out.append(number);
                out.append(", not a real elevation");
            },
            TileRejection::NoOrigin => {
                out.append("no flight origin has been set");
            },
        }
        proof {
            assert(out@ =~= rejection_text(*self, number@, limit@));
        }
        out
    }
}

/// Every submitted tile is either taken in or named among the refused.
pub proof fn law_every_tile_is_accounted_for(batch: Seq<SubmittedTile>)
    ensures
        sound_tiles(batch).len() + faults(batch).len() == batch.len(),
    decreases batch.len(),
{
    if batch.len() > 0 {
        law_every_tile_is_accounted_for(batch.drop_last());
    }
}

/// Cutting down a set that is within the bound changes nothing.
pub proof fn lemma_trim_within_bound(before: Held, after: Held, centre: TilePoint, limit: nat)
    requires
        trimmed(before, after, centre, limit),
        before.tiles.dom().len() <= limit,
    ensures
        after == before,
{
    assert(after.tiles.dom().subset_of(before.tiles.dom()));
    vstd::set_lib::lemma_subset_equality(after.tiles.dom(), before.tiles.dom());
    assert(after.tiles =~= before.tiles);
}

/// A batch in which every tile is at fault leaves the accepted terrain as it
/// was.
pub proof fn law_rejected_tiles_leave_terrain_untouched(
    state: TerrainState,
    batch: Seq<SubmittedTile>,
    after: Held,
    centre: TilePoint,
)
    requires
        terrain_invariant(state),
        forall|i: int| 0 <= i < batch.len() ==> tile_fault(#[trigger] batch[i]) is Some,
        trimmed(put_all(state.held, sound_tiles(batch)), after, centre, state.max_resident),
    ensures
        sound_tiles(batch).len() == 0,
        after == state.held,
{
    lemma_all_faulty(batch);
    lemma_trim_within_bound(state.held, after, centre, state.max_resident);
}

proof fn lemma_all_faulty(batch: Seq<SubmittedTile>)
    requires
        forall|i: int| 0 <= i < batch.len() ==> tile_fault(#[trigger] batch[i]) is Some,
    ensures
        sound_tiles(batch).len() == 0,
    decreases batch.len(),
{
    if batch.len() > 0 {
        let rest = batch.drop_last();
        assert(tile_fault(batch[batch.len() - 1]) is Some);
        assert forall|i: int| 0 <= i < rest.len() implies tile_fault(#[trigger] rest[i]) is Some by {
            assert(rest[i] == batch[i]);
        }
        lemma_all_faulty(rest);
    }
}

/// Nothing is asked for that is held, and nothing of the ring that is not held
/// goes unasked.
pub proof fn law_missing_is_the_ring_less_the_held(
    held: Held,
    centre: TilePoint,
    r: int,
    z: u32,
    c: TileCoord,
    n: int,
)
    requires
        r >= 0,
        0 <= n,
    ensures
        ring_missing(held, centre, r, z, n).contains(c) <==> !held.tiles.dom().contains(c) && exists|
            k: int,
        |
            0 <= k < n && c == #[trigger] ring_coord(
                centre,
                k % (2 * r + 1) - r,
                k / (2 * r + 1) - r,
                z,
            ),
    decreases n,
{
    let side = 2 * r + 1;
    if n > 0 {
        law_missing_is_the_ring_less_the_held(held, centre, r, z, c, n - 1);
        let last = ring_coord(centre, (n - 1) % side - r, (n - 1) / side - r, z);
        let rest = ring_missing(held, centre, r, z, n - 1);
        let all = ring_missing(held, centre, r, z, n);
        if all.contains(c) {
            let i = choose|i: int| 0 <= i < all.len() && all[i] == c;
            if i < rest.len() {
                assert(rest[i] == c);
                assert(rest.contains(c));
            } else {
                assert(c == last);
            }
        }
        if !held.tiles.dom().contains(c) {
            if c == last {
                assert(all[all.len() - 1] == c);
            } else if exists|k: int|
                0 <= k < n && c == #[trigger] ring_coord(centre, k % side - r, k / side - r, z) {
                let k = choose|k: int|
                    0 <= k < n && c == #[trigger] ring_coord(centre, k % side - r, k / side - r, z);
                assert(k < n - 1);
                assert(rest.contains(c));
                let i = choose|i: int| 0 <= i < rest.len() && rest[i] == c;
                assert(all[i] == c);
            }
        }
    }
}

/// The furthest an origin may move and still be the same place.
pub open spec fn jitter_limit() -> Real64 {
    Real64 { bits: ORIGIN_JITTER_M }
}

/// The cache anchored to an origin, `moved_m` metres from the one before.
pub open spec fn anchored(
    s: TerrainState,
    lat: Real64,
    lon: Real64,
    elevation_msl: Option<Real64>,
    moved_m: Real64,
) -> TerrainState {
    TerrainState {
        held: if s.has_origin && jitter_limit().lt(moved_m) {
            Held { zoom: None, tiles: Map::empty() }
        } else {
            s.held
        },
        has_origin: true,
        origin_lat: lat,
        origin_lon: lon,
        origin_elevation: elevation_msl,
        max_resident: s.max_resident,
        vehicle_north: zero64(),
        vehicle_east: zero64(),
    }
}

/// A cache that holds nothing and is anchored nowhere.
pub open spec fn empty_state(max_resident: nat) -> TerrainState {
    TerrainState {
        held: Held { zoom: None, tiles: Map::empty() },
        has_origin: false,
        origin_lat: zero64(),
        origin_lon: zero64(),
        origin_elevation: None,
        max_resident,
        vehicle_north: zero64(),
        vehicle_east: zero64(),
    }
}

proof fn lemma_first_implausible(h: Seq<Real32>, from: int)
    requires
        0 <= from <= h.len(),
        first_implausible(h, from) >= h.len(),
    ensures
        forall|i: int| from <= i < h.len() ==> plausible(#[trigger] h[i]),
    decreases h.len() - from,
{
    if from < h.len() {
        lemma_first_implausible(h, from + 1);
    }
}

proof fn lemma_sound(t: SubmittedTile)
    requires
        tile_fault(t) is None,
    ensures
        sound_model(t.coord, submitted_model(t)),
{
    lemma_first_implausible(t.heights@, 0);
}

proof fn lemma_zoom_of_puts(held: Held, batch: Seq<SubmittedTile>)
    ensures
        batch.len() > 0 ==> put_all(held, batch).zoom is Some,
        batch.len() == 0 ==> put_all(held, batch) == held,
{
}

/// Of two tiles that there was room to choose between, the one that stays is no
/// further from the vehicle than the one that goes, as the crow flies.
pub proof fn law_eviction_keeps_the_nearer_tile(
    before: Held,
    after: Held,
    centre: TilePoint,
    limit: nat,
    kept: TileCoord,
    gone: TileCoord,
)
    requires
        trimmed(before, after, centre, limit),
        after.tiles.dom().contains(kept),
        before.tiles.dom().contains(gone),
        !after.tiles.dom().contains(gone),
    ensures
        (kept.x - centre.x) * (kept.x - centre.x) + (kept.y - centre.y) * (kept.y - centre.y) <= (
        gone.x - centre.x) * (gone.x - centre.x) + (gone.y - centre.y) * (gone.y - centre.y),
{
}

/// A tile that lies no further from the vehicle in either direction is never
/// dropped for the sake of one that lies further in both.
pub proof fn law_no_tile_is_dropped_for_one_further_out(
    before: Held,
    after: Held,
    centre: TilePoint,
    limit: nat,
    near: TileCoord,
    far: TileCoord,
)
    requires
        trimmed(before, after, centre, limit),
        before.tiles.dom().contains(near),
        after.tiles.dom().contains(far),
        -(far.x - centre.x) < near.x - centre.x < far.x - centre.x || far.x - centre.x < near.x
            - centre.x < -(far.x - centre.x),
        -(far.y - centre.y) <= near.y - centre.y <= far.y - centre.y || far.y - centre.y <= near.y
            - centre.y <= -(far.y - centre.y),
    ensures
        after.tiles.dom().contains(near),
{
    let nx = near.x - centre.x;
    let ny = near.y - centre.y;
    let fx = far.x - centre.x;
    let fy = far.y - centre.y;
    assert(nx * nx < fx * fx) by (nonlinear_arith)
        requires
            -fx < nx < fx || fx < nx < -fx,
    ;
    assert(ny * ny <= fy * fy) by (nonlinear_arith)
        requires
            -fy <= ny <= fy || fy <= ny <= -fy,
    ;
}

/// Eviction goes no further than it must: the bound is reached exactly, and
/// what stays is unchanged.
pub proof fn law_eviction_stops_at_the_bound(
    before: Held,
    after: Held,
    centre: TilePoint,
    limit: nat,
    c: TileCoord,
)
    requires
        trimmed(before, after, centre, limit),
    ensures
        after.tiles.dom().len() <= limit,
        before.tiles.dom().len() >= limit ==> after.tiles.dom().len() == limit,
        before.tiles.dom().len() <= limit ==> after.tiles == before.tiles,
        after.tiles.dom().contains(c) ==> before.tiles.dom().contains(c) && after.tiles[c]
            == before.tiles[c],
{
    if before.tiles.dom().len() <= limit {
        lemma_trim_within_bound(before, after, centre, limit);
    }
}

/// A tile is refused exactly when it holds another number of samples, does not
/// exist at its zoom, lies more than 200 km from the origin, or holds a sample
/// that is no elevation between 12 km below the sea and 12 km above it.
pub proof fn law_what_makes_a_tile_sound(t: SubmittedTile)
    ensures
        tile_fault(t) is None <==> {
            &&& t.heights@.len() == 65536
            &&& t.coord.z <= 24
            &&& t.coord.x < pow2(t.coord.z as nat)
            &&& t.coord.y < pow2(t.coord.z as nat)
            &&& !(Real64 { bits: 0x4108_6a00_0000_0000 }).lt(t.metres)
            &&& forall|i: int|
                #![trigger t.heights@[i]]
                0 <= i < 65536 ==> t.heights@[i].finite() && (Real32 { bits: 0xc63b_8000 }).le(
                    t.heights@[i],
                ) && t.heights@[i].le(Real32 { bits: 0x463b_8000 })
        },
{
    let h = t.heights@;
    if h.len() == 65536 {
        lemma_first_implausible_is_first(h, 0);
    }
}

/// A fault names the first sample that is no elevation: all before it are.
pub proof fn law_the_first_bad_sample_is_named(t: SubmittedTile, i: int)
    requires
        tile_fault(t) matches Some(TileRejection::ImplausibleElevation { .. }),
        0 <= i < t.heights@.len(),
    ensures
        tile_fault(t) matches Some(TileRejection::ImplausibleElevation { index, value }) && {
            &&& index < t.heights@.len()
            &&& value == t.heights@[index as int]
            &&& !plausible(value)
            &&& i < index ==> plausible(t.heights@[i])
        },
{
    lemma_first_implausible_is_first(t.heights@, 0);
}

proof fn lemma_first_implausible_is_first(h: Seq<Real32>, from: int)
    requires
        0 <= from <= h.len(),
    ensures
        from <= first_implausible(h, from) <= h.len(),
        first_implausible(h, from) < h.len() ==> !plausible(h[first_implausible(h, from)]),
        forall|i: int|
            #![trigger h[i]]
            from <= i < first_implausible(h, from) ==> plausible(h[i]),
    decreases h.len() - from,
{
    if from < h.len() && plausible(h[from]) {
        lemma_first_implausible_is_first(h, from + 1);
    }
}

/// Whether a tile could be resident after a batch: it was submitted sound, or
/// was held before, and no sound tile of another zoom comes after it.
pub open spec fn offered(held: Held, batch: Seq<SubmittedTile>, c: TileCoord) -> bool {
    ||| held.tiles.dom().contains(c) && forall|j: int|
        0 <= j < batch.len() && tile_fault(#[trigger] batch[j]) is None ==> batch[j].coord.z == c.z
    ||| exists|i: int| #[trigger] offered_at(batch, c, i)
}

/// Whether a tile could be resident after a batch because it is submitted there.
pub open spec fn offered_at(batch: Seq<SubmittedTile>, c: TileCoord, i: int) -> bool {
    &&& 0 <= i < batch.len()
    &&& tile_fault(batch[i]) is None
    &&& batch[i].coord == c
    &&& forall|j: int|
        i < j < batch.len() && tile_fault(#[trigger] batch[j]) is None ==> batch[j].coord.z == c.z
}

proof fn lemma_offered_is_put(held: Held, batch: Seq<SubmittedTile>, c: TileCoord)
    requires
        one_zoom(held),
    ensures
        put_all(held, sound_tiles(batch)).tiles.dom().contains(c) <==> offered(held, batch, c),
        one_zoom(put_all(held, sound_tiles(batch))),
    decreases batch.len(),
{
    if batch.len() > 0 {
        let rest = batch.drop_last();
        let last = batch.last();
        lemma_offered_is_put(held, rest, c);
        assert(forall|j: int| 0 <= j < rest.len() ==> rest[j] == batch[j]);
        let earlier = put_all(held, sound_tiles(rest));
        if tile_fault(last) is None {
            let sound = sound_tiles(rest).push(last);
            assert(sound.drop_last() =~= sound_tiles(rest));
            assert(put_all(held, sound) == put(earlier, last));
            let n = batch.len() - 1;
            if last.coord == c {
                assert(offered_at(batch, c, n));
            } else {
                assert(!offered_at(batch, c, n));
                assert forall|i: int| i != n && last.coord.z == c.z implies offered_at(batch, c, i)
                    == offered_at(rest, c, i) by {
                    if offered_at(batch, c, i) {
                        assert forall|j: int| i < j < rest.len() && tile_fault(#[trigger] rest[j]) is None implies rest[j].coord.z == c.z by {
                            assert(batch[j] == rest[j]);
                        }
                    }
                }
                if last.coord.z == c.z {
                    if offered(held, batch, c) {
                        if exists|i: int| offered_at(batch, c, i) {
                            let i = choose|i: int| offered_at(batch, c, i);
                            assert(offered_at(rest, c, i));
                        } else {
                            assert forall|j: int| 0 <= j < rest.len() && tile_fault(#[trigger] rest[j]) is None implies rest[j].coord.z == c.z by {
                                assert(batch[j] == rest[j]);
                            }
                        }
                        assert(offered(held, rest, c));
                    }
                    if offered(held, rest, c) {
                        if exists|i: int| offered_at(rest, c, i) {
                            let i = choose|i: int| offered_at(rest, c, i);
                            assert(offered_at(batch, c, i));
                        }
                        assert(offered(held, batch, c));
                    }
                } else {
                    assert(batch[n] == last);
                    assert(!offered(held, batch, c));
                }
            }
        } else {
            let n = batch.len() - 1;
            assert(!offered_at(batch, c, n));
            assert forall|i: int| offered_at(batch, c, i) == offered_at(rest, c, i) by {
                if offered_at(batch, c, i) {
                    assert forall|j: int| i < j < rest.len() && tile_fault(#[trigger] rest[j]) is None implies rest[j].coord.z == c.z by {
                        assert(batch[j] == rest[j]);
                    }
                }
            }
            if offered(held, batch, c) && !(exists|i: int| offered_at(batch, c, i)) {
                assert forall|j: int| 0 <= j < rest.len() && tile_fault(#[trigger] rest[j]) is None implies rest[j].coord.z == c.z by {
                    assert(batch[j] == rest[j]);
                }
            }
            if exists|i: int| offered_at(batch, c, i) {
                let i = choose|i: int| offered_at(batch, c, i);
                assert(offered_at(rest, c, i));
            }
            if exists|i: int| offered_at(rest, c, i) {
                let i = choose|i: int| offered_at(rest, c, i);
                assert(offered_at(batch, c, i));
            }
        }
    } else {
        assert(sound_tiles(batch) =~= Seq::empty());
    }
}

/// Taking tiles in keeps the ones nearest to the vehicle, of those that were
/// held and those that came: no tile that could have stayed is nearer than one
/// that stays, and nothing stays that was neither held nor sent.
pub proof fn law_taking_tiles_in_keeps_the_nearest(
    before: TerrainState,
    after: TerrainState,
    tiles: Seq<SubmittedTile>,
    vehicle_at: Seq<TilePoint>,
    report: InsertReport,
    kept: TileCoord,
    gone: TileCoord,
)
    requires
        terrain_invariant(before),
        before.has_origin,
        inserted(before, after, 256, tiles, vehicle_at, report),
        after.held.tiles.dom().contains(kept),
        offered(before.held, tiles, gone),
        !after.held.tiles.dom().contains(gone),
    ensures
        offered(before.held, tiles, kept),
        kept.z == gone.z,
        ({
            let c = vehicle_at[gone.z as int];
            (kept.x - c.x) * (kept.x - c.x) + (kept.y - c.y) * (kept.y - c.y) <= (gone.x - c.x) * (
            gone.x - c.x) + (gone.y - c.y) * (gone.y - c.y)
        }),
{
    lemma_offered_is_put(before.held, tiles, kept);
    lemma_offered_is_put(before.held, tiles, gone);
    let full = put_all(before.held, sound_tiles(tiles));
    assert(full.tiles.dom().contains(gone));
    assert(full.zoom == Some(gone.z));
}

/// A tile that was sent is held as it was last sent, sample by sample.
pub proof fn law_a_tile_is_held_as_it_was_last_sent(
    held: Held,
    batch: Seq<SubmittedTile>,
    i: int,
)
    requires
        0 <= i < batch.len(),
        tile_fault(batch[i]) is None,
        forall|j: int|
            i < j < batch.len() && tile_fault(#[trigger] batch[j]) is None ==> batch[j].coord.z
                == batch[i].coord.z && batch[j].coord != batch[i].coord,
    ensures
        ({
            let full = put_all(held, sound_tiles(batch));
            &&& full.zoom == Some(batch[i].coord.z)
            &&& full.tiles.dom().contains(batch[i].coord)
            &&& full.tiles[batch[i].coord].heights == batch[i].heights@
            &&& full.tiles[batch[i].coord].approximate == batch[i].approximate
        }),
    decreases batch.len(),
{
    let rest = batch.drop_last();
    let last = batch.last();
    let n = batch.len() - 1;
    assert(forall|j: int| 0 <= j < rest.len() ==> rest[j] == batch[j]);
    if tile_fault(last) is None {
        let sound = sound_tiles(rest).push(last);
        assert(sound.drop_last() =~= sound_tiles(rest));
        assert(put_all(held, sound) == put(put_all(held, sound_tiles(rest)), last));
    }
    if i < n {
        assert forall|j: int|
            i < j < rest.len() && tile_fault(#[trigger] rest[j]) is None implies rest[j].coord.z
            == rest[i].coord.z && rest[j].coord != rest[i].coord by {
            assert(batch[j] == rest[j]);
        }
        law_a_tile_is_held_as_it_was_last_sent(held, rest, i);
        assert(batch[n] == last);
    }
}

/// A tile that nobody sent again stays as it was.
pub proof fn law_a_tile_that_was_not_sent_again_is_unchanged(
    held: Held,
    batch: Seq<SubmittedTile>,
    c: TileCoord,
)
    requires
        one_zoom(held),
        held.tiles.dom().contains(c),
        forall|j: int|
            0 <= j < batch.len() && tile_fault(#[trigger] batch[j]) is None ==> batch[j].coord.z
                == c.z && batch[j].coord != c,
    ensures
        put_all(held, sound_tiles(batch)).zoom == Some(c.z),
        put_all(held, sound_tiles(batch)).tiles.dom().contains(c),
        put_all(held, sound_tiles(batch)).tiles[c] == held.tiles[c],
    decreases batch.len(),
{
    if batch.len() > 0 {
        let rest = batch.drop_last();
        let last = batch.last();
        assert(batch[batch.len() - 1] == last);
        assert forall|j: int|
            0 <= j < rest.len() && tile_fault(#[trigger] rest[j]) is None implies rest[j].coord.z
            == c.z && rest[j].coord != c by {
            assert(batch[j] == rest[j]);
        }
        law_a_tile_that_was_not_sent_again_is_unchanged(held, rest, c);
        if tile_fault(last) is None {
            let sound = sound_tiles(rest).push(last);
            assert(sound.drop_last() =~= sound_tiles(rest));
            assert(put_all(held, sound) == put(put_all(held, sound_tiles(rest)), last));
        }
    }
}

/// Every refused tile is reported under its own coordinate with its own fault,
/// and in the order sent; no sound tile is reported.
pub proof fn law_each_refusal_is_reported_in_order(batch: Seq<SubmittedTile>, t: SubmittedTile)
    ensures
        tile_fault(t) matches Some(fault) ==> faults(batch.push(t)) == faults(batch).push(
            (t.coord, fault),
        ),
        tile_fault(t) is None ==> faults(batch.push(t)) == faults(batch),
        tile_fault(t) is None ==> sound_tiles(batch.push(t)) == sound_tiles(batch).push(t),
        tile_fault(t) is Some ==> sound_tiles(batch.push(t)) == sound_tiles(batch),
        faults(Seq::empty()).len() == 0,
        sound_tiles(Seq::empty()).len() == 0,
{
    assert(batch.push(t).drop_last() =~= batch);
}

/// An origin that moves by more than a metre leaves the terrain behind; the
/// first one, and one within a metre, keeps it. Either way the vehicle starts
/// again from the origin, and the bound stays.
pub proof fn law_moving_the_origin_discards_the_terrain(
    s: TerrainState,
    lat: Real64,
    lon: Real64,
    elevation_msl: Option<Real64>,
    moved_m: Real64,
    c: TileCoord,
)
    ensures
        ({
            let after = anchored(s, lat, lon, elevation_msl, moved_m);
            let far = s.has_origin && (Real64 { bits: 0x3ff0_0000_0000_0000 }).lt(moved_m);
            &&& far ==> after.held.zoom is None && !after.held.tiles.dom().contains(c)
            &&& !far ==> after.held == s.held
            &&& after.has_origin
            &&& after.origin_lat == lat
            &&& after.origin_lon == lon
            &&& after.origin_elevation == elevation_msl
            &&& after.max_resident == s.max_resident
            &&& after.vehicle_north.bits == 0
            &&& after.vehicle_east.bits == 0
        }),
{
}

/// The four samples around a point of a tile stand in its row and in the next,
/// in its column and in the next; at the edge of the tile its last row and
/// column stand in for those beyond.
pub proof fn law_the_posts_around_a_point(heights: Seq<Real32>, x: int, y: int)
    requires
        heights.len() == 65536,
        0 <= x < 256,
        0 <= y < 256,
    ensures
        posts_at(heights, x, y).nw == heights[256 * y + x],
        x < 255 ==> posts_at(heights, x, y).ne == heights[256 * y + x + 1],
        y < 255 ==> posts_at(heights, x, y).sw == heights[256 * (y + 1) + x],
        x < 255 && y < 255 ==> posts_at(heights, x, y).se == heights[256 * (y + 1) + x + 1],
        x == 255 ==> posts_at(heights, x, y).ne == posts_at(heights, x, y).nw,
        x == 255 ==> posts_at(heights, x, y).se == posts_at(heights, x, y).sw,
        y == 255 ==> posts_at(heights, x, y).sw == posts_at(heights, x, y).nw,
        y == 255 ==> posts_at(heights, x, y).se == posts_at(heights, x, y).ne,
{
}

/// What is asked for around a vehicle is the square of tiles that reaches
/// `r` tiles in each direction, less what is held.
pub proof fn law_what_is_asked_for_around_the_vehicle(
    held: Held,
    centre: TilePoint,
    r: int,
    z: u32,
    c: TileCoord,
)
    requires
        r >= 0,
        r <= centre.x,
        r <= centre.y,
        centre.x + r < 0x1_0000_0000,
        centre.y + r < 0x1_0000_0000,
    ensures
        ring_missing(held, centre, r, z, ring_size(r)).contains(c) <==> {
            &&& c.z == z
            &&& centre.x - r <= c.x <= centre.x + r
            &&& centre.y - r <= c.y <= centre.y + r
            &&& !held.tiles.dom().contains(c)
        },
{
    let side = 2 * r + 1;
    let n = side * side;
    assert(n >= 0) by (nonlinear_arith)
        requires
            n == side * side,
    ;
    law_missing_is_the_ring_less_the_held(held, centre, r, z, c, n);
    assert forall|k: int| 0 <= k < n implies {
        let at = #[trigger] ring_coord(centre, k % side - r, k / side - r, z);
        &&& at.x == centre.x + k % side - r
        &&& at.y == centre.y + k / side - r
        &&& at.z == z
        &&& 0 <= k % side < side
        &&& 0 <= k / side < side
    } by {
        vstd::arithmetic::div_mod::lemma_fundamental_div_mod(k, side);
        vstd::arithmetic::div_mod::lemma_mod_bound(k, side);
        assert(0 <= k / side < side) by (nonlinear_arith)
            requires
                k == side * (k / side) + k % side,
                0 <= k % side < side,
                0 <= k < side * side,
        ;
    }
    if c.z == z && centre.x - r <= c.x <= centre.x + r && centre.y - r <= c.y <= centre.y + r {
        let column = c.x - centre.x + r;
        let row = c.y - centre.y + r;
        let k = row * side + column;
        assert(0 <= k < n) by (nonlinear_arith)
            requires
                k == row * side + column,
                0 <= row < side,
                0 <= column < side,
                n == side * side,
        ;
        vstd::arithmetic::div_mod::lemma_fundamental_div_mod_converse(k, side, row, column);
        assert(ring_coord(centre, k % side - r, k / side - r, z) == c);
    }
}

/// The tiles of the square are asked for from the north-west, row by row.
pub proof fn law_the_square_is_asked_for_row_by_row(
    held: Held,
    centre: TilePoint,
    r: int,
    z: u32,
    row: int,
    column: int,
)
    requires
        0 <= row < 2 * r + 1,
        0 <= column < 2 * r + 1,
        r <= centre.x,
        r <= centre.y,
        centre.x + r < 0x1_0000_0000,
        centre.y + r < 0x1_0000_0000,
        !held.tiles.dom().contains(
            TileCoord {
                x: (centre.x - r + column) as u32,
                y: (centre.y - r + row) as u32,
                z,
            },
        ),
    ensures
        ({
            let n = row * (2 * r + 1) + column;
            ring_missing(held, centre, r, z, n + 1) == ring_missing(held, centre, r, z, n).push(
                TileCoord {
                    x: (centre.x - r + column) as u32,
                    y: (centre.y - r + row) as u32,
                    z,
                },
            )
        }),
{
    let side = 2 * r + 1;
    let k = row * side + column;
    assert(0 <= k) by (nonlinear_arith)
        requires
            k == row * side + column,
            0 <= row,
            0 <= side,
            0 <= column,
    ;
    vstd::arithmetic::div_mod::lemma_fundamental_div_mod_converse(k, side, row, column);
}

/// A frame of another tile size, and one before there is an origin, takes
/// nothing in and drops nothing; every tile of it is named.
pub proof fn law_a_frame_that_cannot_be_placed_changes_nothing(
    before: TerrainState,
    after: TerrainState,
    tile_size: u32,
    tiles: Seq<SubmittedTile>,
    vehicle_at: Seq<TilePoint>,
    report: InsertReport,
    i: int,
)
    requires
        inserted(before, after, tile_size, tiles, vehicle_at, report),
        tile_size != 256 || !before.has_origin,
        0 <= i < tiles.len(),
    ensures
        after == before,
        report.accepted == 0,
        report.evicted == 0,
        report.rejected@.len() == tiles.len(),
        report.rejected@[i].0 == tiles[i].coord,
        tile_size != 256 ==> report.rejected@[i].1 == (TileRejection::UnsupportedTileSize {
            declared: tile_size,
            supported: 256,
        }),
        tile_size == 256 ==> report.rejected@[i].1 == TileRejection::NoOrigin,
{
}

/// Every tile that can be placed is counted, once: as taken in or as refused.
pub proof fn law_what_an_insertion_reports(
    before: TerrainState,
    after: TerrainState,
    tiles: Seq<SubmittedTile>,
    vehicle_at: Seq<TilePoint>,
    report: InsertReport,
)
    requires
        before.has_origin,
        inserted(before, after, 256, tiles, vehicle_at, report),
    ensures
        report.accepted + report.rejected@.len() == tiles.len(),
        report.accepted == sound_tiles(tiles).len(),
        after.has_origin,
        after.origin_lat == before.origin_lat,
        after.origin_lon == before.origin_lon,
        after.origin_elevation == before.origin_elevation,
        after.max_resident == before.max_resident,
{
    law_every_tile_is_accounted_for(tiles);
}

/// Whether a slope is taken by this rule.
pub open spec fn slope_by(positive_known: bool, negative_known: bool, r: SlopeRule) -> bool {
    &&& r is Central <==> positive_known && negative_known
    &&& r is Forward <==> positive_known && !negative_known
    &&& r is Backward <==> !positive_known && negative_known
    &&& r is Level <==> !positive_known && !negative_known
}

/// Whether any tile held is from the free global fallback.
pub open spec fn some_approximate(h: Held) -> bool {
    exists|c: TileCoord|
        #![trigger h.tiles.dom().contains(c)]
        h.tiles.dom().contains(c) && h.tiles[c].approximate
}

/// A slope uses every side that is known and no other; seen from the other
/// direction, forward and backward change places.
pub proof fn law_a_slope_uses_what_is_known(p: bool, n: bool, r: SlopeRule, mirrored: SlopeRule)
    requires
        slope_by(p, n, r),
        slope_by(n, p, mirrored),
    ensures
        r is Central || r is Forward <==> p,
        r is Central || r is Backward <==> n,
        r is Forward <==> mirrored is Backward,
        r is Central <==> mirrored is Central,
{
}

/// One approximate tile makes the terrain approximate; exact tiles alone do
/// not.
pub proof fn law_when_terrain_is_approximate(h: Held, c: TileCoord)
    ensures
        h.tiles.dom().contains(c) && h.tiles[c].approximate ==> some_approximate(h),
        (forall|k: TileCoord| #[trigger] h.tiles.dom().contains(k) ==> !h.tiles[k].approximate)
            ==> !some_approximate(h),
{
}

/// A tile is named by its zoom, its column and its row, in this order.
pub proof fn law_how_a_tile_is_named(c: TileCoord)
    ensures
        ({
            let name = coord_text(c);
            let a = text::decimal(c.z as nat).len() as int;
            let b = a + 1 + text::decimal(c.x as nat).len();
            &&& text::decimal_value(name.take(a)) == c.z
            &&& name[a] == '/'
            &&& text::decimal_value(name.subrange(a + 1, b)) == c.x
            &&& name[b] == '/'
            &&& text::decimal_value(name.skip(b + 1)) == c.y
        }),
{
    reveal_strlit("/");
    let name = coord_text(c);
    let a = text::decimal(c.z as nat).len() as int;
    let b = a + 1 + text::decimal(c.x as nat).len();
    assert(name.take(a) =~= text::decimal(c.z as nat));
    assert(name.subrange(a + 1, b) =~= text::decimal(c.x as nat));
    assert(name.skip(b + 1) =~= text::decimal(c.y as nat));
    text::law_a_number_in_decimal_reads_back(c.z as nat, 0);
    text::law_a_number_in_decimal_reads_back(c.x as nat, 0);
    text::law_a_number_in_decimal_reads_back(c.y as nat, 0);
}

/// A refusal says what is wrong, with the numbers that show it.
pub proof fn law_what_a_refusal_says(r: TileRejection, number: Seq<char>, limit: Seq<char>)
    ensures
        r matches TileRejection::UnsupportedTileSize { declared, supported } ==> rejection_text(
            r,
            number,
            limit,
        ) == "tile_size "@ + text::decimal(declared as nat) + " is not the supported "@
            + text::decimal(supported as nat),
        r matches TileRejection::WrongSampleCount { got, expected } ==> rejection_text(
            r,
            number,
            limit,
        ) == text::decimal(got as nat) + " samples, expected "@ + text::decimal(expected as nat),
        r matches TileRejection::CoordOutOfRange { coord } ==> rejection_text(r, number, limit)
            == "coord "@ + coord_text(coord) + " is out of range for its zoom"@,
        r is TooFarFromOrigin ==> rejection_text(r, number, limit) == number
            + " m from the origin, limit "@ + limit + " m"@,
        r matches TileRejection::ImplausibleElevation { index, .. } ==> rejection_text(
            r,
            number,
            limit,
        ) == "sample "@ + text::decimal(index as nat) + " is "@ + number
            + ", not a real elevation"@,
        r is NoOrigin ==> rejection_text(r, number, limit) == "no flight origin has been set"@,
{
}

/// Where the grid ends at zero the square is cut off there; elsewhere a column
/// or row is as far from the middle as its offset says.
pub proof fn law_the_square_is_cut_off_at_the_edge(at: u32, offset: int)
    ensures
        at + offset <= 0 ==> ring_axis(at, offset) == 0,
        0 <= at + offset <= u32::MAX ==> ring_axis(at, offset) == at + offset,
{
}

/// An empty cache holds no tile, has no zoom, no origin and no datum, and keeps
/// to its bound.
pub proof fn law_how_a_cache_begins(max_resident: nat, c: TileCoord)
    ensures
        ({
            let s = empty_state(max_resident);
            &&& !s.held.tiles.dom().contains(c)
            &&& s.held.zoom is None
            &&& !s.has_origin
            &&& s.origin_elevation is None
            &&& s.max_resident == max_resident
            &&& s.vehicle_north.bits == 0
            &&& s.vehicle_east.bits == 0
        }),
{
}

} // verus!
