//! Terrain tiles from the browser.
//!
//! Tiles are never silently discarded: the physics would stay on flat ground
//! while the viewer draws hills.
use crate::ieee::{Real32, Real64};
use crate::protocol::terrain_tiles::TerrainTiles;
use crate::terrain;
use crate::terrain::{push_coord, InsertReport, SubmittedTile, TerrainCache, TileCoord, TilePoint};
use crate::text;
use crate::text::push_decimal;
use vstd::prelude::*;

verus! {

/// What a sender is told when there is no terrain to feed.
pub fn no_terrain_message() -> (r: String)
    ensures
        r@ == "Terrain ingress is not configured on this daemon"@,
{
    "Terrain ingress is not configured on this daemon".to_owned()
}

/// What a sender is told about a frame for an origin that the flight has left.
pub open spec fn stale_text() -> Seq<char> {
    "Terrain tiles are anchored to an origin this flight has left"@
}

/// Whether a tile is marked as coming from a non-authoritative source.
pub open spec fn marked_approximate(approximate: Seq<bool>, i: int) -> bool {
    0 <= i < approximate.len() && approximate[i]
}

/// Number of tiles of a frame: those with both a coordinate and samples.
pub open spec fn tile_count(frame: TerrainTiles) -> nat {
    if frame.header.coords@.len() <= frame.tiles@.len() {
        frame.header.coords@.len()
    } else {
        frame.tiles@.len()
    }
}

/// Whether these are the tiles of a frame, in order; `metres` holds how far
/// each is from the origin.
pub open spec fn submits(
    tiles: Seq<SubmittedTile>,
    frame: TerrainTiles,
    metres: Seq<Real64>,
) -> bool {
    &&& tiles.len() == tile_count(frame)
    &&& forall|i: int| #![trigger tiles[i]]
        0 <= i < tiles.len() ==> {
            &&& tiles[i].coord == TileCoord {
                x: frame.header.coords@[i].x,
                y: frame.header.coords@[i].y,
                z: frame.header.coords@[i].z,
            }
            &&& tiles[i].heights@ == frame.tiles@[i]@
            &&& tiles[i].approximate == marked_approximate(frame.header.approximate@, i)
            &&& tiles[i].metres == metres[i]
        }
}

/// The tiles of a frame; `metres` holds how far each is from the origin.
pub fn submitted_tiles(frame: TerrainTiles, metres: &Vec<Real64>) -> (r: Vec<SubmittedTile>)
    requires
        metres@.len() >= tile_count(frame),
    ensures
        submits(r@, frame, metres@),
{
    let header = frame.header;
    let mut samples: Vec<Vec<Real32>> = frame.tiles;
    let ghost all = samples@;
    let count: usize = if header.coords.len() <= samples.len() {
        header.coords.len()
    } else {
        samples.len()
    };
    let mut tiles: Vec<SubmittedTile> = Vec::new();
    let mut i: usize = 0;
    while i < count
        invariant
            i <= count,
            count == tile_count(frame),
            header == frame.header,
            all == frame.tiles@,
            samples@.len() == all.len(),
            count <= header.coords@.len(),
            count <= all.len(),
            metres@.len() >= count,
            forall|j: int| i <= j < all.len() ==> samples@[j] == all[j],
            tiles@.len() == i,
            forall|j: int| #![trigger tiles@[j]]
                0 <= j < i ==> {
                    &&& tiles@[j].coord == TileCoord {
                        x: header.coords@[j].x,
                        y: header.coords@[j].y,
                        z: header.coords@[j].z,
                    }
                    &&& tiles@[j].heights@ == all[j]@
                    &&& tiles@[j].approximate == marked_approximate(header.approximate@, j)
                    &&& tiles@[j].metres == metres@[j]
                },
        decreases count - i,
    {
        let mut heights: Vec<Real32> = Vec::new();
        std::mem::swap(&mut heights, &mut samples[i]);
        let approximate: bool = i < header.approximate.len() && header.approximate[i];
        tiles.push(
            SubmittedTile {
                coord: TileCoord {
                    x: header.coords[i].x,
                    y: header.coords[i].y,
                    z: header.coords[i].z,
                },
                heights,
                approximate,
                metres: metres[i],
            },
        );
        i = i + 1;
    }
    tiles
}

/// What came of a frame.
#[derive(Debug)]
pub enum Ingest {
    /// It is for an origin that the flight has left.
    Stale(String),
    /// It was inserted.
    Inserted(InsertReport),
}

/// Whether a frame is for an origin that the flight has left.
pub open spec fn stale(s: terrain::TerrainState, distance_m: Real64) -> bool {
    s.has_origin && terrain::jitter_limit().lt(distance_m)
}

/// Take in a frame whose origin lies `distance_m` from the flight's. A frame
/// for another origin is refused whole, before anything is inserted.
pub fn ingest(
    cache: &mut TerrainCache,
    frame: TerrainTiles,
    distance_m: Real64,
    metres: &Vec<Real64>,
    vehicle_at: &Vec<TilePoint>,
) -> (r: Ingest)
    requires
        old(cache).wf(),
        metres@.len() >= tile_count(frame),
        vehicle_at@.len() == terrain::ZOOM_LEVELS,
    ensures
        final(cache).wf(),
        stale(old(cache)@, distance_m) ==> (r matches Ingest::Stale(m) && m@ == stale_text())
            && final(cache)@ == old(cache)@,
        !stale(old(cache)@, distance_m) ==> (r matches Ingest::Inserted(report) && exists|
            tiles: Seq<SubmittedTile>,
        | #[trigger]
            submits(tiles, frame, metres@) && terrain::inserted(
                old(cache)@,
                final(cache)@,
                frame.header.tile_size,
                tiles,
                vehicle_at@,
                report,
            )),
{
    if cache.origin().is_some() && !cache.is_anchored_to(distance_m) {
        return Ingest::Stale(
            "Terrain tiles are anchored to an origin this flight has left".to_owned(),
        );
    }
    let tile_size: u32 = frame.header.tile_size;
    let tiles = submitted_tiles(frame, metres);
    Ingest::Inserted(cache.insert_tiles(tile_size, tiles, vehicle_at))
}

/// What a sender is told when nothing of a frame survived; `reason` renders the
/// first refusal.
pub open spec fn all_rejected_text(report: InsertReport, reason: Seq<char>) -> Seq<char> {
    "All "@ + text::decimal(report.rejected@.len()) + " terrain tiles rejected; first was "@
        + terrain::coord_text(report.rejected@[0].0) + ": "@ + reason
}

/// The answer to a frame: an error when nothing of it survived, so that a
/// browser that sends malformed tiles finds out. `reason` renders the first
/// refusal.
pub fn ingest_reply(report: &InsertReport, reason: &str) -> (r: Result<(), String>)
    ensures
        r is Err <==> report.accepted == 0 && report.rejected@.len() > 0,
        r matches Err(e) ==> e@ == all_rejected_text(*report, reason@),
{
    if report.accepted == 0 && report.rejected.len() > 0 {
        let mut out: String = "All ".to_owned();
        push_decimal(&mut out, report.rejected.len() as u64);
        out.append(" terrain tiles rejected; first was ");
        push_coord(&mut out, report.rejected[0].0);
        out.append(": ");
        out.append(reason);
        assert(out@ =~= all_rejected_text(*report, reason@));
        return Err(out);
    }
    Ok(())
}

/// A tile of a frame is submitted where its coordinate says, with its own
/// samples, its own mark and its own distance.
pub proof fn law_a_tile_is_submitted_as_it_came(
    tiles: Seq<SubmittedTile>,
    frame: TerrainTiles,
    metres: Seq<Real64>,
    i: int,
)
    requires
        submits(tiles, frame, metres),
        0 <= i < frame.header.coords@.len(),
        0 <= i < frame.tiles@.len(),
    ensures
        i < tiles.len(),
        tiles[i].coord.x == frame.header.coords@[i].x,
        tiles[i].coord.y == frame.header.coords@[i].y,
        tiles[i].coord.z == frame.header.coords@[i].z,
        tiles[i].heights@ == frame.tiles@[i]@,
        tiles[i].metres == metres[i],
        i < frame.header.approximate@.len() ==> tiles[i].approximate
            == frame.header.approximate@[i],
        i >= frame.header.approximate@.len() ==> !tiles[i].approximate,
        tiles.len() <= frame.header.coords@.len(),
        tiles.len() <= frame.tiles@.len(),
{
}

/// A frame is refused for its origin exactly when the flight has one that lies
/// more than a metre away.
pub proof fn law_when_a_frame_is_for_another_origin(s: terrain::TerrainState, distance_m: Real64)
    ensures
        stale(s, distance_m) <==> s.has_origin && (Real64 { bits: 0x3ff0_0000_0000_0000 }).lt(
            distance_m,
        ),
{
}

/// When no tile of a frame survives, the sender is told how many there were,
/// which was the first, and what was wrong with it.
pub proof fn law_what_is_told_when_nothing_survived(report: InsertReport, reason: Seq<char>)
    ensures
        all_rejected_text(report, reason) == "All "@ + text::decimal(report.rejected@.len())
            + " terrain tiles rejected; first was "@ + terrain::coord_text(report.rejected@[0].0)
            + ": "@ + reason,
{
}

} // verus!
