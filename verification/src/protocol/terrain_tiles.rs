//! Decoded elevation tiles pushed by the browser, and the tiles asked of it.
//!
//! A tile frame is
//!
//! - `[0]`: tag
//! - `[1-4]`: header length `n` (u32 LE)
//! - `[5-5+n]`: header, JSON
//! - the tiles one after another, each `tile_size^2` f32 LE, row-major from the
//!   tile's north-west corner; either right after the header, or at the next
//!   four-byte boundary, which lets a browser copy the samples in one move
//!
//! The two placements are told apart by length: the padding is 0 to 3 bytes,
//! so at most one of them leaves exactly the bytes the tiles need. The padding
//! bytes are not inspected.
use crate::bytes;
use crate::bytes::{push_bytes, push_u32, read_u32};
use crate::ieee::Real32;
use crate::protocol::config::FlightLocation;
use crate::protocol::state_update;
use crate::protocol::tags::{
    invalid_payload, CommandType, ProtocolError, MSG_TYPE_TERRAIN_NEED, MSG_TYPE_TERRAIN_TILES,
};
use crate::text;
use crate::text::push_decimal;
use vstd::prelude::*;

verus! {

/// Largest tile frame accepted, 16 MiB. The resident bound is far below that,
/// so anything approaching it is already wrong.
pub const MAX_FRAME_BYTES: usize = 16777216;

/// A slippy tile coordinate, as carried on the wire.
#[derive(Clone, Copy, Debug, PartialEq, Eq, Hash, Structural)]
pub struct WireTileCoord {
    /// Column.
    pub x: u32,
    /// Row.
    pub y: u32,
    /// Zoom.
    pub z: u32,
}

/// Tiles the physics needs around the vehicle but does not hold.
///
/// Reconciliation, not a request: unmet needs are simply re-sent, which makes
/// the exchange self-healing across dropped frames and reloads. The steady
/// state is an empty list, which is not sent at all.
#[derive(Clone, Debug)]
pub struct TerrainNeed {
    /// The missing tiles.
    pub coords: Vec<WireTileCoord>,
}

impl TerrainNeed {
    /// The frame of this list, whose JSON rendering is `json`.
    pub fn to_bytes(&self, json: &[u8]) -> (r: Vec<u8>)
        ensures
            r@ == need_bytes(json@),
    {
        crate::protocol::config::frame_json(MSG_TYPE_TERRAIN_NEED, json)
    }
}

/// Header of a tile frame, describing the payloads that follow it.
#[derive(Clone, Debug)]
pub struct TerrainTilesHeader {
    /// Origin these tiles are anchored to. A frame anchored to an origin the
    /// daemon has since left is rejected rather than mixed with the current
    /// one.
    pub origin: FlightLocation,
    /// Samples per tile edge.
    pub tile_size: u32,
    /// The tiles, in payload order.
    pub coords: Vec<WireTileCoord>,
    /// Whether each tile came from a non-authoritative source; empty when none
    /// did.
    pub approximate: Vec<bool>,
}

/// Decoded elevation tiles.
#[derive(Clone, Debug)]
pub struct TerrainTiles {
    /// What they are.
    pub header: TerrainTilesHeader,
    /// One entry per coordinate, each `tile_size^2` MSL metres.
    pub tiles: Vec<Vec<Real32>>,
}

/// Offset of the payload in a frame of `len` bytes whose header ends at
/// `header_end` and whose tiles take `expected` bytes.
pub open spec fn payload_start(len: int, header_end: int, expected: int) -> Option<int> {
    let padded = padded_offset(header_end);
    if len - header_end == expected {
        Some(header_end)
    } else if len - padded == expected {
        Some(padded)
    } else {
        None
    }
}

/// The next four-byte boundary at or after an offset.
pub open spec fn padded_offset(at: int) -> int {
    at + (4 - at % 4) % 4
}

/// Samples of a tile.
pub open spec fn samples_of(h: TerrainTilesHeader) -> int {
    h.tile_size * h.tile_size
}

/// Bytes the tiles of a header take.
pub open spec fn payload_len(h: TerrainTilesHeader) -> int {
    h.coords@.len() * (4 * samples_of(h))
}

/// What keeps a header and the frame length from fitting together.
pub ghost enum TilesFault {
    ZeroTileSize,
    TileSizeOverflows,
    FlagCount,
    PayloadOverflows,
    PayloadLength,
}

/// The fault of a tile frame, `None` when it is well formed.
pub open spec fn tiles_fault(h: TerrainTilesHeader, len: int, header_end: int) -> Option<
    TilesFault,
> {
    if h.tile_size == 0 {
        Some(TilesFault::ZeroTileSize)
    } else if 4 * samples_of(h) > usize::MAX {
        Some(TilesFault::TileSizeOverflows)
    } else if h.approximate@.len() != 0 && h.approximate@.len() != h.coords@.len() {
        Some(TilesFault::FlagCount)
    } else if payload_len(h) > usize::MAX {
        Some(TilesFault::PayloadOverflows)
    } else if payload_start(len, header_end, payload_len(h)) is None {
        Some(TilesFault::PayloadLength)
    } else {
        None
    }
}

/// What the sender is told about a fault.
pub open spec fn fault_text(f: TilesFault, h: TerrainTilesHeader, len: int, header_end: int) -> Seq<
    char,
> {
    match f {
        TilesFault::ZeroTileSize => "TerrainTiles: tile_size must be non-zero"@,
        TilesFault::TileSizeOverflows => "TerrainTiles: tile_size overflows"@,
        TilesFault::FlagCount => "TerrainTiles: "@ + text::decimal(h.approximate@.len())
            + " approximate flags for "@ + text::decimal(h.coords@.len()) + " coords"@,
        TilesFault::PayloadOverflows => "TerrainTiles: payload size overflows"@,
        TilesFault::PayloadLength => "TerrainTiles: "@ + text::decimal((len - header_end) as nat)
            + " payload bytes for "@ + text::decimal(h.coords@.len()) + " tiles of "@
            + text::decimal(h.tile_size as nat) + "x"@ + text::decimal(h.tile_size as nat)
            + " (expected "@ + text::decimal(payload_len(h) as nat) + " at offset "@
            + text::decimal(header_end as nat) + " unpadded, or "@ + text::decimal(
            padded_offset(header_end) as nat,
        ) + " padded to the 4-byte boundary)"@,
    }
}

/// Whether `r` is an invalid payload with this reason.
pub open spec fn refused_with<T>(r: Result<T, ProtocolError>, reason: Seq<char>) -> bool {
    r matches Err(ProtocolError::InvalidPayload { command_type, reason: why }) && command_type
        == CommandType::Arm && why@ == reason
}

/// The tiles a payload holds.
pub open spec fn tiles_at(d: Seq<u8>, at: int, samples: int, tiles: Seq<Vec<Real32>>) -> bool {
    forall|i: int|
        0 <= i < tiles.len() ==> (#[trigger] tiles[i])@ == state_update::reals_at(
            d,
            at + i * (4 * samples),
            samples as nat,
        )
}

/// The header a frame announces, by its end offset.
pub open spec fn announced_header_end(d: Seq<u8>) -> int {
    5 + bytes::u32_at(d, 1)
}

impl TerrainTiles {
    /// Where the header of a frame ends; it starts at offset 5.
    pub fn header_end(data: &[u8]) -> (r: Result<usize, ProtocolError>)
        ensures
            data@.len() > MAX_FRAME_BYTES ==> refused_with(
                r,
                "TerrainTiles: frame of "@ + text::decimal(data@.len()) + " bytes exceeds the "@
                    + text::decimal(MAX_FRAME_BYTES as nat) + " byte limit"@,
            ),
            data@.len() < 5 ==> r == Err::<usize, ProtocolError>(
                ProtocolError::MessageTooShort { expected: 5, actual: data@.len() as usize },
            ),
            5 <= data@.len() <= MAX_FRAME_BYTES && data@[0] != MSG_TYPE_TERRAIN_TILES ==> r == Err::<
                usize,
                ProtocolError,
            >(ProtocolError::UnknownMessageType(data@[0])),
            5 <= data@.len() <= MAX_FRAME_BYTES && data@[0] == MSG_TYPE_TERRAIN_TILES ==> {
                let end = announced_header_end(data@);
                if end > usize::MAX {
                    refused_with(r, "TerrainTiles: header length overflows"@)
                } else if data@.len() < end {
                    r == Err::<usize, ProtocolError>(
                        ProtocolError::MessageTooShort {
                            expected: end as usize,
                            actual: data@.len() as usize,
                        },
                    )
                } else {
                    r == Ok::<usize, ProtocolError>(end as usize)
                }
            },
    {
        if data.len() > MAX_FRAME_BYTES {
            let mut reason: String = String::new();
            reason.append("TerrainTiles: frame of ");
            push_decimal(&mut reason, data.len() as u64);
            reason.append(" bytes exceeds the ");
            push_decimal(&mut reason, MAX_FRAME_BYTES as u64);
            reason.append(" byte limit");
            assert(reason@ =~= "TerrainTiles: frame of "@ + text::decimal(data@.len())
                + " bytes exceeds the "@ + text::decimal(MAX_FRAME_BYTES as nat) + " byte limit"@);
            return Err(invalid_payload(reason.as_str()));
        }
        if data.len() < 5 {
            return Err(ProtocolError::MessageTooShort { expected: 5, actual: data.len() });
        }
        if data[0] != MSG_TYPE_TERRAIN_TILES {
            return Err(ProtocolError::UnknownMessageType(data[0]));
        }
        let header_len: usize = read_u32(data, 1) as usize;
        let end: usize = match 5usize.checked_add(header_len) {
            Some(end) => end,
            None => {
                return Err(invalid_payload("TerrainTiles: header length overflows"));
            },
        };
        if data.len() < end {
            return Err(ProtocolError::MessageTooShort { expected: end, actual: data.len() });
        }
        Ok(end)
    }

    /// The tiles of a frame whose header, ending at `header_end`, reads as
    /// `header`.
    #[verifier::rlimit(50)]
    pub fn from_parts(header: TerrainTilesHeader, data: &[u8], header_end: usize) -> (r: Result<
        TerrainTiles,
        ProtocolError,
    >)
        requires
            5 <= header_end <= data@.len() <= MAX_FRAME_BYTES,
        ensures
            match tiles_fault(header, data@.len() as int, header_end as int) {
                Some(f) => refused_with(
                    r,
                    fault_text(f, header, data@.len() as int, header_end as int),
                ),
                None => r matches Ok(t) && t.header == header && t.tiles@.len()
                    == header.coords@.len() && tiles_at(
                    data@,
                    payload_start(data@.len() as int, header_end as int, payload_len(header))->0,
                    samples_of(header),
                    t.tiles@,
                ),
            },
    {
        let len: usize = data.len();
        let tile_size: usize = header.tile_size as usize;
        if tile_size == 0 {
            return Err(invalid_payload("TerrainTiles: tile_size must be non-zero"));
        }
        let samples: usize = match tile_size.checked_mul(tile_size) {
            Some(n) => n,
            None => {
                return Err(invalid_payload("TerrainTiles: tile_size overflows"));
            },
        };
        let bytes_per_tile: usize = match samples.checked_mul(4) {
            Some(n) => n,
            None => {
                return Err(invalid_payload("TerrainTiles: tile_size overflows"));
            },
        };
        let tile_count: usize = header.coords.len();
        let flag_count: usize = header.approximate.len();
        if flag_count != 0 && flag_count != tile_count {
            let mut reason: String = String::new();
            reason.append("TerrainTiles: ");
            push_decimal(&mut reason, flag_count as u64);
            reason.append(" approximate flags for ");
            push_decimal(&mut reason, tile_count as u64);
            reason.append(" coords");
            assert(reason@ =~= fault_text(
                TilesFault::FlagCount,
                header,
                len as int,
                header_end as int,
            ));
            return Err(invalid_payload(reason.as_str()));
        }
        let expected: usize = match tile_count.checked_mul(bytes_per_tile) {
            Some(n) => n,
            None => {
                return Err(invalid_payload("TerrainTiles: payload size overflows"));
            },
        };
        assert(expected == payload_len(header));
        let padded: usize = header_end + (4 - header_end % 4) % 4;
        let start: usize = if len - header_end == expected {
            header_end
        } else if len >= padded && len - padded == expected {
            padded
        } else {
            let mut reason: String = String::new();
            reason.append("TerrainTiles: ");
            push_decimal(&mut reason, (len - header_end) as u64);
            reason.append(" payload bytes for ");
            push_decimal(&mut reason, tile_count as u64);
            reason.append(" tiles of ");
            push_decimal(&mut reason, tile_size as u64);
            reason.append("x");
            push_decimal(&mut reason, tile_size as u64);
            reason.append(" (expected ");
            push_decimal(&mut reason, expected as u64);
            reason.append(" at offset ");
            push_decimal(&mut reason, header_end as u64);
            reason.append(" unpadded, or ");
            push_decimal(&mut reason, padded as u64);
            reason.append(" padded to the 4-byte boundary)");
            assert(reason@ =~= fault_text(
                TilesFault::PayloadLength,
                header,
                len as int,
                header_end as int,
            ));
            return Err(invalid_payload(reason.as_str()));
        };
        let mut tiles: Vec<Vec<Real32>> = Vec::new();
        let mut at: usize = start;
        let mut i: usize = 0;
        while i < tile_count
            invariant
                len == data@.len(),
                i <= tile_count,
                bytes_per_tile == 4 * samples,
                at == start + i * (4 * samples),
                len == start + tile_count * (4 * samples),
                tiles@.len() == i,
                tiles_at(data@, start as int, samples as int, tiles@),
            decreases tile_count - i,
        {
            assert(at + bytes_per_tile <= len) by (nonlinear_arith)
                requires
                    bytes_per_tile == 4 * samples,
                    at == start + i * (4 * samples),
                    len == start + tile_count * (4 * samples),
                    i + 1 <= tile_count,
            ;
            let tile: Vec<Real32> = read_samples(data, at, samples);
            tiles.push(tile);
            assert((i + 1) * (4 * samples) == i * (4 * samples) + 4 * samples) by (nonlinear_arith);
            at = at + bytes_per_tile;
            i = i + 1;
        }
        Ok(TerrainTiles { header, tiles })
    }

    /// The frame of these tiles, whose header in JSON is `header_json`.
    pub fn to_bytes(&self, header_json: &[u8]) -> (r: Vec<u8>)
        requires
            header_json@.len() <= u32::MAX,
        ensures
            r@ == tiles_bytes(header_json@, Seq::empty(), self.tiles@),
    {
        let mut out: Vec<u8> = Vec::new();
        out.push(MSG_TYPE_TERRAIN_TILES);
        assert(out@ =~= seq![MSG_TYPE_TERRAIN_TILES]);
        push_u32(&mut out, header_json.len() as u32);
        push_bytes(&mut out, header_json);
        let ghost head = out@;
        assert(head =~= head + Seq::<u8>::empty());
        let mut i: usize = 0;
        assert(self.tiles@.take(0) =~= Seq::<Vec<Real32>>::empty());
        assert(head =~= head + all_samples(self.tiles@.take(0)));
        while i < self.tiles.len()
            invariant
                i <= self.tiles@.len(),
                out@ == head + all_samples(self.tiles@.take(i as int)),
            decreases self.tiles@.len() - i,
        {
            let tile: &Vec<Real32> = &self.tiles[i];
            let ghost before = out@;
            let mut k: usize = 0;
            assert(tile@.take(0) =~= Seq::<Real32>::empty());
            assert(before =~= before + state_update::reals_le(tile@.take(0)));
            while k < tile.len()
                invariant
                    k <= tile@.len(),
                    out@ == before + state_update::reals_le(tile@.take(k as int)),
                decreases tile@.len() - k,
            {
                push_u32(&mut out, tile[k].bits);
                k = k + 1;
                proof {
                    assert(tile@.take(k as int).drop_last() =~= tile@.take(k - 1));
                    assert(out@ =~= before + state_update::reals_le(tile@.take(k as int)));
                }
            }
            i = i + 1;
            proof {
                assert(tile@.take(k as int) =~= tile@);
                assert(self.tiles@.take(i as int).drop_last() =~= self.tiles@.take(i - 1));
                assert(out@ =~= head + all_samples(self.tiles@.take(i as int)));
            }
        }
        assert(self.tiles@.take(i as int) =~= self.tiles@);
        out
    }
}

/// The samples of all tiles, one after another.
pub open spec fn all_samples(tiles: Seq<Vec<Real32>>) -> Seq<u8>
    decreases tiles.len(),
{
    if tiles.len() == 0 {
        Seq::empty()
    } else {
        all_samples(tiles.drop_last()) + state_update::reals_le(tiles.last()@)
    }
}

/// A tile frame: header, filler, tiles.
pub open spec fn tiles_bytes(header_json: Seq<u8>, filler: Seq<u8>, tiles: Seq<Vec<Real32>>) -> Seq<
    u8,
> {
    seq![MSG_TYPE_TERRAIN_TILES] + bytes::u32_le(header_json.len() as u32) + header_json + filler
        + all_samples(tiles)
}

fn read_samples(data: &[u8], at: usize, samples: usize) -> (r: Vec<Real32>)
    requires
        at + 4 * samples <= data@.len(),
    ensures
        r@ == state_update::reals_at(data@, at as int, samples as nat),
{
    let len: usize = data.len();
    let mut out: Vec<Real32> = Vec::new();
    let mut k: usize = 0;
    while k < samples
        invariant
            len == data@.len(),
            at + 4 * samples <= len,
            k <= samples,
            out@ == state_update::reals_at(data@, at as int, k as nat),
        decreases samples - k,
    {
        out.push(Real32::from_bits(read_u32(data, at + 4 * k)));
        k = k + 1;
        assert(out@ =~= state_update::reals_at(data@, at as int, k as nat));
    }
    out
}

/// Whether the tiles fit the header.
pub open spec fn tiles_fit(h: TerrainTilesHeader, tiles: Seq<Vec<Real32>>) -> bool {
    &&& tiles.len() == h.coords@.len()
    &&& h.tile_size > 0
    &&& h.approximate@.len() == 0 || h.approximate@.len() == tiles.len()
    &&& 4 * samples_of(h) <= usize::MAX
    &&& payload_len(h) <= usize::MAX
    &&& forall|i: int| 0 <= i < tiles.len() ==> (#[trigger] tiles[i])@.len() == samples_of(h)
}

proof fn lemma_all_samples(d: Seq<u8>, at: int, n: int, tiles: Seq<Vec<Real32>>)
    requires
        n >= 0,
        forall|i: int| 0 <= i < tiles.len() ==> (#[trigger] tiles[i])@.len() == n,
        bytes::stands_at(d, at, all_samples(tiles)),
    ensures
        all_samples(tiles).len() == tiles.len() * (4 * n),
        tiles_at(d, at, n, tiles),
    decreases tiles.len(),
{
    if tiles.len() > 0 {
        let rest = tiles.drop_last();
        let last = tiles.last()@;
        let all = all_samples(tiles);
        let front = all_samples(rest);
        assert(tiles[tiles.len() - 1]@.len() == n);
        assert forall|i: int| 0 <= i < rest.len() implies (#[trigger] rest[i])@.len() == n by {
            assert(rest[i] == tiles[i]);
        }
        assert(d.subrange(at, at + front.len() as int) =~= all.subrange(0, front.len() as int));
        assert(all.subrange(0, front.len() as int) =~= front);
        lemma_all_samples(d, at, n, rest);
        state_update::lemma_reals_len(last);
        assert(tiles.len() * (4 * n) == rest.len() * (4 * n) + 4 * n) by (nonlinear_arith)
            requires
                tiles.len() == rest.len() + 1,
        ;
        let here = at + front.len();
        assert(d.subrange(here, here + 4 * n) =~= all.subrange(
            front.len() as int,
            front.len() as int + 4 * n,
        ));
        assert(all.subrange(front.len() as int, front.len() as int + 4 * n)
            =~= state_update::reals_le(last));
        state_update::lemma_reals_read_back(d, here, last);
        assert forall|i: int| 0 <= i < tiles.len() implies (#[trigger] tiles[i])@
            == state_update::reals_at(d, at + i * (4 * n), n as nat) by {
            if i < rest.len() {
                assert(rest[i] == tiles[i]);
            }
        }
    } else {
        assert(tiles.len() * (4 * n) == 0) by (nonlinear_arith)
            requires
                tiles.len() == 0,
        ;
    }
}

/// Tiles that were serialized read back unchanged, whether the payload follows
/// the header directly or starts at the next four-byte boundary.
pub proof fn law_terrain_tiles_round_trip(
    header: TerrainTilesHeader,
    header_json: Seq<u8>,
    filler: Seq<u8>,
    tiles: Seq<Vec<Real32>>,
)
    requires
        header_json.len() <= u32::MAX,
        tiles_fit(header, tiles),
        filler.len() == 0 || filler.len() == padded_offset(5 + header_json.len() as int) - (5
            + header_json.len()),
    ensures
        ({
            let d = tiles_bytes(header_json, filler, tiles);
            let end = 5 + header_json.len() as int;
            &&& announced_header_end(d) == end
            &&& d.subrange(5, end) == header_json
            &&& tiles_fault(header, d.len() as int, end) is None
            &&& payload_start(d.len() as int, end, payload_len(header)) == Some(
                end + filler.len() as int,
            )
            &&& tiles_at(d, end + filler.len() as int, samples_of(header), tiles)
        }),
{
    let d = tiles_bytes(header_json, filler, tiles);
    let end = 5 + header_json.len() as int;
    let at = end + filler.len() as int;
    let n = samples_of(header);
    assert(n >= 0) by (nonlinear_arith)
        requires
            n == header.tile_size * header.tile_size,
    ;
    assert(d.subrange(1, 5) =~= bytes::u32_le(header_json.len() as u32));
    bytes::lemma_u32_read_back(d, 1, header_json.len() as u32);
    assert(d.subrange(5, end) =~= header_json);
    assert(d.subrange(at, at + all_samples(tiles).len() as int) =~= all_samples(tiles));
    lemma_all_samples(d, at, n, tiles);
    assert(d.len() == at + payload_len(header));
}

/// A frame is never read at both placements: only one leaves the bytes the
/// tiles need.
pub proof fn law_payload_placement_is_unambiguous(len: int, header_end: int, expected: int)
    requires
        0 <= header_end <= len,
        padded_offset(header_end) != header_end,
    ensures
        !(len - header_end == expected && len - padded_offset(header_end) == expected),
{
}

/// A sample of a tile stands in its frame where its row of bytes says: the tiles
/// one after another, each sample in four bytes.
pub proof fn law_where_a_sample_stands(
    d: Seq<u8>,
    at: int,
    samples: int,
    tiles: Seq<Vec<Real32>>,
    i: int,
    k: int,
)
    requires
        tiles_at(d, at, samples, tiles),
        0 <= i < tiles.len(),
        0 <= k < samples,
    ensures
        tiles[i]@.len() == samples,
        tiles[i]@[k].bits == bytes::u32_at(d, at + 4 * (i * samples + k)),
{
    assert(at + i * (4 * samples) + 4 * k == at + 4 * (i * samples + k)) by (nonlinear_arith);
    assert(tiles[i]@ == state_update::reals_at(d, at + i * (4 * samples), samples as nat));
}

/// The tiles begin where the header ends, or at the next multiple of four, and
/// end with the frame; a frame that fits neither is refused.
pub proof fn law_where_the_tiles_begin(len: int, header_end: int, expected: int)
    requires
        header_end >= 0,
    ensures
        payload_start(len, header_end, expected) matches Some(at) ==> {
            &&& at + expected == len
            &&& header_end <= at < header_end + 4
            &&& at == header_end || at % 4 == 0
        },
        len == header_end + expected ==> payload_start(len, header_end, expected) == Some(
            header_end,
        ),
        payload_start(len, header_end, expected) is None ==> len != header_end + expected && forall|
            pad: int,
        |
            0 <= pad < 4 && #[trigger] ((header_end + pad) % 4) == 0 ==> len != header_end + pad
                + expected,
{
}

/// A frame is well formed exactly when its tiles have an edge, every tile has a
/// flag or none has, and the bytes behind the header are those of the tiles.
pub proof fn law_what_makes_a_frame_of_tiles_well_formed(
    h: TerrainTilesHeader,
    len: int,
    header_end: int,
)
    requires
        4 * (h.tile_size * h.tile_size) <= usize::MAX,
        h.coords@.len() * (4 * (h.tile_size * h.tile_size)) <= usize::MAX,
    ensures
        tiles_fault(h, len, header_end) is None <==> {
            &&& h.tile_size > 0
            &&& h.approximate@.len() == 0 || h.approximate@.len() == h.coords@.len()
            &&& payload_start(
                len,
                header_end,
                h.coords@.len() * (4 * (h.tile_size * h.tile_size)),
            ) is Some
        },
{
}

/// A frame of tiles goes out as it is read: tag, length of the header from the
/// lowest byte up, header, and the tiles behind it.
pub proof fn law_the_bytes_of_a_frame_of_tiles(header_json: Seq<u8>, tiles: Seq<Vec<Real32>>)
    requires
        header_json.len() <= u32::MAX,
    ensures
        ({
            let d = tiles_bytes(header_json, Seq::empty(), tiles);
            &&& d[0] == 0x18
            &&& d[1] + 0x100 * d[2] + 0x1_0000 * d[3] + 0x100_0000 * d[4] == header_json.len()
            &&& d.subrange(5, 5 + header_json.len() as int) == header_json
            &&& d.skip(5 + header_json.len() as int) == all_samples(tiles)
        }),
{
    let d = tiles_bytes(header_json, Seq::empty(), tiles);
    bytes::law_the_bytes_of_a_number_add_up(0, header_json.len() as u32, 0);
    assert(d.subrange(5, 5 + header_json.len() as int) =~= header_json);
    assert(d.skip(5 + header_json.len() as int) =~= all_samples(tiles));
}

/// The bytes of a list of missing tiles.
pub open spec fn need_bytes(json: Seq<u8>) -> Seq<u8> {
    seq![MSG_TYPE_TERRAIN_NEED] + json
}

/// A list of missing tiles goes out behind its tag.
pub proof fn law_the_bytes_of_a_list_of_missing_tiles(json: Seq<u8>)
    ensures
        need_bytes(json).len() == 1 + json.len(),
        need_bytes(json)[0] == 0x0f,
        need_bytes(json).skip(1) == json,
{
    assert(need_bytes(json).skip(1) =~= json);
}

} // verus!
