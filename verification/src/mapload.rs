//! Reading the vertexes, sectors, sidedefs, linedefs, segs, subsectors,
//! nodes, things and blockmap of a map from the bytes of its WAD lumps. Numbers in a lump are little-endian; heights and offsets are in
//! whole map units; flats and textures are named by eight bytes.

use vstd::prelude::*;

use crate::fixed::{FixedDiv, fixed_div_spec, fixed_t};
use crate::geom::{LineGeom, Vertex, fits_i32, node_t, slopetype_t};
use crate::level::{Line, ML_TWOSIDED, Sector, Side};
use crate::lumps::{R_FlatNumForName, R_TextureNumForName, flat_num, texture_num};
use crate::saveg::{from_units, units_to_fixed};

verus! {

/// Bytes in the record of one sector.
pub const MAPSECTOR_SIZE: usize = 26;

/// Bytes in the record of one sidedef.
pub const MAPSIDEDEF_SIZE: usize = 30;

/// The little-endian signed 16-bit number at byte `at`.
pub open spec fn le_i16(data: Seq<u8>, at: int) -> i16 {
    let u = data[at] as int + 256 * data[at + 1] as int;
    (if u >= 32768 {
        u - 65536
    } else {
        u
    }) as i16
}

/// The eight-byte name at byte `at`.
pub open spec fn name_at(data: Seq<u8>, at: int) -> Seq<u8> {
    data.subrange(at, at + 8)
}

/// The little-endian signed 16-bit number at byte `at`.
fn read_i16(data: &[u8], at: usize) -> (r: i16)
    requires
        at + 2 <= data@.len(),
    ensures
        r == le_i16(data@, at as int),
{
    let u: u32 = data[at] as u32 + 256 * (data[at + 1] as u32);
    if u >= 32768 {
        (u as i32 - 65536) as i16
    } else {
        u as i16
    }
}

/// The eight-byte name at byte `at`.
fn read_name(data: &[u8], at: usize) -> (r: [u8; 8])
    requires
        at + 8 <= data.len(),
    ensures
        r@ == name_at(data@, at as int),
{
    let mut r: [u8; 8] = [0; 8];
    let mut k: usize = 0;
    while k < 8
        invariant
            k <= 8,
            at + 8 <= data.len(),
            forall|j: int| 0 <= j < k ==> #[trigger] r@[j] == data@[at + j],
        decreases 8 - k,
    {
        r[k] = data[at + k];
        k += 1;
    }
    assert(r@ =~= name_at(data@, at as int));
    r
}

/// The flat number of the floor (`at` 4) or the ceiling (`at` 12) of sector
/// record `i`.
pub open spec fn sector_flat(data: Seq<u8>, i: int, at: int, lumps: Seq<[u8; 8]>, firstflat: int) -> Option<
    int,
> {
    flat_num(lumps, firstflat, name_at(data, 26 * i + at))
}

/// Both flats of sector record `i` are found.
pub open spec fn sector_flats_found(data: Seq<u8>, i: int, lumps: Seq<[u8; 8]>, firstflat: int) -> bool {
    sector_flat(data, i, 4, lumps, firstflat) is Some && sector_flat(data, i, 12, lumps, firstflat) is Some
}

/// The sector that record `i` of the lump describes: heights in map units at
/// bytes 0 and 2, the floor and ceiling flats named at bytes 4 and 12 (their
/// numbers kept as 16-bit values), light, special and tag at bytes 20, 22
/// and 24; no mover is attached.
pub open spec fn sector_record(data: Seq<u8>, i: int, lumps: Seq<[u8; 8]>, firstflat: int) -> Sector {
    let at = 26 * i;
    Sector {
        floorheight: from_units(le_i16(data, at)),
        ceilingheight: from_units(le_i16(data, at + 2)),
        floorpic: sector_flat(data, i, 4, lumps, firstflat)->0 as i16,
        ceilingpic: sector_flat(data, i, 12, lumps, firstflat)->0 as i16,
        lightlevel: le_i16(data, at + 20),
        special: le_i16(data, at + 22),
        tag: le_i16(data, at + 24),
        busy: false,
    }
}

/// Reads the sectors of a map from its sectors lump: one per whole 26-byte
/// record (see `sector_record`). `None`, which stops the game, where a flat
/// is not found.
pub fn P_LoadSectors(data: &[u8], lumps: &Vec<[u8; 8]>, firstflat: usize) -> (r: Option<
    Vec<Sector>,
>)
    ensures
        r is Some <==> forall|i: int|
            0 <= i < data@.len() / 26 ==> #[trigger] sector_flats_found(
                data@,
                i,
                lumps@,
                firstflat as int,
            ),
        r matches Some(v) ==> {
            &&& v.len() == data@.len() / 26
            &&& forall|i: int|
                0 <= i < v.len() ==> #[trigger] v@[i] == sector_record(
                    data@,
                    i,
                    lumps@,
                    firstflat as int,
                )
        },
{
    let n = data.len() / MAPSECTOR_SIZE;
    let mut v: Vec<Sector> = Vec::new();
    let mut i: usize = 0;
    while i < n
        invariant
            i <= n,
            n == data@.len() / 26,
            n == data.len() / 26,
            v.len() == i,
            forall|j: int|
                0 <= j < i ==> #[trigger] sector_flats_found(data@, j, lumps@, firstflat as int),
            forall|j: int|
                0 <= j < i ==> #[trigger] v@[j] == sector_record(data@, j, lumps@, firstflat as int),
        decreases n - i,
    {
        assert(i * 26 + 26 <= data.len()) by (nonlinear_arith)
            requires
                i < n,
                n == data.len() / 26,
        ;
        let at = i * MAPSECTOR_SIZE;
        let floor_name = read_name(data, at + 4);
        let ceiling_name = read_name(data, at + 12);
        let floorpic = match R_FlatNumForName(lumps, firstflat, &floor_name) {
            Some(f) => f,
            None => {
                assert(!sector_flats_found(data@, i as int, lumps@, firstflat as int));
                return None;
            },
        };
        let ceilingpic = match R_FlatNumForName(lumps, firstflat, &ceiling_name) {
            Some(f) => f,
            None => {
                assert(!sector_flats_found(data@, i as int, lumps@, firstflat as int));
                return None;
            },
        };
        let sec = Sector {
            floorheight: units_to_fixed(read_i16(data, at)),
            ceilingheight: units_to_fixed(read_i16(data, at + 2)),
            floorpic: #[verifier::truncate] (floorpic as i16),
            ceilingpic: #[verifier::truncate] (ceilingpic as i16),
            lightlevel: read_i16(data, at + 20),
            special: read_i16(data, at + 22),
            tag: read_i16(data, at + 24),
            busy: false,
        };
        assert(sec == sector_record(data@, i as int, lumps@, firstflat as int));
        v.push(sec);
        i += 1;
    }
    Some(v)
}

/// The texture number of the upper (`at` 4), lower (`at` 12) or middle
/// (`at` 20) texture of sidedef record `i`.
pub open spec fn side_texture(data: Seq<u8>, i: int, at: int, textures: Seq<[u8; 8]>) -> int {
    texture_num(textures, name_at(data, 30 * i + at))
}

/// All three textures of sidedef record `i` are found.
pub open spec fn side_textures_found(data: Seq<u8>, i: int, textures: Seq<[u8; 8]>) -> bool {
    &&& side_texture(data, i, 4, textures) >= 0
    &&& side_texture(data, i, 12, textures) >= 0
    &&& side_texture(data, i, 20, textures) >= 0
}

/// The side that record `i` of the lump describes: texture and row offsets
/// in map units at bytes 0 and 2, the upper, lower and middle textures named
/// at bytes 4, 12 and 20 (their numbers kept as 16-bit values), and the
/// number of its sector at byte 28.
pub open spec fn side_record(data: Seq<u8>, i: int, textures: Seq<[u8; 8]>) -> Side {
    let at = 30 * i;
    Side {
        textureoffset: from_units(le_i16(data, at)),
        rowoffset: from_units(le_i16(data, at + 2)),
        toptexture: side_texture(data, i, 4, textures) as i16,
        bottomtexture: side_texture(data, i, 12, textures) as i16,
        midtexture: side_texture(data, i, 20, textures) as i16,
        sector: le_i16(data, at + 28) as usize,
    }
}

/// Reads the sides of a map from its sidedefs lump: one per whole 30-byte
/// record (see `side_record`). `None`, which stops the game, where a
/// texture is not found.
pub fn P_LoadSideDefs(data: &[u8], textures: &Vec<[u8; 8]>) -> (r: Option<Vec<Side>>)
    requires
        textures.len() <= i32::MAX,
    ensures
        r is Some <==> forall|i: int|
            0 <= i < data@.len() / 30 ==> #[trigger] side_textures_found(data@, i, textures@),
        r matches Some(v) ==> {
            &&& v.len() == data@.len() / 30
            &&& forall|i: int|
                0 <= i < v.len() ==> #[trigger] v@[i] == side_record(data@, i, textures@)
        },
{
    let n = data.len() / MAPSIDEDEF_SIZE;
    let mut v: Vec<Side> = Vec::new();
    let mut i: usize = 0;
    while i < n
        invariant
            i <= n,
            n == data@.len() / 30,
            n == data.len() / 30,
            textures.len() <= i32::MAX,
            v.len() == i,
            forall|j: int| 0 <= j < i ==> #[trigger] side_textures_found(data@, j, textures@),
            forall|j: int| 0 <= j < i ==> #[trigger] v@[j] == side_record(data@, j, textures@),
        decreases n - i,
    {
        assert(i * 30 + 30 <= data.len()) by (nonlinear_arith)
            requires
                i < n,
                n == data.len() / 30,
        ;
        let at = i * MAPSIDEDEF_SIZE;
        let top_name = read_name(data, at + 4);
        let bottom_name = read_name(data, at + 12);
        let mid_name = read_name(data, at + 20);
        let top = match R_TextureNumForName(textures, &top_name) {
            Some(t) => t,
            None => {
                assert(!side_textures_found(data@, i as int, textures@));
                return None;
            },
        };
        let bottom = match R_TextureNumForName(textures, &bottom_name) {
            Some(t) => t,
            None => {
                assert(!side_textures_found(data@, i as int, textures@));
                return None;
            },
        };
        let mid = match R_TextureNumForName(textures, &mid_name) {
            Some(t) => t,
            None => {
                assert(!side_textures_found(data@, i as int, textures@));
                return None;
            },
        };
        let sector = read_i16(data, at + 28);
        let sd = Side {
            textureoffset: units_to_fixed(read_i16(data, at)),
            rowoffset: units_to_fixed(read_i16(data, at + 2)),
            toptexture: #[verifier::truncate] (top as i16),
            bottomtexture: #[verifier::truncate] (bottom as i16),
            midtexture: #[verifier::truncate] (mid as i16),
            sector: #[verifier::truncate] (sector as usize),
        };
        assert(sd == side_record(data@, i as int, textures@));
        v.push(sd);
        i += 1;
    }
    Some(v)
}


/// Bytes in the record of one vertex, one seg, one subsector, one node, one
/// thing and one linedef.
pub const MAPVERTEX_SIZE: usize = 4;
pub const MAPSEG_SIZE: usize = 12;
pub const MAPSUBSECTOR_SIZE: usize = 4;
pub const MAPNODE_SIZE: usize = 28;
pub const MAPTHING_SIZE: usize = 10;
pub const MAPLINEDEF_SIZE: usize = 14;

/// The little-endian unsigned 16-bit number at byte `at`.
pub open spec fn le_u16(data: Seq<u8>, at: int) -> u16 {
    (data[at] as int + 256 * data[at + 1] as int) as u16
}

fn read_u16(data: &[u8], at: usize) -> (r: u16)
    requires
        at + 2 <= data@.len(),
    ensures
        r == le_u16(data@, at as int),
{
    data[at] as u16 + 256 * (data[at + 1] as u16)
}

/// The vertex that record `i` of the vertexes lump describes: x and y in
/// map units.
pub open spec fn vertex_record(data: Seq<u8>, i: int) -> Vertex {
    Vertex { x: from_units(le_i16(data, 4 * i)), y: from_units(le_i16(data, 4 * i + 2)) }
}

/// Reads the vertexes of a map: one per whole 4-byte record.
pub fn P_LoadVertexes(data: &[u8]) -> (r: Vec<Vertex>)
    ensures
        r.len() == data@.len() / 4,
        forall|i: int| 0 <= i < r.len() ==> #[trigger] r@[i] == vertex_record(data@, i),
{
    let n = data.len() / MAPVERTEX_SIZE;
    let mut v: Vec<Vertex> = Vec::new();
    let mut i: usize = 0;
    while i < n
        invariant
            i <= n,
            n == data@.len() / 4,
            v.len() == i,
            forall|j: int| 0 <= j < i ==> #[trigger] v@[j] == vertex_record(data@, j),
        decreases n - i,
    {
        assert(i * 4 + 4 <= data.len()) by (nonlinear_arith)
            requires
                i < n,
                n == data.len() / 4,
        ;
        let at = i * MAPVERTEX_SIZE;
        v.push(Vertex { x: units_to_fixed(read_i16(data, at)), y: units_to_fixed(read_i16(data, at + 2)) });
        i += 1;
    }
    v
}

/// A subsector: how many segs it has and the number of the first.
#[derive(Debug, Clone, Copy, PartialEq, Eq, Structural)]
pub struct subsector_t {
    pub numlines: i16,
    pub firstline: i16,
}

/// The subsector that record `i` of the subsectors lump describes.
pub open spec fn subsector_record(data: Seq<u8>, i: int) -> subsector_t {
    subsector_t { numlines: le_i16(data, 4 * i), firstline: le_i16(data, 4 * i + 2) }
}

/// Reads the subsectors of a map: one per whole 4-byte record.
pub fn P_LoadSubsectors(data: &[u8]) -> (r: Vec<subsector_t>)
    ensures
        r.len() == data@.len() / 4,
        forall|i: int| 0 <= i < r.len() ==> #[trigger] r@[i] == subsector_record(data@, i),
{
    let n = data.len() / MAPSUBSECTOR_SIZE;
    let mut v: Vec<subsector_t> = Vec::new();
    let mut i: usize = 0;
    while i < n
        invariant
            i <= n,
            n == data@.len() / 4,
            v.len() == i,
            forall|j: int| 0 <= j < i ==> #[trigger] v@[j] == subsector_record(data@, j),
        decreases n - i,
    {
        assert(i * 4 + 4 <= data.len()) by (nonlinear_arith)
            requires
                i < n,
                n == data.len() / 4,
        ;
        let at = i * MAPSUBSECTOR_SIZE;
        v.push(subsector_t { numlines: read_i16(data, at), firstline: read_i16(data, at + 2) });
        i += 1;
    }
    v
}

/// Record `i` of the nodes lump as read: the partition line's x, y, dx and
/// dy at bytes 0 to 6, the two bounding boxes (four numbers each, top,
/// bottom, left, right) at byte 8 on, all in map units, and the two child
/// numbers at bytes 24 and 26.
pub open spec fn node_matches(n: node_t, data: Seq<u8>, i: int) -> bool {
    let at = 28 * i;
    &&& n.x == from_units(le_i16(data, at))
    &&& n.y == from_units(le_i16(data, at + 2))
    &&& n.dx == from_units(le_i16(data, at + 4))
    &&& n.dy == from_units(le_i16(data, at + 6))
    &&& forall|j: int, k: int|
        0 <= j < 2 && 0 <= k < 4 ==> #[trigger] n.bbox@[j]@[k] == from_units(le_i16(data, at + 8 + 8 * j + 2 * k))
    &&& n.children@[0] == le_u16(data, at + 24)
    &&& n.children@[1] == le_u16(data, at + 26)
}

fn read_box(data: &[u8], at: usize) -> (r: [i32; 4])
    requires
        at + 8 <= data.len(),
    ensures
        forall|k: int| 0 <= k < 4 ==> #[trigger] r@[k] == from_units(le_i16(data@, at + 2 * k)),
{
    [
        units_to_fixed(read_i16(data, at)),
        units_to_fixed(read_i16(data, at + 2)),
        units_to_fixed(read_i16(data, at + 4)),
        units_to_fixed(read_i16(data, at + 6)),
    ]
}

/// Reads the BSP nodes of a map: one per whole 28-byte record (see
/// `node_matches`).
pub fn P_LoadNodes(data: &[u8]) -> (r: Vec<node_t>)
    ensures
        r.len() == data@.len() / 28,
        forall|i: int| 0 <= i < r.len() ==> #[trigger] node_matches(r@[i], data@, i),
{
    let n = data.len() / MAPNODE_SIZE;
    let mut v: Vec<node_t> = Vec::new();
    let mut i: usize = 0;
    while i < n
        invariant
            i <= n,
            n == data@.len() / 28,
            v.len() == i,
            forall|j: int| 0 <= j < i ==> #[trigger] node_matches(v@[j], data@, j),
        decreases n - i,
    {
        assert(i * 28 + 28 <= data.len()) by (nonlinear_arith)
            requires
                i < n,
                n == data.len() / 28,
        ;
        let at = i * MAPNODE_SIZE;
        let b0 = read_box(data, at + 8);
        let b1 = read_box(data, at + 16);
        let node = node_t {
            x: units_to_fixed(read_i16(data, at)),
            y: units_to_fixed(read_i16(data, at + 2)),
            dx: units_to_fixed(read_i16(data, at + 4)),
            dy: units_to_fixed(read_i16(data, at + 6)),
            bbox: [b0, b1],
            children: [read_u16(data, at + 24), read_u16(data, at + 26)],
        };
        assert(node_matches(node, data@, i as int));
        v.push(node);
        i += 1;
    }
    v
}

/// A thing placed on the map: position in map units, facing angle in
/// degrees, its kind and its option flags.
#[derive(Debug, Clone, Copy, PartialEq, Eq, Structural)]
pub struct mapthing_t {
    pub x: i16,
    pub y: i16,
    pub angle: i16,
    pub ty: i16,
    pub options: i16,
}

/// The thing that record `i` of the things lump describes.
pub open spec fn thing_record(data: Seq<u8>, i: int) -> mapthing_t {
    let at = 10 * i;
    mapthing_t {
        x: le_i16(data, at),
        y: le_i16(data, at + 2),
        angle: le_i16(data, at + 4),
        ty: le_i16(data, at + 6),
        options: le_i16(data, at + 8),
    }
}

/// The monsters that only the commercial game has: arachnotron, archvile,
/// boss brain, boss shooter, hell knight, mancubus, pain elemental, former
/// human commando, revenant and the Wolfenstein SS.
pub open spec fn commercial_only(ty: i16) -> bool {
    ty == 68 || ty == 64 || ty == 88 || ty == 89 || ty == 69 || ty == 67 || ty == 71 || ty == 65
        || ty == 66 || ty == 84
}

/// How many records, from the first on, are spawned: every whole record in
/// the commercial game; otherwise those before the first monster of the
/// commercial game, where spawning stops.
pub open spec fn things_spawned(data: Seq<u8>, commercial: bool, i: int) -> int
    decreases data.len() / 10 - i,
{
    if i < 0 || i >= data.len() / 10 {
        i
    } else if !commercial && commercial_only(thing_record(data, i).ty) {
        i
    } else {
        things_spawned(data, commercial, i + 1)
    }
}

proof fn lemma_things_spawned_range(data: Seq<u8>, commercial: bool, i: int)
    requires
        0 <= i <= data.len() / 10,
    ensures
        i <= things_spawned(data, commercial, i) <= data.len() / 10,
    decreases data.len() / 10 - i,
{
    if i < data.len() / 10 {
        lemma_things_spawned_range(data, commercial, i + 1);
    }
}

/// Reads the things of a map that are spawned (see `things_spawned`), in
/// order; the caller spawns each.
pub fn P_LoadThings(data: &[u8], commercial: bool) -> (r: Vec<mapthing_t>)
    ensures
        r.len() == things_spawned(data@, commercial, 0),
        forall|i: int| 0 <= i < r.len() ==> #[trigger] r@[i] == thing_record(data@, i),
{
    let n = data.len() / MAPTHING_SIZE;
    proof {
        lemma_things_spawned_range(data@, commercial, 0);
    }
    let mut v: Vec<mapthing_t> = Vec::new();
    let mut i: usize = 0;
    while i < n
        invariant
            i <= n,
            n == data@.len() / 10,
            v.len() == i,
            things_spawned(data@, commercial, 0) == things_spawned(data@, commercial, i as int),
            forall|j: int| 0 <= j < i ==> #[trigger] v@[j] == thing_record(data@, j),
        decreases n - i,
    {
        assert(i * 10 + 10 <= data.len()) by (nonlinear_arith)
            requires
                i < n,
                n == data.len() / 10,
        ;
        let at = i * MAPTHING_SIZE;
        let t = mapthing_t {
            x: read_i16(data, at),
            y: read_i16(data, at + 2),
            angle: read_i16(data, at + 4),
            ty: read_i16(data, at + 6),
            options: read_i16(data, at + 8),
        };
        assert(t == thing_record(data@, i as int));
        let ty = t.ty;
        if !commercial && (ty == 68 || ty == 64 || ty == 88 || ty == 89 || ty == 69 || ty == 67
            || ty == 71 || ty == 65 || ty == 66 || ty == 84) {
            return v;
        }
        v.push(t);
        i += 1;
    }
    v
}

/// The blockmap: its origin, its size in blocks and the words of its
/// offsets and line lists that follow the header.
#[derive(Debug, Clone)]
pub struct BlockMap {
    pub orgx: i32,
    pub orgy: i32,
    pub width: usize,
    pub height: usize,
    pub words: Vec<i16>,
}

/// The 16-bit words of the lump, from word `from` on.
pub open spec fn words_from(data: Seq<u8>, from: int) -> Seq<i16> {
    Seq::new((data.len() / 2 - from) as nat, |k: int| le_i16(data, 2 * (from + k)))
}

/// Reads the blockmap lump: a header of four words (origin x and y in map
/// units, width, height) and the words after it. `None` where the lump is
/// shorter than the header or its width or height is negative.
pub fn P_LoadBlockMap(data: &[u8]) -> (r: Option<BlockMap>)
    ensures
        r is Some <==> data@.len() >= 8 && le_i16(data@, 4) >= 0 && le_i16(data@, 6) >= 0,
        r matches Some(b) ==> {
            &&& b.orgx == from_units(le_i16(data@, 0))
            &&& b.orgy == from_units(le_i16(data@, 2))
            &&& b.width == le_i16(data@, 4)
            &&& b.height == le_i16(data@, 6)
            &&& b.words@ == words_from(data@, 4)
        },
{
    if data.len() < 8 {
        return None;
    }
    let w = read_i16(data, 4);
    let h = read_i16(data, 6);
    if w < 0 || h < 0 {
        return None;
    }
    let n = data.len() / 2;
    let mut words: Vec<i16> = Vec::new();
    let mut k: usize = 4;
    while k < n
        invariant
            4 <= k <= n,
            n == data@.len() / 2,
            words.len() == k - 4,
            forall|j: int| 0 <= j < k - 4 ==> #[trigger] words@[j] == le_i16(data@, 2 * (4 + j)),
        decreases n - k,
    {
        assert(2 * k + 2 <= data.len()) by (nonlinear_arith)
            requires
                k < n,
                n == data.len() / 2,
        ;
        words.push(read_i16(data, 2 * k));
        k += 1;
    }
    assert(words@ =~= words_from(data@, 4));
    Some(BlockMap {
        orgx: units_to_fixed(read_i16(data, 0)),
        orgy: units_to_fixed(read_i16(data, 2)),
        width: w as usize,
        height: h as usize,
        words,
    })
}


/// A map line as loaded: the line, the numbers of its two vertexes, its
/// geometry and its bounding box (top, bottom, left, right).
#[derive(Debug, Clone, Copy)]
pub struct LineDef {
    pub line: Line,
    pub v1: usize,
    pub v2: usize,
    pub geom: LineGeom,
    pub bbox: [fixed_t; 4],
}

/// A side number of a linedef names one of the `n` sides.
pub open spec fn side_index_ok(s: i16, n: int) -> bool {
    0 <= s < n
}

/// Linedef record `i` can be loaded: its vertexes are among `verts`, its
/// front side among `sides`, its back side there or -1, and its direction
/// fits in fixed point.
pub open spec fn linedef_ok(data: Seq<u8>, i: int, verts: Seq<Vertex>, sides: Seq<Side>) -> bool {
    let at = 14 * i;
    let a = le_i16(data, at);
    let b = le_i16(data, at + 2);
    let s0 = le_i16(data, at + 10);
    let s1 = le_i16(data, at + 12);
    &&& 0 <= a < verts.len()
    &&& 0 <= b < verts.len()
    &&& side_index_ok(s0, sides.len() as int)
    &&& (s1 == -1 || side_index_ok(s1, sides.len() as int))
    &&& fits_i32(verts[b as int].x - verts[a as int].x)
    &&& fits_i32(verts[b as int].y - verts[a as int].y)
}

/// The slope class of a direction.
pub open spec fn slope_of(dx: int, dy: int) -> slopetype_t {
    if dx == 0 {
        slopetype_t::ST_VERTICAL
    } else if dy == 0 {
        slopetype_t::ST_HORIZONTAL
    } else if fixed_div_spec(dy, dx) > 0 {
        slopetype_t::ST_POSITIVE
    } else {
        slopetype_t::ST_NEGATIVE
    }
}

/// The linedef that record `i` describes: vertexes at bytes 0 and 2, flags,
/// special and tag at 4, 6 and 8, side numbers at 10 and 12; the front
/// sector is that of the front side, the back sector that of the back side
/// where there is one.
pub open spec fn linedef_matches(l: LineDef, data: Seq<u8>, i: int, verts: Seq<Vertex>, sides: Seq<Side>) -> bool {
    let at = 14 * i;
    let a = le_i16(data, at);
    let b = le_i16(data, at + 2);
    let s0 = le_i16(data, at + 10);
    let s1 = le_i16(data, at + 12);
    let v1 = verts[a as int];
    let v2 = verts[b as int];
    let dx = v2.x - v1.x;
    let dy = v2.y - v1.y;
    &&& l.line == (Line {
        flags: le_i16(data, at + 4),
        special: le_i16(data, at + 6),
        tag: le_i16(data, at + 8),
        sidenum: [s0, s1],
        frontsector: sides[s0 as int].sector,
        backsector: if s1 == -1 { None } else { Some(sides[s1 as int].sector) },
    })
    &&& l.v1 == a
    &&& l.v2 == b
    &&& l.geom == (LineGeom { v1, dx: dx as i32, dy: dy as i32, slopetype: slope_of(dx, dy) })
    &&& l.bbox@[0] == (if v1.y < v2.y { v2.y } else { v1.y })
    &&& l.bbox@[1] == (if v1.y < v2.y { v1.y } else { v2.y })
    &&& l.bbox@[2] == (if v1.x < v2.x { v1.x } else { v2.x })
    &&& l.bbox@[3] == (if v1.x < v2.x { v2.x } else { v1.x })
}

/// Reads the linedefs of a map: one per whole 14-byte record (see
/// `linedef_matches`), over the vertexes and sides already loaded. `None`
/// where a record cannot be loaded (see `linedef_ok`).
pub fn P_LoadLineDefs(data: &[u8], verts: &Vec<Vertex>, sides: &Vec<Side>) -> (r: Option<Vec<LineDef>>)
    ensures
        r is Some <==> forall|i: int|
            0 <= i < data@.len() / 14 ==> #[trigger] linedef_ok(data@, i, verts@, sides@),
        r matches Some(v) ==> {
            &&& v.len() == data@.len() / 14
            &&& forall|i: int| 0 <= i < v.len() ==> #[trigger] linedef_matches(v@[i], data@, i, verts@, sides@)
        },
{
    let n = data.len() / MAPLINEDEF_SIZE;
    let mut v: Vec<LineDef> = Vec::new();
    let mut i: usize = 0;
    while i < n
        invariant
            i <= n,
            n == data@.len() / 14,
            v.len() == i,
            forall|j: int| 0 <= j < i ==> #[trigger] linedef_ok(data@, j, verts@, sides@),
            forall|j: int| 0 <= j < i ==> #[trigger] linedef_matches(v@[j], data@, j, verts@, sides@),
        decreases n - i,
    {
        assert(i * 14 + 14 <= data.len()) by (nonlinear_arith)
            requires
                i < n,
                n == data.len() / 14,
        ;
        let at = i * MAPLINEDEF_SIZE;
        let a = read_i16(data, at);
        let b = read_i16(data, at + 2);
        let s0 = read_i16(data, at + 10);
        let s1 = read_i16(data, at + 12);
        if a < 0 || a as usize >= verts.len() || b < 0 || b as usize >= verts.len() || s0 < 0
            || s0 as usize >= sides.len() || (s1 != -1 && (s1 < 0 || s1 as usize >= sides.len())) {
            assert(!linedef_ok(data@, i as int, verts@, sides@));
            return None;
        }
        let v1 = verts[a as usize];
        let v2 = verts[b as usize];
        let dx64 = v2.x as i64 - v1.x as i64;
        let dy64 = v2.y as i64 - v1.y as i64;
        if dx64 < i32::MIN as i64 || dx64 > i32::MAX as i64 || dy64 < i32::MIN as i64 || dy64 > i32::MAX as i64 {
            assert(!linedef_ok(data@, i as int, verts@, sides@));
            return None;
        }
        let dx = v2.x - v1.x;
        let dy = v2.y - v1.y;
        let slopetype = if dx == 0 {
            slopetype_t::ST_VERTICAL
        } else if dy == 0 {
            slopetype_t::ST_HORIZONTAL
        } else if FixedDiv(dy, dx) > 0 {
            slopetype_t::ST_POSITIVE
        } else {
            slopetype_t::ST_NEGATIVE
        };
        let (left, right) = if v1.x < v2.x { (v1.x, v2.x) } else { (v2.x, v1.x) };
        let (bottom, top) = if v1.y < v2.y { (v1.y, v2.y) } else { (v2.y, v1.y) };
        let backsector = if s1 == -1 { None } else { Some(sides[s1 as usize].sector) };
        let ld = LineDef {
            line: Line {
                flags: read_i16(data, at + 4),
                special: read_i16(data, at + 6),
                tag: read_i16(data, at + 8),
                sidenum: [s0, s1],
                frontsector: sides[s0 as usize].sector,
                backsector,
            },
            v1: a as usize,
            v2: b as usize,
            geom: LineGeom { v1, dx, dy, slopetype },
            bbox: [top, bottom, left, right],
        };
        assert(linedef_matches(ld, data@, i as int, verts@, sides@));
        v.push(ld);
        i += 1;
    }
    Some(v)
}

/// A seg: part of a line bounding a subsector, from vertex `v1` to `v2`,
/// with its angle, its offset along the line, the line and side it lies on,
/// and the sectors in front of it and behind it.
#[derive(Debug, Clone, Copy, PartialEq, Eq, Structural)]
pub struct seg_t {
    pub v1: usize,
    pub v2: usize,
    pub angle: u32,
    pub offset: fixed_t,
    pub linedef: usize,
    pub sidedef: usize,
    pub frontsector: usize,
    pub backsector: Option<usize>,
}

/// Seg record `i` can be loaded: its vertex numbers are not negative, its
/// line is among `lines`, its side is 0 or 1, and the sides of the line it
/// uses are among `sides` (both where the line is two-sided).
pub open spec fn seg_ok(data: Seq<u8>, i: int, lines: Seq<Line>, sides: Seq<Side>) -> bool {
    let at = 12 * i;
    let ld = le_i16(data, at + 6);
    let side = le_i16(data, at + 8);
    &&& le_i16(data, at) >= 0
    &&& le_i16(data, at + 2) >= 0
    &&& 0 <= ld < lines.len()
    &&& (side == 0 || side == 1)
    &&& side_index_ok(lines[ld as int].sidenum[side as int], sides.len() as int)
    &&& lines[ld as int].flags & ML_TWOSIDED != 0 ==> side_index_ok(
        lines[ld as int].sidenum[1 - side],
        sides.len() as int,
    )
}

/// The seg that record `i` describes: vertexes at bytes 0 and 2, the angle
/// (the high half of a turn's 32 bits) at 4, the line at 6, the side of it
/// at 8 and the offset in map units at 10.
pub open spec fn seg_record(data: Seq<u8>, i: int, lines: Seq<Line>, sides: Seq<Side>) -> seg_t {
    let at = 12 * i;
    let ld = le_i16(data, at + 6);
    let side = le_i16(data, at + 8);
    let l = lines[ld as int];
    let sd = l.sidenum[side as int];
    seg_t {
        v1: le_i16(data, at) as usize,
        v2: le_i16(data, at + 2) as usize,
        angle: (le_u16(data, at + 4) as int * 65536) as u32,
        offset: from_units(le_i16(data, at + 10)),
        linedef: ld as usize,
        sidedef: sd as usize,
        frontsector: sides[sd as int].sector,
        backsector: if l.flags & ML_TWOSIDED != 0 {
            Some(sides[l.sidenum[1 - side] as int].sector)
        } else {
            None
        },
    }
}

/// Reads the segs of a map: one per whole 12-byte record (see
/// `seg_record`), over the lines and sides already loaded. `None` where a
/// record cannot be loaded (see `seg_ok`).
pub fn P_LoadSegs(data: &[u8], lines: &Vec<Line>, sides: &Vec<Side>) -> (r: Option<Vec<seg_t>>)
    ensures
        r is Some <==> forall|i: int|
            0 <= i < data@.len() / 12 ==> #[trigger] seg_ok(data@, i, lines@, sides@),
        r matches Some(v) ==> {
            &&& v.len() == data@.len() / 12
            &&& forall|i: int| 0 <= i < v.len() ==> #[trigger] v@[i] == seg_record(data@, i, lines@, sides@)
        },
{
    let n = data.len() / MAPSEG_SIZE;
    let mut v: Vec<seg_t> = Vec::new();
    let mut i: usize = 0;
    while i < n
        invariant
            i <= n,
            n == data@.len() / 12,
            v.len() == i,
            forall|j: int| 0 <= j < i ==> #[trigger] seg_ok(data@, j, lines@, sides@),
            forall|j: int| 0 <= j < i ==> #[trigger] v@[j] == seg_record(data@, j, lines@, sides@),
        decreases n - i,
    {
        assert(i * 12 + 12 <= data.len()) by (nonlinear_arith)
            requires
                i < n,
                n == data.len() / 12,
        ;
        let at = i * MAPSEG_SIZE;
        let a = read_i16(data, at);
        let b = read_i16(data, at + 2);
        let ld = read_i16(data, at + 6);
        let side = read_i16(data, at + 8);
        if a < 0 || b < 0 || ld < 0 || ld as usize >= lines.len() || !(side == 0 || side == 1) {
            assert(!seg_ok(data@, i as int, lines@, sides@));
            return None;
        }
        let l = lines[ld as usize];
        let sd = l.sidenum[side as usize];
        if sd < 0 || sd as usize >= sides.len() {
            assert(!seg_ok(data@, i as int, lines@, sides@));
            return None;
        }
        let backsector = if l.flags & ML_TWOSIDED != 0 {
            let other = l.sidenum[1 - side as usize];
            if other < 0 || other as usize >= sides.len() {
                assert(!seg_ok(data@, i as int, lines@, sides@));
                return None;
            }
            Some(sides[other as usize].sector)
        } else {
            None
        };
        let seg = seg_t {
            v1: a as usize,
            v2: b as usize,
            angle: (read_u16(data, at + 4) as u32) * 65536,
            offset: units_to_fixed(read_i16(data, at + 10)),
            linedef: ld as usize,
            sidedef: sd as usize,
            frontsector: sides[sd as usize].sector,
            backsector,
        };
        assert(seg == seg_record(data@, i as int, lines@, sides@));
        v.push(seg);
        i += 1;
    }
    Some(v)
}

} // verus!
