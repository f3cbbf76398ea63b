//! The wall textures of the game, read from the PNAMES lump (a count, then
//! an eight-byte name per patch) and the TEXTURE1 and TEXTURE2 lumps (a
//! count, an offset per texture, and at each offset a texture: its name,
//! a masked flag, width, height, an unused word, the number of patches and
//! ten bytes per patch: x and y origin, patch number and two unused
//! numbers). Numbers are little-endian.

use vstd::prelude::*;

use crate::lumps::{W_CheckNumForName, lump_num};
use crate::mapload::le_i16;
use crate::wad::le_u32;

verus! {

/// One patch of a texture: where its upper left corner goes and the lump
/// number of the patch.
#[derive(Debug, Clone, Copy, PartialEq, Eq, Structural)]
pub struct texpatch_t {
    pub originx: i32,
    pub originy: i32,
    pub patch: usize,
}

/// A wall texture: its name and size, the patches drawn into it back to
/// front, and the mask for its column numbers (one less than the largest
/// power of two not above its width).
#[derive(Debug, Clone)]
pub struct texture_t {
    pub name: [u8; 8],
    pub width: i16,
    pub height: i16,
    pub patches: Vec<texpatch_t>,
    pub widthmask: i32,
}

fn read_u32(data: &[u8], at: usize) -> (r: u32)
    requires
        at + 4 <= data.len(),
    ensures
        r as int == le_u32(data@, at as int),
{
    data[at] as u32 + 256 * (data[at + 1] as u32) + 65536 * (data[at + 2] as u32) + 16777216 * (data[at + 3] as u32)
}

fn read_i16(data: &[u8], at: usize) -> (r: i16)
    requires
        at + 2 <= data.len(),
    ensures
        r == le_i16(data@, at as int),
{
    let u: u32 = data[at] as u32 + 256 * (data[at + 1] as u32);
    if u >= 32768 {
        (u as i32 - 65536) as i16
    } else {
        u as i16
    }
}

/// The lump number of each patch that PNAMES names (see `lump_num`), or -1
/// where there is no such lump.
pub open spec fn patch_lookup_matches(r: Seq<Option<usize>>, pnames: Seq<u8>, lumps: Seq<[u8; 8]>) -> bool {
    &&& r.len() == le_u32(pnames, 0)
    &&& forall|i: int|
        0 <= i < r.len() ==> #[trigger] r[i] == if lump_num(lumps, pnames.subrange(4 + 8 * i, 12 + 8 * i)) >= 0 {
            Some(lump_num(lumps, pnames.subrange(4 + 8 * i, 12 + 8 * i)) as usize)
        } else {
            None
        }
}

/// Looks up the lump of each patch that the PNAMES lump names. `None`
/// where the lump is shorter than its count says.
pub fn R_PatchLookup(pnames: &[u8], lumps: &Vec<[u8; 8]>) -> (r: Option<Vec<Option<usize>>>)
    ensures
        r is Some <==> pnames@.len() >= 4 && 4 + 8 * le_u32(pnames@, 0) <= pnames@.len(),
        r matches Some(v) ==> patch_lookup_matches(v@, pnames@, lumps@),
{
    if pnames.len() < 4 {
        return None;
    }
    let n = read_u32(pnames, 0);
    if n as u64 * 8 + 4 > pnames.len() as u64 {
        return None;
    }
    let n = n as usize;
    let mut v: Vec<Option<usize>> = Vec::new();
    let mut i: usize = 0;
    while i < n
        invariant
            i <= n,
            n == le_u32(pnames@, 0),
            4 + 8 * n <= pnames.len(),
            v.len() == i,
            forall|j: int|
                0 <= j < i ==> #[trigger] v@[j] == if lump_num(lumps@, pnames@.subrange(4 + 8 * j, 12 + 8 * j)) >= 0 {
                    Some(lump_num(lumps@, pnames@.subrange(4 + 8 * j, 12 + 8 * j)) as usize)
                } else {
                    None
                },
        decreases n - i,
    {
        let at = 4 + 8 * i;
        let mut name: [u8; 8] = [0; 8];
        let mut c: usize = 0;
        while c < 8
            invariant
                c <= 8,
                at + 8 <= pnames.len(),
                forall|j: int| 0 <= j < c ==> #[trigger] name@[j] == pnames@[at + j],
            decreases 8 - c,
        {
            name[c] = pnames[at + c];
            c += 1;
        }
        assert(name@ =~= pnames@.subrange(at as int, at + 8));
        v.push(W_CheckNumForName(lumps, &name));
        i += 1;
    }
    Some(v)
}

/// The largest power of two from `j` on, doubling, that is not above `w`.
pub open spec fn pow2_upto(j: int, w: int) -> int
    decreases w - j,
{
    if j < 1 || j * 2 > w {
        j
    } else {
        pow2_upto(j * 2, w)
    }
}

/// Where texture `i` of the lump starts.
pub open spec fn tex_at(lump: Seq<u8>, i: int) -> int {
    le_u32(lump, 4 + 4 * i)
}

/// How many patches texture `i` of the lump has.
pub open spec fn tex_patchcount(lump: Seq<u8>, i: int) -> int {
    le_i16(lump, tex_at(lump, i) + 20) as int
}

/// Where patch `j` of texture `i` starts.
pub open spec fn patch_at(lump: Seq<u8>, i: int, j: int) -> int {
    tex_at(lump, i) + 22 + 10 * j
}

/// Texture `i` of the lump can be read: its offset is listed, it lies
/// within the lump with all its patches, it has at least one patch and a
/// width that is not negative, and every patch is one that `lookup` found.
pub open spec fn texture_ok(lump: Seq<u8>, i: int, lookup: Seq<Option<usize>>) -> bool {
    let at = tex_at(lump, i);
    let n = tex_patchcount(lump, i);
    &&& 8 + 4 * i <= lump.len()
    &&& n >= 1
    &&& at + 22 + 10 * n <= lump.len()
    &&& le_i16(lump, at + 12) >= 0
    &&& forall|j: int|
        0 <= j < n ==> {
            let p = #[trigger] le_i16(lump, patch_at(lump, i, j) + 4);
            0 <= p < lookup.len() && lookup[p as int] is Some
        }
}

/// `t` is texture `i` of the lump.
pub open spec fn texture_matches(t: texture_t, lump: Seq<u8>, i: int, lookup: Seq<Option<usize>>) -> bool {
    let at = tex_at(lump, i);
    &&& t.name@ == lump.subrange(at, at + 8)
    &&& t.width == le_i16(lump, at + 12)
    &&& t.height == le_i16(lump, at + 14)
    &&& t.widthmask == pow2_upto(1, t.width as int) - 1
    &&& t.patches@.len() == tex_patchcount(lump, i)
    &&& forall|j: int|
        0 <= j < t.patches@.len() ==> #[trigger] t.patches@[j] == (texpatch_t {
            originx: le_i16(lump, patch_at(lump, i, j)) as i32,
            originy: le_i16(lump, patch_at(lump, i, j) + 2) as i32,
            patch: lookup[le_i16(lump, patch_at(lump, i, j) + 4) as int]->0,
        })
}

/// Every texture that the lump lists can be read.
pub open spec fn texture_lump_ok(lump: Seq<u8>, lookup: Seq<Option<usize>>) -> bool {
    &&& lump.len() >= 4
    &&& forall|i: int| 0 <= i < le_u32(lump, 0) ==> #[trigger] texture_ok(lump, i, lookup)
}

proof fn lemma_pow2_upto(j: int, w: int)
    requires
        1 <= j,
        j <= w || j == 1,
    ensures
        1 <= pow2_upto(j, w),
        pow2_upto(j, w) <= w || pow2_upto(j, w) == j,
    decreases w - j,
{
    if j * 2 <= w {
        lemma_pow2_upto(j * 2, w);
    }
}

/// Reads texture `i` of the lump.
fn read_texture(lump: &[u8], i: usize, lookup: &Vec<Option<usize>>) -> (r: Option<texture_t>)
    requires
        4 + 4 * i + 4 <= lump.len(),
    ensures
        r is Some <==> texture_ok(lump@, i as int, lookup@),
        r matches Some(t) ==> texture_matches(t, lump@, i as int, lookup@),
{
    let at = read_u32(lump, 4 + 4 * i) as usize;
    if at as u64 + 22 > lump.len() as u64 {
        return None;
    }
    let n = read_i16(lump, at + 20);
    if n < 1 || at as u64 + 22 + 10 * (n as u64) > lump.len() as u64 {
        return None;
    }
    let width = read_i16(lump, at + 12);
    if width < 0 {
        return None;
    }
    let mut name: [u8; 8] = [0; 8];
    let mut c: usize = 0;
    while c < 8
        invariant
            c <= 8,
            at + 22 <= lump.len(),
            forall|j: int| 0 <= j < c ==> #[trigger] name@[j] == lump@[at + j],
        decreases 8 - c,
    {
        name[c] = lump[at + c];
        c += 1;
    }
    assert(name@ =~= lump@.subrange(at as int, at + 8));
    let n = n as usize;
    let mut patches: Vec<texpatch_t> = Vec::new();
    let mut j: usize = 0;
    while j < n
        invariant
            j <= n,
            at == tex_at(lump@, i as int),
            n == tex_patchcount(lump@, i as int),
            at + 22 + 10 * n <= lump.len(),
            patches.len() == j,
            forall|k: int|
                0 <= k < j ==> {
                    let p = #[trigger] le_i16(lump@, patch_at(lump@, i as int, k) + 4);
                    0 <= p < lookup.len() && lookup@[p as int] is Some
                },
            forall|k: int|
                0 <= k < j ==> #[trigger] patches@[k] == (texpatch_t {
                    originx: le_i16(lump@, patch_at(lump@, i as int, k)) as i32,
                    originy: le_i16(lump@, patch_at(lump@, i as int, k) + 2) as i32,
                    patch: lookup@[le_i16(lump@, patch_at(lump@, i as int, k) + 4) as int]->0,
                }),
        decreases n - j,
    {
        let pa = at + 22 + 10 * j;
        let p = read_i16(lump, pa + 4);
        if p < 0 || p as usize >= lookup.len() {
            assert(!texture_ok(lump@, i as int, lookup@)) by {
                assert(le_i16(lump@, patch_at(lump@, i as int, j as int) + 4) == p);
            }
            return None;
        }
        let lnum = match lookup[p as usize] {
            Some(l) => l,
            None => {
                assert(!texture_ok(lump@, i as int, lookup@)) by {
                    assert(le_i16(lump@, patch_at(lump@, i as int, j as int) + 4) == p);
                }
                return None;
            },
        };
        patches.push(texpatch_t { originx: read_i16(lump, pa) as i32, originy: read_i16(lump, pa + 2) as i32, patch: lnum });
        j += 1;
    }
    let mut m: i32 = 1;
    proof {
        lemma_pow2_upto(1, width as int);
    }
    while m as i64 * 2 <= width as i64
        invariant
            1 <= m <= 32767,
            m <= width || m == 1,
            pow2_upto(m as int, width as int) == pow2_upto(1, width as int),
        decreases width - m,
    {
        m = m * 2;
    }
    Some(texture_t { name, width, height: read_i16(lump, at + 14), patches, widthmask: m - 1 })
}

/// Reads every texture that a texture lump lists, in order. `None` where
/// one cannot be read (see `texture_ok`).
pub fn read_texture_lump(lump: &[u8], lookup: &Vec<Option<usize>>) -> (r: Option<Vec<texture_t>>)
    ensures
        r is Some <==> texture_lump_ok(lump@, lookup@),
        r matches Some(v) ==> {
            &&& v.len() == le_u32(lump@, 0)
            &&& forall|i: int| 0 <= i < v.len() ==> #[trigger] texture_matches(v@[i], lump@, i, lookup@)
        },
{
    if lump.len() < 4 {
        return None;
    }
    let n = read_u32(lump, 0) as usize;
    let mut v: Vec<texture_t> = Vec::new();
    let mut i: usize = 0;
    while i < n
        invariant
            i <= n,
            n == le_u32(lump@, 0),
            lump.len() >= 4,
            v.len() == i,
            forall|j: int| 0 <= j < i ==> #[trigger] texture_ok(lump@, j, lookup@),
            forall|j: int| 0 <= j < i ==> #[trigger] texture_matches(v@[j], lump@, j, lookup@),
        decreases n - i,
    {
        if 8 + 4 * (i as u64) > lump.len() as u64 {
            assert(!texture_ok(lump@, i as int, lookup@));
            return None;
        }
        match read_texture(lump, i, lookup) {
            Some(t) => v.push(t),
            None => {
                return None;
            },
        }
        i += 1;
    }
    Some(v)
}

/// Reads the textures of the game: those of TEXTURE1, then those of
/// TEXTURE2 where the game has it, their patches found through `lookup`
/// (see `R_PatchLookup`). `None`, which stops the game, where a texture
/// cannot be read.
pub fn R_InitTextures(texture1: &[u8], texture2: Option<&[u8]>, lookup: &Vec<Option<usize>>) -> (r: Option<Vec<texture_t>>)
    ensures
        r is Some <==> texture_lump_ok(texture1@, lookup@) && match texture2 {
            Some(t2) => texture_lump_ok(t2@, lookup@),
            None => true,
        },
        r matches Some(v) ==> {
            let n1 = le_u32(texture1@, 0);
            &&& forall|i: int| 0 <= i < n1 ==> #[trigger] texture_matches(v@[i], texture1@, i, lookup@)
            &&& match texture2 {
                Some(t2) => {
                    &&& v.len() == n1 + le_u32(t2@, 0)
                    &&& forall|i: int| 0 <= i < le_u32(t2@, 0) ==> #[trigger] texture_matches(v@[n1 + i], t2@, i, lookup@)
                },
                None => v.len() == n1,
            }
        },
{
    let mut v = match read_texture_lump(texture1, lookup) {
        Some(v) => v,
        None => {
            return None;
        },
    };
    let ghost v1 = v@;
    match texture2 {
        Some(t2) => {
            let mut w = match read_texture_lump(t2, lookup) {
                Some(w) => w,
                None => {
                    return None;
                },
            };
            let ghost w1 = w@;
            v.append(&mut w);
            assert(v@ == v1 + w1);
            Some(v)
        },
        None => Some(v),
    }
}

} // verus!
