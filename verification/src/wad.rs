//! The directory of a WAD file: a twelve-byte header ("IWAD" or "PWAD",
//! the number of lumps, the offset of the directory) and, at that offset,
//! a sixteen-byte entry per lump (its offset in the file, its size and its
//! eight-byte name). Numbers are little-endian.

use vstd::prelude::*;

verus! {

/// A lump of a WAD file: its name, where it starts in the file and how
/// many bytes it holds.
#[derive(Debug, Clone, Copy, PartialEq, Eq)]
pub struct lumpinfo_t {
    pub name: [u8; 8],
    pub position: u32,
    pub size: usize,
}

/// The little-endian unsigned 32-bit number at byte `at`.
pub open spec fn le_u32(data: Seq<u8>, at: int) -> int {
    data[at] as int + 256 * data[at + 1] as int + 65536 * data[at + 2] as int + 16777216 * data[at + 3] as int
}

fn read_u32(data: &[u8], at: usize) -> (r: u32)
    requires
        at + 4 <= data.len(),
    ensures
        r as int == le_u32(data@, at as int),
{
    data[at] as u32 + 256 * (data[at + 1] as u32) + 65536 * (data[at + 2] as u32) + 16777216 * (data[at + 3] as u32)
}

/// The file starts with "IWAD" or "PWAD".
pub open spec fn wad_id_ok(data: Seq<u8>) -> bool {
    &&& data[1] == 87 && data[2] == 65 && data[3] == 68
    &&& data[0] == 73 || data[0] == 80
}

/// The bytes hold a WAD header, and the directory it names lies within
/// them.
pub open spec fn wad_ok(data: Seq<u8>) -> bool {
    &&& data.len() >= 12
    &&& wad_id_ok(data)
    &&& le_u32(data, 8) + 16 * le_u32(data, 4) <= data.len()
}

/// Entry `e` is directory entry `k` of the WAD in `data`.
pub open spec fn entry_matches(e: lumpinfo_t, data: Seq<u8>, k: int) -> bool {
    let at = le_u32(data, 8) + 16 * k;
    &&& e.position == le_u32(data, at)
    &&& e.size == le_u32(data, at + 4)
    &&& e.name@ == data.subrange(at + 8, at + 16)
}

/// Reads the directory of a WAD file from its bytes: one entry per lump, in
/// order (see `entry_matches`). `None`, which stops the game, where the
/// file does not start with "IWAD" or "PWAD" or the directory does not
/// lie within it.
pub fn parse_wad_directory(bytes: &[u8]) -> (r: Option<Vec<lumpinfo_t>>)
    ensures
        r is Some <==> wad_ok(bytes@),
        r matches Some(v) ==> {
            &&& v.len() == le_u32(bytes@, 4)
            &&& forall|k: int| 0 <= k < v.len() ==> #[trigger] entry_matches(v@[k], bytes@, k)
        },
{
    if bytes.len() < 12 {
        return None;
    }
    if !((bytes[0] == 73 || bytes[0] == 80) && bytes[1] == 87 && bytes[2] == 65 && bytes[3] == 68) {
        return None;
    }
    let n = read_u32(bytes, 4);
    let ofs = read_u32(bytes, 8);
    if n as u64 * 16 + ofs as u64 > bytes.len() as u64 {
        return None;
    }
    let n = n as usize;
    let ofs = ofs as usize;
    let mut v: Vec<lumpinfo_t> = Vec::new();
    let mut k: usize = 0;
    while k < n
        invariant
            k <= n,
            n == le_u32(bytes@, 4),
            ofs == le_u32(bytes@, 8),
            ofs + 16 * n <= bytes.len(),
            v.len() == k,
            forall|j: int| 0 <= j < k ==> #[trigger] entry_matches(v@[j], bytes@, j),
        decreases n - k,
    {
        let at = ofs + 16 * k;
        let mut name: [u8; 8] = [0; 8];
        let mut c: usize = 0;
        while c < 8
            invariant
                c <= 8,
                at + 16 <= bytes.len(),
                forall|j: int| 0 <= j < c ==> #[trigger] name@[j] == bytes@[at + 8 + j],
            decreases 8 - c,
        {
            name[c] = bytes[at + 8 + c];
            c += 1;
        }
        let e = lumpinfo_t { name, position: read_u32(bytes, at), size: read_u32(bytes, at + 4) as usize };
        assert(e.name@ =~= bytes@.subrange(at + 8, at + 16));
        assert(entry_matches(e, bytes@, k as int));
        v.push(e);
        k += 1;
    }
    Some(v)
}

} // verus!
