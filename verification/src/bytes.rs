//! Byte-level helpers: byte order swaps, save buffer padding and lump
//! names from file names.

use vstd::prelude::*;

verus! {

/// The two bytes of `x` in the other order.
pub open spec fn swap16(x: u16) -> u16 {
    (((x & 0xff) << 8) | (x >> 8)) as u16
}

/// Swaps the most and least significant bytes of a 16-bit value.
pub fn SwapSHORT(x: u16) -> (r: u16)
    ensures
        r == swap16(x),
        r & 0xff == x >> 8,
        r >> 8 == x & 0xff,
{
    let r: u16 = ((x & 0xff) << 8) | (x >> 8);
    assert(((((x & 0xff) << 8) | (x >> 8)) as u16) & 0xff == x >> 8) by (bit_vector);
    assert(((((x & 0xff) << 8) | (x >> 8)) as u16) >> 8 == x & 0xff) by (bit_vector);
    r
}

/// The four bytes of `x` in reverse order.
pub open spec fn swap32(x: u32) -> u32 {
    ((x & 0xff) << 24) | (((x >> 8) & 0xff) << 16) | (((x >> 16) & 0xff) << 8) | (x >> 24)
}

/// Swaps the byte order of a 32-bit value.
pub fn SwapLONG(x: u32) -> (r: u32)
    ensures
        r == swap32(x),
        r & 0xff == x >> 24,
        (r >> 8) & 0xff == (x >> 16) & 0xff,
        (r >> 16) & 0xff == (x >> 8) & 0xff,
        r >> 24 == x & 0xff,
{
    let r = ((x & 0xff) << 24) | (((x >> 8) & 0xff) << 16) | (((x >> 16) & 0xff) << 8) | (x >> 24);
    assert(swap32(x) & 0xff == x >> 24) by (bit_vector);
    assert((swap32(x) >> 8) & 0xff == (x >> 16) & 0xff) by (bit_vector);
    assert((swap32(x) >> 16) & 0xff == (x >> 8) & 0xff) by (bit_vector);
    assert(swap32(x) >> 24 == x & 0xff) by (bit_vector);
    r
}

/// Swapping the bytes of a 16-bit value twice gives it back.
pub proof fn lemma_swap_short_involutive(x: u16)
    ensures
        swap16(swap16(x)) == x,
{
    assert(((((((x & 0xff) << 8) | (x >> 8)) as u16 & 0xff) << 8) | ((((x & 0xff) << 8) | (x
        >> 8)) as u16 >> 8)) as u16 == x) by (bit_vector);
}

/// Swapping the bytes of a 32-bit value twice gives it back.
pub proof fn lemma_swap_long_involutive(x: u32)
    ensures
        swap32(swap32(x)) == x,
{
    let y = swap32(x);
    assert(y == ((x & 0xff) << 24) | (((x >> 8) & 0xff) << 16) | (((x >> 16) & 0xff) << 8) | (x
        >> 24));
    assert(((y & 0xff) << 24) | (((y >> 8) & 0xff) << 16) | (((y >> 16) & 0xff) << 8) | (y >> 24)
        == x) by (bit_vector)
        requires
            y == ((x & 0xff) << 24) | (((x >> 8) & 0xff) << 16) | (((x >> 16) & 0xff) << 8) | (x
                >> 24),
    ;
}

/// Advances a save buffer offset to the next multiple of four.
pub fn PADSAVEP(p: usize) -> (r: usize)
    requires
        p <= usize::MAX - 3,
    ensures
        r % 4 == 0,
        p <= r < p + 4,
        p % 4 == 0 ==> r == p,
{
    let pad = (4 - p % 4) % 4;
    p + pad
}

/// The upper-case form of an ASCII letter; any other byte as it is.
pub open spec fn ascii_upper(c: u8) -> u8 {
    if 97 <= c <= 122 {
        (c - 32) as u8
    } else {
        c
    }
}

pub(crate) fn to_upper(c: u8) -> (r: u8)
    ensures
        r == ascii_upper(c),
{
    if c >= 97 && c <= 122 {
        c - 32
    } else {
        c
    }
}

/// How many bytes of the stem come before its first dot (all of them where
/// there is none).
pub open spec fn base_len(stem: Seq<u8>) -> nat
    decreases stem.len(),
{
    if stem.len() == 0 {
        0
    } else if stem[0] == 46 {
        0
    } else {
        1 + base_len(stem.drop_first())
    }
}

proof fn lemma_base_len(stem: Seq<u8>, i: int)
    requires
        0 <= i <= stem.len(),
        forall|j: int| 0 <= j < i ==> stem[j] != 46,
    ensures
        base_len(stem) >= i,
        i < stem.len() && stem[i] == 46 ==> base_len(stem) == i,
        i == stem.len() ==> base_len(stem) == i,
    decreases i,
{
    if i > 0 {
        assert forall|j: int| 0 <= j < i - 1 implies stem.drop_first()[j] != 46 by {
            assert(stem.drop_first()[j] == stem[j + 1]);
        }
        lemma_base_len(stem.drop_first(), i - 1);
        assert(stem[0] != 46);
        assert(stem.len() > 0);
        assert(base_len(stem) == 1 + base_len(stem.drop_first()));
        if i < stem.len() {
            assert(stem.drop_first()[i - 1] == stem[i]);
        }
    }
}

/// A directory separator, either way round.
pub open spec fn is_sep(c: u8) -> bool {
    c == 47 || c == 92
}

/// How much of the path is left once separators at its end are dropped.
pub open spec fn trimmed_len(path: Seq<u8>, n: int) -> int
    decreases n,
{
    if n <= 0 {
        0
    } else if is_sep(path[n - 1]) {
        trimmed_len(path, n - 1)
    } else {
        n
    }
}

/// Where the last component of `path[..n]` starts: just after its last
/// separator (0 where there is none).
pub open spec fn name_start(path: Seq<u8>, n: int) -> int
    decreases n,
{
    if n <= 0 {
        0
    } else if is_sep(path[n - 1]) {
        n
    } else {
        name_start(path, n - 1)
    }
}

/// The file name in a path: its last component.
pub open spec fn file_name(path: Seq<u8>) -> Seq<u8> {
    let t = trimmed_len(path, path.len() as int);
    path.subrange(name_start(path, t), t)
}

/// The lump name for a file: the bytes of its file name (see `file_name`;
/// the separator is `/` or `\\`) up to the first dot, upper-cased and padded
/// with zeros to eight. `None` where that part is longer than eight bytes.
pub fn ExtractFileBase(path: &[u8]) -> (r: Option<[u8; 8]>)
    ensures
        r is None <==> base_len(file_name(path@)) > 8,
        r matches Some(d) ==> forall|k: int|
            0 <= k < 8 ==> #[trigger] d[k] == if k < base_len(file_name(path@)) {
                ascii_upper(file_name(path@)[k])
            } else {
                0
            },
{
    let mut t: usize = path.len();
    while t > 0 && (path[t - 1] == 47 || path[t - 1] == 92)
        invariant
            t <= path.len(),
            trimmed_len(path@, path.len() as int) == trimmed_len(path@, t as int),
        decreases t,
    {
        t -= 1;
    }
    let mut start: usize = t;
    while start > 0 && !(path[start - 1] == 47 || path[start - 1] == 92)
        invariant
            start <= t,
            t <= path.len(),
            name_start(path@, t as int) == name_start(path@, start as int),
        decreases start,
    {
        start -= 1;
    }
    let ghost stem = path@.subrange(start as int, t as int);
    assert(stem == file_name(path@));
    let mut dest: [u8; 8] = [0; 8];
    let mut i: usize = 0;
    while i < t - start
        invariant
            start <= t <= path.len(),
            stem == path@.subrange(start as int, t as int),
            stem == file_name(path@),
            i <= t - start,
            i <= 8,
            forall|j: int| 0 <= j < i ==> stem[j] != 46,
            forall|k: int|
                0 <= k < 8 ==> #[trigger] dest@[k] == if k < i {
                    ascii_upper(stem[k])
                } else {
                    0
                },
        decreases t - start - i,
    {
        let c = path[start + i];
        assert(c == stem[i as int]);
        if c == 46 {
            proof {
                lemma_base_len(stem, i as int);
            }
            return Some(dest);
        }
        if i >= 8 {
            proof {
                lemma_base_len(stem, i as int + 1);
            }
            return None;
        }
        dest[i] = to_upper(c);
        i += 1;
    }
    proof {
        lemma_base_len(stem, i as int);
    }
    Some(dest)
}

} // verus!
