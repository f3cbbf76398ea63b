//! Looking up lumps of the WAD directory, flats and wall textures by their
//! eight-byte names.

use vstd::prelude::*;

use crate::bytes::{ascii_upper, to_upper};

verus! {

/// The lower-case form of an ASCII letter; any other byte as it is.
pub open spec fn ascii_lower(c: u8) -> u8 {
    if 65 <= c <= 90 {
        (c + 32) as u8
    } else {
        c
    }
}

fn to_lower(c: u8) -> (r: u8)
    ensures
        r == ascii_lower(c),
{
    if c >= 65 && c <= 90 {
        c + 32
    } else {
        c
    }
}

/// Byte `k` of `name` lies before its first zero byte.
pub open spec fn before_zero(name: Seq<u8>, k: int) -> bool {
    0 <= k < name.len() && forall|j: int| 0 <= j <= k ==> name[j] != 0
}

/// The key that a lump name is looked up by: the bytes of `name` before its
/// first zero, at most eight, in upper case, padded with zeros to eight.
pub open spec fn lump_key(name: Seq<u8>) -> Seq<u8> {
    Seq::new(8, |k: int| if before_zero(name, k) { ascii_upper(name[k]) } else { 0 })
}

/// Two names are equal to `strncasecmp` over eight bytes: they agree,
/// ignoring case, up to and including the first zero byte of `a`, or over
/// all eight bytes.
pub open spec fn names_match(a: Seq<u8>, b: Seq<u8>) -> bool {
    forall|k: int|
        0 <= k < 8 && (forall|j: int| 0 <= j < k ==> a[j] != 0) ==> #[trigger] ascii_lower(a[k])
            == ascii_lower(b[k])
}

/// The lump key of a name (see `lump_key`).
fn make_key(name: &[u8]) -> (key: [u8; 8])
    ensures
        key@ == lump_key(name@),
{
    let mut key: [u8; 8] = [0; 8];
    let mut i: usize = 0;
    while i < 8 && i < name.len() && name[i] != 0
        invariant
            i <= 8,
            i <= name.len(),
            forall|j: int| 0 <= j < i ==> name@[j] != 0,
            forall|k: int|
                0 <= k < 8 ==> #[trigger] key@[k] == if k < i {
                    ascii_upper(name@[k])
                } else {
                    0
                },
        decreases 8 - i,
    {
        key[i] = to_upper(name[i]);
        i += 1;
    }
    assert forall|k: int| 0 <= k < 8 implies #[trigger] key@[k] == lump_key(name@)[k] by {
        if k < i {
            assert(before_zero(name@, k));
        } else {
            assert(!before_zero(name@, k));
        }
    }
    assert(key@ =~= lump_key(name@));
    key
}

/// Whether two eight-byte names are the same bytes.
fn same_name(a: &[u8; 8], b: &[u8; 8]) -> (r: bool)
    ensures
        r == (a@ == b@),
{
    let mut k: usize = 0;
    while k < 8
        invariant
            k <= 8,
            a@.len() == 8,
            b@.len() == 8,
            forall|j: int| 0 <= j < k ==> a@[j] == b@[j],
        decreases 8 - k,
    {
        if a[k] != b[k] {
            return false;
        }
        k += 1;
    }
    assert(a@ =~= b@);
    true
}

/// Whether two names are equal to `strncasecmp` over eight bytes.
fn match_names(a: &[u8; 8], b: &[u8; 8]) -> (r: bool)
    ensures
        r == names_match(a@, b@),
{
    let mut k: usize = 0;
    while k < 8
        invariant
            k <= 8,
            a@.len() == 8,
            b@.len() == 8,
            forall|j: int| 0 <= j < k ==> a@[j] != 0,
            forall|j: int| 0 <= j < k ==> ascii_lower(a@[j]) == ascii_lower(b@[j]),
        decreases 8 - k,
    {
        let c1 = to_lower(a[k]);
        let c2 = to_lower(b[k]);
        if c1 != c2 {
            return false;
        }
        if c1 == 0 {
            assert forall|m: int|
                0 <= m < 8 && (forall|j: int| 0 <= j < m ==> a@[j] != 0) implies #[trigger] ascii_lower(
                a@[m],
            ) == ascii_lower(b@[m]) by {
                if m > k {
                    assert(a@[k as int] != 0);
                }
            }
            return true;
        }
        k += 1;
    }
    true
}

/// The index of the last of the first `n` lumps whose name is `key`; -1
/// where there is none.
pub open spec fn last_match(lumps: Seq<[u8; 8]>, key: Seq<u8>, n: int) -> int
    decreases n,
{
    if n <= 0 {
        -1
    } else if lumps[n - 1]@ == key {
        n - 1
    } else {
        last_match(lumps, key, n - 1)
    }
}

/// The index of the first texture from `i` on whose name matches `name`
/// (see `names_match`); -1 where there is none.
pub open spec fn first_match(textures: Seq<[u8; 8]>, name: Seq<u8>, i: int) -> int
    decreases textures.len() - i,
{
    if i < 0 || i >= textures.len() {
        -1
    } else if names_match(textures[i]@, name) {
        i
    } else {
        first_match(textures, name, i + 1)
    }
}

/// The number of the lump named `name` in the directory `lumps`, if any.
pub open spec fn lump_num(lumps: Seq<[u8; 8]>, name: Seq<u8>) -> int {
    last_match(lumps, lump_key(name), lumps.len() as int)
}

/// The number of the wall texture named `name`: 0 for the no-texture name,
/// whose first byte is `-`; -1 where no texture has the name.
pub open spec fn texture_num(textures: Seq<[u8; 8]>, name: Seq<u8>) -> int {
    if name[0] == 45 {
        0
    } else {
        first_match(textures, name, 0)
    }
}

/// The number of the flat named `name`: its lump number counted from the
/// first flat lump `firstflat`; `None` where there is no such lump or it
/// lies before the flats.
pub open spec fn flat_num(lumps: Seq<[u8; 8]>, firstflat: int, name: Seq<u8>) -> Option<int> {
    let i = lump_num(lumps, name);
    if i >= 0 && i >= firstflat {
        Some(i - firstflat)
    } else {
        None
    }
}

proof fn lemma_last_match_skip(lumps: Seq<[u8; 8]>, key: Seq<u8>, i: int, n: int)
    requires
        0 <= i <= n <= lumps.len(),
        forall|j: int| i <= j < n ==> #[trigger] lumps[j]@ != key,
    ensures
        last_match(lumps, key, n) == last_match(lumps, key, i),
    decreases n - i,
{
    if n > i {
        lemma_last_match_skip(lumps, key, i, n - 1);
    }
}

proof fn lemma_last_match_range(lumps: Seq<[u8; 8]>, key: Seq<u8>, n: int)
    requires
        0 <= n <= lumps.len(),
    ensures
        -1 <= last_match(lumps, key, n) < n,
    decreases n,
{
    if n > 0 {
        lemma_last_match_range(lumps, key, n - 1);
    }
}

proof fn lemma_first_match_range(textures: Seq<[u8; 8]>, name: Seq<u8>, i: int)
    requires
        0 <= i,
    ensures
        first_match(textures, name, i) == -1 || i <= first_match(textures, name, i)
            < textures.len(),
    decreases textures.len() - i,
{
    if i < textures.len() {
        lemma_first_match_range(textures, name, i + 1);
    }
}

/// The number of the lump named `name` in the directory `lumps`: the last
/// lump whose name is the name's key (see `lump_key`), so that lumps added
/// later take precedence; `None` where no lump has that name.
pub fn W_CheckNumForName(lumps: &Vec<[u8; 8]>, name: &[u8]) -> (r: Option<usize>)
    ensures
        r == (if lump_num(lumps@, name@) >= 0 {
            Some(lump_num(lumps@, name@) as usize)
        } else {
            None
        }),
        r matches Some(i) ==> i < lumps.len() && lumps@[i as int]@ == lump_key(name@),
{
    let key = make_key(name);
    let mut i: usize = lumps.len();
    while i > 0
        invariant
            i <= lumps.len(),
            key@ == lump_key(name@),
            forall|j: int| i <= j < lumps.len() ==> #[trigger] lumps@[j]@ != lump_key(name@),
        decreases i,
    {
        i -= 1;
        if same_name(&lumps[i], &key) {
            proof {
                lemma_last_match_skip(lumps@, key@, i + 1, lumps.len() as int);
            }
            return Some(i);
        }
    }
    proof {
        lemma_last_match_skip(lumps@, key@, 0, lumps.len() as int);
    }
    None
}

/// The number of the wall texture named `name` among `textures` (see
/// `texture_num`): the first texture whose name matches, ignoring case.
pub fn R_CheckTextureNumForName(textures: &Vec<[u8; 8]>, name: &[u8; 8]) -> (r: i32)
    requires
        textures.len() <= i32::MAX,
    ensures
        r == texture_num(textures@, name@),
        r == -1 || 0 <= r < textures.len() || r == 0,
{
    if name[0] == 45 {
        return 0;
    }
    let mut i: usize = 0;
    while i < textures.len()
        invariant
            i <= textures.len(),
            textures.len() <= i32::MAX,
            name@[0] != 45,
            first_match(textures@, name@, 0) == first_match(textures@, name@, i as int),
        decreases textures.len() - i,
    {
        if match_names(&textures[i], name) {
            return i as i32;
        }
        i += 1;
    }
    -1
}

/// The number of the wall texture named `name` (see `texture_num`); `None`
/// where there is no such texture, which stops the game.
pub fn R_TextureNumForName(textures: &Vec<[u8; 8]>, name: &[u8; 8]) -> (r: Option<usize>)
    requires
        textures.len() <= i32::MAX,
    ensures
        r == (if texture_num(textures@, name@) >= 0 {
            Some(texture_num(textures@, name@) as usize)
        } else {
            None
        }),
        -1 <= texture_num(textures@, name@) <= i32::MAX,
{
    proof {
        lemma_first_match_range(textures@, name@, 0);
    }
    let i = R_CheckTextureNumForName(textures, name);
    if i == -1 {
        None
    } else {
        Some(i as usize)
    }
}

/// The number of the flat named `name` (see `flat_num`); `None`, which
/// stops the game, where there is no such flat.
pub fn R_FlatNumForName(lumps: &Vec<[u8; 8]>, firstflat: usize, name: &[u8]) -> (r: Option<
    usize,
>)
    ensures
        r == (match flat_num(lumps@, firstflat as int, name@) {
            Some(f) => Some(f as usize),
            None => None,
        }),
        flat_num(lumps@, firstflat as int, name@) matches Some(f) ==> 0 <= f && firstflat + f
            < lumps.len(),
{
    proof {
        lemma_last_match_range(lumps@, lump_key(name@), lumps.len() as int);
    }
    match W_CheckNumForName(lumps, name) {
        Some(i) => {
            if i < firstflat {
                None
            } else {
                Some(i - firstflat)
            }
        },
        None => None,
    }
}

} // verus!
