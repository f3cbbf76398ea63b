//! Map geometry: which side of a partition line a point lies on,
//! line intercepts, distance estimates and the scale of a wall seen at an
//! angle, all in 16.16 fixed point.

use vstd::prelude::*;

use crate::fixed::{FixedDiv, FixedMul, fixed_div_spec, fixed_mul_exact, fixed_t, lemma_xor_sign};

verus! {

/// The side of a partition line.
#[derive(Debug, Clone, Copy, PartialEq, Eq, Structural)]
pub enum Side {
    Front,
    Back,
}

impl Side {
    /// The opposite side, as a value.
    pub open spec fn opposite(self) -> Side {
        match self {
            Side::Front => Side::Back,
            Side::Back => Side::Front,
        }
    }

    /// The opposite side.
    pub fn flip(self) -> (r: Self)
        ensures
            r == self.opposite(),
            r != self,
    {
        match self {
            Side::Front => Side::Back,
            Side::Back => Side::Front,
        }
    }

    /// Index of the side in a two-element array: 0 for front, 1 for back.
    pub fn index(self) -> (r: usize)
        ensures
            r == (if self == Side::Front { 0usize } else { 1usize }),
    {
        match self {
            Side::Front => 0,
            Side::Back => 1,
        }
    }
}

/// Flipping a side twice gives the side back.
pub proof fn lemma_flip_involutive(s: Side)
    ensures
        s.opposite().opposite() == s,
{
}

/// A map vertex.
#[derive(Debug, Clone, Copy, PartialEq, Eq, Structural)]
pub struct Vertex {
    pub x: fixed_t,
    pub y: fixed_t,
}

/// A BSP node: a partition line from (x, y) along (dx, dy), with the
/// bounding boxes and child numbers of its two subtrees.
#[derive(Debug, Clone, Copy)]
pub struct node_t {
    pub x: fixed_t,
    pub y: fixed_t,
    pub dx: fixed_t,
    pub dy: fixed_t,
    pub bbox: [[fixed_t; 4]; 2],
    pub children: [u16; 2],
}

/// A directed line from (x, y) along (dx, dy).
#[derive(Debug, Clone, Copy, PartialEq, Eq, Structural)]
pub struct divline_t {
    pub x: fixed_t,
    pub y: fixed_t,
    pub dx: fixed_t,
    pub dy: fixed_t,
}

/// The orientation class of a line.
#[derive(Debug, Clone, Copy, PartialEq, Eq, Structural)]
pub enum slopetype_t {
    ST_HORIZONTAL,
    ST_VERTICAL,
    ST_POSITIVE,
    ST_NEGATIVE,
}

/// The geometry of a map line: its first vertex, its direction and slope class.
#[derive(Debug, Clone, Copy, PartialEq, Eq, Structural)]
pub struct LineGeom {
    pub v1: Vertex,
    pub dx: fixed_t,
    pub dy: fixed_t,
    pub slopetype: slopetype_t,
}

/// Indices into a bounding box.
pub const BOXTOP: usize = 0;
pub const BOXBOTTOM: usize = 1;
pub const BOXLEFT: usize = 2;
pub const BOXRIGHT: usize = 3;

/// Whether `v` fits in a 32-bit signed integer.
pub open spec fn fits_i32(v: int) -> bool {
    i32::MIN <= v <= i32::MAX
}

/// Arithmetic right shift by 16 bits (rounds towards negative infinity).
pub open spec fn shr16(a: int) -> int {
    a / 65536
}

/// Arithmetic right shift by 8 bits.
pub open spec fn shr8(a: int) -> int {
    a / 256
}

/// A fixed-point product truncated to 32 bits, as `FixedMul` computes it.
pub open spec fn fmul(a: int, b: int) -> int {
    (fixed_mul_exact(a, b) as i32) as int
}

/// An odd number of the four values is negative.
pub open spec fn odd_negatives(a: int, b: int, c: int, d: int) -> bool {
    ((a < 0) != (b < 0)) != ((c < 0) != (d < 0))
}

pub(crate) proof fn lemma_shr16(a: i32)
    ensures
        (a >> 16u32) as int == shr16(a as int),
        -32768 <= (a >> 16u32) <= 32767,
{
    assert(a >> 16u32 == a / 65536) by (bit_vector);
    assert(-32768 <= (a >> 16u32) <= 32767) by (bit_vector);
}

proof fn lemma_shr8(a: i32)
    ensures
        (a >> 8u32) as int == shr8(a as int),
{
    assert(a >> 8u32 == a / 256) by (bit_vector);
}

proof fn lemma_xor4_sign(a: i32, b: i32, c: i32, d: i32)
    ensures
        ((a ^ b ^ c ^ d) < 0) == odd_negatives(a as int, b as int, c as int, d as int),
{
    lemma_xor_sign(a, b);
    lemma_xor_sign(a ^ b, c);
    lemma_xor_sign(a ^ b ^ c, d);
}

/// The side of the partition line of `node` that (x, y) is on.
pub open spec fn point_on_node_side(x: int, y: int, node: node_t) -> Side {
    if node.dx == 0 {
        if (x <= node.x && node.dy > 0) || (x > node.x && node.dy < 0) { Side::Back } else { Side::Front }
    } else if node.dy == 0 {
        if (y <= node.y && node.dx < 0) || (y > node.y && node.dx > 0) { Side::Back } else { Side::Front }
    } else {
        let dx = x - node.x;
        let dy = y - node.y;
        if odd_negatives(node.dy as int, node.dx as int, dx, dy) {
            // the sign of the cross product follows from the signs alone
            if (node.dy < 0) != (dx < 0) { Side::Back } else { Side::Front }
        } else if fmul(dy, shr16(node.dx as int)) >= fmul(shr16(node.dy as int), dx) {
            Side::Back
        } else {
            Side::Front
        }
    }
}

/// Reversing an axis-aligned partition line swaps its sides: a point off a
/// vertical or horizontal partition is in front of it exactly where it is
/// behind the same line running the other way.
pub proof fn lemma_reversed_axis_node(x: int, y: int, node: node_t, rev: node_t)
    requires
        rev.x == node.x,
        rev.y == node.y,
        rev.dx == -node.dx,
        rev.dy == -node.dy,
        (node.dx == 0 && node.dy != 0 && x != node.x) || (node.dy == 0 && node.dx != 0 && y != node.y),
    ensures
        point_on_node_side(x, y, rev) == point_on_node_side(x, y, node).opposite(),
{
}

/// The cross product of the partition's direction (in whole map units, as
/// the renderer takes it) with the way from the partition's start to
/// (x, y): positive where the point lies to the right of the partition.
pub open spec fn node_cross(x: int, y: int, node: node_t) -> int {
    shr16(node.dy as int) * (x - node.x) - (y - node.y) * shr16(node.dx as int)
}

proof fn lemma_fmul_exact(p: int, q: int)
    requires
        -32768 <= p <= 32767,
        fits_i32(q),
    ensures
        fmul(p, q) == (p * q) / 65536,
        fmul(q, p) == (q * p) / 65536,
{
    assert(-0x4000_0000_0000 <= p * q <= 0x4000_0000_0000) by (nonlinear_arith)
        requires
            -32768 <= p <= 32767,
            fits_i32(q),
    ;
    assert(p * q == q * p) by (nonlinear_arith);
    let v = p * q;
    assert(-0x4000_0000 <= v / 65536 <= 0x4000_0000) by (nonlinear_arith)
        requires
            -0x4000_0000_0000 <= v <= 0x4000_0000_0000,
    ;
}

proof fn lemma_shr16_range(a: int)
    requires
        fits_i32(a),
    ensures
        -32768 <= shr16(a) <= 32767,
        a < 0 <==> shr16(a) < 0,
{
}

/// A point on the right of any partition, by more than the rounding of the
/// renderer's test, is in front of it; a point on its left is behind it.
/// (Seen along the partition's direction, front is to the right.)
pub proof fn lemma_point_on_node_side_by_cross(x: int, y: int, node: node_t)
    requires
        fits_i32(x - node.x),
        fits_i32(y - node.y),
    ensures
        node_cross(x, y, node) >= 65536 ==> point_on_node_side(x, y, node) == Side::Front,
        node_cross(x, y, node) < 0 ==> point_on_node_side(x, y, node) == Side::Back,
{
    let a = shr16(node.dy as int);
    let b = shr16(node.dx as int);
    let dx = x - node.x;
    let dy = y - node.y;
    lemma_shr16_range(node.dy as int);
    lemma_shr16_range(node.dx as int);
    lemma_fmul_exact(a, dx);
    lemma_fmul_exact(b, dy);
    let c = node_cross(x, y, node);
    assert(c == a * dx - dy * b);
    if node.dx == 0 {
        assert(b == 0);
        assert(c == a * dx) by (nonlinear_arith)
            requires
                c == a * dx - dy * b,
                b == 0,
        ;
        if node.dy > 0 {
            assert(a >= 0);
            assert(dx <= 0 ==> a * dx <= 0) by (nonlinear_arith)
                requires
                    a >= 0,
            ;
            assert(dx > 0 ==> a * dx >= 0) by (nonlinear_arith)
                requires
                    a >= 0,
            ;
        } else if node.dy < 0 {
            assert(dx > 0 ==> a * dx < 0) by (nonlinear_arith)
                requires
                    a < 0,
            ;
            assert(dx <= 0 ==> a * dx >= 0) by (nonlinear_arith)
                requires
                    a < 0,
            ;
        } else {
            assert(a == 0);
            assert(a * dx == 0) by (nonlinear_arith)
                requires
                    a == 0,
            ;
        }
    } else if node.dy == 0 {
        assert(a == 0);
        assert(c == -(dy * b)) by (nonlinear_arith)
            requires
                c == a * dx - dy * b,
                a == 0,
        ;
        if node.dx > 0 {
            assert(dy <= 0 ==> dy * b <= 0) by (nonlinear_arith)
                requires
                    b >= 0,
            ;
            assert(dy > 0 ==> dy * b >= 0) by (nonlinear_arith)
                requires
                    b >= 0,
            ;
        } else {
            assert(dy > 0 ==> dy * b < 0) by (nonlinear_arith)
                requires
                    b < 0,
            ;
            assert(dy <= 0 ==> dy * b >= 0) by (nonlinear_arith)
                requires
                    b < 0,
            ;
        }
    } else if odd_negatives(node.dy as int, node.dx as int, dx, dy) {
        if (node.dy < 0) != (dx < 0) {
            assert(a * dx <= 0) by (nonlinear_arith)
                requires
                    (a < 0) != (dx < 0),
            ;
            assert(dy * b >= 0) by (nonlinear_arith)
                requires
                    (b < 0) == (dy < 0),
            ;
        } else {
            assert(a * dx >= 0) by (nonlinear_arith)
                requires
                    (a < 0) == (dx < 0),
            ;
            assert(dy * b <= 0) by (nonlinear_arith)
                requires
                    (b < 0) != (dy < 0),
            ;
        }
    } else {
        assert(c >= 65536 ==> (a * dx) / 65536 > (dy * b) / 65536) by (nonlinear_arith)
            requires
                c == a * dx - dy * b,
        ;
        assert(c < 0 ==> (a * dx) / 65536 <= (dy * b) / 65536) by (nonlinear_arith)
            requires
                c == a * dx - dy * b,
        ;
    }
}

/// Traverse BSP (sub) tree: check point against partition plane.
pub fn R_PointOnSide(x: fixed_t, y: fixed_t, node: &node_t) -> (r: Side)
    requires
        fits_i32(x - node.x),
        fits_i32(y - node.y),
    ensures
        r == point_on_node_side(x as int, y as int, *node),
{
    if node.dx == 0 {
        if x <= node.x && node.dy > 0 || x > node.x && node.dy < 0 {
            return Side::Back;
        } else {
            return Side::Front;
        }
    }
    if node.dy == 0 {
        if y <= node.y && node.dx < 0 || y > node.y && node.dx > 0 {
            return Side::Back;
        } else {
            return Side::Front;
        }
    }
    let dx = x - node.x;
    let dy = y - node.y;
    proof {
        lemma_xor4_sign(node.dy, node.dx, dx, dy);
        lemma_xor_sign(node.dy, dx);
        lemma_shr16(node.dy);
        lemma_shr16(node.dx);
    }
    if node.dy ^ node.dx ^ dx ^ dy < 0 {
        if node.dy ^ dx < 0 {
            return Side::Back;
        } else {
            return Side::Front;
        }
    }
    let left = FixedMul(node.dy >> 16u32, dx);
    let right = FixedMul(dy, node.dx >> 16u32);
    if right >= left {
        Side::Back
    } else {
        Side::Front
    }
}

/// The side of the line from `v1` to `v2` that (x, y) is on:
/// 0 for front, 1 for back.
pub open spec fn point_on_seg_side(x: int, y: int, v1: Vertex, v2: Vertex) -> int {
    let lx = v1.x as int;
    let ly = v1.y as int;
    let ldx = v2.x - lx;
    let ldy = v2.y - ly;
    if ldx == 0 {
        if (if x <= lx { ldy > 0 } else { ldy < 0 }) { 1 } else { 0 }
    } else if ldy == 0 {
        if (if y <= ly { ldx < 0 } else { ldx > 0 }) { 1 } else { 0 }
    } else {
        let dx = x - lx;
        let dy = y - ly;
        if odd_negatives(ldy, ldx, dx, dy) {
            if (ldy < 0) != (dx < 0) { 1 } else { 0 }
        } else if fmul(dy, shr16(ldx)) >= fmul(shr16(ldy), dx) {
            1
        } else {
            0
        }
    }
}

/// The side of a wall segment running from `v1` to `v2` that (x, y) is on:
/// 0 for front, 1 for back.
pub fn R_PointOnSegSide(x: fixed_t, y: fixed_t, v1: &Vertex, v2: &Vertex) -> (r: i32)
    requires
        fits_i32(v2.x - v1.x),
        fits_i32(v2.y - v1.y),
        fits_i32(x - v1.x),
        fits_i32(y - v1.y),
    ensures
        r as int == point_on_seg_side(x as int, y as int, *v1, *v2),
        r == 0 || r == 1,
{
    let lx = v1.x;
    let ly = v1.y;
    let ldx = v2.x - lx;
    let ldy = v2.y - ly;
    if ldx == 0 {
        return if (if x <= lx { ldy > 0 } else { ldy < 0 }) { 1 } else { 0 };
    }
    if ldy == 0 {
        return if (if y <= ly { ldx < 0 } else { ldx > 0 }) { 1 } else { 0 };
    }
    let dx = x - lx;
    let dy = y - ly;
    proof {
        lemma_xor4_sign(ldy, ldx, dx, dy);
        lemma_xor_sign(ldy, dx);
        lemma_shr16(ldy);
        lemma_shr16(ldx);
    }
    if ldy ^ ldx ^ dx ^ dy < 0 {
        return if ldy ^ dx < 0 { 1 } else { 0 };
    }
    let left = FixedMul(ldy >> 16u32, dx);
    let right = FixedMul(dy, ldx >> 16u32);
    if right >= left { 1 } else { 0 }
}

/// The distance estimate `|dx| + |dy| - min(|dx|, |dy|) / 2`.
pub open spec fn aprox_distance(dx: int, dy: int) -> int {
    let ax = if dx < 0 { -dx } else { dx };
    let ay = if dy < 0 { -dy } else { dy };
    let m = if ax < ay { ax } else { ay };
    ax + ay - m / 2
}

/// Gives an estimation of distance (not exact).
pub fn P_AproxDistance(dx: fixed_t, dy: fixed_t) -> (r: fixed_t)
    requires
        dx != i32::MIN,
        dy != i32::MIN,
        fits_i32((if dx < 0 { -dx } else { dx as int }) + (if dy < 0 { -dy } else { dy as int })),
    ensures
        r as int == aprox_distance(dx as int, dy as int),
{
    let dx = if dx < 0 { -dx } else { dx };
    let dy = if dy < 0 { -dy } else { dy };
    let m = if dx < dy { dx } else { dy };
    proof {
        assert(m >> 1u32 == m / 2) by (bit_vector);
    }
    dx + dy - (m >> 1u32)
}

/// The side of `line` that (x, y) is on: false for front, true for back.
pub open spec fn point_on_line_side(x: int, y: int, line: LineGeom) -> bool {
    if line.dx == 0 {
        if x <= line.v1.x { line.dy > 0 } else { line.dy < 0 }
    } else if line.dy == 0 {
        if y <= line.v1.y { line.dx < 0 } else { line.dx > 0 }
    } else {
        let dx = x - line.v1.x;
        let dy = y - line.v1.y;
        fmul(dy, shr16(line.dx as int)) >= fmul(shr16(line.dy as int), dx)
    }
}

proof fn lemma_cross_facts(a: int, b: int, dx: int, dy: int)
    requires
        -32768 <= a <= 32767,
        -32768 <= b <= 32767,
        fits_i32(dx),
        fits_i32(dy),
    ensures
        a >= 0 && dx <= 0 ==> a * dx <= 0,
        a >= 0 && dx > 0 ==> a * dx >= 0,
        a < 0 && dx > 0 ==> a * dx < 0,
        a < 0 && dx <= 0 ==> a * dx >= 0,
        b >= 0 && dy <= 0 ==> dy * b <= 0,
        b >= 0 && dy > 0 ==> dy * b >= 0,
        b < 0 && dy > 0 ==> dy * b < 0,
        b < 0 && dy <= 0 ==> dy * b >= 0,
        a == 0 ==> a * dx == 0,
        b == 0 ==> dy * b == 0,
        a * dx - dy * b >= 65536 ==> !(fmul(dy, b) >= fmul(a, dx)),
        a * dx - dy * b < 0 ==> fmul(dy, b) >= fmul(a, dx),
{
    lemma_fmul_exact(a, dx);
    lemma_fmul_exact(b, dy);
    assert(a >= 0 && dx <= 0 ==> a * dx <= 0) by (nonlinear_arith);
    assert(a >= 0 && dx > 0 ==> a * dx >= 0) by (nonlinear_arith);
    assert(a < 0 && dx > 0 ==> a * dx < 0) by (nonlinear_arith);
    assert(a < 0 && dx <= 0 ==> a * dx >= 0) by (nonlinear_arith);
    assert(b >= 0 && dy <= 0 ==> dy * b <= 0) by (nonlinear_arith);
    assert(b >= 0 && dy > 0 ==> dy * b >= 0) by (nonlinear_arith);
    assert(b < 0 && dy > 0 ==> dy * b < 0) by (nonlinear_arith);
    assert(b < 0 && dy <= 0 ==> dy * b >= 0) by (nonlinear_arith);
    assert(a == 0 ==> a * dx == 0) by (nonlinear_arith);
    assert(b == 0 ==> dy * b == 0) by (nonlinear_arith);
    let p = a * dx;
    let q = dy * b;
    assert(p - q >= 65536 ==> p / 65536 > q / 65536) by (nonlinear_arith);
    assert(p - q < 0 ==> p / 65536 <= q / 65536) by (nonlinear_arith);
}

/// The cross product of a line's direction (in whole map units) with the
/// way from its first vertex to (x, y): positive to the right of the line.
pub open spec fn line_cross(x: int, y: int, line: LineGeom) -> int {
    shr16(line.dy as int) * (x - line.v1.x) - (y - line.v1.y) * shr16(line.dx as int)
}

/// A point to the right of a line, by more than the rounding of the test,
/// is on its front side; a point to its left is on its back side.
pub proof fn lemma_point_on_line_side_by_cross(x: int, y: int, line: LineGeom)
    requires
        fits_i32(x - line.v1.x),
        fits_i32(y - line.v1.y),
    ensures
        line_cross(x, y, line) >= 65536 ==> !point_on_line_side(x, y, line),
        line_cross(x, y, line) < 0 ==> point_on_line_side(x, y, line),
{
    lemma_shr16_range(line.dy as int);
    lemma_shr16_range(line.dx as int);
    lemma_cross_facts(shr16(line.dy as int), shr16(line.dx as int), x - line.v1.x, y - line.v1.y);
}

/// The cross product of a seg's direction (in whole map units) with the
/// way from its first vertex to (x, y).
pub open spec fn seg_cross(x: int, y: int, v1: Vertex, v2: Vertex) -> int {
    shr16(v2.y - v1.y) * (x - v1.x) - (y - v1.y) * shr16(v2.x - v1.x)
}

/// A point to the right of a seg, by more than the rounding of the test,
/// is on its front side (0); a point to its left is on its back side (1).
pub proof fn lemma_point_on_seg_side_by_cross(x: int, y: int, v1: Vertex, v2: Vertex)
    requires
        fits_i32(x - v1.x),
        fits_i32(y - v1.y),
        fits_i32(v2.x - v1.x),
        fits_i32(v2.y - v1.y),
    ensures
        seg_cross(x, y, v1, v2) >= 65536 ==> point_on_seg_side(x, y, v1, v2) == 0,
        seg_cross(x, y, v1, v2) < 0 ==> point_on_seg_side(x, y, v1, v2) == 1,
{
    lemma_shr16_range(v2.y - v1.y);
    lemma_shr16_range(v2.x - v1.x);
    lemma_cross_facts(shr16(v2.y - v1.y), shr16(v2.x - v1.x), x - v1.x, y - v1.y);
}

/// Whether (x, y) lies on the back side of `line` (false: front side).
pub fn P_PointOnLineSide(x: fixed_t, y: fixed_t, line: &LineGeom) -> (r: bool)
    requires
        fits_i32(x - line.v1.x),
        fits_i32(y - line.v1.y),
    ensures
        r == point_on_line_side(x as int, y as int, *line),
{
    if line.dx == 0 {
        if x <= line.v1.x {
            return line.dy > 0;
        } else {
            return line.dy < 0;
        }
    }
    if line.dy == 0 {
        if y <= line.v1.y {
            return line.dx < 0;
        } else {
            return line.dx > 0;
        }
    }
    let dx = x - line.v1.x;
    let dy = y - line.v1.y;
    proof {
        lemma_shr16(line.dy);
        lemma_shr16(line.dx);
    }
    let left = FixedMul(line.dy >> 16u32, dx);
    let right = FixedMul(dy, line.dx >> 16u32);
    right >= left
}

/// Every corner of the box can be tested against `line` without overflow.
pub open spec fn box_fits_line(tmbox: Seq<fixed_t>, line: LineGeom) -> bool {
    &&& tmbox.len() >= 4
    &&& fits_i32(tmbox[BOXLEFT as int] - line.v1.x)
    &&& fits_i32(tmbox[BOXRIGHT as int] - line.v1.x)
    &&& fits_i32(tmbox[BOXTOP as int] - line.v1.y)
    &&& fits_i32(tmbox[BOXBOTTOM as int] - line.v1.y)
}

/// The two corner tests of a box against a line: `(p1, p2)`.
pub open spec fn box_corner_sides(tmbox: Seq<fixed_t>, line: LineGeom) -> (bool, bool) {
    let top = tmbox[BOXTOP as int] as int;
    let bottom = tmbox[BOXBOTTOM as int] as int;
    let left = tmbox[BOXLEFT as int] as int;
    let right = tmbox[BOXRIGHT as int] as int;
    match line.slopetype {
        slopetype_t::ST_HORIZONTAL => {
            let p1 = top > line.v1.y;
            let p2 = bottom > line.v1.y;
            if line.dx < 0 { (!p1, !p2) } else { (p1, p2) }
        },
        slopetype_t::ST_VERTICAL => {
            let p1 = right < line.v1.x;
            let p2 = left < line.v1.x;
            if line.dy < 0 { (!p1, !p2) } else { (p1, p2) }
        },
        slopetype_t::ST_POSITIVE => (
            point_on_line_side(left, top, line),
            point_on_line_side(right, bottom, line),
        ),
        slopetype_t::ST_NEGATIVE => (
            point_on_line_side(right, top, line),
            point_on_line_side(left, bottom, line),
        ),
    }
}

/// Considers the line to be infinite. Returns the side the whole box is on,
/// or `None` if the box crosses the line.
pub fn P_BoxOnLineSide(tmbox: &[fixed_t], ld: &LineGeom) -> (r: Option<bool>)
    requires
        box_fits_line(tmbox@, *ld),
    ensures
        ({
            let (p1, p2) = box_corner_sides(tmbox@, *ld);
            r == (if p1 == p2 { Some(p1) } else { None::<bool> })
        }),
{
    let mut p1;
    let mut p2;
    match ld.slopetype {
        slopetype_t::ST_HORIZONTAL => {
            p1 = tmbox[BOXTOP] > ld.v1.y;
            p2 = tmbox[BOXBOTTOM] > ld.v1.y;
            if ld.dx < 0 {
                p1 = !p1;
                p2 = !p2;
            }
        },
        slopetype_t::ST_VERTICAL => {
            p1 = tmbox[BOXRIGHT] < ld.v1.x;
            p2 = tmbox[BOXLEFT] < ld.v1.x;
            if ld.dy < 0 {
                p1 = !p1;
                p2 = !p2;
            }
        },
        slopetype_t::ST_POSITIVE => {
            p1 = P_PointOnLineSide(tmbox[BOXLEFT], tmbox[BOXTOP], ld);
            p2 = P_PointOnLineSide(tmbox[BOXRIGHT], tmbox[BOXBOTTOM], ld);
        },
        slopetype_t::ST_NEGATIVE => {
            p1 = P_PointOnLineSide(tmbox[BOXRIGHT], tmbox[BOXTOP], ld);
            p2 = P_PointOnLineSide(tmbox[BOXLEFT], tmbox[BOXBOTTOM], ld);
        },
    }
    if p1 == p2 {
        Some(p1)
    } else {
        None
    }
}

/// The side of divline `line` that (x, y) is on: false front, true back.
pub open spec fn point_on_divline_side(x: int, y: int, line: divline_t) -> bool {
    if line.dx == 0 {
        if x <= line.x { line.dy > 0 } else { line.dy < 0 }
    } else if line.dy == 0 {
        if y <= line.y { line.dx < 0 } else { line.dx > 0 }
    } else {
        let dx = x - line.x;
        let dy = y - line.y;
        if odd_negatives(line.dy as int, line.dx as int, dx, dy) {
            (line.dy < 0) != (dx < 0)
        } else {
            fmul(shr8(dy), shr8(line.dx as int)) >= fmul(shr8(line.dy as int), shr8(dx))
        }
    }
}

/// Whether (x, y) lies on the back side of the divline (false: front side).
pub fn P_PointOnDivlineSide(x: fixed_t, y: fixed_t, line: &divline_t) -> (r: bool)
    requires
        fits_i32(x - line.x),
        fits_i32(y - line.y),
    ensures
        r == point_on_divline_side(x as int, y as int, *line),
{
    if line.dx == 0 {
        if x <= line.x {
            return line.dy > 0;
        } else {
            return line.dy < 0;
        }
    }
    if line.dy == 0 {
        if y <= line.y {
            return line.dx < 0;
        } else {
            return line.dx > 0;
        }
    }
    let dx = x - line.x;
    let dy = y - line.y;
    proof {
        lemma_xor4_sign(line.dy, line.dx, dx, dy);
        lemma_xor_sign(line.dy, dx);
        lemma_shr8(line.dy);
        lemma_shr8(line.dx);
        lemma_shr8(dx);
        lemma_shr8(dy);
    }
    if (line.dy ^ line.dx ^ dx ^ dy) < 0 {
        return (line.dy ^ dx) < 0;
    }
    let left = FixedMul(line.dy >> 8u32, dx >> 8u32);
    let right = FixedMul(dy >> 8u32, line.dx >> 8u32);
    right >= left
}

/// The divline along a map line.
pub fn P_MakeDivline(li: &LineGeom) -> (r: divline_t)
    ensures
        r == (divline_t { x: li.v1.x, y: li.v1.y, dx: li.dx, dy: li.dy }),
{
    divline_t { x: li.v1.x, y: li.v1.y, dx: li.dx, dy: li.dy }
}

/// Subtraction wrapped to 32 bits.
pub open spec fn wrap_sub(a: int, b: int) -> int {
    if a - b > i32::MAX { a - b - 0x1_0000_0000 } else if a - b < i32::MIN { a - b + 0x1_0000_0000 } else { a - b }
}

/// The denominator of the intercept of `v2` along `v1` (wrapped to 32 bits).
pub open spec fn intercept_den(v2: divline_t, v1: divline_t) -> int {
    wrap_sub(fmul(shr8(v1.dy as int), v2.dx as int), fmul(shr8(v1.dx as int), v2.dy as int))
}

/// The numerator of the intercept of `v2` along `v1`.
pub open spec fn intercept_num(v2: divline_t, v1: divline_t) -> int {
    fmul(shr8(v1.x - v2.x), v1.dy as int) + fmul(shr8(v2.y - v1.y), v1.dx as int)
}

/// The fractional intercept of `v2` along `v1`: 0 when they are parallel.
pub open spec fn intercept_vector(v2: divline_t, v1: divline_t) -> int {
    if intercept_den(v2, v1) == 0 { 0 } else { fixed_div_spec(intercept_num(v2, v1), intercept_den(v2, v1)) }
}

/// Returns the fractional intercept point along the first divline.
pub fn P_InterceptVector(v2: &divline_t, v1: &divline_t) -> (r: fixed_t)
    requires
        fits_i32(v1.x - v2.x),
        fits_i32(v2.y - v1.y),
        fits_i32(intercept_num(*v2, *v1)),
    ensures
        r as int == intercept_vector(*v2, *v1),
{
    proof {
        lemma_shr8(v1.dy);
        lemma_shr8(v1.dx);
    }
    let den = FixedMul(v1.dy >> 8u32, v2.dx).wrapping_sub(FixedMul(v1.dx >> 8u32, v2.dy));
    if den == 0 {
        return 0;
    }
    let ax = v1.x - v2.x;
    let ay = v2.y - v1.y;
    proof {
        lemma_shr8(ax);
        lemma_shr8(ay);
    }
    let num = FixedMul(ax >> 8u32, v1.dy) + FixedMul(ay >> 8u32, v1.dx);
    FixedDiv(num, den)
}

/// The intercept of `v2` along `v1`, with a denominator that is not wrapped.
pub open spec fn intercept_vector2(v2: divline_t, v1: divline_t) -> int {
    let den = fmul(shr8(v1.dy as int), v2.dx as int) - fmul(shr8(v1.dx as int), v2.dy as int);
    if den == 0 { 0 } else { fixed_div_spec(intercept_num(v2, v1), den) }
}

/// Returns the fractional intercept point along the first divline
/// (sight-checking variant; the denominator is not wrapped).
pub fn P_InterceptVector2(v2: &divline_t, v1: &divline_t) -> (r: fixed_t)
    requires
        fits_i32(v1.x - v2.x),
        fits_i32(v2.y - v1.y),
        fits_i32(intercept_num(*v2, *v1)),
        fits_i32(fmul(shr8(v1.dy as int), v2.dx as int) - fmul(shr8(v1.dx as int), v2.dy as int)),
    ensures
        r as int == intercept_vector2(*v2, *v1),
{
    proof {
        lemma_shr8(v1.dy);
        lemma_shr8(v1.dx);
    }
    let den = FixedMul(v1.dy >> 8u32, v2.dx) - FixedMul(v1.dx >> 8u32, v2.dy);
    if den == 0 {
        return 0;
    }
    let ax = v1.x - v2.x;
    let ay = v2.y - v1.y;
    proof {
        lemma_shr8(ax);
        lemma_shr8(ay);
    }
    let num = FixedMul(ax >> 8u32, v1.dy) + FixedMul(ay >> 8u32, v1.dx);
    FixedDiv(num, den)
}

/// The side of a divline that (x, y) is on: 0 front, 1 back, 2 on the line.
pub open spec fn divline_side(x: int, y: int, node: divline_t) -> int {
    if node.dx == 0 {
        if x == node.x { 2 } else if x < node.x { if node.dy > 0 { 1 } else { 0 } } else { if node.dy < 0 { 1 } else { 0 } }
    } else if node.dy == 0 {
        if y == node.y { 2 } else if y < node.y { if node.dx < 0 { 1 } else { 0 } } else { if node.dx > 0 { 1 } else { 0 } }
    } else {
        let left = shr16(node.dy as int) * shr16(x - node.x);
        let right = shr16(y - node.y) * shr16(node.dx as int);
        if left < right { 1 } else if left == right { 2 } else { 0 }
    }
}

/// Returns side 0 (front), 1 (back), or 2 (on).
pub fn P_DivlineSide(x: fixed_t, y: fixed_t, node: &divline_t) -> (r: i32)
    requires
        fits_i32(x - node.x),
        fits_i32(y - node.y),
    ensures
        r as int == divline_side(x as int, y as int, *node),
{
    if node.dx == 0 {
        if x == node.x {
            return 2;
        } else if x < node.x {
            return if node.dy > 0 { 1 } else { 0 };
        } else {
            return if node.dy < 0 { 1 } else { 0 };
        }
    }
    if node.dy == 0 {
        if y == node.y {
            return 2;
        } else if y < node.y {
            return if node.dx < 0 { 1 } else { 0 };
        } else {
            return if node.dx > 0 { 1 } else { 0 };
        }
    }
    let dx = x - node.x;
    let dy = y - node.y;
    proof {
        lemma_shr16(node.dy);
        lemma_shr16(node.dx);
        lemma_shr16(dx);
        lemma_shr16(dy);
        lemma_small_product(node.dy >> 16u32, dx >> 16u32);
        lemma_small_product(dy >> 16u32, node.dx >> 16u32);
    }
    let left = (node.dy >> 16u32) * (dx >> 16u32);
    let right = (dy >> 16u32) * (node.dx >> 16u32);
    if left < right {
        1
    } else if left == right {
        2
    } else {
        0
    }
}

proof fn lemma_small_product(a: i32, b: i32)
    requires
        -32768 <= a <= 32767,
        -32768 <= b <= 32767,
    ensures
        fits_i32(a * b),
{
    assert(fits_i32(a * b)) by (nonlinear_arith)
        requires
            -32768 <= a <= 32767,
            -32768 <= b <= 32767,
    ;
}

/// The vertical opening through a two-sided line.
#[derive(Debug, Clone, Copy, PartialEq, Eq, Structural)]
pub struct Opening {
    pub opentop: fixed_t,
    pub openbottom: fixed_t,
    pub openrange: fixed_t,
    pub lowfloor: fixed_t,
}

/// Sets opentop and openbottom to the window through a two sided line.
/// `sectors` is `None` for a single-sided line, otherwise the floor and
/// ceiling heights of the front and back sectors; for a single-sided line
/// only the range becomes 0 and the rest of `prev` is kept.
pub fn P_LineOpening(
    prev: Opening,
    sectors: Option<((fixed_t, fixed_t), (fixed_t, fixed_t))>,
) -> (r: Opening)
    requires
        sectors matches Some(((ff, fc), (bf, bc))) ==> fits_i32(
            (if fc < bc { fc } else { bc }) - (if ff > bf { ff } else { bf }),
        ),
    ensures
        match sectors {
            None => r == Opening { openrange: 0, ..prev },
            Some(((ff, fc), (bf, bc))) => {
                &&& r.opentop == (if fc < bc { fc } else { bc })
                &&& r.openbottom == (if ff > bf { ff } else { bf })
                &&& r.lowfloor == (if ff > bf { bf } else { ff })
                &&& r.openrange == r.opentop - r.openbottom
            },
        },
{
    match sectors {
        None => Opening { openrange: 0, ..prev },
        Some(((front_floor, front_ceiling), (back_floor, back_ceiling))) => {
            let opentop = if front_ceiling < back_ceiling { front_ceiling } else { back_ceiling };
            let (openbottom, lowfloor) = if front_floor > back_floor {
                (front_floor, back_floor)
            } else {
                (back_floor, front_floor)
            };
            Opening { opentop, openbottom, openrange: opentop - openbottom, lowfloor }
        },
    }
}

/// The scale of a wall column seen at angle `visangle`, as the renderer
/// computes it: the projection times the sine of the angle to the wall's
/// normal (doubled by the detail shift), over the wall's distance times the
/// sine of the angle to the view direction; between 1/256 and 64, and 64
/// where the division would be too large. Angles are in the binary measure
/// of a full turn and index `finesine` (8192 steps to a turn) by their top
/// 13 bits.
pub open spec fn scale_from_angle(
    visangle: u32,
    viewangle: u32,
    rw_normalangle: u32,
    projection: i32,
    rw_distance: i32,
    detailshift: u32,
    finesine: Seq<i32>,
) -> int {
    let anglea = 0x40000000u32.wrapping_add(visangle.wrapping_sub(viewangle));
    let angleb = 0x40000000u32.wrapping_add(visangle.wrapping_sub(rw_normalangle));
    let sinea = finesine[(anglea / 524288) as int];
    let sineb = finesine[(angleb / 524288) as int];
    let num = (fmul(projection as int, sineb as int) as i32) << detailshift;
    let den = fmul(rw_distance as int, sinea as int);
    if den > (num >> 16u32) {
        let q = fixed_div_spec(num as int, den);
        if q < 256 {
            256int
        } else if q > 64 * 65536 {
            64 * 65536int
        } else {
            q
        }
    } else {
        64 * 65536int
    }
}

/// The scale of the wall column at `visangle` (see `scale_from_angle`).
pub fn R_ScaleFromGlobalAngle(
    visangle: u32,
    viewangle: u32,
    rw_normalangle: u32,
    projection: fixed_t,
    rw_distance: fixed_t,
    detailshift: u32,
    finesine: &Vec<fixed_t>,
) -> (r: fixed_t)
    requires
        finesine.len() >= 8192,
        detailshift < 32,
    ensures
        r == scale_from_angle(
            visangle,
            viewangle,
            rw_normalangle,
            projection,
            rw_distance,
            detailshift,
            finesine@,
        ),
{
    let anglea = 0x40000000u32.wrapping_add(visangle.wrapping_sub(viewangle));
    let angleb = 0x40000000u32.wrapping_add(visangle.wrapping_sub(rw_normalangle));
    assert(anglea >> 19u32 == anglea / 524288) by (bit_vector);
    assert(angleb >> 19u32 == angleb / 524288) by (bit_vector);
    let sinea = finesine[(anglea >> 19u32) as usize];
    let sineb = finesine[(angleb >> 19u32) as usize];
    let num = FixedMul(projection, sineb) << detailshift;
    let den = FixedMul(rw_distance, sinea);
    if den > num >> 16u32 {
        let q = FixedDiv(num, den);
        if q < 256 {
            256
        } else if q > 64 * 65536 {
            64 * 65536
        } else {
            q
        }
    } else {
        64 * 65536
    }
}

/// Node numbers with this bit set name a subsector (the other bits give its
/// number).
pub const NF_SUBSECTOR: usize = 0x8000;

/// The child of node `n` on the side of (x, y).
pub open spec fn child_towards(nodes: Seq<node_t>, x: int, y: int, n: int) -> usize {
    let node = nodes[n];
    (if point_on_node_side(x, y, node) == Side::Front {
        node.children[0]
    } else {
        node.children[1]
    }) as usize
}

/// The descent from node `n` towards (x, y) reaches a subsector within
/// `fuel` steps, every node on the way exists and (x, y) can be measured
/// against its partition line.
pub open spec fn reaches_subsector(nodes: Seq<node_t>, x: int, y: int, n: usize, fuel: nat) -> bool
    decreases fuel,
{
    if n & NF_SUBSECTOR != 0 {
        true
    } else if fuel == 0 || n >= nodes.len() {
        false
    } else {
        &&& fits_i32(x - nodes[n as int].x)
        &&& fits_i32(y - nodes[n as int].y)
        &&& reaches_subsector(nodes, x, y, child_towards(nodes, x, y, n as int), (fuel - 1) as nat)
    }
}

/// The subsector the descent from node `n` towards (x, y) ends in.
pub open spec fn subsector_reached(nodes: Seq<node_t>, x: int, y: int, n: usize, fuel: nat) -> usize
    decreases fuel,
{
    if n & NF_SUBSECTOR != 0 || fuel == 0 || n >= nodes.len() {
        n & !NF_SUBSECTOR
    } else {
        subsector_reached(nodes, x, y, child_towards(nodes, x, y, n as int), (fuel - 1) as nat)
    }
}

proof fn lemma_subsector_reached_fuel(nodes: Seq<node_t>, x: int, y: int, n: usize, f1: nat, f2: nat)
    requires
        reaches_subsector(nodes, x, y, n, f1),
        reaches_subsector(nodes, x, y, n, f2),
    ensures
        subsector_reached(nodes, x, y, n, f1) == subsector_reached(nodes, x, y, n, f2),
    decreases f1,
{
    if n & NF_SUBSECTOR == 0 {
        lemma_subsector_reached_fuel(
            nodes,
            x,
            y,
            child_towards(nodes, x, y, n as int),
            (f1 - 1) as nat,
            (f2 - 1) as nat,
        );
    }
}

/// The subsector that (x, y) lies in: the BSP tree is descended from its
/// root, the last node, taking at each node the child on the point's side;
/// subsector 0 for a map without nodes. The descent must end (see
/// `reaches_subsector`).
pub fn R_PointInSubsector(x: fixed_t, y: fixed_t, nodes: &Vec<node_t>) -> (r: usize)
    requires
        nodes.len() > 0 ==> exists|f: nat|
            #[trigger] reaches_subsector(nodes@, x as int, y as int, (nodes.len() - 1) as usize, f),
    ensures
        nodes.len() == 0 ==> r == 0,
        nodes.len() > 0 ==> forall|f: nat|
            #[trigger] reaches_subsector(nodes@, x as int, y as int, (nodes.len() - 1) as usize, f) ==> r
                == subsector_reached(nodes@, x as int, y as int, (nodes.len() - 1) as usize, f),
{
    if nodes.len() == 0 {
        return 0;
    }
    let root = nodes.len() - 1;
    let ghost f0 = choose|f: nat| #[trigger] reaches_subsector(nodes@, x as int, y as int, root, f);
    let ghost mut fuel = f0;
    let mut nodenum: usize = root;
    while nodenum & NF_SUBSECTOR == 0
        invariant
            reaches_subsector(nodes@, x as int, y as int, nodenum, fuel),
            reaches_subsector(nodes@, x as int, y as int, root, f0),
            subsector_reached(nodes@, x as int, y as int, root, f0) == subsector_reached(
                nodes@,
                x as int,
                y as int,
                nodenum,
                fuel,
            ),
        decreases fuel,
    {
        let node = &nodes[nodenum];
        let side = R_PointOnSide(x, y, node);
        let next = match side {
            Side::Front => node.children[0],
            Side::Back => node.children[1],
        };
        nodenum = next as usize;
        proof {
            fuel = (fuel - 1) as nat;
        }
    }
    proof {
        assert forall|f: nat| #[trigger] reaches_subsector(nodes@, x as int, y as int, root, f) implies nodenum
            & !NF_SUBSECTOR == subsector_reached(nodes@, x as int, y as int, root, f) by {
            lemma_subsector_reached_fuel(nodes@, x as int, y as int, root, f0, f);
        }
    }
    nodenum & !NF_SUBSECTOR
}

/// The distance from the viewpoint (viewx, viewy) to (x, y), as the
/// renderer estimates it: along the longer axis, divided by the cosine of
/// the angle whose tangent is the ratio of the axes; the angle comes from
/// the arctangent table `tantoangle` (2049 steps up to 45 degrees) and the
/// cosine from the sine table `finesine` (8192 steps to a turn).
pub open spec fn point_to_dist(
    x: i32,
    y: i32,
    viewx: i32,
    viewy: i32,
    tantoangle: Seq<u32>,
    finesine: Seq<i32>,
) -> int {
    let ax = if x - viewx < 0 { viewx - x } else { x - viewx };
    let ay = if y - viewy < 0 { viewy - y } else { y - viewy };
    let (dx, dy) = if ay > ax { (ay, ax) } else { (ax, ay) };
    let t = fixed_div_spec(dy, dx) / 32;
    let angle = tantoangle[t].wrapping_add(0x40000000u32) / 524288;
    fixed_div_spec(dx, finesine[angle as int] as int)
}

proof fn lemma_ratio_at_most_one(dy: int, dx: int)
    requires
        0 <= dy <= dx,
        dx > 0,
    ensures
        0 <= fixed_div_spec(dy, dx) <= 65536,
{
    assert(dy / 16384 < dx) by (nonlinear_arith)
        requires
            0 <= dy <= dx,
            dx > 0,
    ;
    assert(0 <= (dy * 65536) / dx <= 65536) by (nonlinear_arith)
        requires
            0 <= dy <= dx,
            dx > 0,
    ;
}

/// The distance from the viewpoint to (x, y) (see `point_to_dist`); the
/// point must differ from the viewpoint.
pub fn R_PointToDist(
    x: fixed_t,
    y: fixed_t,
    viewx: fixed_t,
    viewy: fixed_t,
    tantoangle: &Vec<u32>,
    finesine: &Vec<fixed_t>,
) -> (r: fixed_t)
    requires
        tantoangle.len() >= 2049,
        finesine.len() >= 8192,
        fits_i32(x - viewx),
        fits_i32(y - viewy),
        x - viewx != i32::MIN,
        y - viewy != i32::MIN,
        x != viewx || y != viewy,
    ensures
        r == point_to_dist(x, y, viewx, viewy, tantoangle@, finesine@),
{
    let ddx = x - viewx;
    let ddy = y - viewy;
    let mut dx = if ddx < 0 { -ddx } else { ddx };
    let mut dy = if ddy < 0 { -ddy } else { ddy };
    if dy > dx {
        let t = dx;
        dx = dy;
        dy = t;
    }
    let q = FixedDiv(dy, dx);
    proof {
        lemma_ratio_at_most_one(dy as int, dx as int);
    }
    assert(q >> 5u32 == q / 32) by (bit_vector);
    let t = (q >> 5u32) as usize;
    let a = tantoangle[t].wrapping_add(0x40000000u32);
    assert(a >> 19u32 == a / 524288) by (bit_vector);
    FixedDiv(dx, finesine[(a >> 19u32) as usize])
}

/// The number of steps of the arc tangent table up to 45 degrees.
pub const SLOPERANGE: u64 = 2048;

/// The step of the arc tangent table for the slope `num / den` (both
/// magnitudes, `num <= den`): `num * 8 / (den / 256)`, at most
/// `SLOPERANGE`, and `SLOPERANGE` for a denominator under 512.
pub open spec fn slope_div(num: int, den: int) -> int {
    if den < 512 {
        SLOPERANGE as int
    } else {
        let ans = (num * 8) / (den / 256);
        if ans <= SLOPERANGE { ans } else { SLOPERANGE as int }
    }
}

/// Returns the arc tangent table step for the slope `num / den` (see
/// `slope_div`).
pub fn SlopeDiv(num: u64, den: u64) -> (r: u64)
    requires
        num <= 0x1_0000_0000,
    ensures
        r as int == slope_div(num as int, den as int),
        r <= SLOPERANGE,
{
    if den < 512 {
        return SLOPERANGE;
    }
    let ans = (num * 8) / (den / 256);
    if ans <= SLOPERANGE { ans } else { SLOPERANGE }
}

/// The angle of the point (x, y) seen from (viewx, viewy), by octant from
/// the arc tangent table; 0 where the two coincide.
pub open spec fn point_to_angle(x: int, y: int, viewx: int, viewy: int, tantoangle: Seq<u32>) -> u32 {
    let dx = x - viewx;
    let dy = y - viewy;
    let ax = if dx < 0 { -dx } else { dx };
    let ay = if dy < 0 { -dy } else { dy };
    let along = tantoangle[slope_div(ay, ax)];
    let across = tantoangle[slope_div(ax, ay)];
    if dx == 0 && dy == 0 {
        0
    } else if dx >= 0 {
        if dy >= 0 {
            if ax > ay { along } else { 0x3fff_ffffu32.wrapping_sub(across) }
        } else {
            if ax > ay { 0u32.wrapping_sub(along) } else { 0xc000_0000u32.wrapping_add(across) }
        }
    } else {
        if dy >= 0 {
            if ax > ay { 0x7fff_ffffu32.wrapping_sub(along) } else { 0x4000_0000u32.wrapping_add(across) }
        } else {
            if ax > ay { 0x8000_0000u32.wrapping_add(along) } else { 0xbfff_ffffu32.wrapping_sub(across) }
        }
    }
}

/// Returns the angle of (x, y) seen from (viewx, viewy) (see
/// `point_to_angle`).
pub fn R_PointToAngle(x: fixed_t, y: fixed_t, viewx: fixed_t, viewy: fixed_t, tantoangle: &Vec<u32>) -> (r: u32)
    requires
        tantoangle.len() > SLOPERANGE,
        fits_i32(x - viewx),
        fits_i32(y - viewy),
        x - viewx != i32::MIN,
        y - viewy != i32::MIN,
    ensures
        r == point_to_angle(x as int, y as int, viewx as int, viewy as int, tantoangle@),
{
    let dx = x - viewx;
    let dy = y - viewy;
    if dx == 0 && dy == 0 {
        return 0;
    }
    let ax = (if dx < 0 { -dx } else { dx }) as u64;
    let ay = (if dy < 0 { -dy } else { dy }) as u64;
    let along = tantoangle[SlopeDiv(ay, ax) as usize];
    let across = tantoangle[SlopeDiv(ax, ay) as usize];
    if dx >= 0 {
        if dy >= 0 {
            if ax > ay { along } else { 0x3fff_ffffu32.wrapping_sub(across) }
        } else {
            if ax > ay { 0u32.wrapping_sub(along) } else { 0xc000_0000u32.wrapping_add(across) }
        }
    } else {
        if dy >= 0 {
            if ax > ay { 0x7fff_ffffu32.wrapping_sub(along) } else { 0x4000_0000u32.wrapping_add(across) }
        } else {
            if ax > ay { 0x8000_0000u32.wrapping_add(along) } else { 0xbfff_ffffu32.wrapping_sub(across) }
        }
    }
}

/// Returns the angle of (x2, y2) seen from (x1, y1).
pub fn R_PointToAngle2(x1: fixed_t, y1: fixed_t, x2: fixed_t, y2: fixed_t, tantoangle: &Vec<u32>) -> (r: u32)
    requires
        tantoangle.len() > SLOPERANGE,
        fits_i32(x2 - x1),
        fits_i32(y2 - y1),
        x2 - x1 != i32::MIN,
        y2 - y1 != i32::MIN,
    ensures
        r == point_to_angle(x2 as int, y2 as int, x1 as int, y1 as int, tantoangle@),
{
    R_PointToAngle(x2, y2, x1, y1, tantoangle)
}

} // verus!
