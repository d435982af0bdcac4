//! Homogeneous vectors and 4x4 matrices over fixed-point scalars: the
//! transform chain and the perspective divide.

use vstd::prelude::*;
use crate::fixed::{
    div_fp, div_trunc, lemma_div_trunc_bound, lemma_mul_bound, SCALE,
};

verus! {

/// A fixed-point sample of an angle's sine and cosine, as the host shell
/// evaluates them.
#[derive(Clone, Copy, PartialEq, Eq, Structural, Debug)]
pub struct Trig {
    pub sin: i64,
    pub cos: i64,
}

/// A sine or cosine sample never leaves `[-1, 1]`.
pub open spec fn trig_wf(t: Trig) -> bool {
    -SCALE <= t.sin <= SCALE && -SCALE <= t.cos <= SCALE
}

/// A homogeneous point or its projection, each coordinate in millionths.
#[derive(Clone, Copy, PartialEq, Eq, Structural, Debug)]
pub struct Vec4 {
    pub x: i64,
    pub y: i64,
    pub z: i64,
    pub w: i64,
}

/// Every coordinate lies within `[-b, b]`.
pub open spec fn vec4_bounded(v: Vec4, b: int) -> bool {
    -b <= v.x <= b && -b <= v.y <= b && -b <= v.z <= b && -b <= v.w <= b
}

/// A 4x4 matrix in column-major naming: `c2r1` is column 2, row 1.
#[derive(Clone, Copy, PartialEq, Eq, Structural, Debug)]
pub struct Mat4 {
    pub c0r0: i64,
    pub c0r1: i64,
    pub c0r2: i64,
    pub c0r3: i64,
    pub c1r0: i64,
    pub c1r1: i64,
    pub c1r2: i64,
    pub c1r3: i64,
    pub c2r0: i64,
    pub c2r1: i64,
    pub c2r2: i64,
    pub c2r3: i64,
    pub c3r0: i64,
    pub c3r1: i64,
    pub c3r2: i64,
    pub c3r3: i64,
}

/// Every entry lies within `[-b, b]`.
pub open spec fn mat_bounded(m: Mat4, b: int) -> bool {
    &&& -b <= m.c0r0 <= b
    &&& -b <= m.c0r1 <= b
    &&& -b <= m.c0r2 <= b
    &&& -b <= m.c0r3 <= b
    &&& -b <= m.c1r0 <= b
    &&& -b <= m.c1r1 <= b
    &&& -b <= m.c1r2 <= b
    &&& -b <= m.c1r3 <= b
    &&& -b <= m.c2r0 <= b
    &&& -b <= m.c2r1 <= b
    &&& -b <= m.c2r2 <= b
    &&& -b <= m.c2r3 <= b
    &&& -b <= m.c3r0 <= b
    &&& -b <= m.c3r1 <= b
    &&& -b <= m.c3r2 <= b
    &&& -b <= m.c3r3 <= b
}

/// A row of matrix entries against a column vector, before rescaling.
pub open spec fn dot_row(c0: int, c1: int, c2: int, c3: int, v: Vec4) -> int {
    c0 * v.x + c1 * v.y + c2 * v.z + c3 * v.w
}

/// A column of a matrix read as a vector.
pub open spec fn col(m: Mat4, j: int) -> Vec4 {
    if j == 0 {
        Vec4 { x: m.c0r0, y: m.c0r1, z: m.c0r2, w: m.c0r3 }
    } else if j == 1 {
        Vec4 { x: m.c1r0, y: m.c1r1, z: m.c1r2, w: m.c1r3 }
    } else if j == 2 {
        Vec4 { x: m.c2r0, y: m.c2r1, z: m.c2r2, w: m.c2r3 }
    } else {
        Vec4 { x: m.c3r0, y: m.c3r1, z: m.c3r2, w: m.c3r3 }
    }
}

/// One fixed-point dot product of a matrix row with a vector, truncated
/// back to the scale.
fn dot_fp(c0: i64, c1: i64, c2: i64, c3: i64, v: &Vec4, Ghost(ba): Ghost<int>, Ghost(bb): Ghost<
    int,
>) -> (r: i64)
    requires
        0 <= ba,
        0 <= bb,
        4 * (ba * bb) <= i64::MAX,
        -ba <= c0 <= ba,
        -ba <= c1 <= ba,
        -ba <= c2 <= ba,
        -ba <= c3 <= ba,
        vec4_bounded(*v, bb),
    ensures
        r == div_trunc(dot_row(c0 as int, c1 as int, c2 as int, c3 as int, *v), SCALE as int),
        -(div_trunc(4 * (ba * bb), SCALE as int) + 1) <= r <= div_trunc(
            4 * (ba * bb),
            SCALE as int,
        ) + 1,
{
    proof {
        lemma_mul_bound(c0 as int, v.x as int, ba, bb);
        lemma_mul_bound(c1 as int, v.y as int, ba, bb);
        lemma_mul_bound(c2 as int, v.z as int, ba, bb);
        lemma_mul_bound(c3 as int, v.w as int, ba, bb);
    }
    let s: i64 = c0 * v.x + c1 * v.y + c2 * v.z + c3 * v.w;
    let r: i64 = div_fp(s, SCALE);
    proof {
        let k: int = div_trunc(4 * (ba * bb), SCALE as int) + 1;
        assert(4 * (ba * bb) <= k * (SCALE as int)) by {
            vstd::arithmetic::div_mod::lemma_fundamental_div_mod(4 * (ba * bb), SCALE as int);
            vstd::arithmetic::div_mod::lemma_mod_bound(4 * (ba * bb), SCALE as int);
        }
        lemma_div_trunc_bound(s as int, SCALE as int, k);
    }
    r
}

/// Truncating division loses less than one divisor's worth.
proof fn lemma_div_rem_sandwich(a: int, b: int)
    requires
        b > 0,
    ensures
        div_trunc(a, b) * b - b < a + b && a - b < div_trunc(a, b) * b + b,
        a >= 0 ==> div_trunc(a, b) * b <= a,
        a < 0 ==> a <= div_trunc(a, b) * b,
{
    if a >= 0 {
        let q: int = a / b;
        vstd::arithmetic::div_mod::lemma_fundamental_div_mod(a, b);
        vstd::arithmetic::div_mod::lemma_mod_bound(a, b);
        assert(q * b == b * q) by (nonlinear_arith);
    } else {
        let q: int = (-a) / b;
        vstd::arithmetic::div_mod::lemma_fundamental_div_mod(-a, b);
        vstd::arithmetic::div_mod::lemma_mod_bound(-a, b);
        assert((-q) * b == -(b * q)) by (nonlinear_arith);
    }
}

/// The image of a homogeneous point under a matrix, before the divide.
pub open spec fn transform_spec(m: Mat4, v: Vec4) -> Vec4 {
    Vec4 {
        x: div_trunc(dot_row(m.c0r0 as int, m.c1r0 as int, m.c2r0 as int, m.c3r0 as int, v),
            SCALE as int) as i64,
        y: div_trunc(dot_row(m.c0r1 as int, m.c1r1 as int, m.c2r1 as int, m.c3r1 as int, v),
            SCALE as int) as i64,
        z: div_trunc(dot_row(m.c0r2 as int, m.c1r2 as int, m.c2r2 as int, m.c3r2 as int, v),
            SCALE as int) as i64,
        w: div_trunc(dot_row(m.c0r3 as int, m.c1r3 as int, m.c2r3 as int, m.c3r3 as int, v),
            SCALE as int) as i64,
    }
}

/// The bound every view matrix entry respects.
pub const VIEW_BOUND: i64 = 600_000_000_000;

/// The bound every scene vertex coordinate respects.
pub const VERT_BOUND: i64 = 2_000_000;

/// The bound a transformed vertex coordinate respects.
pub const XFORM_BOUND: i64 = 4_800_000_000_001;

/// Applies a matrix to a homogeneous point.
pub fn transform(m: &Mat4, v: &Vec4) -> (r: Vec4)
    requires
        mat_bounded(*m, VIEW_BOUND as int),
        vec4_bounded(*v, VERT_BOUND as int),
    ensures
        r == transform_spec(*m, *v),
        vec4_bounded(r, XFORM_BOUND as int),
{
    let x: i64 = dot_fp(m.c0r0, m.c1r0, m.c2r0, m.c3r0, v, Ghost(VIEW_BOUND as int), Ghost(
        VERT_BOUND as int,
    ));
    let y: i64 = dot_fp(m.c0r1, m.c1r1, m.c2r1, m.c3r1, v, Ghost(VIEW_BOUND as int), Ghost(
        VERT_BOUND as int,
    ));
    let z: i64 = dot_fp(m.c0r2, m.c1r2, m.c2r2, m.c3r2, v, Ghost(VIEW_BOUND as int), Ghost(
        VERT_BOUND as int,
    ));
    let w: i64 = dot_fp(m.c0r3, m.c1r3, m.c2r3, m.c3r3, v, Ghost(VIEW_BOUND as int), Ghost(
        VERT_BOUND as int,
    ));
    Vec4 { x, y, z, w }
}

/// The product of two matrices, each resulting entry truncated back to the
/// scale; entry `(i, j)` is the row-`i`-by-column-`j` dot product.
pub open spec fn mat_mul_spec(a: Mat4, b: Mat4) -> Mat4 {
    Mat4 {
        c0r0: div_trunc(dot_row(a.c0r0 as int, a.c1r0 as int, a.c2r0 as int, a.c3r0 as int, col(b, 0)), SCALE as int) as i64,
        c0r1: div_trunc(dot_row(a.c0r1 as int, a.c1r1 as int, a.c2r1 as int, a.c3r1 as int, col(b, 0)), SCALE as int) as i64,
        c0r2: div_trunc(dot_row(a.c0r2 as int, a.c1r2 as int, a.c2r2 as int, a.c3r2 as int, col(b, 0)), SCALE as int) as i64,
        c0r3: div_trunc(dot_row(a.c0r3 as int, a.c1r3 as int, a.c2r3 as int, a.c3r3 as int, col(b, 0)), SCALE as int) as i64,
        c1r0: div_trunc(dot_row(a.c0r0 as int, a.c1r0 as int, a.c2r0 as int, a.c3r0 as int, col(b, 1)), SCALE as int) as i64,
        c1r1: div_trunc(dot_row(a.c0r1 as int, a.c1r1 as int, a.c2r1 as int, a.c3r1 as int, col(b, 1)), SCALE as int) as i64,
        c1r2: div_trunc(dot_row(a.c0r2 as int, a.c1r2 as int, a.c2r2 as int, a.c3r2 as int, col(b, 1)), SCALE as int) as i64,
        c1r3: div_trunc(dot_row(a.c0r3 as int, a.c1r3 as int, a.c2r3 as int, a.c3r3 as int, col(b, 1)), SCALE as int) as i64,
        c2r0: div_trunc(dot_row(a.c0r0 as int, a.c1r0 as int, a.c2r0 as int, a.c3r0 as int, col(b, 2)), SCALE as int) as i64,
        c2r1: div_trunc(dot_row(a.c0r1 as int, a.c1r1 as int, a.c2r1 as int, a.c3r1 as int, col(b, 2)), SCALE as int) as i64,
        c2r2: div_trunc(dot_row(a.c0r2 as int, a.c1r2 as int, a.c2r2 as int, a.c3r2 as int, col(b, 2)), SCALE as int) as i64,
        c2r3: div_trunc(dot_row(a.c0r3 as int, a.c1r3 as int, a.c2r3 as int, a.c3r3 as int, col(b, 2)), SCALE as int) as i64,
        c3r0: div_trunc(dot_row(a.c0r0 as int, a.c1r0 as int, a.c2r0 as int, a.c3r0 as int, col(b, 3)), SCALE as int) as i64,
        c3r1: div_trunc(dot_row(a.c0r1 as int, a.c1r1 as int, a.c2r1 as int, a.c3r1 as int, col(b, 3)), SCALE as int) as i64,
        c3r2: div_trunc(dot_row(a.c0r2 as int, a.c1r2 as int, a.c2r2 as int, a.c3r2 as int, col(b, 3)), SCALE as int) as i64,
        c3r3: div_trunc(dot_row(a.c0r3 as int, a.c1r3 as int, a.c2r3 as int, a.c3r3 as int, col(b, 3)), SCALE as int) as i64,
    }
}

/// Multiplies two matrices; the bounds travel along as ghosts so that a
/// chain of products can account for its growth.
pub fn mat_mul(a: &Mat4, b: &Mat4, Ghost(ba): Ghost<int>, Ghost(bb): Ghost<int>) -> (r: Mat4)
    requires
        0 <= ba,
        0 <= bb,
        4 * (ba * bb) <= i64::MAX,
        mat_bounded(*a, ba),
        mat_bounded(*b, bb),
    ensures
        r == mat_mul_spec(*a, *b),
        mat_bounded(r, div_trunc(4 * (ba * bb), SCALE as int) + 1),
{
    let b0: Vec4 = Vec4 { x: b.c0r0, y: b.c0r1, z: b.c0r2, w: b.c0r3 };
    let b1: Vec4 = Vec4 { x: b.c1r0, y: b.c1r1, z: b.c1r2, w: b.c1r3 };
    let b2: Vec4 = Vec4 { x: b.c2r0, y: b.c2r1, z: b.c2r2, w: b.c2r3 };
    let b3: Vec4 = Vec4 { x: b.c3r0, y: b.c3r1, z: b.c3r2, w: b.c3r3 };
    Mat4 {
        c0r0: dot_fp(a.c0r0, a.c1r0, a.c2r0, a.c3r0, &b0, Ghost(ba), Ghost(bb)),
        c0r1: dot_fp(a.c0r1, a.c1r1, a.c2r1, a.c3r1, &b0, Ghost(ba), Ghost(bb)),
        c0r2: dot_fp(a.c0r2, a.c1r2, a.c2r2, a.c3r2, &b0, Ghost(ba), Ghost(bb)),
        c0r3: dot_fp(a.c0r3, a.c1r3, a.c2r3, a.c3r3, &b0, Ghost(ba), Ghost(bb)),
        c1r0: dot_fp(a.c0r0, a.c1r0, a.c2r0, a.c3r0, &b1, Ghost(ba), Ghost(bb)),
        c1r1: dot_fp(a.c0r1, a.c1r1, a.c2r1, a.c3r1, &b1, Ghost(ba), Ghost(bb)),
        c1r2: dot_fp(a.c0r2, a.c1r2, a.c2r2, a.c3r2, &b1, Ghost(ba), Ghost(bb)),
        c1r3: dot_fp(a.c0r3, a.c1r3, a.c2r3, a.c3r3, &b1, Ghost(ba), Ghost(bb)),
        c2r0: dot_fp(a.c0r0, a.c1r0, a.c2r0, a.c3r0, &b2, Ghost(ba), Ghost(bb)),
        c2r1: dot_fp(a.c0r1, a.c1r1, a.c2r1, a.c3r1, &b2, Ghost(ba), Ghost(bb)),
        c2r2: dot_fp(a.c0r2, a.c1r2, a.c2r2, a.c3r2, &b2, Ghost(ba), Ghost(bb)),
        c2r3: dot_fp(a.c0r3, a.c1r3, a.c2r3, a.c3r3, &b2, Ghost(ba), Ghost(bb)),
        c3r0: dot_fp(a.c0r0, a.c1r0, a.c2r0, a.c3r0, &b3, Ghost(ba), Ghost(bb)),
        c3r1: dot_fp(a.c0r1, a.c1r1, a.c2r1, a.c3r1, &b3, Ghost(ba), Ghost(bb)),
        c3r2: dot_fp(a.c0r2, a.c1r2, a.c2r2, a.c3r2, &b3, Ghost(ba), Ghost(bb)),
        c3r3: dot_fp(a.c0r3, a.c1r3, a.c2r3, a.c3r3, &b3, Ghost(ba), Ghost(bb)),
    }
}

/// Where a transformed point lands on the screen: each coordinate divided
/// by the homogeneous `w`. A point whose `w` comes out exactly zero is sent
/// beyond the far clip plane, so the clip test discards it; how the host
/// should treat such points is otherwise left open.
pub open spec fn project_spec(m: Mat4, v: Vec4) -> Vec4 {
    let t = transform_spec(m, v);
    if t.w == 0 {
        Vec4 { x: 0, y: 0, z: (2 * SCALE) as i64, w: 0 }
    } else {
        Vec4 {
            x: div_trunc(t.x * SCALE, t.w as int) as i64,
            y: div_trunc(t.y * SCALE, t.w as int) as i64,
            z: div_trunc(t.z * SCALE, t.w as int) as i64,
            w: SCALE,
        }
    }
}

/// Transforms one vertex and performs the perspective divide.
pub fn project_vertex(m: &Mat4, v: &Vec4) -> (r: Vec4)
    requires
        mat_bounded(*m, VIEW_BOUND as int),
        vec4_bounded(*v, VERT_BOUND as int),
    ensures
        r == project_spec(*m, *v),
{
    let t: Vec4 = transform(m, v);
    if t.w == 0 {
        Vec4 { x: 0, y: 0, z: 2_000_000, w: 0 }
    } else {
        Vec4 {
            x: div_fp(t.x * SCALE, t.w),
            y: div_fp(t.y * SCALE, t.w),
            z: div_fp(t.z * SCALE, t.w),
            w: SCALE,
        }
    }
}

} // verus!
