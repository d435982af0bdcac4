//! Spherical polar points and their Cartesian image.

use vstd::prelude::*;
use crate::fixed::{fp_mul, fp_mul_spec, lemma_div_trunc_bound, lemma_mul_bound, SCALE};
use crate::geom::{trig_wf, Trig, Vec4, VERT_BOUND};

verus! {

/// A point on the sphere: colatitude `theta` from the pole, azimuth `phi`
/// around it, both in millionths of a radian, and a radius in millionths.
#[derive(Clone, Copy, PartialEq, Eq, Structural, Debug)]
pub struct Polar {
    pub theta: i64,
    pub phi: i64,
    pub radius: i64,
}

/// The Cartesian image of a polar point, given the sine and cosine of its
/// two angles: `x = r sin(theta) cos(phi)`, `y = r cos(theta)`,
/// `z = r sin(theta) sin(phi)`, with a unit homogeneous coordinate.
pub open spec fn polar_cart_spec(p: Polar, ttheta: Trig, tphi: Trig) -> Vec4 {
    Vec4 {
        x: fp_mul_spec(fp_mul_spec(p.radius as int, ttheta.sin as int), tphi.cos as int) as i64,
        y: fp_mul_spec(p.radius as int, ttheta.cos as int) as i64,
        z: fp_mul_spec(fp_mul_spec(p.radius as int, ttheta.sin as int), tphi.sin as int) as i64,
        w: SCALE,
    }
}

impl Polar {
    /// Converts to homogeneous Cartesian coordinates. The caller supplies
    /// the trigonometric samples of `theta` and `phi`; the formula is
    /// checked here for whatever samples arrive, and no coordinate can
    /// leave the sphere of the given radius.
    pub fn to_cart(&self, ttheta: &Trig, tphi: &Trig) -> (p: Vec4)
        requires
            trig_wf(*ttheta),
            trig_wf(*tphi),
            0 <= self.radius <= VERT_BOUND,
        ensures
            p == polar_cart_spec(*self, *ttheta, *tphi),
            vec4_in_radius(p, self.radius as int),
    {
        proof {
            lemma_mul_bound(self.radius as int, ttheta.sin as int, VERT_BOUND as int, SCALE as int);
            lemma_mul_bound(self.radius as int, ttheta.cos as int, VERT_BOUND as int, SCALE as int);
            lemma_mul_bound(self.radius as int, ttheta.sin as int, self.radius as int, SCALE as int);
            lemma_mul_bound(self.radius as int, ttheta.cos as int, self.radius as int, SCALE as int);
            lemma_div_trunc_bound(
                self.radius as int * ttheta.sin as int,
                SCALE as int,
                self.radius as int,
            );
            lemma_div_trunc_bound(
                self.radius as int * ttheta.cos as int,
                SCALE as int,
                self.radius as int,
            );
        }
        let rs: i64 = fp_mul(self.radius, ttheta.sin);
        let y: i64 = fp_mul(self.radius, ttheta.cos);
        proof {
            lemma_mul_bound(rs as int, tphi.cos as int, self.radius as int, SCALE as int);
            lemma_mul_bound(rs as int, tphi.sin as int, self.radius as int, SCALE as int);
            lemma_div_trunc_bound(rs as int * tphi.cos as int, SCALE as int, self.radius as int);
            lemma_div_trunc_bound(rs as int * tphi.sin as int, SCALE as int, self.radius as int);
        }
        let x: i64 = fp_mul(rs, tphi.cos);
        let z: i64 = fp_mul(rs, tphi.sin);
        Vec4 { x, y, z, w: SCALE }
    }
}

/// Every spatial coordinate stays within the radius, and the homogeneous
/// coordinate is one unit.
pub open spec fn vec4_in_radius(v: Vec4, r: int) -> bool {
    -r <= v.x <= r && -r <= v.y <= r && -r <= v.z <= r && v.w == SCALE
}

} // verus!
