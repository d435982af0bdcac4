//! The static scene: grid circles and constellation polylines described on
//! the sphere, and the per-frame screen-space buffers paired with them.

use vstd::prelude::*;
use crate::consts::AppState;
use crate::fixed::{PI_MICRO, SCALE, TWO_PI_MICRO};
use crate::geom::{trig_wf, vec4_bounded, Trig, Vec4, VERT_BOUND};
use crate::text::{centi_digits, format_centi};
use crate::units::polar::{polar_cart_spec, Polar};

verus! {

/// What a projected path is a picture of: a grid meridian (fixed azimuth),
/// a grid parallel (fixed colatitude), or a constellation polyline.
#[derive(Clone, Copy, PartialEq, Eq, Structural, Debug)]
pub enum Path2DKind {
    PhiCircle,
    ThetaCircle,
    Constellation,
}

/// A static polyline on the sphere, in homogeneous Cartesian coordinates;
/// built once and never mutated after.
#[derive(Debug)]
pub struct Path3D {
    pub data: Vec<Vec4>,
}

/// The screen-space picture of one `Path3D`, overwritten every projection
/// tick; it carries its category and, for grid rings, the pre-formatted
/// angle label.
#[derive(Debug)]
pub struct Path2D {
    pub data: Vec<Vec4>,
    pub marker: String,
    pub kind: Path2DKind,
}

/// One static path with its per-frame projection buffer.
#[derive(Debug)]
pub struct PathEntry {
    pub path3d: Path3D,
    pub path2d: Path2D,
}

/// A path still described on the sphere: its category, its angle label in
/// hundredths of a degree, and its sweep of polar points.
#[derive(Debug)]
pub struct PolarPath {
    pub kind: Path2DKind,
    pub marker_centi: i64,
    pub points: Vec<Polar>,
}

/// The azimuth of one meridian: the split's share of a full turn.
pub open spec fn meridian_azimuth_micro(split: int, phi_split: int) -> int {
    split * (TWO_PI_MICRO as int) / phi_split
}

/// The colatitude of one parallel: the split's share of a half turn.
pub open spec fn parallel_colatitude_micro(split: int, theta_split: int) -> int {
    split * (PI_MICRO as int) / theta_split
}

/// An angle in millionths of a radian read in hundredths of a degree,
/// rounded to the nearest hundredth.
pub open spec fn radians_to_centi_degrees(micro: int) -> int {
    (micro * 18000 + (PI_MICRO as int) / 2) / (PI_MICRO as int)
}

/// One meridian of the grid: fixed azimuth, colatitude swept from pole to
/// pole over `resolution` steps, labelled with its azimuth in degrees.
pub open spec fn is_meridian_path(p: PolarPath, split: int, phi_split: int, resolution: int) -> bool {
    let az = meridian_azimuth_micro(split, phi_split);
    &&& p.kind == Path2DKind::PhiCircle
    &&& p.marker_centi == radians_to_centi_degrees(az)
    &&& p.points@.len() == resolution + 1
    &&& forall|m: int|
        0 <= m <= resolution ==> #[trigger] p.points@[m] == (Polar {
            theta: (m * (PI_MICRO as int) / resolution) as i64,
            phi: az as i64,
            radius: SCALE,
        })
}

/// One parallel of the grid: fixed colatitude, azimuth swept around a full
/// turn over `resolution` steps, labelled with its colatitude in degrees.
pub open spec fn is_parallel_path(p: PolarPath, split: int, theta_split: int, resolution: int) -> bool {
    let colat = parallel_colatitude_micro(split, theta_split);
    &&& p.kind == Path2DKind::ThetaCircle
    &&& p.marker_centi == radians_to_centi_degrees(colat)
    &&& p.points@.len() == resolution + 1
    &&& forall|m: int|
        0 <= m <= resolution ==> #[trigger] p.points@[m] == (Polar {
            theta: colat as i64,
            phi: (m * (TWO_PI_MICRO as int) / resolution) as i64,
            radius: SCALE,
        })
}

/// Builds the equatorial grid on the sphere: `phi_split + 1` meridians
/// followed by `theta_split + 1` parallels, every circle swept over
/// `resolution` steps, so each path holds `resolution + 1` points.
pub fn setup_equatorial_grid(phi_split: usize, theta_split: usize, resolution: usize) -> (r: Vec<
    PolarPath,
>)
    requires
        1 <= phi_split <= 10_000,
        1 <= theta_split <= 10_000,
        1 <= resolution <= 1_000_000,
    ensures
        r@.len() == phi_split + theta_split + 2,
        forall|k: int|
            0 <= k <= phi_split ==> is_meridian_path(
                #[trigger] r@[k],
                k,
                phi_split as int,
                resolution as int,
            ),
        forall|k: int|
            phi_split + 1 <= k < r@.len() ==> is_parallel_path(
                #[trigger] r@[k],
                k - (phi_split + 1),
                theta_split as int,
                resolution as int,
            ),
{
    let mut out: Vec<PolarPath> = Vec::new();
    let mut split: usize = 0;
    while split <= phi_split
        invariant
            split <= phi_split + 1,
            1 <= phi_split <= 10_000,
            1 <= resolution <= 1_000_000,
            out@.len() == split,
            forall|k: int|
                0 <= k < split ==> is_meridian_path(
                    #[trigger] out@[k],
                    k,
                    phi_split as int,
                    resolution as int,
                ),
        decreases phi_split + 1 - split,
    {
        proof {
            assert(0 <= split as int * (TWO_PI_MICRO as int) <= (TWO_PI_MICRO as int) * (
            phi_split as int)) by (nonlinear_arith)
                requires
                    0 <= split <= phi_split,
            ;
            crate::fixed::lemma_div_trunc_bound(
                split as int * (TWO_PI_MICRO as int),
                phi_split as int,
                TWO_PI_MICRO as int,
            );
            vstd::arithmetic::div_mod::lemma_div_pos_is_pos(
                split as int * (TWO_PI_MICRO as int),
                phi_split as int,
            );
        }
        let phi: i64 = ((split as i64) * TWO_PI_MICRO) / (phi_split as i64);
        let mut points: Vec<Polar> = Vec::new();
        let mut m: usize = 0;
        while m <= resolution
            invariant
                m <= resolution + 1,
                1 <= resolution <= 1_000_000,
                phi == meridian_azimuth_micro(split as int, phi_split as int),
                0 <= phi <= TWO_PI_MICRO,
                points@.len() == m,
                forall|i: int|
                    0 <= i < m ==> #[trigger] points@[i] == (Polar {
                        theta: (i * (PI_MICRO as int) / resolution as int) as i64,
                        phi: phi,
                        radius: SCALE,
                    }),
            decreases resolution + 1 - m,
        {
            let theta: i64 = ((m as i64) * PI_MICRO) / (resolution as i64);
            points.push(Polar { theta, phi, radius: SCALE });
            m = m + 1;
        }
        out.push(PolarPath {
            kind: Path2DKind::PhiCircle,
            marker_centi: (phi * 18000 + PI_MICRO / 2) / PI_MICRO,
            points,
        });
        split = split + 1;
    }
    let base: usize = phi_split + 1;
    let mut split2: usize = 0;
    while split2 <= theta_split
        invariant
            split2 <= theta_split + 1,
            1 <= phi_split <= 10_000,
            1 <= theta_split <= 10_000,
            1 <= resolution <= 1_000_000,
            base == phi_split + 1,
            out@.len() == base + split2,
            forall|k: int|
                0 <= k <= phi_split ==> is_meridian_path(
                    #[trigger] out@[k],
                    k,
                    phi_split as int,
                    resolution as int,
                ),
            forall|k: int|
                base <= k < out@.len() ==> is_parallel_path(
                    #[trigger] out@[k],
                    k - base,
                    theta_split as int,
                    resolution as int,
                ),
        decreases theta_split + 1 - split2,
    {
        proof {
            assert(0 <= split2 as int * (PI_MICRO as int) <= (PI_MICRO as int) * (
            theta_split as int)) by (nonlinear_arith)
                requires
                    0 <= split2 <= theta_split,
            ;
            crate::fixed::lemma_div_trunc_bound(
                split2 as int * (PI_MICRO as int),
                theta_split as int,
                PI_MICRO as int,
            );
            vstd::arithmetic::div_mod::lemma_div_pos_is_pos(
                split2 as int * (PI_MICRO as int),
                theta_split as int,
            );
        }
        let theta: i64 = ((split2 as i64) * PI_MICRO) / (theta_split as i64);
        let mut points: Vec<Polar> = Vec::new();
        let mut m: usize = 0;
        while m <= resolution
            invariant
                m <= resolution + 1,
                1 <= resolution <= 1_000_000,
                theta == parallel_colatitude_micro(split2 as int, theta_split as int),
                0 <= theta <= PI_MICRO,
                points@.len() == m,
                forall|i: int|
                    0 <= i < m ==> #[trigger] points@[i] == (Polar {
                        theta: theta,
                        phi: (i * (TWO_PI_MICRO as int) / resolution as int) as i64,
                        radius: SCALE,
                    }),
            decreases resolution + 1 - m,
        {
            let phi: i64 = ((m as i64) * TWO_PI_MICRO) / (resolution as i64);
            points.push(Polar { theta, phi, radius: SCALE });
            m = m + 1;
        }
        out.push(PolarPath {
            kind: Path2DKind::ThetaCircle,
            marker_centi: (theta * 18000 + PI_MICRO / 2) / PI_MICRO,
            points,
        });
        split2 = split2 + 1;
    }
    out
}

/// Every point of a polar path sits on the unit sphere.
pub open spec fn polar_points_wf(points: Seq<Polar>) -> bool {
    forall|i: int| 0 <= i < points.len() ==> (#[trigger] points[i]).radius == SCALE
}

/// Converts a swept polar path to Cartesian vertices. The host supplies
/// one pair of trigonometric samples per point — the colatitude's, then
/// the azimuth's; the conversion formula itself is checked here.
pub fn path3d_from_polar(points: &Vec<Polar>, trigs: &Vec<(Trig, Trig)>) -> (r: Vec<Vec4>)
    requires
        trigs@.len() == points@.len(),
        polar_points_wf(points@),
        forall|i: int|
            0 <= i < trigs@.len() ==> trig_wf((#[trigger] trigs@[i]).0) && trig_wf(trigs@[i].1),
    ensures
        r@.len() == points@.len(),
        forall|i: int|
            0 <= i < r@.len() ==> #[trigger] r@[i] == polar_cart_spec(
                points@[i],
                trigs@[i].0,
                trigs@[i].1,
            ) && vec4_bounded(r@[i], VERT_BOUND as int),
{
    let n: usize = points.len();
    let mut out: Vec<Vec4> = Vec::new();
    let mut i: usize = 0;
    while i < n
        invariant
            i <= n,
            n == points@.len(),
            trigs@.len() == points@.len(),
            polar_points_wf(points@),
            forall|k: int|
                0 <= k < trigs@.len() ==> trig_wf((#[trigger] trigs@[k]).0) && trig_wf(
                    trigs@[k].1,
                ),
            out@.len() == i,
            forall|k: int|
                0 <= k < i ==> #[trigger] out@[k] == polar_cart_spec(
                    points@[k],
                    trigs@[k].0,
                    trigs@[k].1,
                ) && vec4_bounded(out@[k], VERT_BOUND as int),
        decreases n - i,
    {
        let p: Polar = points[i];
        let t: (Trig, Trig) = trigs[i];
        let v: Vec4 = p.to_cart(&t.0, &t.1);
        out.push(v);
        i = i + 1;
    }
    out
}

/// The label a path carries: grid rings wear their angle in degrees to
/// two places; a constellation path wears none.
pub open spec fn marker_text(kind: Path2DKind, marker_centi: int) -> Seq<char> {
    match kind {
        Path2DKind::Constellation => "None"@,
        _ => centi_digits(marker_centi),
    }
}

/// Pairs a converted grid or constellation path with its screen buffer;
/// the buffer starts as a copy of the vertices, as the first projection
/// tick overwrites it anyway.
pub fn make_path_entry(kind: Path2DKind, marker_centi: i64, vertices: Vec<Vec4>) -> (r: PathEntry)
    requires
        0 <= marker_centi,
    ensures
        r.path3d.data@ == vertices@,
        r.path2d.data@ == vertices@,
        r.path2d.kind == kind,
        r.path2d.marker@ == marker_text(kind, marker_centi as int),
{
    let marker: String = match kind {
        Path2DKind::Constellation => {
            proof {
                reveal_strlit("None");
            }
            String::from_str("None")
        },
        _ => format_centi(marker_centi),
    };
    let mut copy: Vec<Vec4> = Vec::new();
    let n: usize = vertices.len();
    let mut i: usize = 0;
    while i < n
        invariant
            i <= n,
            n == vertices@.len(),
            copy@ == vertices@.take(i as int),
        decreases n - i,
    {
        copy.push(vertices[i]);
        i = i + 1;
        proof {
            assert(copy@ =~= vertices@.take(i as int));
        }
    }
    proof {
        assert(copy@ =~= vertices@);
    }
    PathEntry {
        path3d: Path3D { data: vertices },
        path2d: Path2D { data: copy, marker, kind },
    }
}

/// Leaves the star screen for the pause screen when escape was just
/// pressed; any other key leaves the state alone.
pub fn pause(escape_just_pressed: bool) -> (r: Option<AppState>)
    ensures
        r == if escape_just_pressed {
            Some(AppState::Pause)
        } else {
            None::<AppState>
        },
{
    if escape_just_pressed {
        Some(AppState::Pause)
    } else {
        None
    }
}

} // verus!
