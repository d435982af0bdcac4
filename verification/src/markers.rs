//! Grid-label placement: each projected grid ring is scanned for vertices
//! inside a screen-edge band, and at most one label per edge per ring is
//! emitted, pinned at a fixed margin and offset by the best vertex found.

use vstd::prelude::*;
use crate::fixed::SCALE;
use crate::geom::Vec4;
use crate::render::in_clip;
use crate::scene::{Path2DKind, PathEntry};

verus! {

/// The near edge of a label band: a fifth of a unit from the center line.
pub const BAND_NEAR: i64 = 200_000;

/// The far edge of a label band: half a unit from the center line.
pub const BAND_FAR: i64 = 500_000;

/// The right-edge band a parallel's label vertex must fall in.
pub open spec fn in_right_band(v: Vec4) -> bool {
    v.x < BAND_FAR && v.x > BAND_NEAR && v.y < BAND_FAR && v.y > -BAND_FAR
}

/// The left-edge band, the right one mirrored.
pub open spec fn in_left_band(v: Vec4) -> bool {
    v.x > -BAND_FAR && v.x < -BAND_NEAR && v.y < BAND_FAR && v.y > -BAND_FAR
}

/// The top-edge band a meridian's label vertex must fall in.
pub open spec fn in_top_band(v: Vec4) -> bool {
    v.y < BAND_FAR && v.y > BAND_NEAR && v.x < BAND_FAR && v.x > -BAND_FAR
}

/// The bottom-edge band, the top one mirrored.
pub open spec fn in_bottom_band(v: Vec4) -> bool {
    v.y > -BAND_FAR && v.y < -BAND_NEAR && v.x < BAND_FAR && v.x > -BAND_FAR
}

/// The right-edge scan over the first `n` vertices: whether any clipped-in
/// vertex fell in the band, and the coordinates of the one with the
/// greatest `x` among them — on a tie, the earliest stays.
pub open spec fn right_scan(mesh: Seq<Vec4>, n: int) -> (bool, int, int)
    decreases n,
{
    if n <= 0 {
        (false, -SCALE as int, -SCALE as int)
    } else {
        let t = right_scan(mesh, n - 1);
        let v = mesh[n - 1];
        if in_clip(v) && in_right_band(v) {
            if v.x > t.1 {
                (true, v.x as int, v.y as int)
            } else {
                (true, t.1, t.2)
            }
        } else {
            t
        }
    }
}

/// The left-edge scan: the least `x` wins.
pub open spec fn left_scan(mesh: Seq<Vec4>, n: int) -> (bool, int, int)
    decreases n,
{
    if n <= 0 {
        (false, SCALE as int, SCALE as int)
    } else {
        let t = left_scan(mesh, n - 1);
        let v = mesh[n - 1];
        if in_clip(v) && in_left_band(v) {
            if v.x < t.1 {
                (true, v.x as int, v.y as int)
            } else {
                (true, t.1, t.2)
            }
        } else {
            t
        }
    }
}

/// The top-edge scan: the greatest `y` wins.
pub open spec fn top_scan(mesh: Seq<Vec4>, n: int) -> (bool, int, int)
    decreases n,
{
    if n <= 0 {
        (false, -SCALE as int, -SCALE as int)
    } else {
        let t = top_scan(mesh, n - 1);
        let v = mesh[n - 1];
        if in_clip(v) && in_top_band(v) {
            if v.y > t.2 {
                (true, v.x as int, v.y as int)
            } else {
                (true, t.1, t.2)
            }
        } else {
            t
        }
    }
}

/// The bottom-edge scan: the least `y` wins.
pub open spec fn bottom_scan(mesh: Seq<Vec4>, n: int) -> (bool, int, int)
    decreases n,
{
    if n <= 0 {
        (false, SCALE as int, SCALE as int)
    } else {
        let t = bottom_scan(mesh, n - 1);
        let v = mesh[n - 1];
        if in_clip(v) && in_bottom_band(v) {
            if v.y < t.2 {
                (true, v.x as int, v.y as int)
            } else {
                (true, t.1, t.2)
            }
        } else {
            t
        }
    }
}

/// A scan that found a vertex reports coordinates inside its band.
pub proof fn lemma_right_scan_band(mesh: Seq<Vec4>, n: int)
    ensures
        right_scan(mesh, n).0 ==> BAND_NEAR < right_scan(mesh, n).1 < BAND_FAR && -BAND_FAR
            < right_scan(mesh, n).2 < BAND_FAR,
        !right_scan(mesh, n).0 ==> right_scan(mesh, n) == (false, -SCALE as int, -SCALE as int),
    decreases n,
{
    if n > 0 {
        lemma_right_scan_band(mesh, n - 1);
    }
}

pub proof fn lemma_left_scan_band(mesh: Seq<Vec4>, n: int)
    ensures
        left_scan(mesh, n).0 ==> -BAND_FAR < left_scan(mesh, n).1 < -BAND_NEAR && -BAND_FAR
            < left_scan(mesh, n).2 < BAND_FAR,
        !left_scan(mesh, n).0 ==> left_scan(mesh, n) == (false, SCALE as int, SCALE as int),
    decreases n,
{
    if n > 0 {
        lemma_left_scan_band(mesh, n - 1);
    }
}

pub proof fn lemma_top_scan_band(mesh: Seq<Vec4>, n: int)
    ensures
        top_scan(mesh, n).0 ==> -BAND_FAR < top_scan(mesh, n).1 < BAND_FAR && BAND_NEAR < top_scan(
            mesh,
            n,
        ).2 < BAND_FAR,
        !top_scan(mesh, n).0 ==> top_scan(mesh, n) == (false, -SCALE as int, -SCALE as int),
    decreases n,
{
    if n > 0 {
        lemma_top_scan_band(mesh, n - 1);
    }
}

pub proof fn lemma_bottom_scan_band(mesh: Seq<Vec4>, n: int)
    ensures
        bottom_scan(mesh, n).0 ==> -BAND_FAR < bottom_scan(mesh, n).1 < BAND_FAR && -BAND_FAR
            < bottom_scan(mesh, n).2 < -BAND_NEAR,
        !bottom_scan(mesh, n).0 ==> bottom_scan(mesh, n) == (false, SCALE as int, SCALE as int),
    decreases n,
{
    if n > 0 {
        lemma_bottom_scan_band(mesh, n - 1);
    }
}

/// The winning vertex of a scan dominates every clipped-in band vertex the
/// scan saw: no vertex among the first `n` lies further out.
pub proof fn lemma_right_scan_max(mesh: Seq<Vec4>, n: int)
    ensures
        forall|j: int|
            0 <= j < n && in_clip(#[trigger] mesh[j]) && in_right_band(mesh[j]) ==> right_scan(
                mesh,
                n,
            ).0 && mesh[j].x <= right_scan(mesh, n).1,
    decreases n,
{
    if n > 0 {
        lemma_right_scan_max(mesh, n - 1);
    }
}

/// A vertex the right-edge scan saw is never further right than the winner,
/// and the scan reports a find exactly when some clipped-in vertex among
/// the first `n` lies in its band.
pub proof fn lemma_right_scan_found(mesh: Seq<Vec4>, n: int)
    ensures
        right_scan(mesh, n).0 <==> exists|j: int|
            0 <= j < n && in_clip(#[trigger] mesh[j]) && in_right_band(mesh[j]),
    decreases n,
{
    if n > 0 {
        lemma_right_scan_found(mesh, n - 1);
        if right_scan(mesh, n).0 {
            if in_clip(mesh[n - 1]) && in_right_band(mesh[n - 1]) {
                assert(0 <= n - 1 < n && in_clip(mesh[n - 1]) && in_right_band(mesh[n - 1]));
            }
        }
    }
}

/// The left-edge winner dominates: no clipped-in band vertex the scan saw
/// lies further left.
pub proof fn lemma_left_scan_min(mesh: Seq<Vec4>, n: int)
    ensures
        forall|j: int|
            0 <= j < n && in_clip(#[trigger] mesh[j]) && in_left_band(mesh[j]) ==> left_scan(
                mesh,
                n,
            ).0 && left_scan(mesh, n).1 <= mesh[j].x,
    decreases n,
{
    if n > 0 {
        lemma_left_scan_min(mesh, n - 1);
    }
}

/// The top-edge winner dominates: no clipped-in band vertex the scan saw
/// lies higher.
pub proof fn lemma_top_scan_max(mesh: Seq<Vec4>, n: int)
    ensures
        forall|j: int|
            0 <= j < n && in_clip(#[trigger] mesh[j]) && in_top_band(mesh[j]) ==> top_scan(
                mesh,
                n,
            ).0 && mesh[j].y <= top_scan(mesh, n).2,
    decreases n,
{
    if n > 0 {
        lemma_top_scan_max(mesh, n - 1);
    }
}

/// The bottom-edge winner dominates: no clipped-in band vertex the scan
/// saw lies lower.
pub proof fn lemma_bottom_scan_min(mesh: Seq<Vec4>, n: int)
    ensures
        forall|j: int|
            0 <= j < n && in_clip(#[trigger] mesh[j]) && in_bottom_band(mesh[j]) ==> bottom_scan(
                mesh,
                n,
            ).0 && bottom_scan(mesh, n).2 <= mesh[j].y,
    decreases n,
{
    if n > 0 {
        lemma_bottom_scan_min(mesh, n - 1);
    }
}

/// One label to draw: its text and where it sits, in millionths of a pixel
/// from the window's left and bottom edges.
#[derive(Debug)]
pub struct LabelCmd {
    pub text: String,
    pub left: i64,
    pub bottom: i64,
}

/// The ghost image of a label: the text it shows and where it sits.
pub struct LabelView {
    pub text: Seq<char>,
    pub left: int,
    pub bottom: int,
}

/// The ghost image of a label command.
pub open spec fn label_view(c: LabelCmd) -> LabelView {
    LabelView { text: c.text@, left: c.left as int, bottom: c.bottom as int }
}

/// The ghost image of a queue of label commands.
pub open spec fn label_views(cs: Seq<LabelCmd>) -> Seq<LabelView> {
    cs.map_values(|c: LabelCmd| label_view(c))
}

/// The labels one parallel ring emits: one at the right edge and one at
/// the left, each only when its band scan found a vertex, pinned at a
/// fixed margin from that edge and lifted by the vertex's `y` in pixels.
pub open spec fn theta_labels(e: PathEntry, w: int, h: int) -> Seq<LabelView> {
    let n = e.path2d.data@.len() as int - 1;
    let r = right_scan(e.path2d.data@, n);
    let l = left_scan(e.path2d.data@, n);
    let right = if r.0 {
        seq![
            LabelView {
                text: e.path2d.marker@,
                left: w * (SCALE as int) - 40 * (SCALE as int),
                bottom: h * (SCALE as int) / 2 + r.2 * h + 5 * (SCALE as int),
            },
        ]
    } else {
        Seq::<LabelView>::empty()
    };
    let left = if l.0 {
        seq![
            LabelView {
                text: e.path2d.marker@,
                left: 10 * (SCALE as int),
                bottom: h * (SCALE as int) / 2 + l.2 * h + 5 * (SCALE as int),
            },
        ]
    } else {
        Seq::<LabelView>::empty()
    };
    right + left
}

/// The labels one meridian ring emits: one at the top edge and one at the
/// bottom, each only when its band scan found a vertex, pinned at a fixed
/// margin from that edge and shifted by the vertex's `x` in pixels from
/// a center line measured — as the viewport does — off the height.
pub open spec fn phi_labels(e: PathEntry, w: int, h: int) -> Seq<LabelView> {
    let n = e.path2d.data@.len() as int - 1;
    let t = top_scan(e.path2d.data@, n);
    let b = bottom_scan(e.path2d.data@, n);
    let top = if t.0 {
        seq![
            LabelView {
                text: e.path2d.marker@,
                left: h * (SCALE as int) / 2 + t.1 * w,
                bottom: h * (SCALE as int) - 20 * (SCALE as int),
            },
        ]
    } else {
        Seq::<LabelView>::empty()
    };
    let bottom = if b.0 {
        seq![
            LabelView {
                text: e.path2d.marker@,
                left: h * (SCALE as int) / 2 + b.1 * w,
                bottom: 20 * (SCALE as int),
            },
        ]
    } else {
        Seq::<LabelView>::empty()
    };
    top + bottom
}

/// The labels one entry emits: parallels mark the side edges, meridians
/// the top and bottom, constellation paths nothing.
pub open spec fn entry_labels_spec(e: PathEntry, w: int, h: int) -> Seq<LabelView> {
    match e.path2d.kind {
        Path2DKind::ThetaCircle => theta_labels(e, w, h),
        Path2DKind::PhiCircle => phi_labels(e, w, h),
        Path2DKind::Constellation => Seq::<LabelView>::empty(),
    }
}

/// Runs the right- and left-edge scans over one projected ring, vertex by
/// vertex, skipping the closing vertex: a ring's last point duplicates
/// its first.
fn scan_theta(mesh: &Vec<Vec4>) -> (r: (bool, i64, i64, bool, i64, i64))
    ensures
        (r.0, r.1 as int, r.2 as int) == right_scan(mesh@, mesh@.len() as int - 1),
        (r.3, r.4 as int, r.5 as int) == left_scan(mesh@, mesh@.len() as int - 1),
{
    let n: usize = mesh.len();
    let mut draw_right: bool = false;
    let mut rx: i64 = -SCALE;
    let mut ry: i64 = -SCALE;
    let mut draw_left: bool = false;
    let mut lx: i64 = SCALE;
    let mut ly: i64 = SCALE;
    let mut m: usize = 0;
    while m + 1 < n
        invariant
            n == mesh@.len(),
            m + 1 <= n || m == 0,
            (draw_right, rx as int, ry as int) == right_scan(mesh@, m as int),
            (draw_left, lx as int, ly as int) == left_scan(mesh@, m as int),
        decreases n - m,
    {
        let v: Vec4 = mesh[m];
        if v.z > -SCALE && v.z < SCALE {
            if v.x < BAND_FAR && v.x > BAND_NEAR && v.y < BAND_FAR && v.y > -BAND_FAR {
                draw_right = true;
                if v.x > rx {
                    rx = v.x;
                    ry = v.y;
                }
            }
            if v.x > -BAND_FAR && v.x < -BAND_NEAR && v.y < BAND_FAR && v.y > -BAND_FAR {
                draw_left = true;
                if v.x < lx {
                    lx = v.x;
                    ly = v.y;
                }
            }
        }
        m = m + 1;
    }
    proof {
        assert(m as int == mesh@.len() as int - 1 || mesh@.len() == 0);
    }
    (draw_right, rx, ry, draw_left, lx, ly)
}

/// Runs the top- and bottom-edge scans over one projected ring.
fn scan_phi(mesh: &Vec<Vec4>) -> (r: (bool, i64, i64, bool, i64, i64))
    ensures
        (r.0, r.1 as int, r.2 as int) == top_scan(mesh@, mesh@.len() as int - 1),
        (r.3, r.4 as int, r.5 as int) == bottom_scan(mesh@, mesh@.len() as int - 1),
{
    let n: usize = mesh.len();
    let mut draw_top: bool = false;
    let mut tx: i64 = -SCALE;
    let mut ty: i64 = -SCALE;
    let mut draw_bottom: bool = false;
    let mut bx: i64 = SCALE;
    let mut by: i64 = SCALE;
    let mut m: usize = 0;
    while m + 1 < n
        invariant
            n == mesh@.len(),
            m + 1 <= n || m == 0,
            (draw_top, tx as int, ty as int) == top_scan(mesh@, m as int),
            (draw_bottom, bx as int, by as int) == bottom_scan(mesh@, m as int),
        decreases n - m,
    {
        let v: Vec4 = mesh[m];
        if v.z > -SCALE && v.z < SCALE {
            if v.y < BAND_FAR && v.y > BAND_NEAR && v.x < BAND_FAR && v.x > -BAND_FAR {
                draw_top = true;
                if v.y > ty {
                    tx = v.x;
                    ty = v.y;
                }
            }
            if v.y > -BAND_FAR && v.y < -BAND_NEAR && v.x < BAND_FAR && v.x > -BAND_FAR {
                draw_bottom = true;
                if v.y < by {
                    bx = v.x;
                    by = v.y;
                }
            }
        }
        m = m + 1;
    }
    proof {
        assert(m as int == mesh@.len() as int - 1 || mesh@.len() == 0);
    }
    (draw_top, tx, ty, draw_bottom, bx, by)
}

/// Emits this tick's labels for the whole scene, each ring's in scene
/// order, right or top first; the previous tick's labels are simply
/// discarded by the caller and fully regenerated here.
pub fn render_grid_markers(entries: &Vec<PathEntry>, w: i64, h: i64) -> (r: Vec<LabelCmd>)
    requires
        1 <= w <= 1_000_000,
        1 <= h <= 1_000_000,
    ensures
        label_views(r@) == entries@.map_values(
            |e: PathEntry| entry_labels_spec(e, w as int, h as int),
        ).flatten(),
{
    let n: usize = entries.len();
    let mut out: Vec<LabelCmd> = Vec::new();
    let mut i: usize = 0;
    proof {
        assert(entries@.take(0).map_values(
            |e: PathEntry| entry_labels_spec(e, w as int, h as int),
        ) =~= Seq::<Seq<LabelView>>::empty());
        assert(label_views(out@) =~= Seq::<Seq<LabelView>>::empty().flatten());
    }
    while i < n
        invariant
            i <= n,
            n == entries@.len(),
            1 <= w <= 1_000_000,
            1 <= h <= 1_000_000,
            label_views(out@) == entries@.take(i as int).map_values(
                |e: PathEntry| entry_labels_spec(e, w as int, h as int),
            ).flatten(),
        decreases n - i,
    {
        let e: &PathEntry = &entries[i];
        let ghost out_before = out@;
        match e.path2d.kind {
            Path2DKind::ThetaCircle => {
                let scan: (bool, i64, i64, bool, i64, i64) = scan_theta(&e.path2d.data);
                proof {
                    lemma_right_scan_band(e.path2d.data@, e.path2d.data@.len() as int - 1);
                    lemma_left_scan_band(e.path2d.data@, e.path2d.data@.len() as int - 1);
                }
                if scan.0 {
                    proof {
                        crate::fixed::lemma_mul_bound(scan.2 as int, h as int, 500_000, 1_000_000);
                    }
                    let text: String = e.path2d.marker.clone();
                    out.push(
                        LabelCmd {
                            text,
                            left: w * SCALE - 40 * SCALE,
                            bottom: h * SCALE / 2 + scan.2 * h + 5 * SCALE,
                        },
                    );
                }
                if scan.3 {
                    proof {
                        crate::fixed::lemma_mul_bound(scan.5 as int, h as int, 500_000, 1_000_000);
                    }
                    let text: String = e.path2d.marker.clone();
                    out.push(
                        LabelCmd {
                            text,
                            left: 10 * SCALE,
                            bottom: h * SCALE / 2 + scan.5 * h + 5 * SCALE,
                        },
                    );
                }
                proof {
                    assert(label_views(out@) =~= label_views(out_before) + entry_labels_spec(
                        entries@[i as int],
                        w as int,
                        h as int,
                    ));
                }
            },
            Path2DKind::PhiCircle => {
                let scan: (bool, i64, i64, bool, i64, i64) = scan_phi(&e.path2d.data);
                proof {
                    lemma_top_scan_band(e.path2d.data@, e.path2d.data@.len() as int - 1);
                    lemma_bottom_scan_band(e.path2d.data@, e.path2d.data@.len() as int - 1);
                }
                if scan.0 {
                    proof {
                        crate::fixed::lemma_mul_bound(scan.1 as int, w as int, 500_000, 1_000_000);
                    }
                    let text: String = e.path2d.marker.clone();
                    out.push(
                        LabelCmd {
                            text,
                            left: h * SCALE / 2 + scan.1 * w,
                            bottom: h * SCALE - 20 * SCALE,
                        },
                    );
                }
                if scan.3 {
                    proof {
                        crate::fixed::lemma_mul_bound(scan.4 as int, w as int, 500_000, 1_000_000);
                    }
                    let text: String = e.path2d.marker.clone();
                    out.push(
                        LabelCmd { text, left: h * SCALE / 2 + scan.4 * w, bottom: 20 * SCALE },
                    );
                }
                proof {
                    assert(label_views(out@) =~= label_views(out_before) + entry_labels_spec(
                        entries@[i as int],
                        w as int,
                        h as int,
                    ));
                }
            },
            Path2DKind::Constellation => {
                proof {
                    assert(label_views(out@) =~= label_views(out_before) + entry_labels_spec(
                        entries@[i as int],
                        w as int,
                        h as int,
                    ));
                }
            },
        }
        proof {
            let f = |e: PathEntry| entry_labels_spec(e, w as int, h as int);
            let pre = entries@.take(i as int).map_values(f);
            assert(entries@.take(i as int + 1).map_values(f) =~= pre.push(f(entries@[i as int])));
            pre.lemma_flatten_push(f(entries@[i as int]));
        }
        i = i + 1;
    }
    proof {
        assert(entries@.take(n as int) =~= entries@);
    }
    out
}

} // verus!
