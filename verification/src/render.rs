//! Turning projected paths into line-segment draw commands: the depth clip
//! test, the grid stride, and the map to pixel coordinates.

use vstd::prelude::*;
use crate::fixed::{sat_add, sat_add_spec, sat_mul, sat_mul_spec, SCALE};
use crate::geom::Vec4;
use crate::scene::{Path2DKind, PathEntry};

verus! {

/// A projected point survives the depth clip when its normalized depth
/// lies strictly inside the frustum.
pub open spec fn in_clip(v: Vec4) -> bool {
    -SCALE < v.z && v.z < SCALE
}

/// One line to draw, endpoints in millionths of a pixel, colored by the
/// category of the path it came from.
#[derive(Clone, Copy, PartialEq, Eq, Structural, Debug)]
pub struct SegmentCmd {
    pub x1: i64,
    pub y1: i64,
    pub x2: i64,
    pub y2: i64,
    pub kind: Path2DKind,
}

/// The draw command for one eligible segment: each normalized coordinate
/// scaled by the viewport, saturating at the representable edge.
pub open spec fn segment_cmd_spec(a: Vec4, b: Vec4, w: int, h: int, kind: Path2DKind) -> SegmentCmd {
    SegmentCmd {
        x1: sat_mul_spec(a.x as int, w) as i64,
        y1: sat_mul_spec(a.y as int, h) as i64,
        x2: sat_mul_spec(b.x as int, w) as i64,
        y2: sat_mul_spec(b.y as int, h) as i64,
        kind,
    }
}

/// How far apart the endpoints of a drawn segment stand along a path:
/// grid circles are subsampled by a fixed stride to bound the draw-call
/// volume; constellation paths are never subsampled.
pub open spec fn stride_of(kind: Path2DKind) -> int {
    match kind {
        Path2DKind::PhiCircle => 5,
        Path2DKind::ThetaCircle => 5,
        Path2DKind::Constellation => 1,
    }
}

/// The grid subsampling stride.
pub const GRID_STEP_SIZE: usize = 5;

/// The commands emitted for one path from position `m` on: a segment joins
/// the vertices `stride` apart, and is drawn exactly when both endpoints
/// survive the depth clip — a segment crossing the near or far plane is
/// dropped whole, never cut at the plane.
pub open spec fn segments_from(
    mesh: Seq<Vec4>,
    stride: int,
    m: int,
    w: int,
    h: int,
    kind: Path2DKind,
) -> Seq<SegmentCmd>
    recommends
        stride >= 1,
        m >= 0,
    decreases mesh.len() - m
        when stride >= 1 && 0 <= m
{
    if m < mesh.len() - stride {
        let rest = segments_from(mesh, stride, m + stride, w, h, kind);
        if in_clip(mesh[m]) && in_clip(mesh[m + stride]) {
            seq![segment_cmd_spec(mesh[m], mesh[m + stride], w, h, kind)] + rest
        } else {
            rest
        }
    } else {
        Seq::<SegmentCmd>::empty()
    }
}

/// All the commands one path emits.
pub open spec fn path_segments_spec(mesh: Seq<Vec4>, w: int, h: int, kind: Path2DKind) -> Seq<
    SegmentCmd,
> {
    segments_from(mesh, stride_of(kind), 0, w, h, kind)
}

/// Emits the draw commands of one projected path.
fn render_path(mesh: &Vec<Vec4>, stride: usize, w: i64, h: i64, kind: Path2DKind) -> (r: Vec<
    SegmentCmd,
>)
    requires
        stride >= 1,
        stride_of(kind) == stride,
        1 <= w <= 1_000_000,
        1 <= h <= 1_000_000,
    ensures
        r@ == path_segments_spec(mesh@, w as int, h as int, kind),
{
    let n: usize = mesh.len();
    let mut out: Vec<SegmentCmd> = Vec::new();
    let mut m: usize = 0;
    proof {
        assert(out@ + segments_from(mesh@, stride as int, 0, w as int, h as int, kind)
            =~= segments_from(mesh@, stride as int, 0, w as int, h as int, kind));
    }
    let bound: usize = if n > stride {
        n - stride
    } else {
        0
    };
    while m < bound
        invariant
            stride >= 1,
            n == mesh@.len(),
            bound == if n > stride {
                n - stride
            } else {
                0
            },
            1 <= w <= 1_000_000,
            1 <= h <= 1_000_000,
            path_segments_spec(mesh@, w as int, h as int, kind) == out@ + segments_from(
                mesh@,
                stride as int,
                m as int,
                w as int,
                h as int,
                kind,
            ),
            stride_of(kind) == stride,
        decreases n - m,
    {
        let a: Vec4 = mesh[m];
        let b: Vec4 = mesh[m + stride];
        if (a.z > -SCALE) && (a.z < SCALE) && (b.z > -SCALE) && (b.z < SCALE) {
            let cmd: SegmentCmd = SegmentCmd {
                x1: sat_mul(a.x, w),
                y1: sat_mul(a.y, h),
                x2: sat_mul(b.x, w),
                y2: sat_mul(b.y, h),
                kind,
            };
            proof {
                assert(out@.push(cmd) + segments_from(
                    mesh@,
                    stride as int,
                    m as int + stride as int,
                    w as int,
                    h as int,
                    kind,
                ) =~= out@ + segments_from(
                    mesh@,
                    stride as int,
                    m as int,
                    w as int,
                    h as int,
                    kind,
                ));
            }
            out.push(cmd);
        }
        m = m + stride;
    }
    proof {
        assert(segments_from(mesh@, stride as int, m as int, w as int, h as int, kind)
            =~= Seq::<SegmentCmd>::empty());
        assert(out@ =~= out@ + Seq::<SegmentCmd>::empty());
    }
    out
}

/// All the commands one entry emits: its projected path at its category's
/// stride.
pub open spec fn entry_segments_spec(e: PathEntry, w: int, h: int) -> Seq<SegmentCmd> {
    path_segments_spec(e.path2d.data@, w, h, e.path2d.kind)
}

/// Emits the draw commands for the whole scene this tick: each path's
/// eligible segments in path order, grid circles at their stride,
/// constellation paths pair by pair.
pub fn render_2d_paths(entries: &Vec<PathEntry>, w: i64, h: i64) -> (r: Vec<SegmentCmd>)
    requires
        1 <= w <= 1_000_000,
        1 <= h <= 1_000_000,
    ensures
        r@ == entries@.map_values(|e: PathEntry| entry_segments_spec(e, w as int, h as int))
            .flatten(),
{
    let n: usize = entries.len();
    let mut out: Vec<SegmentCmd> = Vec::new();
    let mut i: usize = 0;
    proof {
        assert(entries@.take(0).map_values(
            |e: PathEntry| entry_segments_spec(e, w as int, h as int),
        ) =~= Seq::<Seq<SegmentCmd>>::empty());
        assert(out@ =~= Seq::<Seq<SegmentCmd>>::empty().flatten());
    }
    while i < n
        invariant
            i <= n,
            n == entries@.len(),
            1 <= w <= 1_000_000,
            1 <= h <= 1_000_000,
            out@ == entries@.take(i as int).map_values(
                |e: PathEntry| entry_segments_spec(e, w as int, h as int),
            ).flatten(),
        decreases n - i,
    {
        let e: &PathEntry = &entries[i];
        let stride: usize = match e.path2d.kind {
            Path2DKind::PhiCircle => GRID_STEP_SIZE,
            Path2DKind::ThetaCircle => GRID_STEP_SIZE,
            Path2DKind::Constellation => 1,
        };
        let mut segs: Vec<SegmentCmd> = render_path(&e.path2d.data, stride, w, h, e.path2d.kind);
        proof {
            let f = |e: PathEntry| entry_segments_spec(e, w as int, h as int);
            let pre = entries@.take(i as int).map_values(f);
            assert(entries@.take(i as int + 1).map_values(f) =~= pre.push(f(entries@[i as int])));
            pre.lemma_flatten_push(f(entries@[i as int]));
            assert(segs@ == f(entries@[i as int]));
        }
        out.append(&mut segs);
        i = i + 1;
    }
    proof {
        assert(entries@.take(n as int) =~= entries@);
    }
    out
}

/// The two short strokes that mark one visible vertex: a horizontal and a
/// vertical bar of a fixed half-size crossing at the vertex's pixel.
pub open spec fn vertex_cross_spec(v: Vec4, w: int, h: int, kind: Path2DKind) -> Seq<SegmentCmd> {
    let px = sat_mul_spec(v.x as int, w);
    let py = sat_mul_spec(v.y as int, h);
    seq![
        SegmentCmd {
            x1: sat_add_spec(px, -5 * (SCALE as int)) as i64,
            y1: py as i64,
            x2: sat_add_spec(px, 5 * (SCALE as int)) as i64,
            y2: py as i64,
            kind,
        },
        SegmentCmd {
            x1: px as i64,
            y1: sat_add_spec(py, -5 * (SCALE as int)) as i64,
            x2: px as i64,
            y2: sat_add_spec(py, 5 * (SCALE as int)) as i64,
            kind,
        },
    ]
}

/// The crosses emitted for one path from position `m` on: one per vertex
/// that survives the depth clip.
pub open spec fn crosses_from(mesh: Seq<Vec4>, m: int, w: int, h: int, kind: Path2DKind) -> Seq<
    SegmentCmd,
>
    recommends
        m >= 0,
    decreases mesh.len() - m
        when 0 <= m
{
    if m < mesh.len() {
        let rest = crosses_from(mesh, m + 1, w, h, kind);
        if in_clip(mesh[m]) {
            vertex_cross_spec(mesh[m], w, h, kind) + rest
        } else {
            rest
        }
    } else {
        Seq::<SegmentCmd>::empty()
    }
}

/// Draws every clipped-in projected vertex as a small cross, a debugging
/// view of the raw projection.
pub fn render_2d_vertices(entries: &Vec<PathEntry>, w: i64, h: i64) -> (r: Vec<SegmentCmd>)
    requires
        1 <= w <= 1_000_000,
        1 <= h <= 1_000_000,
    ensures
        r@ == entries@.map_values(
            |e: PathEntry| crosses_from(e.path2d.data@, 0, w as int, h as int, e.path2d.kind),
        ).flatten(),
{
    let n: usize = entries.len();
    let mut out: Vec<SegmentCmd> = Vec::new();
    let mut i: usize = 0;
    proof {
        assert(entries@.take(0).map_values(
            |e: PathEntry| crosses_from(e.path2d.data@, 0, w as int, h as int, e.path2d.kind),
        ) =~= Seq::<Seq<SegmentCmd>>::empty());
        assert(out@ =~= Seq::<Seq<SegmentCmd>>::empty().flatten());
    }
    while i < n
        invariant
            i <= n,
            n == entries@.len(),
            1 <= w <= 1_000_000,
            1 <= h <= 1_000_000,
            out@ == entries@.take(i as int).map_values(
                |e: PathEntry| crosses_from(e.path2d.data@, 0, w as int, h as int, e.path2d.kind),
            ).flatten(),
        decreases n - i,
    {
        let e: &PathEntry = &entries[i];
        let mut segs: Vec<SegmentCmd> = render_path_vertices(&e.path2d.data, w, h, e.path2d.kind);
        proof {
            let f = |e: PathEntry| crosses_from(
                e.path2d.data@,
                0,
                w as int,
                h as int,
                e.path2d.kind,
            );
            let pre = entries@.take(i as int).map_values(f);
            assert(entries@.take(i as int + 1).map_values(f) =~= pre.push(f(entries@[i as int])));
            pre.lemma_flatten_push(f(entries@[i as int]));
            assert(segs@ == f(entries@[i as int]));
        }
        out.append(&mut segs);
        i = i + 1;
    }
    proof {
        assert(entries@.take(n as int) =~= entries@);
    }
    out
}

/// Emits the crosses of one projected path.
fn render_path_vertices(mesh: &Vec<Vec4>, w: i64, h: i64, kind: Path2DKind) -> (r: Vec<SegmentCmd>)
    requires
        1 <= w <= 1_000_000,
        1 <= h <= 1_000_000,
    ensures
        r@ == crosses_from(mesh@, 0, w as int, h as int, kind),
{
    let n: usize = mesh.len();
    let mut out: Vec<SegmentCmd> = Vec::new();
    let mut m: usize = 0;
    proof {
        assert(out@ + crosses_from(mesh@, 0, w as int, h as int, kind) =~= crosses_from(
            mesh@,
            0,
            w as int,
            h as int,
            kind,
        ));
    }
    while m < n
        invariant
            m <= n,
            n == mesh@.len(),
            1 <= w <= 1_000_000,
            1 <= h <= 1_000_000,
            crosses_from(mesh@, 0, w as int, h as int, kind) == out@ + crosses_from(
                mesh@,
                m as int,
                w as int,
                h as int,
                kind,
            ),
        decreases n - m,
    {
        let v: Vec4 = mesh[m];
        if (v.z > -SCALE) && (v.z < SCALE) {
            let px: i64 = sat_mul(v.x, w);
            let py: i64 = sat_mul(v.y, h);
            let cross_a: SegmentCmd = SegmentCmd {
                x1: sat_add(px, -5 * SCALE),
                y1: py,
                x2: sat_add(px, 5 * SCALE),
                y2: py,
                kind,
            };
            let cross_b: SegmentCmd = SegmentCmd {
                x1: px,
                y1: sat_add(py, -5 * SCALE),
                x2: px,
                y2: sat_add(py, 5 * SCALE),
                kind,
            };
            proof {
                assert(out@.push(cross_a).push(cross_b) + crosses_from(
                    mesh@,
                    m as int + 1,
                    w as int,
                    h as int,
                    kind,
                ) =~= out@ + crosses_from(mesh@, m as int, w as int, h as int, kind));
            }
            out.push(cross_a);
            out.push(cross_b);
        }
        m = m + 1;
    }
    proof {
        assert(crosses_from(mesh@, n as int, w as int, h as int, kind) =~= Seq::<
            SegmentCmd,
        >::empty());
        assert(out@ =~= out@ + Seq::<SegmentCmd>::empty());
    }
    out
}

/// Every command the renderer is handed comes from a segment both of whose
/// endpoints survived the depth clip: a segment with an endpoint on or
/// beyond the near or far plane is never emitted, whatever its screen
/// coordinates.
pub proof fn lemma_emitted_segments_clipped(
    mesh: Seq<Vec4>,
    stride: int,
    m: int,
    w: int,
    h: int,
    kind: Path2DKind,
    c: SegmentCmd,
)
    requires
        stride >= 1,
        m >= 0,
        segments_from(mesh, stride, m, w, h, kind).contains(c),
    ensures
        exists|k: int|
            m <= k && k + stride < mesh.len() && in_clip(#[trigger] mesh[k]) && in_clip(
                mesh[k + stride],
            ) && c == segment_cmd_spec(mesh[k], mesh[k + stride], w, h, kind),
    decreases mesh.len() - m,
{
    if m < mesh.len() - stride {
        let rest = segments_from(mesh, stride, m + stride, w, h, kind);
        if in_clip(mesh[m]) && in_clip(mesh[m + stride]) {
            if c == segment_cmd_spec(mesh[m], mesh[m + stride], w, h, kind) {
                assert(m <= m && m + stride < mesh.len() && in_clip(mesh[m]) && in_clip(
                    mesh[m + stride],
                ) && c == segment_cmd_spec(mesh[m], mesh[m + stride], w, h, kind));
            } else {
                assert(rest.contains(c)) by {
                    let whole = seq![segment_cmd_spec(mesh[m], mesh[m + stride], w, h, kind)]
                        + rest;
                    let j = choose|j: int| 0 <= j < whole.len() && whole[j] == c;
                    assert(whole[j] == rest[j - 1]);
                }
                lemma_emitted_segments_clipped(mesh, stride, m + stride, w, h, kind, c);
            }
        } else {
            lemma_emitted_segments_clipped(mesh, stride, m + stride, w, h, kind, c);
        }
    }
}

} // verus!
