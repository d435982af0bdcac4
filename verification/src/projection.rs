//! The per-tick projection pass: every static path and star is pushed
//! through the current view matrix, unconditionally and in full.

use vstd::prelude::*;
use crate::geom::{
    mat_bounded, project_spec, project_vertex, vec4_bounded, Mat4, Vec4, VERT_BOUND, VIEW_BOUND,
};
use crate::scene::PathEntry;

verus! {

/// The screen-space image of a whole path: every vertex projected, in
/// order, nothing reused from the previous tick.
pub open spec fn project_path_spec(m: Mat4, path: Seq<Vec4>) -> Seq<Vec4> {
    Seq::new(path.len(), |i: int| project_spec(m, path[i]))
}

/// Every vertex of one static path stays on the scene's sphere.
pub open spec fn path_data_wf(data: Seq<Vec4>) -> bool {
    forall|j: int| 0 <= j < data.len() ==> vec4_bounded(#[trigger] data[j], VERT_BOUND as int)
}

/// Every vertex of every static path stays on the scene's sphere.
pub open spec fn entries_wf(entries: Seq<PathEntry>) -> bool {
    forall|k: int|
        0 <= k < entries.len() ==> path_data_wf((#[trigger] entries[k]).path3d.data@)
}

/// One entry after a projection tick: the static path, its category and
/// its label stand; only the screen buffer is rewritten, to the projection
/// of the static path.
pub open spec fn entry_projected(before: PathEntry, after: PathEntry, m: Mat4) -> bool {
    &&& after.path3d.data@ == before.path3d.data@
    &&& after.path2d.kind == before.path2d.kind
    &&& after.path2d.marker == before.path2d.marker
    &&& after.path2d.data@ == project_path_spec(m, before.path3d.data@)
}

/// Projects every vertex of one static path.
fn project_path(m: &Mat4, path: &Vec<Vec4>) -> (r: Vec<Vec4>)
    requires
        mat_bounded(*m, VIEW_BOUND as int),
        path_data_wf(path@),
    ensures
        r@ == project_path_spec(*m, path@),
{
    let n: usize = path.len();
    let mut out: Vec<Vec4> = Vec::new();
    let mut j: usize = 0;
    while j < n
        invariant
            j <= n,
            n == path@.len(),
            mat_bounded(*m, VIEW_BOUND as int),
            path_data_wf(path@),
            out@.len() == j,
            forall|k: int| 0 <= k < j ==> #[trigger] out@[k] == project_spec(*m, path@[k]),
        decreases n - j,
    {
        let v: Vec4 = path[j];
        out.push(project_vertex(m, &v));
        j = j + 1;
    }
    proof {
        assert(out@ =~= project_path_spec(*m, path@));
    }
    out
}

/// One projection tick over the whole scene: every screen buffer is
/// recomputed from its static path and the current matrix — the cost is
/// the total vertex count, every tick, with no dirtiness tracking.
pub fn path_projection(m: &Mat4, entries: &mut Vec<PathEntry>)
    requires
        mat_bounded(*m, VIEW_BOUND as int),
        entries_wf(old(entries)@),
    ensures
        final(entries)@.len() == old(entries)@.len(),
        forall|k: int|
            0 <= k < old(entries)@.len() ==> entry_projected(
                old(entries)@[k],
                #[trigger] final(entries)@[k],
                *m,
            ),
        entries_wf(final(entries)@),
{
    let n: usize = entries.len();
    let mut i: usize = 0;
    while i < n
        invariant
            i <= n,
            n == entries@.len(),
            n == old(entries)@.len(),
            mat_bounded(*m, VIEW_BOUND as int),
            entries_wf(old(entries)@),
            forall|k: int| i <= k < n ==> #[trigger] entries@[k] == old(entries)@[k],
            forall|k: int|
                0 <= k < i ==> entry_projected(old(entries)@[k], #[trigger] entries@[k], *m),
        decreases n - i,
    {
        let e: PathEntry = entries.remove(i);
        proof {
            assert(e == old(entries)@[i as int]);
            assert(path_data_wf(old(entries)@[i as int].path3d.data@));
        }
        let projected: Vec<Vec4> = project_path(m, &e.path3d.data);
        let rebuilt: PathEntry = PathEntry {
            path3d: e.path3d,
            path2d: crate::scene::Path2D {
                data: projected,
                marker: e.path2d.marker,
                kind: e.path2d.kind,
            },
        };
        entries.insert(i, rebuilt);
        i = i + 1;
    }
}

/// One star: its fixed position on the sphere, the sprite size its
/// magnitude gave it, and the screen point the last tick moved it to.
#[derive(Clone, Copy, PartialEq, Eq, Structural, Debug)]
pub struct StarInstance {
    pub position3d: Vec4,
    pub size: i64,
    pub screen_x: i64,
    pub screen_y: i64,
}

/// Where a star lands, in millionths of a pixel: its projection scaled by
/// the viewport, saturating at the representable edge so a far off-screen
/// star stays far off-screen.
pub open spec fn star_screen_spec(m: Mat4, v: Vec4, w: int, h: int) -> (int, int) {
    let p = project_spec(m, v);
    (crate::fixed::sat_mul_spec(p.x as int, w), crate::fixed::sat_mul_spec(p.y as int, h))
}

/// Every star sits on the scene's sphere.
pub open spec fn stars_wf(stars: Seq<StarInstance>) -> bool {
    forall|k: int|
        0 <= k < stars.len() ==> vec4_bounded((#[trigger] stars[k]).position3d, VERT_BOUND as int)
}

/// One projection tick over the stars: every sprite is moved to the screen
/// image of its fixed position; positions and sizes stand.
pub fn draw_stars(m: &Mat4, stars: &mut Vec<StarInstance>, w: i64, h: i64)
    requires
        mat_bounded(*m, VIEW_BOUND as int),
        stars_wf(old(stars)@),
        1 <= w <= 1_000_000,
        1 <= h <= 1_000_000,
    ensures
        final(stars)@.len() == old(stars)@.len(),
        forall|k: int|
            0 <= k < old(stars)@.len() ==> {
                let before = old(stars)@[k];
                let after = #[trigger] final(stars)@[k];
                &&& after.position3d == before.position3d
                &&& after.size == before.size
                &&& (after.screen_x as int, after.screen_y as int) == star_screen_spec(
                    *m,
                    before.position3d,
                    w as int,
                    h as int,
                )
            },
{
    let n: usize = stars.len();
    let mut i: usize = 0;
    while i < n
        invariant
            i <= n,
            n == stars@.len(),
            n == old(stars)@.len(),
            mat_bounded(*m, VIEW_BOUND as int),
            stars_wf(old(stars)@),
            1 <= w <= 1_000_000,
            1 <= h <= 1_000_000,
            forall|k: int| i <= k < n ==> #[trigger] stars@[k] == old(stars)@[k],
            forall|k: int|
                0 <= k < i ==> {
                    let before = old(stars)@[k];
                    let after = #[trigger] stars@[k];
                    &&& after.position3d == before.position3d
                    &&& after.size == before.size
                    &&& (after.screen_x as int, after.screen_y as int) == star_screen_spec(
                        *m,
                        before.position3d,
                        w as int,
                        h as int,
                    )
                },
        decreases n - i,
    {
        let s: StarInstance = stars[i];
        proof {
            assert(vec4_bounded(old(stars)@[i as int].position3d, VERT_BOUND as int));
        }
        let p: Vec4 = project_vertex(m, &s.position3d);
        let sx: i64 = crate::fixed::sat_mul(p.x, w);
        let sy: i64 = crate::fixed::sat_mul(p.y, h);
        stars.set(
            i,
            StarInstance { position3d: s.position3d, size: s.size, screen_x: sx, screen_y: sy },
        );
        i = i + 1;
    }
}

/// Re-projection is a pure function of the matrix and the static path:
/// with the camera unchanged between ticks, the screen buffer written by
/// one tick equals the buffer written by the next, whatever either buffer
/// held before.
pub proof fn lemma_reprojection_identical(
    m: Mat4,
    path: Seq<Vec4>,
    first: Seq<Vec4>,
    second: Seq<Vec4>,
)
    requires
        first == project_path_spec(m, path),
        second == project_path_spec(m, path),
    ensures
        first == second,
{
}

} // verus!
