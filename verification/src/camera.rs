//! The orbit camera: field of view, drag-driven rotation, and the view
//! projection matrix derived from them each tick.

use vstd::prelude::*;
use crate::fixed::{clamp_spec, div_fp, div_trunc, fp_mul_spec, PI_MICRO, SCALE};
use crate::geom::{mat_bounded, mat_mul, mat_mul_spec, trig_wf, Mat4, Trig, VIEW_BOUND};

verus! {

/// The smallest field of view the camera can be driven to, in millionths
/// of a radian.
pub const FOV_MIN: i64 = 100_000;

/// The widest field of view the camera can be driven to.
pub const FOV_MAX: i64 = 3_140_000;

/// How far one coarse scroll line moves the field of view.
pub const FOV_LINE_STEP: i64 = 100_000;

/// How far one fine scroll pixel moves the field of view; the two
/// granularities are tuned separately.
pub const FOV_PIXEL_STEP: i64 = 1_000;

/// The drag sensitivity divisor: a pixel of drag at a half-turn field of
/// view turns the camera by a three-hundredth of a radian.
pub const ORBIT_DIVISOR: i64 = 300;

/// The field of view, in millionths of a radian.
#[derive(Clone, Copy, PartialEq, Eq, Structural, Debug)]
pub struct Fov {
    pub value: i64,
}

/// The field of view never leaves its clamp interval.
pub open spec fn fov_wf(f: Fov) -> bool {
    FOV_MIN <= f.value <= FOV_MAX
}

/// The granularity a scroll event arrives in.
#[derive(Clone, Copy, PartialEq, Eq, Structural, Debug)]
pub enum ScrollUnit {
    Line,
    Pixel,
}

/// One scroll event: its granularity and its vertical amount in
/// millionths of a unit.
#[derive(Clone, Copy, PartialEq, Eq, Structural, Debug)]
pub struct ScrollEvent {
    pub unit: ScrollUnit,
    pub y: i64,
}

/// A scroll event moves the field of view by its amount times the step of
/// its granularity, and the result is clamped hard into the legal
/// interval.
pub open spec fn fov_step(fov: int, ev: ScrollEvent) -> int {
    let step: int = match ev.unit {
        ScrollUnit::Line => FOV_LINE_STEP as int,
        ScrollUnit::Pixel => FOV_PIXEL_STEP as int,
    };
    clamp_spec(fov + fp_mul_spec(ev.y as int, step), FOV_MIN as int, FOV_MAX as int)
}

/// The field of view after a queue of scroll events, applied in order.
pub open spec fn fov_fold(fov: int, events: Seq<ScrollEvent>) -> int
    decreases events.len(),
{
    if events.len() == 0 {
        fov
    } else {
        fov_fold(fov_step(fov, events[0]), events.skip(1))
    }
}

/// A fold of scroll events never leaves the clamp interval once one event
/// has been applied: however far the wheel keeps turning, the field of
/// view stays between its bounds.
pub proof fn lemma_fov_fold_clamped(fov: int, events: Seq<ScrollEvent>)
    requires
        events.len() > 0,
    ensures
        FOV_MIN <= fov_fold(fov, events) <= FOV_MAX,
    decreases events.len(),
{
    if events.len() > 1 {
        lemma_fov_fold_clamped(fov_step(fov, events[0]), events.skip(1));
    } else {
        assert(events.skip(1).len() == 0);
        assert(fov_fold(fov, events) == fov_fold(fov_step(fov, events[0]), events.skip(1)));
    }
}

/// Every scroll event a queue holds is small enough to apply.
pub open spec fn scroll_events_wf(events: Seq<ScrollEvent>) -> bool {
    forall|i: int|
        0 <= i < events.len() ==> -1_000_000_000_000 <= (#[trigger] events[i]).y
            <= 1_000_000_000_000
}

/// Adjusts the field of view by a queue of scroll events, clamping after
/// every step.
pub fn fov_adjust(fov: &mut Fov, events: &Vec<ScrollEvent>)
    requires
        fov_wf(*old(fov)),
        scroll_events_wf(events@),
    ensures
        final(fov).value == fov_fold(old(fov).value as int, events@),
        fov_wf(*final(fov)),
        events@.len() > 0 ==> FOV_MIN <= final(fov).value <= FOV_MAX,
{
    let n: usize = events.len();
    let mut i: usize = 0;
    proof {
        assert(events@.skip(0) =~= events@);
    }
    while i < n
        invariant
            i <= n,
            n == events@.len(),
            scroll_events_wf(events@),
            fov_wf(*fov),
            fov_fold(old(fov).value as int, events@) == fov_fold(fov.value as int, events@.skip(
                i as int,
            )),
        decreases n - i,
    {
        let ev: ScrollEvent = events[i];
        let step: i64 = match ev.unit {
            ScrollUnit::Line => FOV_LINE_STEP,
            ScrollUnit::Pixel => FOV_PIXEL_STEP,
        };
        proof {
            crate::fixed::lemma_mul_bound(ev.y as int, step as int, 1_000_000_000_000, 100_000);
        }
        let moved: i64 = crate::fixed::fp_mul(ev.y, step);
        proof {
            crate::fixed::lemma_div_trunc_bound(
                ev.y as int * step as int,
                SCALE as int,
                100_000_000_000,
            );
            assert(events@.skip(i as int)[0] == events@[i as int]);
            assert(events@.skip(i as int).skip(1) =~= events@.skip(i as int + 1));
        }
        let raw: i64 = fov.value + moved;
        fov.value = crate::fixed::clamp_fp(raw, FOV_MIN, FOV_MAX);
        i = i + 1;
    }
    proof {
        assert(events@.skip(n as int) =~= Seq::<ScrollEvent>::empty());
    }
}

/// The camera's orbit angles around the look point, in millionths of a
/// radian; they wrap only through the periodicity of the trigonometry.
#[derive(Clone, Copy, PartialEq, Eq, Structural, Debug)]
pub struct Camera {
    pub rot_x: i64,
    pub rot_y: i64,
}

/// The rotations stay far from the representable edge.
pub open spec fn camera_wf(c: Camera) -> bool {
    -1_000_000_000_000_000 <= c.rot_x <= 1_000_000_000_000_000 && -1_000_000_000_000_000
        <= c.rot_y <= 1_000_000_000_000_000
}

/// A mouse button going down or up.
#[derive(Clone, Copy, PartialEq, Eq, Structural, Debug)]
pub enum ButtonState {
    Pressed,
    Released,
}

/// One mouse motion: its horizontal and vertical amount in millionths of
/// a pixel.
#[derive(Clone, Copy, PartialEq, Eq, Structural, Debug)]
pub struct MotionEvent {
    pub dx: i64,
    pub dy: i64,
}

/// Whether the button is held after a queue of button events: the last
/// event decides, and with no event the old state stands.
pub open spec fn pressed_after(old_state: bool, buttons: Seq<ButtonState>) -> bool {
    if buttons.len() == 0 {
        old_state
    } else {
        buttons.last() == ButtonState::Pressed
    }
}

/// How far one motion event turns the camera: the drag is scaled by the
/// field of view against half a turn, then by the sensitivity divisor, so
/// a narrow view drags finer.
pub open spec fn orbit_delta(fov: int, d: int) -> int {
    div_trunc(div_trunc(fov * d, PI_MICRO as int), ORBIT_DIVISOR as int)
}

/// The camera after a queue of motion events, applied in order.
pub open spec fn orbit_fold(c: Camera, fov: int, motions: Seq<MotionEvent>) -> Camera
    decreases motions.len(),
{
    if motions.len() == 0 {
        c
    } else {
        let next = Camera {
            rot_x: (c.rot_x - orbit_delta(fov, motions[0].dy as int)) as i64,
            rot_y: (c.rot_y - orbit_delta(fov, motions[0].dx as int)) as i64,
        };
        orbit_fold(next, fov, motions.skip(1))
    }
}

/// Every motion a queue holds is small enough to apply.
pub open spec fn motions_wf(motions: Seq<MotionEvent>) -> bool {
    motions.len() <= 100_000 && forall|i: int|
        0 <= i < motions.len() ==> -1_000_000_000 <= (#[trigger] motions[i]).dx <= 1_000_000_000
            && -1_000_000_000 <= motions[i].dy <= 1_000_000_000
}

/// Feeds button and motion events to the camera: the button events settle
/// whether the button is held, and while it is held every motion turns the
/// camera, scaled by the field of view.
pub fn orbit_camera(
    fov: &Fov,
    camera: &mut Camera,
    mouse_pressed: &mut bool,
    buttons: &Vec<ButtonState>,
    motions: &Vec<MotionEvent>,
)
    requires
        fov_wf(*fov),
        camera_wf(*old(camera)),
        motions_wf(motions@),
    ensures
        *final(mouse_pressed) == pressed_after(*old(mouse_pressed), buttons@),
        *final(mouse_pressed) ==> *final(camera) == orbit_fold(
            *old(camera),
            fov.value as int,
            motions@,
        ),
        !*final(mouse_pressed) ==> *final(camera) == *old(camera),
{
    let nb: usize = buttons.len();
    let mut i: usize = 0;
    while i < nb
        invariant
            i <= nb,
            nb == buttons@.len(),
            *mouse_pressed == pressed_after(*old(mouse_pressed), buttons@.take(i as int)),
        decreases nb - i,
    {
        proof {
            assert(buttons@.take(i as int + 1).last() == buttons@[i as int]);
        }
        match buttons[i] {
            ButtonState::Pressed => {
                *mouse_pressed = true;
            },
            ButtonState::Released => {
                *mouse_pressed = false;
            },
        }
        i = i + 1;
    }
    proof {
        assert(buttons@.take(nb as int) =~= buttons@);
    }
    if *mouse_pressed {
        let nm: usize = motions.len();
        let mut j: usize = 0;
        proof {
            assert(motions@.skip(0) =~= motions@);
        }
        while j < nm
            invariant
                j <= nm,
                nm == motions@.len(),
                fov_wf(*fov),
                motions_wf(motions@),
                -1_000_000_000_000_000 - 4_000_000 * j <= camera.rot_x <= 1_000_000_000_000_000
                    + 4_000_000 * j,
                -1_000_000_000_000_000 - 4_000_000 * j <= camera.rot_y <= 1_000_000_000_000_000
                    + 4_000_000 * j,
                orbit_fold(*old(camera), fov.value as int, motions@) == orbit_fold(
                    *camera,
                    fov.value as int,
                    motions@.skip(j as int),
                ),
            decreases nm - j,
        {
            let ev: MotionEvent = motions[j];
            proof {
                crate::fixed::lemma_mul_bound(
                    fov.value as int,
                    ev.dy as int,
                    FOV_MAX as int,
                    1_000_000_000,
                );
                crate::fixed::lemma_mul_bound(
                    fov.value as int,
                    ev.dx as int,
                    FOV_MAX as int,
                    1_000_000_000,
                );
                crate::fixed::lemma_div_trunc_bound(
                    fov.value as int * ev.dy as int,
                    PI_MICRO as int,
                    1_000_000_000,
                );
                crate::fixed::lemma_div_trunc_bound(
                    fov.value as int * ev.dx as int,
                    PI_MICRO as int,
                    1_000_000_000,
                );
                crate::fixed::lemma_div_trunc_bound(
                    div_trunc(fov.value as int * ev.dy as int, PI_MICRO as int),
                    ORBIT_DIVISOR as int,
                    4_000_000,
                );
                crate::fixed::lemma_div_trunc_bound(
                    div_trunc(fov.value as int * ev.dx as int, PI_MICRO as int),
                    ORBIT_DIVISOR as int,
                    4_000_000,
                );
                assert(motions@.skip(j as int)[0] == motions@[j as int]);
                assert(motions@.skip(j as int).skip(1) =~= motions@.skip(j as int + 1));
            }
            let dx_scaled: i64 = div_fp(div_fp(fov.value * ev.dy, PI_MICRO), ORBIT_DIVISOR);
            let dy_scaled: i64 = div_fp(div_fp(fov.value * ev.dx, PI_MICRO), ORBIT_DIVISOR);
            camera.rot_x = camera.rot_x - dx_scaled;
            camera.rot_y = camera.rot_y - dy_scaled;
            j = j + 1;
        }
        proof {
            assert(motions@.skip(nm as int) =~= Seq::<MotionEvent>::empty());
        }
    }
}

/// The fixed near clip plane, a tenth of a unit out.
pub const NEAR_PLANE: i64 = 100_000;

/// The fixed far clip plane, a hundred units out.
pub const FAR_PLANE: i64 = 100_000_000;

/// The perspective matrix for a field of view given as the cotangent of
/// its half, an aspect ratio, and the fixed near and far planes; the
/// layout follows the conventional column-major perspective transform.
pub open spec fn perspective_spec(cot_half_fov: int, aspect: int) -> Mat4 {
    Mat4 {
        c0r0: div_trunc(cot_half_fov * (SCALE as int), aspect) as i64,
        c0r1: 0,
        c0r2: 0,
        c0r3: 0,
        c1r0: 0,
        c1r1: cot_half_fov as i64,
        c1r2: 0,
        c1r3: 0,
        c2r0: 0,
        c2r1: 0,
        c2r2: div_trunc(
            (FAR_PLANE + NEAR_PLANE) * (SCALE as int),
            NEAR_PLANE - FAR_PLANE,
        ) as i64,
        c2r3: (-SCALE) as i64,
        c3r0: 0,
        c3r1: 0,
        c3r2: div_trunc(
            2 * ((FAR_PLANE as int) * (NEAR_PLANE as int)),
            NEAR_PLANE - FAR_PLANE,
        ) as i64,
        c3r3: 0,
    }
}

/// The bound every perspective matrix entry respects.
pub const PERSP_BOUND: i64 = 2_100_000_000;

/// Builds the perspective matrix.
pub fn perspective_matrix(cot_half_fov: i64, aspect: i64) -> (m: Mat4)
    requires
        0 < cot_half_fov <= 20_000_000,
        10_000 <= aspect <= 100_000_000,
    ensures
        m == perspective_spec(cot_half_fov as int, aspect as int),
        mat_bounded(m, PERSP_BOUND as int),
{
    proof {
        crate::fixed::lemma_div_trunc_bound(
            cot_half_fov as int * (SCALE as int),
            aspect as int,
            2_000_000_000,
        );
        assert(cot_half_fov as int * (SCALE as int) <= 2_000_000_000 * 10_000) by (
        nonlinear_arith)
            requires
                0 < cot_half_fov <= 20_000_000,
        ;
        assert(2_000_000_000 * aspect as int >= 2_000_000_000 * 10_000) by (nonlinear_arith)
            requires
                aspect >= 10_000,
        ;
        crate::fixed::lemma_div_trunc_bound(
            ((FAR_PLANE + NEAR_PLANE) as int) * (SCALE as int),
            (FAR_PLANE - NEAR_PLANE) as int,
            2_100_000,
        );
        crate::fixed::lemma_div_trunc_bound(
            2 * ((FAR_PLANE as int) * (NEAR_PLANE as int)),
            (FAR_PLANE - NEAR_PLANE) as int,
            2_100_000,
        );
    }
    let c0r0: i64 = div_fp(cot_half_fov * SCALE, aspect);
    let c2r2: i64 = div_fp((FAR_PLANE + NEAR_PLANE) * SCALE, NEAR_PLANE - FAR_PLANE);
    let c3r2: i64 = div_fp(2 * (FAR_PLANE * NEAR_PLANE), NEAR_PLANE - FAR_PLANE);
    Mat4 {
        c0r0,
        c0r1: 0,
        c0r2: 0,
        c0r3: 0,
        c1r0: 0,
        c1r1: cot_half_fov,
        c1r2: 0,
        c1r3: 0,
        c2r0: 0,
        c2r1: 0,
        c2r2,
        c2r3: -SCALE,
        c3r0: 0,
        c3r1: 0,
        c3r2,
        c3r3: 0,
    }
}

/// A rotation about the x axis (pitch), from a trigonometric sample.
pub open spec fn rotation_x_spec(t: Trig) -> Mat4 {
    Mat4 {
        c0r0: SCALE,
        c0r1: 0,
        c0r2: 0,
        c0r3: 0,
        c1r0: 0,
        c1r1: t.cos,
        c1r2: t.sin,
        c1r3: 0,
        c2r0: 0,
        c2r1: (-t.sin) as i64,
        c2r2: t.cos,
        c2r3: 0,
        c3r0: 0,
        c3r1: 0,
        c3r2: 0,
        c3r3: SCALE,
    }
}

/// A rotation about the y axis (yaw), from a trigonometric sample.
pub open spec fn rotation_y_spec(t: Trig) -> Mat4 {
    Mat4 {
        c0r0: t.cos,
        c0r1: 0,
        c0r2: (-t.sin) as i64,
        c0r3: 0,
        c1r0: 0,
        c1r1: SCALE,
        c1r2: 0,
        c1r3: 0,
        c2r0: t.sin,
        c2r1: 0,
        c2r2: t.cos,
        c2r3: 0,
        c3r0: 0,
        c3r1: 0,
        c3r2: 0,
        c3r3: SCALE,
    }
}

/// A rotation about the z axis (roll), from a trigonometric sample.
pub open spec fn rotation_z_spec(t: Trig) -> Mat4 {
    Mat4 {
        c0r0: t.cos,
        c0r1: t.sin,
        c0r2: 0,
        c0r3: 0,
        c1r0: (-t.sin) as i64,
        c1r1: t.cos,
        c1r2: 0,
        c1r3: 0,
        c2r0: 0,
        c2r1: 0,
        c2r2: SCALE,
        c2r3: 0,
        c3r0: 0,
        c3r1: 0,
        c3r2: 0,
        c3r3: SCALE,
    }
}

/// A translation by a fixed offset; the scene origin stays at zero, so the
/// offset in use is the identity's.
pub open spec fn translation_spec(x: i64, y: i64, z: i64) -> Mat4 {
    Mat4 {
        c0r0: SCALE,
        c0r1: 0,
        c0r2: 0,
        c0r3: 0,
        c1r0: 0,
        c1r1: SCALE,
        c1r2: 0,
        c1r3: 0,
        c2r0: 0,
        c2r1: 0,
        c2r2: SCALE,
        c2r3: 0,
        c3r0: x,
        c3r1: y,
        c3r2: z,
        c3r3: SCALE,
    }
}

/// Builds a rotation about the x axis.
pub fn rotation_x_matrix(t: &Trig) -> (m: Mat4)
    requires
        trig_wf(*t),
    ensures
        m == rotation_x_spec(*t),
        mat_bounded(m, SCALE as int),
{
    Mat4 {
        c0r0: SCALE,
        c0r1: 0,
        c0r2: 0,
        c0r3: 0,
        c1r0: 0,
        c1r1: t.cos,
        c1r2: t.sin,
        c1r3: 0,
        c2r0: 0,
        c2r1: -t.sin,
        c2r2: t.cos,
        c2r3: 0,
        c3r0: 0,
        c3r1: 0,
        c3r2: 0,
        c3r3: SCALE,
    }
}

/// Builds a rotation about the y axis.
pub fn rotation_y_matrix(t: &Trig) -> (m: Mat4)
    requires
        trig_wf(*t),
    ensures
        m == rotation_y_spec(*t),
        mat_bounded(m, SCALE as int),
{
    Mat4 {
        c0r0: t.cos,
        c0r1: 0,
        c0r2: -t.sin,
        c0r3: 0,
        c1r0: 0,
        c1r1: SCALE,
        c1r2: 0,
        c1r3: 0,
        c2r0: t.sin,
        c2r1: 0,
        c2r2: t.cos,
        c2r3: 0,
        c3r0: 0,
        c3r1: 0,
        c3r2: 0,
        c3r3: SCALE,
    }
}

/// Builds a rotation about the z axis.
pub fn rotation_z_matrix(t: &Trig) -> (m: Mat4)
    requires
        trig_wf(*t),
    ensures
        m == rotation_z_spec(*t),
        mat_bounded(m, SCALE as int),
{
    Mat4 {
        c0r0: t.cos,
        c0r1: t.sin,
        c0r2: 0,
        c0r3: 0,
        c1r0: -t.sin,
        c1r1: t.cos,
        c1r2: 0,
        c1r3: 0,
        c2r0: 0,
        c2r1: 0,
        c2r2: SCALE,
        c2r3: 0,
        c3r0: 0,
        c3r1: 0,
        c3r2: 0,
        c3r3: SCALE,
    }
}

/// Builds a translation matrix.
pub fn translation_matrix(x: i64, y: i64, z: i64) -> (m: Mat4)
    requires
        -SCALE <= x <= SCALE,
        -SCALE <= y <= SCALE,
        -SCALE <= z <= SCALE,
    ensures
        m == translation_spec(x, y, z),
        mat_bounded(m, SCALE as int),
{
    Mat4 {
        c0r0: SCALE,
        c0r1: 0,
        c0r2: 0,
        c0r3: 0,
        c1r0: 0,
        c1r1: SCALE,
        c1r2: 0,
        c1r3: 0,
        c2r0: 0,
        c2r1: 0,
        c2r2: SCALE,
        c2r3: 0,
        c3r0: x,
        c3r1: y,
        c3r2: z,
        c3r3: SCALE,
    }
}

/// The roll term is fixed at zero: its sample is the identity's.
pub open spec fn zero_roll() -> Trig {
    Trig { sin: 0, cos: SCALE }
}

/// The view projection matrix: perspective, then the identity translation
/// of the scene origin, then roll (fixed at zero), pitch and yaw, in that
/// order — yaw is applied to a point first, then pitch, then the fixed
/// roll. The order is part of the contract: orbiting yaws around the
/// world's vertical axis before tilting.
pub open spec fn view_projection_spec(
    cot_half_fov: int,
    aspect: int,
    tx: Trig,
    ty: Trig,
) -> Mat4 {
    mat_mul_spec(
        mat_mul_spec(
            mat_mul_spec(
                mat_mul_spec(perspective_spec(cot_half_fov, aspect), translation_spec(0, 0, 0)),
                rotation_z_spec(zero_roll()),
            ),
            rotation_x_spec(tx),
        ),
        rotation_y_spec(ty),
    )
}

/// Derives the view projection matrix for this tick.
pub fn view_projection_matrix(cot_half_fov: i64, aspect: i64, tx: &Trig, ty: &Trig) -> (m: Mat4)
    requires
        0 < cot_half_fov <= 20_000_000,
        10_000 <= aspect <= 100_000_000,
        trig_wf(*tx),
        trig_wf(*ty),
    ensures
        m == view_projection_spec(cot_half_fov as int, aspect as int, *tx, *ty),
        mat_bounded(m, VIEW_BOUND as int),
{
    let persp: Mat4 = perspective_matrix(cot_half_fov, aspect);
    let translate: Mat4 = translation_matrix(0, 0, 0);
    let roll: Mat4 = rotation_z_matrix(&Trig { sin: 0, cos: SCALE });
    let pitch: Mat4 = rotation_x_matrix(tx);
    let yaw: Mat4 = rotation_y_matrix(ty);
    let m1: Mat4 = mat_mul(&persp, &translate, Ghost(PERSP_BOUND as int), Ghost(SCALE as int));
    let m2: Mat4 = mat_mul(&m1, &roll, Ghost(8_400_000_001), Ghost(SCALE as int));
    let m3: Mat4 = mat_mul(&m2, &pitch, Ghost(33_600_000_005), Ghost(SCALE as int));
    let m4: Mat4 = mat_mul(&m3, &yaw, Ghost(134_400_000_021), Ghost(SCALE as int));
    m4
}

} // verus!
