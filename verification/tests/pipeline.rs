use stargazer::camera::{
    fov_adjust, orbit_camera, view_projection_matrix, ButtonState, Camera, Fov, MotionEvent,
    ScrollEvent, ScrollUnit,
};
use stargazer::consts::AppState;
use stargazer::geom::{Mat4, Trig, Vec4};
use stargazer::markers::render_grid_markers;
use stargazer::projection::{draw_stars, path_projection, StarInstance};
use stargazer::render::{render_2d_paths, render_2d_vertices};
use stargazer::scene::{
    make_path_entry, path3d_from_polar, pause, setup_equatorial_grid, Path2DKind, PathEntry,
};
use stargazer::units::polar::Polar;

fn trig_of(angle_micro: i64) -> Trig {
    let a = angle_micro as f64 / 1e6;
    let clamp = |v: f64| -> i64 {
        let s = (v * 1e6).round() as i64;
        s.max(-1_000_000).min(1_000_000)
    };
    Trig { sin: clamp(a.sin()), cos: clamp(a.cos()) }
}

fn identity_matrix() -> Mat4 {
    Mat4 {
        c0r0: 1_000_000, c0r1: 0, c0r2: 0, c0r3: 0,
        c1r0: 0, c1r1: 1_000_000, c1r2: 0, c1r3: 0,
        c2r0: 0, c2r1: 0, c2r2: 1_000_000, c2r3: 0,
        c3r0: 0, c3r1: 0, c3r2: 0, c3r3: 1_000_000,
    }
}

fn grid_entries(phi_split: usize, theta_split: usize, resolution: usize) -> Vec<PathEntry> {
    let polar_paths = setup_equatorial_grid(phi_split, theta_split, resolution);
    let mut entries = Vec::new();
    for p in &polar_paths {
        let trigs: Vec<(Trig, Trig)> =
            p.points.iter().map(|q| (trig_of(q.theta), trig_of(q.phi))).collect();
        let vertices = path3d_from_polar(&p.points, &trigs);
        entries.push(make_path_entry(p.kind, p.marker_centi, vertices));
    }
    entries
}

// The grid shape: phi_split + 1 meridians, each of resolution + 1 points.
#[test]
fn grid_has_the_promised_meridians() {
    let paths = setup_equatorial_grid(4, 4, 10);
    assert_eq!(paths.len(), 10);
    let meridians: Vec<_> =
        paths.iter().filter(|p| p.kind == Path2DKind::PhiCircle).collect();
    assert_eq!(meridians.len(), 5);
    for m in meridians {
        assert_eq!(m.points.len(), 11);
    }
}

#[test]
fn grid_marker_reads_in_degrees() {
    let paths = setup_equatorial_grid(4, 4, 10);
    // the second meridian stands a quarter turn around: 90 degrees
    assert_eq!(paths[1].marker_centi, 9000);
    let entry = make_path_entry(paths[1].kind, paths[1].marker_centi, Vec::new());
    assert_eq!(entry.path2d.marker, "90.00");
}

// The conversion formula on concrete samples: a point on the equator at
// azimuth zero lands on the positive x axis.
#[test]
fn to_cart_places_the_equator() {
    let p = Polar { theta: 1_570_796, phi: 0, radius: 1_000_000 };
    let v = p.to_cart(&trig_of(p.theta), &trig_of(p.phi));
    assert_eq!(v.w, 1_000_000);
    assert!((v.x - 1_000_000).abs() < 10);
    assert!(v.y.abs() < 10);
    assert!(v.z.abs() < 10);
}

// The Cartesian image keeps the radius, within tolerance.
#[test]
fn to_cart_keeps_the_norm() {
    for (theta, phi) in [(300_000i64, 700_000i64), (1_000_000, 2_000_000), (2_500_000, 5_500_000)] {
        let p = Polar { theta, phi, radius: 1_000_000 };
        let v = p.to_cart(&trig_of(theta), &trig_of(phi));
        let (x, y, z) = (v.x as f64 / 1e6, v.y as f64 / 1e6, v.z as f64 / 1e6);
        let norm = (x * x + y * y + z * z).sqrt();
        assert!((norm - 1.0).abs() < 1e-3, "norm {} strays", norm);
    }
}

// The clamp: coarse scroll up from near the top never passes the widest
// field of view; coarse scroll down from near the bottom never passes the
// narrowest.
#[test]
fn fov_never_leaves_its_interval() {
    let mut fov = Fov { value: 3_100_000 };
    let up = vec![ScrollEvent { unit: ScrollUnit::Line, y: 1_000_000 }; 8];
    fov_adjust(&mut fov, &up);
    assert_eq!(fov.value, 3_140_000);

    let mut fov = Fov { value: 150_000 };
    let down = vec![ScrollEvent { unit: ScrollUnit::Line, y: -1_000_000 }; 8];
    fov_adjust(&mut fov, &down);
    assert_eq!(fov.value, 100_000);
}

#[test]
fn fov_fine_scroll_moves_by_its_own_step() {
    let mut fov = Fov { value: 1_600_000 };
    let events = vec![ScrollEvent { unit: ScrollUnit::Pixel, y: 1_000_000 }];
    fov_adjust(&mut fov, &events);
    assert_eq!(fov.value, 1_601_000);
}

#[test]
fn orbit_only_turns_while_the_button_is_held() {
    let fov = Fov { value: 3_140_000 };
    let mut camera = Camera { rot_x: 0, rot_y: 0 };
    let mut pressed = false;
    let motions = vec![MotionEvent { dx: 0, dy: 300_000_000 }];
    orbit_camera(&fov, &mut camera, &mut pressed, &Vec::new(), &motions);
    assert_eq!((camera.rot_x, camera.rot_y), (0, 0));

    let buttons = vec![ButtonState::Pressed];
    orbit_camera(&fov, &mut camera, &mut pressed, &buttons, &motions);
    assert!(pressed);
    // the drag is scaled by fov over pi, then by the sensitivity divisor:
    // 300 pixels at the widest field of view turn the pitch by just under
    // a radian
    assert_eq!(camera.rot_x, -999_493);
    let expected = -(3.14f64 / std::f64::consts::PI) * 300.0 / 300.0;
    assert!((camera.rot_x as f64 / 1e6 - expected).abs() < 1e-5);
    assert_eq!(camera.rot_y, 0);
}

// Re-projection with an unchanged camera writes identical screen buffers.
#[test]
fn reprojection_is_identical() {
    let mut entries = grid_entries(2, 2, 10);
    let tx = trig_of(0);
    let ty = trig_of(0);
    let m = view_projection_matrix(1_000_000, 1_600_000, &tx, &ty);
    path_projection(&m, &mut entries);
    let first: Vec<Vec<Vec4>> = entries.iter().map(|e| e.path2d.data.clone()).collect();
    path_projection(&m, &mut entries);
    let second: Vec<Vec<Vec4>> = entries.iter().map(|e| e.path2d.data.clone()).collect();
    assert_eq!(first, second);
}

// A segment with an endpoint outside the depth clip is never drawn.
#[test]
fn clipped_segment_is_never_emitted() {
    let a = Vec4 { x: 0, y: 0, z: 1_500_000, w: 1_000_000 };
    let b = Vec4 { x: 100_000, y: 100_000, z: 0, w: 1_000_000 };
    let entry = make_path_entry(Path2DKind::Constellation, 0, vec![a, b]);
    let cmds = render_2d_paths(&vec![entry], 800, 500);
    assert_eq!(cmds.len(), 0);
}

#[test]
fn visible_segment_is_emitted_in_pixels() {
    let a = Vec4 { x: 100_000, y: 200_000, z: 0, w: 1_000_000 };
    let b = Vec4 { x: -100_000, y: -200_000, z: 500_000, w: 1_000_000 };
    let entry = make_path_entry(Path2DKind::Constellation, 0, vec![a, b]);
    let cmds = render_2d_paths(&vec![entry], 800, 500);
    assert_eq!(cmds.len(), 1);
    assert_eq!(cmds[0].x1, 100_000 * 800);
    assert_eq!(cmds[0].y1, 200_000 * 500);
    assert_eq!(cmds[0].x2, -100_000 * 800);
    assert_eq!(cmds[0].y2, -200_000 * 500);
    assert_eq!(cmds[0].kind, Path2DKind::Constellation);
}

#[test]
fn grid_paths_are_subsampled_by_stride() {
    // six vertices, all visible: one grid segment (0 to 5), five
    // constellation segments
    let vs: Vec<Vec4> = (0..6)
        .map(|i| Vec4 { x: i * 10_000, y: 0, z: 0, w: 1_000_000 })
        .collect();
    let grid = make_path_entry(Path2DKind::ThetaCircle, 0, vs.clone());
    let line = make_path_entry(Path2DKind::Constellation, 0, vs);
    assert_eq!(render_2d_paths(&vec![grid], 800, 500).len(), 1);
    assert_eq!(render_2d_paths(&vec![line], 800, 500).len(), 5);
}

#[test]
fn vertex_crosses_mark_only_visible_vertices() {
    let a = Vec4 { x: 0, y: 0, z: 0, w: 1_000_000 };
    let far = Vec4 { x: 0, y: 0, z: 1_500_000, w: 1_000_000 };
    let entry = make_path_entry(Path2DKind::Constellation, 0, vec![a, far]);
    let cmds = render_2d_vertices(&vec![entry], 800, 500);
    assert_eq!(cmds.len(), 2);
}

#[test]
fn right_band_vertex_earns_one_label() {
    // a vertex in the right-edge band, plus a closing vertex the scan skips
    let inside = Vec4 { x: 300_000, y: 0, z: 0, w: 1_000_000 };
    let last = Vec4 { x: 0, y: 0, z: 0, w: 1_000_000 };
    let entry = make_path_entry(Path2DKind::ThetaCircle, 4500, vec![inside, last]);
    let labels = render_grid_markers(&vec![entry], 800, 500);
    assert_eq!(labels.len(), 1);
    assert_eq!(labels[0].text, "45.00");
    assert_eq!(labels[0].left, (800 - 40) * 1_000_000);
    assert_eq!(labels[0].bottom, 500 * 1_000_000 / 2 + 0 * 500 + 5 * 1_000_000);
}

#[test]
fn meridian_band_vertex_labels_the_top() {
    let inside = Vec4 { x: 0, y: 300_000, z: 0, w: 1_000_000 };
    let last = Vec4 { x: 0, y: 0, z: 0, w: 1_000_000 };
    let entry = make_path_entry(Path2DKind::PhiCircle, 9000, vec![inside, last]);
    let labels = render_grid_markers(&vec![entry], 800, 500);
    assert_eq!(labels.len(), 1);
    assert_eq!(labels[0].text, "90.00");
    assert_eq!(labels[0].bottom, (500 - 20) * 1_000_000);
    // the center line of the horizontal offset is measured off the height
    assert_eq!(labels[0].left, 500 * 1_000_000 / 2 + 0 * 800);
}

#[test]
fn out_of_band_vertices_earn_no_label() {
    let outside = Vec4 { x: 700_000, y: 0, z: 0, w: 1_000_000 };
    let last = Vec4 { x: 0, y: 0, z: 0, w: 1_000_000 };
    let entry = make_path_entry(Path2DKind::ThetaCircle, 4500, vec![outside, last]);
    assert_eq!(render_grid_markers(&vec![entry], 800, 500).len(), 0);
}

#[test]
fn extreme_band_vertex_wins_the_label() {
    let near = Vec4 { x: 250_000, y: 100_000, z: 0, w: 1_000_000 };
    let far = Vec4 { x: 400_000, y: -100_000, z: 0, w: 1_000_000 };
    let last = Vec4 { x: 0, y: 0, z: 0, w: 1_000_000 };
    let entry = make_path_entry(Path2DKind::ThetaCircle, 0, vec![near, far, last]);
    let labels = render_grid_markers(&vec![entry], 800, 500);
    assert_eq!(labels.len(), 1);
    // the label follows the vertex with the greatest x: y = -0.1 in pixels
    assert_eq!(labels[0].bottom, 500 * 1_000_000 / 2 - 100_000 * 500 + 5 * 1_000_000);
}

#[test]
fn stars_move_to_their_projection() {
    let m = identity_matrix();
    let mut stars = vec![StarInstance {
        position3d: Vec4 { x: 300_000, y: 200_000, z: 0, w: 1_000_000 },
        size: 4_000_000,
        screen_x: 0,
        screen_y: 0,
    }];
    draw_stars(&m, &mut stars, 800, 500);
    assert_eq!(stars[0].screen_x, 300_000 * 800);
    assert_eq!(stars[0].screen_y, 200_000 * 500);
    assert_eq!(stars[0].size, 4_000_000);
}

#[test]
fn escape_pauses_the_stars() {
    assert_eq!(pause(true), Some(AppState::Pause));
    assert_eq!(pause(false), None);
}
