use stargazer::catalog::{setup_constellations, setup_sprites};

#[test]
fn constellation_rows_decode_in_order() {
    let bytes = b"star1,0.5,1.25\nstar2,1.5,2.25\n";
    let points = setup_constellations(bytes).unwrap();
    assert_eq!(points.len(), 2);
    assert_eq!((points[0].theta, points[0].phi, points[0].radius), (500_000, 1_250_000, 1_000_000));
    assert_eq!((points[1].theta, points[1].phi, points[1].radius), (1_500_000, 2_250_000, 1_000_000));
}

#[test]
fn malformed_row_is_a_fatal_setup_error() {
    assert!(setup_constellations(b"star1,abc,1.0\n").is_err());
    assert!(setup_constellations(b"star1\n").is_err());
}

#[test]
fn star_size_follows_the_magnitude() {
    let bytes = b"a,0.5,1.25,1.0\nb,0.5,1.25,4.83\n";
    let stars = setup_sprites(bytes).unwrap();
    assert_eq!(stars.len(), 2);
    assert_eq!(stars[0].size, 4_000_000);
    // a dim star never shrinks below one pixel
    assert_eq!(stars[1].size, 1_000_000);
}

#[test]
fn star_row_needs_a_magnitude() {
    assert!(setup_sprites(b"a,0.5,1.25\n").is_err());
}
