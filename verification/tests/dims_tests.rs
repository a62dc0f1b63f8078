use resize_proxy::dims::plan;

#[test]
fn width_only_preserves_aspect_ratio() {
    let t = plan(800, 600, Some(400), None);
    assert_eq!(t.width, 400);
    assert_eq!(t.height, 300);
}

#[test]
fn height_only_preserves_aspect_ratio() {
    let t = plan(800, 600, None, Some(300));
    assert_eq!(t.width, 400);
    assert_eq!(t.height, 300);
}

#[test]
fn both_requested_used_verbatim() {
    let t = plan(800, 600, Some(10), Some(999));
    assert_eq!(t.width, 10);
    assert_eq!(t.height, 999);
}

#[test]
fn default_is_quarter_of_source() {
    let t = plan(800, 600, None, None);
    assert_eq!(t.width, 200);
    assert_eq!(t.height, 150);
}

#[test]
fn default_clamps_to_one_for_tiny_sources() {
    let t = plan(3, 2, None, None);
    assert_eq!(t.width, 1);
    assert_eq!(t.height, 1);
    let t = plan(8, 3, None, None);
    assert_eq!(t.width, 2);
    assert_eq!(t.height, 1);
}

#[test]
fn rounding_is_half_away_from_zero() {
    // 5 * 4 / 8 = 2.5 rounds to 3, not down to 2.
    let t = plan(8, 5, Some(4), None);
    assert_eq!(t.width, 4);
    assert_eq!(t.height, 3);
    // 3 * 4 / 8 = 1.5 rounds to 2.
    let t = plan(8, 3, Some(4), None);
    assert_eq!(t.height, 2);
}

#[test]
fn derived_axis_clamps_to_one() {
    // 1 * 1 / 10000 rounds to 0 and is clamped to 1.
    let t = plan(10000, 1, Some(1), None);
    assert_eq!(t.width, 1);
    assert_eq!(t.height, 1);
}

#[test]
fn aspect_ratio_survives_a_round_trip_within_one() {
    // For requests that do not shrink the given axis below half, mapping the
    // derived axis back recovers the source axis within one.
    for &(sw, sh, rw) in &[(800u32, 600u32, 400u32), (800, 600, 799), (640, 480, 1280), (3, 5, 2), (7, 9, 4)] {
        let t = plan(sw, sh, Some(rw), None);
        let back = (t.height as f64 * sw as f64 / rw as f64).round() as i64;
        assert!((back - sh as i64).abs() <= 1, "{sw}x{sh} w={rw} -> {}x{} back={back}", t.width, t.height);
    }
}

#[test]
fn planned_axes_are_always_positive() {
    for &(sw, sh) in &[(1u32, 1u32), (1, 10000), (4096, 1), (799, 601)] {
        for &rw in &[None, Some(1u32), Some(65535)] {
            for &rh in &[None, Some(1u32), Some(65535)] {
                let t = plan(sw, sh, rw, rh);
                assert!(t.width >= 1, "{sw}x{sh} {rw:?} {rh:?}");
                assert!(t.height >= 1, "{sw}x{sh} {rw:?} {rh:?}");
            }
        }
    }
}
