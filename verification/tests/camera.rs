use tanks::camera::{step_zoom, DEFAULT_ZOOM_LEVEL, ZOOM_LEVELS};

#[test]
fn zoom_in_one_notch() {
    assert_eq!(step_zoom(DEFAULT_ZOOM_LEVEL, 1), 2);
}

#[test]
fn zoom_out_one_notch() {
    assert_eq!(step_zoom(DEFAULT_ZOOM_LEVEL, -1), 4);
}

#[test]
fn zoom_stops_at_closest() {
    assert_eq!(step_zoom(3, 5), 0);
    assert_eq!(step_zoom(0, 1), 0);
    assert_eq!(step_zoom(0, i32::MAX), 0);
}

#[test]
fn zoom_stops_at_farthest() {
    assert_eq!(step_zoom(8, -5), ZOOM_LEVELS - 1);
    assert_eq!(step_zoom(9, -1), 9);
    assert_eq!(step_zoom(0, i32::MIN), 9);
}

#[test]
fn zoom_no_notch_keeps_level() {
    for l in 0..ZOOM_LEVELS {
        assert_eq!(step_zoom(l, 0), l);
    }
}

#[test]
fn zoom_in_then_out_returns() {
    let l = step_zoom(6, 4);
    assert_eq!(step_zoom(l, -4), 6);
}

#[test]
fn zoom_from_beyond_range() {
    assert_eq!(step_zoom(12, 1), 11);
    assert_eq!(step_zoom(12, -1), ZOOM_LEVELS - 1);
    assert_eq!(step_zoom(12, 0), 12);
}
