//! Viewport state and the letterbox projection.

use glerminal::viewport::{Ratio, ViewportState, same_ratio};

#[test]
fn test_projection_depends_only_on_final_state() {
    // Same final (width, height, ratio) triple, different call order: the
    // matrices agree.
    let mut a = ViewportState::new(800, 600);
    a.set_window_size(1280, 720);
    a.set_target_aspect_ratio(Ratio { num: 16, den: 9 });

    let mut b = ViewportState::new(800, 600);
    b.set_target_aspect_ratio(Ratio { num: 16, den: 9 });
    b.set_window_size(1280, 720);

    assert_eq!(a.projection_matrix(), b.projection_matrix());
    assert_eq!(a.get_target_aspect_ratio(), b.get_target_aspect_ratio());
}

#[test]
fn test_projection_matching_ratio_is_identity() {
    // A 1280x720 window already has the 16:9 shape: both scales are whole.
    let mut v = ViewportState::new(1280, 720);
    v.set_target_aspect_ratio(Ratio { num: 16, den: 9 });
    let m = v.projection_matrix();
    assert_eq!(m.sx.num, 11520);
    assert_eq!(m.sx.den, 11520);
    assert_eq!(m.sy.num, 1);
    assert_eq!(m.sy.den, 1);
}

#[test]
fn test_projection_letterboxes_tall_window() {
    // A square window with a 2:1 target: the vertical axis is halved.
    let mut v = ViewportState::new(1000, 1000);
    v.set_target_aspect_ratio(Ratio { num: 2, den: 1 });
    let m = v.projection_matrix();
    assert_eq!(m.sx.num, 1);
    assert_eq!(m.sx.den, 1);
    assert_eq!(m.sy.num, 1000);
    assert_eq!(m.sy.den, 2000);
}

#[test]
fn test_projection_letterboxes_wide_window() {
    // A 2000x500 window with a 1:1 target: the horizontal axis shrinks.
    let mut v = ViewportState::new(2000, 500);
    v.set_target_aspect_ratio(Ratio { num: 1, den: 1 });
    let m = v.projection_matrix();
    assert_eq!(m.sx.num, 500);
    assert_eq!(m.sx.den, 2000);
    assert_eq!(m.sy.num, 1);
    assert_eq!(m.sy.den, 1);
}

#[test]
fn test_projection_degenerate_window_is_identity() {
    let mut v = ViewportState::new(0, 0);
    v.set_window_size(0, 720);
    let m = v.projection_matrix();
    assert_eq!((m.sx.num, m.sx.den, m.sy.num, m.sy.den), (1, 1, 1, 1));
}

#[test]
fn test_resize_keeps_target_ratio() {
    let mut v = ViewportState::new(1280, 720);
    v.set_target_aspect_ratio(Ratio { num: 4, den: 3 });
    v.set_window_size(640, 480);
    assert_eq!(v.get_target_aspect_ratio(), Ratio { num: 4, den: 3 });
}

#[test]
fn test_same_ratio_cross_multiplies() {
    assert!(same_ratio(Ratio { num: 16, den: 9 }, Ratio { num: 32, den: 18 }));
    assert!(same_ratio(Ratio { num: 1, den: 1 }, Ratio { num: 720, den: 720 }));
    assert!(!same_ratio(Ratio { num: 16, den: 9 }, Ratio { num: 4, den: 3 }));
}
