use tanks::combat::Destruction;
use tanks::input::{key_axis, Gesture, PointerDrag, TapTracker};
use tanks::squad::{formation_cols, formation_slots};
use tanks::ui::{GameState, MobileControlsShown};
use tanks::version::{build_label, VERSION};
use tanks::weapons::FireControl;

#[test]
fn build_label_shows_version() {
    assert_eq!(VERSION, "0.8.0");
    assert_eq!(build_label(), "v0.8.0");
}

#[test]
fn destruction_runs_once() {
    let mut d = Destruction::new();
    assert!(!d.is_destroyed());
    assert!(!d.record_hit(false));
    assert!(!d.take_kill());
    assert!(d.record_hit(true));
    assert!(d.is_destroyed());
    assert!(!d.record_hit(true));
    assert!(d.take_kill());
    assert!(!d.take_kill());
    assert!(!d.record_hit(true));
    assert!(!d.take_kill());
    assert!(d.is_destroyed());
}

#[test]
fn key_axis_values() {
    assert_eq!(key_axis(false, false), 0);
    assert_eq!(key_axis(false, true), 1);
    assert_eq!(key_axis(true, false), -1);
    assert_eq!(key_axis(true, true), 0);
}

#[test]
fn pointer_click_without_moving() {
    let mut d: PointerDrag<(i32, i32)> = PointerDrag::new();
    d.press(Some((10, 10)));
    assert_eq!(d.hold(Some((11, 10)), false), None);
    assert_eq!(d.release(Some((12, 10))), Some(Gesture::Click((12, 10))));
    assert_eq!(d.down_at(), None);
}

#[test]
fn pointer_drag_becomes_box() {
    let mut d: PointerDrag<(i32, i32)> = PointerDrag::new();
    d.press(Some((10, 10)));
    assert_eq!(d.hold(Some((40, 30)), true), Some(((10, 10), (40, 30))));
    // Once dragging, coming back near the start is still a drag.
    assert_eq!(d.hold(Some((11, 10)), false), Some(((10, 10), (11, 10))));
    assert_eq!(d.release(None), Some(Gesture::Box((10, 10), (10, 10))));
}

#[test]
fn pointer_release_without_press() {
    let mut d: PointerDrag<(i32, i32)> = PointerDrag::new();
    assert_eq!(d.release(Some((1, 1))), None);
    assert_eq!(d.hold(Some((1, 1)), true), None);
}

#[test]
fn double_tap_designates_once() {
    let mut t: TapTracker<u32> = TapTracker::new();
    assert_eq!(t.tap(1, true), None);
    assert_eq!(t.last_tap(), Some(1));
    assert_eq!(t.tap(2, true), Some(2));
    assert_eq!(t.last_tap(), None);
    assert_eq!(t.tap(3, true), None);
    assert_eq!(t.tap(4, false), None);
    assert_eq!(t.last_tap(), Some(4));
}

#[test]
fn formation_width_is_ceiling_square_root() {
    assert_eq!(formation_cols(0), 0);
    assert_eq!(formation_cols(1), 1);
    assert_eq!(formation_cols(2), 2);
    assert_eq!(formation_cols(4), 2);
    assert_eq!(formation_cols(5), 3);
    assert_eq!(formation_cols(9), 3);
    assert_eq!(formation_cols(10), 4);
}

#[test]
fn formation_slots_fill_rows() {
    assert_eq!(formation_slots(5), vec![(0, 0), (1, 0), (2, 0), (0, 1), (1, 1)]);
    assert!(formation_slots(0).is_empty());
}

#[test]
fn formation_slots_distinct() {
    let slots = formation_slots(30);
    for i in 0..slots.len() {
        for j in i + 1..slots.len() {
            assert_ne!(slots[i], slots[j]);
        }
    }
}

#[test]
fn game_state_flow() {
    assert_eq!(GameState::default(), GameState::Loading);
    assert_eq!(GameState::Loading.advance(false), GameState::Loading);
    assert_eq!(GameState::Loading.advance(true), GameState::Playing);
    assert_eq!(GameState::Playing.advance(false), GameState::Playing);
    assert_eq!(GameState::Playing.advance(true), GameState::Playing);
}

#[test]
fn mobile_controls_revealed_once() {
    let mut m = MobileControlsShown::new();
    assert!(!m.reveal_on_touch(false));
    assert!(!m.is_shown());
    assert!(m.reveal_on_touch(true));
    assert!(m.is_shown());
    assert!(!m.reveal_on_touch(true));
    assert!(!MobileControlsShown::default().is_shown());
}

#[test]
fn fire_control_cycle() {
    let mut fc: FireControl<(i64, i64)> = FireControl::new();
    assert!(!fc.is_pending());
    assert!(fc.accepts_designation(true));
    assert!(!fc.accepts_designation(false));
    assert!(!fc.ready_to_fire(true, true, true));
    fc.designate((5, 7), 99);
    assert!(fc.is_pending());
    assert_eq!(fc.target(), Some((5, 7)));
    // A new press while a shot is pending is ignored.
    assert!(!fc.accepts_designation(true));
    assert!(!fc.ready_to_fire(false, true, true));
    assert!(!fc.ready_to_fire(true, false, true));
    assert!(!fc.ready_to_fire(true, true, false));
    assert!(fc.ready_to_fire(true, true, true));
    assert_eq!(fc.shot_away(), 99);
    assert!(!fc.is_pending());
    assert_eq!(fc.target(), None);
}
