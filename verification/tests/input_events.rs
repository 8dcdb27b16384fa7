use rectpace::geometry::Rect;
use rectpace::input::{
    apply_event, ButtonState, InputEvent, KeyState, KEY_DOWN, KEY_LEFT, KEY_RIGHT, KEY_UP,
};
use rectpace::scene::AppState;

fn rect_at(x: u32, y: u32) -> Rect {
    Rect { x, y, w: 50, h: 50 }
}

fn released(code: u32) -> InputEvent {
    InputEvent::Key { code, state: KeyState::Released }
}

#[test]
fn pointer_motion_sets_position_absolutely() {
    let out = apply_event(rect_at(10, 20), InputEvent::PointerMotion { x: 200, y: 150 });
    assert_eq!(out, rect_at(200, 150));
    // The prior position is irrelevant.
    let out = apply_event(rect_at(999, 3), InputEvent::PointerMotion { x: 200, y: 150 });
    assert_eq!(out, rect_at(200, 150));
}

#[test]
fn motion_through_scene_overwrites_prior_state() {
    let scene = AppState::new();
    scene.dispatch(InputEvent::PointerMotion { x: 7, y: 9 });
    let (prev, next) = scene.dispatch(InputEvent::PointerMotion { x: 200, y: 150 });
    assert_eq!(prev.rect, rect_at(7, 9));
    assert_eq!(next.rect, rect_at(200, 150));
    assert_eq!(scene.read().rect, rect_at(200, 150));
}

#[test]
fn key_right_release_adds_step() {
    let out = apply_event(rect_at(10, 0), released(KEY_RIGHT));
    assert_eq!(out, rect_at(15, 0));
}

#[test]
fn key_left_release_subtracts_step() {
    let out = apply_event(rect_at(10, 0), released(KEY_LEFT));
    assert_eq!(out, rect_at(5, 0));
}

#[test]
fn key_up_release_subtracts_step_from_y() {
    let out = apply_event(rect_at(0, 30), released(KEY_UP));
    assert_eq!(out, rect_at(0, 25));
}

#[test]
fn key_down_release_adds_step_to_y() {
    let out = apply_event(rect_at(0, 30), released(KEY_DOWN));
    assert_eq!(out, rect_at(0, 35));
}

#[test]
fn leftward_underflow_wraps_around() {
    // Moving left from x = 2 wraps to u32::MAX - 2 rather than clamping.
    let out = apply_event(rect_at(2, 0), released(KEY_LEFT));
    assert_eq!(out, rect_at(u32::MAX - 2, 0));
}

#[test]
fn upward_underflow_wraps_around() {
    let out = apply_event(rect_at(0, 0), released(KEY_UP));
    assert_eq!(out, rect_at(0, u32::MAX - 4));
}

#[test]
fn rightward_overflow_wraps_around() {
    let out = apply_event(rect_at(u32::MAX - 2, 0), released(KEY_RIGHT));
    assert_eq!(out, rect_at(2, 0));
}

#[test]
fn key_press_is_a_no_op() {
    let before = rect_at(10, 10);
    let out = apply_event(before, InputEvent::Key { code: KEY_RIGHT, state: KeyState::Pressed });
    assert_eq!(out, before);
}

#[test]
fn unbound_key_code_is_a_no_op() {
    let before = rect_at(10, 10);
    let out = apply_event(before, released(42));
    assert_eq!(out, before);
}

#[test]
fn pointer_button_enter_leave_are_observable_only() {
    let before = rect_at(10, 10);
    let pressed = InputEvent::PointerButton { code: 272, state: ButtonState::Pressed };
    let released_btn = InputEvent::PointerButton { code: 272, state: ButtonState::Released };
    assert_eq!(apply_event(before, pressed), before);
    assert_eq!(apply_event(before, released_btn), before);
    assert_eq!(apply_event(before, InputEvent::PointerEnter), before);
    assert_eq!(apply_event(before, InputEvent::PointerLeave), before);
}

#[test]
fn events_never_change_extents() {
    let before = Rect { x: 4, y: 4, w: 31, h: 17 };
    let events = vec![
        InputEvent::PointerMotion { x: 1000, y: 1000 },
        released(KEY_UP),
        released(KEY_DOWN),
        released(KEY_LEFT),
        released(KEY_RIGHT),
        InputEvent::PointerEnter,
    ];
    for ev in events {
        let out = apply_event(before, ev);
        assert_eq!(out.w, 31);
        assert_eq!(out.h, 17);
    }
}
