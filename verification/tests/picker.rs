use blur_auto_clicker::keystate::Button3Mask;
use blur_auto_clicker::picker::{
    classify_keyboard_message, classify_mouse_message, drag_fits, normalize_rect,
    should_emit_drag_preview, KeyboardHookDecision, MouseHookDecision, PickerAction,
    PickerRuntime, StopZoneRect, PREVIEW_EMIT_INTERVAL_NANOS,
};
use blur_auto_clicker::vkcodes::{
    VK_ESCAPE, VK_SPACE, WM_KEYDOWN, WM_KEYUP, WM_LBUTTONDOWN, WM_MOUSEMOVE, WM_RBUTTONDOWN,
    WM_RBUTTONUP, WM_SYSKEYDOWN,
};

#[test]
fn right_button_down_starts_drawing() {
    assert_eq!(
        classify_mouse_message(WM_RBUTTONDOWN, false),
        MouseHookDecision::StartDrawing
    );
}

#[test]
fn mouse_move_updates_preview_only_while_drawing() {
    assert_eq!(
        classify_mouse_message(WM_MOUSEMOVE, false),
        MouseHookDecision::Pass
    );
    assert_eq!(
        classify_mouse_message(WM_MOUSEMOVE, true),
        MouseHookDecision::Pass
    );
    assert!(should_emit_drag_preview(true));
    assert!(!should_emit_drag_preview(false));
}

#[test]
fn right_button_up_finishes_only_while_drawing() {
    assert_eq!(
        classify_mouse_message(WM_RBUTTONUP, true),
        MouseHookDecision::FinishDrawing
    );
    assert_eq!(
        classify_mouse_message(WM_RBUTTONUP, false),
        MouseHookDecision::Pass
    );
}

#[test]
fn left_button_events_pass_through() {
    assert_eq!(
        classify_mouse_message(WM_LBUTTONDOWN, false),
        MouseHookDecision::Pass
    );
}

#[test]
fn escape_key_down_cancels_picker() {
    assert_eq!(
        classify_keyboard_message(WM_KEYDOWN, VK_ESCAPE as u32),
        KeyboardHookDecision::Cancel
    );
    assert_eq!(
        classify_keyboard_message(WM_SYSKEYDOWN, VK_ESCAPE as u32),
        KeyboardHookDecision::Cancel
    );
}

#[test]
fn other_key_events_pass_through() {
    assert_eq!(
        classify_keyboard_message(WM_KEYUP, VK_ESCAPE as u32),
        KeyboardHookDecision::Pass
    );
    assert_eq!(
        classify_keyboard_message(WM_KEYDOWN, VK_SPACE as u32),
        KeyboardHookDecision::Pass
    );
}

#[test]
fn reverse_drag_normalizes_to_positive_size() {
    assert_eq!(
        normalize_rect((200, 150), (100, 75)),
        StopZoneRect {
            x: 100,
            y: 75,
            width: 101,
            height: 76,
        }
    );
}

#[test]
fn normalize_is_symmetric_and_click_is_one_pixel() {
    assert_eq!(normalize_rect((100, 75), (200, 150)), normalize_rect((200, 150), (100, 75)));
    assert_eq!(
        normalize_rect((-5, 7), (-5, 7)),
        StopZoneRect { x: -5, y: 7, width: 1, height: 1 }
    );
    assert_eq!(
        normalize_rect((10, -20), (-10, 20)),
        StopZoneRect { x: -10, y: -20, width: 21, height: 41 }
    );
}

#[test]
fn drag_fits_rejects_overflowing_spans() {
    assert!(drag_fits((0, 0), (i32::MAX - 1, 5)));
    assert!(!drag_fits((0, 0), (i32::MAX, 5)));
    assert!(!drag_fits((i32::MIN, 0), (i32::MAX, 0)));
    assert!(!drag_fits((0, -1), (0, i32::MAX)));
}

fn active() -> PickerRuntime {
    let mut r = PickerRuntime::new();
    assert!(r.begin_pick());
    r
}

#[test]
fn begin_pick_refused_while_active() {
    let mut r = PickerRuntime::new();
    assert!(!r.active);
    assert!(r.begin_pick());
    assert!(r.active);
    assert!(!r.begin_pick());
    assert!(r.active);
}

#[test]
fn cursor_events_are_throttled() {
    let mut r = active();
    assert_eq!(r.emit_cursor_position(3, 4, 1_000), vec![PickerAction::Cursor { x: 3, y: 4 }]);
    assert_eq!(r.last_preview_emit, Some(1_000));
    assert!(r.emit_cursor_position(5, 6, 1_000 + PREVIEW_EMIT_INTERVAL_NANOS - 1).is_empty());
    assert_eq!(r.last_preview_emit, Some(1_000));
    assert_eq!(
        r.emit_cursor_position(5, 6, 1_000 + PREVIEW_EMIT_INTERVAL_NANOS),
        vec![PickerAction::Cursor { x: 5, y: 6 }]
    );
    // a clock that went backwards counts as too early
    assert!(r.emit_cursor_position(1, 1, 10).is_empty());
}

#[test]
fn forced_preview_ignores_throttle_but_not_inactivity() {
    let mut r = active();
    assert_eq!(r.emit_cursor_position(0, 0, 50).len(), 1);
    let a = r.emit_preview((10, 10), (5, 20), 51, true);
    assert_eq!(
        a,
        vec![PickerAction::Preview {
            rect: StopZoneRect { x: 5, y: 10, width: 6, height: 11 },
            cursor_x: 5,
            cursor_y: 20
        }]
    );
    assert!(r.emit_preview((10, 10), (5, 20), 52, false).is_empty());
    let mut idle = PickerRuntime::new();
    assert!(idle.emit_preview((0, 0), (1, 1), 0, true).is_empty());
    assert!(idle.emit_cursor_position(0, 0, 0).is_empty());
}

#[test]
fn finish_reports_once_and_stops() {
    let mut r = active();
    let rect = StopZoneRect { x: 1, y: 2, width: 3, height: 4 };
    assert_eq!(r.finish_pick(rect), vec![PickerAction::Picked { rect }, PickerAction::Ended]);
    assert!(!r.active);
    assert!(r.finish_pick(rect).is_empty());
}

#[test]
fn cancel_always_notifies_but_hook_cancel_only_when_active() {
    let mut r = PickerRuntime::new();
    assert_eq!(r.cancel_pick(), vec![PickerAction::Ended, PickerAction::HideOverlay]);
    assert!(r.cancel_pick_from_hook().is_empty());
    let mut r = active();
    assert_eq!(r.cancel_pick_from_hook(), vec![PickerAction::Ended, PickerAction::HideOverlay]);
    assert!(!r.active);
    assert_eq!(r.drawing_start, None);
}

#[test]
fn stop_pick_notifies_when_app_given_or_active() {
    let mut r = PickerRuntime::new();
    assert!(!r.stop_pick(false));
    assert!(r.stop_pick(true));
    let mut r = active();
    assert!(r.stop_pick(false));
    assert!(!r.active);
}

#[test]
fn poll_drag_from_press_to_release() {
    let mut r = active();
    // pointer moves without a drag: cursor report
    let out = r.poll_step(false, 0, Some((10, 20)), false, 0);
    assert_eq!(out.actions, vec![PickerAction::Cursor { x: 10, y: 20 }]);
    assert!(out.keep_polling);
    assert!(!out.right_pressed);
    // right button goes down: drag starts with a forced one-pixel preview
    let out = r.poll_step(false, Button3Mask, Some((10, 20)), false, 1_000);
    assert_eq!(
        out.actions,
        vec![PickerAction::Preview {
            rect: StopZoneRect { x: 10, y: 20, width: 1, height: 1 },
            cursor_x: 10,
            cursor_y: 20
        }]
    );
    assert_eq!(r.drawing_start, Some((10, 20)));
    assert!(out.right_pressed);
    // held and moved, after the interval: preview of the drag
    let out = r.poll_step(true, Button3Mask, Some((40, 5)), false, 1_000 + PREVIEW_EMIT_INTERVAL_NANOS);
    assert_eq!(
        out.actions,
        vec![PickerAction::Preview {
            rect: StopZoneRect { x: 10, y: 5, width: 31, height: 16 },
            cursor_x: 40,
            cursor_y: 5
        }]
    );
    // released: the pick is reported and the loop ends
    assert!(!out.pick_ended);
    let out = r.poll_step(true, 0, Some((50, 60)), false, 1_000 + PREVIEW_EMIT_INTERVAL_NANOS + 1);
    let rect = StopZoneRect { x: 10, y: 20, width: 41, height: 41 };
    assert_eq!(out.actions, vec![PickerAction::Picked { rect }, PickerAction::Ended]);
    assert!(!out.keep_polling);
    assert!(out.pick_ended);
    assert!(!r.active);
    assert_eq!(r.drawing_start, None);
}

#[test]
fn poll_escape_cancels() {
    let mut r = active();
    let out = r.poll_step(false, 0, None, true, 0);
    assert_eq!(
        out.actions,
        vec![PickerAction::Cursor { x: 0, y: 0 }, PickerAction::Ended, PickerAction::HideOverlay]
    );
    assert!(!out.keep_polling);
    assert!(out.pick_ended);
    assert!(!r.active);
}

#[test]
fn poll_release_without_drag_keeps_going() {
    let mut r = active();
    let out = r.poll_step(true, 0, Some((1, 1)), false, 0);
    assert!(out.keep_polling);
    assert_eq!(out.actions, vec![PickerAction::Cursor { x: 1, y: 1 }]);
}

#[test]
fn poll_step_fits_tracks_overflow() {
    let mut r = active();
    r.drawing_start = Some((i32::MIN, 0));
    assert!(!r.poll_step_fits(true, 0, Some((i32::MAX, 0)), 0));
    assert!(r.poll_step_fits(true, 0, Some((-2, 0)), 0));
    r.last_preview_emit = Some(0);
    // throttled and not released: nothing is normalized
    assert!(r.poll_step_fits(true, Button3Mask, Some((i32::MAX, 0)), 1));
}

#[test]
fn mouse_hook_events() {
    let mut r = active();
    let out = r.mouse_event(WM_MOUSEMOVE, (3, 3), 0);
    assert!(!out.swallow);
    assert_eq!(out.actions, vec![PickerAction::Cursor { x: 3, y: 3 }]);
    let out = r.mouse_event(WM_LBUTTONDOWN, (3, 3), 1);
    assert!(!out.swallow);
    assert!(out.actions.is_empty());
    let out = r.mouse_event(WM_RBUTTONUP, (3, 3), 2);
    assert!(!out.swallow, "release without a drag passes through");
    let out = r.mouse_event(WM_RBUTTONDOWN, (3, 3), 3);
    assert!(out.swallow);
    assert_eq!(r.drawing_start, Some((3, 3)));
    assert!(r.mouse_event_fits(WM_RBUTTONUP, (0, 9), 4));
    let out = r.mouse_event(WM_RBUTTONUP, (0, 9), 4);
    assert!(out.swallow);
    assert!(out.pick_ended);
    assert_eq!(
        out.actions,
        vec![
            PickerAction::Picked { rect: StopZoneRect { x: 0, y: 3, width: 4, height: 7 } },
            PickerAction::Ended
        ]
    );
    assert!(!r.active);
}

#[test]
fn keyboard_hook_events() {
    let mut r = active();
    let out = r.keyboard_event(WM_KEYUP, VK_ESCAPE as u32);
    assert!(!out.swallow);
    assert!(!out.pick_ended);
    assert!(r.active);
    let out = r.keyboard_event(WM_SYSKEYDOWN, VK_ESCAPE as u32);
    assert!(out.swallow);
    assert!(out.pick_ended);
    assert_eq!(out.actions, vec![PickerAction::Ended, PickerAction::HideOverlay]);
    assert!(!r.active);
}
