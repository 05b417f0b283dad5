//! The custom stop-zone picker: the user drags out a rectangle with the right
//! mouse button; Escape cancels. This module holds the picker's decisions: how
//! hook messages are classified, how a drag becomes a rectangle, and how the
//! picker's runtime state moves on each event.
use vstd::prelude::*;

use crate::keystate::Button3Mask;
use crate::vkcodes::{VK_ESCAPE, WM_KEYDOWN, WM_MOUSEMOVE, WM_RBUTTONDOWN, WM_RBUTTONUP, WM_SYSKEYDOWN};

verus! {

/// A rectangle in virtual-screen coordinates, as reported to the front end.
#[derive(Clone, Copy, Debug, PartialEq, Eq, Structural)]
pub struct StopZoneRect {
    pub x: i32,
    pub y: i32,
    pub width: i32,
    pub height: i32,
}

/// What the mouse hook does with a (non-move) mouse message.
#[derive(Clone, Copy, Debug, PartialEq, Eq, Structural)]
pub enum MouseHookDecision {
    StartDrawing,
    FinishDrawing,
    Pass,
}

/// What the keyboard hook does with a key message.
#[derive(Clone, Copy, Debug, PartialEq, Eq, Structural)]
pub enum KeyboardHookDecision {
    Pass,
    Cancel,
}

pub open spec fn min_i32(a: i32, b: i32) -> i32 {
    if a <= b { a } else { b }
}

pub open spec fn max_i32(a: i32, b: i32) -> i32 {
    if a <= b { b } else { a }
}

/// The drag from `start` to `end` spans a rectangle whose width and height fit in an `i32`.
pub open spec fn span_fits(start: (i32, i32), end: (i32, i32)) -> bool {
    &&& max_i32(start.0, end.0) - min_i32(start.0, end.0) + 1 <= i32::MAX
    &&& max_i32(start.1, end.1) - min_i32(start.1, end.1) + 1 <= i32::MAX
}

/// The rectangle covered by a drag: both end points are inside it (inclusive).
pub open spec fn normalized(start: (i32, i32), end: (i32, i32)) -> StopZoneRect {
    StopZoneRect {
        x: min_i32(start.0, end.0),
        y: min_i32(start.1, end.1),
        width: (max_i32(start.0, end.0) - min_i32(start.0, end.0) + 1) as i32,
        height: (max_i32(start.1, end.1) - min_i32(start.1, end.1) + 1) as i32,
    }
}

/// Classifies a mouse message: a right-button press always starts a drag, a
/// right-button release finishes one only while drawing, and everything else
/// passes through.
pub fn classify_mouse_message(message: u32, drawing: bool) -> (d: MouseHookDecision)
    ensures
        d == (if message == WM_RBUTTONDOWN {
            MouseHookDecision::StartDrawing
        } else if message == WM_RBUTTONUP && drawing {
            MouseHookDecision::FinishDrawing
        } else {
            MouseHookDecision::Pass
        }),
{
    if message == WM_RBUTTONDOWN {
        MouseHookDecision::StartDrawing
    } else if message == WM_RBUTTONUP && drawing {
        MouseHookDecision::FinishDrawing
    } else {
        MouseHookDecision::Pass
    }
}

/// Pointer movement updates the drag preview exactly while a drag is in progress.
pub fn should_emit_drag_preview(drawing: bool) -> (b: bool)
    ensures
        b == drawing,
{
    drawing
}

pub open spec fn keyboard_decision(message: u32, virtual_key: u32) -> KeyboardHookDecision {
    if (message == WM_KEYDOWN || message == WM_SYSKEYDOWN) && virtual_key == VK_ESCAPE as u32 {
        KeyboardHookDecision::Cancel
    } else {
        KeyboardHookDecision::Pass
    }
}

/// Classifies a key message: Escape going down (also as a system key) cancels
/// the picker; everything else passes through.
pub fn classify_keyboard_message(message: u32, virtual_key: u32) -> (d: KeyboardHookDecision)
    ensures
        d == keyboard_decision(message, virtual_key),
{
    if (message == WM_KEYDOWN || message == WM_SYSKEYDOWN) && virtual_key == VK_ESCAPE as u32 {
        KeyboardHookDecision::Cancel
    } else {
        KeyboardHookDecision::Pass
    }
}

/// Tells whether a drag from `start` to `end` can be normalized without the
/// width or height overflowing.
pub fn drag_fits(start: (i32, i32), end: (i32, i32)) -> (b: bool)
    ensures
        b == span_fits(start, end),
{
    let left = if start.0 <= end.0 { start.0 } else { end.0 };
    let right = if start.0 <= end.0 { end.0 } else { start.0 };
    let top = if start.1 <= end.1 { start.1 } else { end.1 };
    let bottom = if start.1 <= end.1 { end.1 } else { start.1 };
    (right as i64) - (left as i64) < i32::MAX as i64 && (bottom as i64) - (top as i64) < i32::MAX
        as i64
}

/// Turns a drag from `start` to `end` into the rectangle it covers, whatever
/// the drag direction: the top-left corner is the smaller coordinate on each
/// axis and both end points are included, so a single click gives a 1x1 rectangle.
pub fn normalize_rect(start: (i32, i32), end: (i32, i32)) -> (r: StopZoneRect)
    requires
        span_fits(start, end),
    ensures
        r == normalized(start, end),
{
    let left = if start.0 <= end.0 { start.0 } else { end.0 };
    let top = if start.1 <= end.1 { start.1 } else { end.1 };
    let right = if start.0 <= end.0 { end.0 } else { start.0 };
    let bottom = if start.1 <= end.1 { end.1 } else { start.1 };

    StopZoneRect { x: left, y: top, width: right - left + 1, height: bottom - top + 1 }
}

/// Minimum time between two unforced preview events, in nanoseconds.
pub const PREVIEW_EMIT_INTERVAL_NANOS: u64 = 16_000_000;

/// The picker's shared state. Times are nanoseconds on a monotonic clock.
#[derive(Clone, Copy, Debug)]
pub struct PickerRuntime {
    /// A pick is in progress.
    pub active: bool,
    /// Where the current drag started, while the right button is held.
    pub drawing_start: Option<(i32, i32)>,
    /// When the last preview or cursor event was sent.
    pub last_preview_emit: Option<u64>,
}

/// Something the application does on behalf of the picker.
#[derive(Clone, Copy, Debug, PartialEq, Eq, Structural)]
pub enum PickerAction {
    /// Send the pointer position to the overlay.
    Cursor { x: i32, y: i32 },
    /// Send the drag rectangle and the pointer position to the overlay.
    Preview { rect: StopZoneRect, cursor_x: i32, cursor_y: i32 },
    /// Report the picked rectangle.
    Picked { rect: StopZoneRect },
    /// The pick is over: clear the application's pick flag, announce the end of
    /// the pick and take the overlay out of pick mode.
    Ended,
    /// Hide the picker overlay.
    HideOverlay,
}

/// What one poll of the pointer produced.
pub struct PollOutcome {
    pub actions: Vec<PickerAction>,
    /// The poll loop goes on.
    pub keep_polling: bool,
    /// The right button is down (remembered for the next poll).
    pub right_pressed: bool,
    /// The poll ended the pick, so the listener stops.
    pub pick_ended: bool,
}

/// What a hook did with one input event.
pub struct HookOutcome {
    pub actions: Vec<PickerAction>,
    /// The event is consumed instead of being passed on to other applications.
    pub swallow: bool,
    /// The event ended the pick, so the hooks are removed.
    pub pick_ended: bool,
}

/// The state of a picker that is not picking.
pub open spec fn idle() -> PickerRuntime {
    PickerRuntime { active: false, drawing_start: None, last_preview_emit: None }
}

/// Starting a pick: an idle picker becomes active with no drag and no recent
/// event; a picker that is already picking stays as it is and refuses.
pub open spec fn pick_begun(s: PickerRuntime) -> (PickerRuntime, bool) {
    if s.active {
        (s, false)
    } else {
        (PickerRuntime { active: true, drawing_start: None, last_preview_emit: None }, true)
    }
}

/// A preview or cursor event may be sent now: the picker is active and either
/// the event is forced or the last one was sent at least an interval ago.
pub open spec fn emit_allowed(s: PickerRuntime, now: u64, force: bool) -> bool {
    &&& s.active
    &&& (force || !(s.last_preview_emit matches Some(last) && (now as int) - (last as int)
        < PREVIEW_EMIT_INTERVAL_NANOS))
}

pub open spec fn with_emit_time(s: PickerRuntime, now: u64) -> PickerRuntime {
    PickerRuntime { last_preview_emit: Some(now), ..s }
}

/// Sending the pointer position: allowed or skipped, see `emit_allowed`.
pub open spec fn cursor_emitted(s: PickerRuntime, x: i32, y: i32, now: u64) -> (
    PickerRuntime,
    Seq<PickerAction>,
) {
    if emit_allowed(s, now, false) {
        (with_emit_time(s, now), seq![PickerAction::Cursor { x, y }])
    } else {
        (s, Seq::empty())
    }
}

/// Sending the rectangle of the drag from `start` to `end`.
pub open spec fn preview_emitted(
    s: PickerRuntime,
    start: (i32, i32),
    end: (i32, i32),
    now: u64,
    force: bool,
) -> (PickerRuntime, Seq<PickerAction>) {
    if emit_allowed(s, now, force) {
        (
            with_emit_time(s, now),
            seq![PickerAction::Preview { rect: normalized(start, end), cursor_x: end.0, cursor_y: end.1 }],
        )
    } else {
        (s, Seq::empty())
    }
}

/// Finishing with a rectangle: an active pick reports it and ends; an inactive
/// picker ignores it.
pub open spec fn pick_finished(s: PickerRuntime, rect: StopZoneRect) -> (
    PickerRuntime,
    Seq<PickerAction>,
) {
    if s.active {
        (idle(), seq![PickerAction::Picked { rect }, PickerAction::Ended])
    } else {
        (s, Seq::empty())
    }
}

/// Cancelling from an input hook: an active pick ends and hides the overlay.
pub open spec fn pick_cancelled_from_hook(s: PickerRuntime) -> (PickerRuntime, Seq<PickerAction>) {
    (idle(), if s.active {
        seq![PickerAction::Ended, PickerAction::HideOverlay]
    } else {
        Seq::empty()
    })
}

/// The first thing a pointer event does: update the drag preview while
/// drawing, otherwise report the pointer position.
pub open spec fn pointer_reported(s: PickerRuntime, pos: (i32, i32), now: u64) -> (
    PickerRuntime,
    Seq<PickerAction>,
) {
    match s.drawing_start {
        Some(start) => preview_emitted(s, start, pos, now, false),
        None => cursor_emitted(s, pos.0, pos.1, now),
    }
}

/// Starting a drag at `pos`: the start is recorded and a preview is forced out.
pub open spec fn drag_started(s: PickerRuntime, pos: (i32, i32), now: u64) -> (
    PickerRuntime,
    Seq<PickerAction>,
) {
    let s1 = PickerRuntime { drawing_start: Some(pos), last_preview_emit: None, ..s };
    preview_emitted(s1, pos, pos, now, true)
}

/// The pointer position a poll works with: the cursor, or the origin when it
/// could not be read.
pub open spec fn poll_position(cursor: Option<(i32, i32)>) -> (i32, i32) {
    match cursor {
        Some(p) => p,
        None => (0, 0),
    }
}

pub open spec fn right_down(mask: u32) -> bool {
    mask & Button3Mask != 0
}

/// One poll of the picker loop: report the pointer; a right-button press
/// starts a drag; a release while drawing finishes the pick and ends the loop;
/// Escape cancels the pick and ends the loop. Gives the new state, the actions
/// and whether the loop goes on.
pub open spec fn polled(
    s: PickerRuntime,
    right_was_pressed: bool,
    mask: u32,
    cursor: Option<(i32, i32)>,
    escape_pressed: bool,
    now: u64,
) -> (PickerRuntime, Seq<PickerAction>, bool) {
    let pos = poll_position(cursor);
    let right = right_down(mask);
    let (s1, a1) = pointer_reported(s, pos, now);
    if !right && right_was_pressed && s1.drawing_start is Some {
        let (s2, a2) = pick_finished(s1, normalized(s1.drawing_start->0, pos));
        (s2, a1 + a2, false)
    } else {
        let (s2, a2) = if right && !right_was_pressed {
            drag_started(s1, pos, now)
        } else {
            (s1, Seq::empty())
        };
        if escape_pressed {
            let (s3, a3) = pick_cancelled_from_hook(s2);
            (s3, a1 + a2 + a3, false)
        } else {
            (s2, a1 + a2, true)
        }
    }
}

/// A poll ends the pick when the right button is released during the drag of
/// an active pick, or when Escape is down (otherwise).
pub open spec fn poll_ends_pick(s: PickerRuntime, right_was_pressed: bool, mask: u32, escape_pressed: bool) -> bool {
    if !right_down(mask) && right_was_pressed && s.drawing_start is Some {
        s.active
    } else {
        escape_pressed
    }
}

/// A mouse event ends the pick when it releases the right button during the
/// drag of an active pick.
pub open spec fn mouse_ends_pick(s: PickerRuntime, message: u32) -> bool {
    message == WM_RBUTTONUP && s.drawing_start is Some && s.active
}

/// The drags a poll normalizes fit in an `i32` rectangle.
pub open spec fn poll_fits(
    s: PickerRuntime,
    right_was_pressed: bool,
    mask: u32,
    cursor: Option<(i32, i32)>,
    now: u64,
) -> bool {
    s.drawing_start is Some && (emit_allowed(s, now, false) || (!right_down(mask)
        && right_was_pressed)) ==> span_fits(s.drawing_start->0, poll_position(cursor))
}

/// One mouse event seen by the low-level mouse hook: moves report the pointer
/// and are passed on; a right-button press starts a drag and a right-button
/// release while drawing finishes the pick, both consumed; anything else is
/// passed on.
pub open spec fn mouse_handled(s: PickerRuntime, message: u32, pos: (i32, i32), now: u64) -> (
    PickerRuntime,
    Seq<PickerAction>,
    bool,
) {
    if message == WM_MOUSEMOVE {
        let (s1, a1) = pointer_reported(s, pos, now);
        (s1, a1, false)
    } else if message == WM_RBUTTONDOWN {
        let (s1, a1) = drag_started(s, pos, now);
        (s1, a1, true)
    } else if message == WM_RBUTTONUP && s.drawing_start is Some {
        let (s1, a1) = pick_finished(s, normalized(s.drawing_start->0, pos));
        (s1, a1, true)
    } else {
        (s, Seq::empty(), false)
    }
}

/// The drags a mouse event normalizes fit in an `i32` rectangle.
pub open spec fn mouse_fits(s: PickerRuntime, message: u32, pos: (i32, i32), now: u64) -> bool {
    s.drawing_start is Some && ((message == WM_MOUSEMOVE && emit_allowed(s, now, false))
        || message == WM_RBUTTONUP) ==> span_fits(s.drawing_start->0, pos)
}

impl PickerRuntime {
    /// A picker that is not picking.
    pub fn new() -> (r: PickerRuntime)
        ensures
            r == idle(),
    {
        PickerRuntime { active: false, drawing_start: None, last_preview_emit: None }
    }

    /// Starts a pick. A picker that is already picking is left as it is and
    /// answers `false` (the caller only shows the overlay again).
    pub fn begin_pick(&mut self) -> (started: bool)
        ensures
            (*final(self), started) == pick_begun(*old(self)),
    {
        if self.active {
            return false;
        }
        self.active = true;
        self.drawing_start = None;
        self.last_preview_emit = None;
        true
    }

    /// Ends the pick, whatever its state. The application is notified when it
    /// hands its handle in (`app_given`) or when a pick was in progress (the
    /// handle stored for it).
    pub fn stop_pick(&mut self, app_given: bool) -> (notify: bool)
        ensures
            notify == (app_given || old(self).active),
            *final(self) == idle(),
    {
        let notify = app_given || self.active;
        self.active = false;
        self.drawing_start = None;
        self.last_preview_emit = None;
        notify
    }

    /// Decides whether a preview or cursor event goes out now, and records the
    /// time when it does.
    pub fn allow_emit(&mut self, now: u64, force: bool) -> (allowed: bool)
        ensures
            allowed == emit_allowed(*old(self), now, force),
            *final(self) == (if allowed {
                with_emit_time(*old(self), now)
            } else {
                *old(self)
            }),
    {
        if !self.active {
            return false;
        }
        if !force {
            match self.last_preview_emit {
                Some(last) => {
                    if now < last || now - last < PREVIEW_EMIT_INTERVAL_NANOS {
                        return false;
                    }
                },
                None => {},
            }
        }
        self.last_preview_emit = Some(now);
        true
    }

    /// Reports the pointer position to the overlay, at most once per interval.
    pub fn emit_cursor_position(&mut self, x: i32, y: i32, now: u64) -> (actions: Vec<
        PickerAction,
    >)
        ensures
            (*final(self), actions@) == cursor_emitted(*old(self), x, y, now),
    {
        let mut actions: Vec<PickerAction> = Vec::new();
        if self.allow_emit(now, false) {
            actions.push(PickerAction::Cursor { x, y });
        }
        actions
    }

    /// Reports the rectangle of the drag from `start` to `end` to the overlay,
    /// at most once per interval unless forced.
    pub fn emit_preview(&mut self, start: (i32, i32), end: (i32, i32), now: u64, force: bool) -> (
    actions: Vec<PickerAction>)
        requires
            emit_allowed(*old(self), now, force) ==> span_fits(start, end),
        ensures
            (*final(self), actions@) == preview_emitted(*old(self), start, end, now, force),
    {
        let mut actions: Vec<PickerAction> = Vec::new();
        if self.allow_emit(now, force) {
            let rect = normalize_rect(start, end);
            actions.push(PickerAction::Preview { rect, cursor_x: end.0, cursor_y: end.1 });
        }
        actions
    }

    /// Finishes an active pick with `rect`: reports it, then ends the pick.
    pub fn finish_pick(&mut self, rect: StopZoneRect) -> (actions: Vec<PickerAction>)
        ensures
            (*final(self), actions@) == pick_finished(*old(self), rect),
    {
        let mut actions: Vec<PickerAction> = Vec::new();
        if !self.active {
            return actions;
        }
        actions.push(PickerAction::Picked { rect });
        self.stop_pick(false);
        actions.push(PickerAction::Ended);
        actions
    }

    /// Cancels the pick on the application's request: it always ends the pick
    /// and hides the overlay.
    pub fn cancel_pick(&mut self) -> (actions: Vec<PickerAction>)
        ensures
            *final(self) == idle(),
            actions@ == seq![PickerAction::Ended, PickerAction::HideOverlay],
    {
        self.stop_pick(true);
        let mut actions: Vec<PickerAction> = Vec::new();
        actions.push(PickerAction::Ended);
        actions.push(PickerAction::HideOverlay);
        actions
    }

    /// Cancels the pick from an input hook (Escape).
    pub fn cancel_pick_from_hook(&mut self) -> (actions: Vec<PickerAction>)
        ensures
            (*final(self), actions@) == pick_cancelled_from_hook(*old(self)),
    {
        let notify = self.stop_pick(false);
        let mut actions: Vec<PickerAction> = Vec::new();
        if notify {
            actions.push(PickerAction::Ended);
            actions.push(PickerAction::HideOverlay);
        }
        actions
    }

    fn report_pointer(&mut self, pos: (i32, i32), now: u64) -> (actions: Vec<PickerAction>)
        requires
            old(self).drawing_start is Some && emit_allowed(*old(self), now, false) ==> span_fits(
                old(self).drawing_start->0,
                pos,
            ),
        ensures
            (*final(self), actions@) == pointer_reported(*old(self), pos, now),
    {
        match self.drawing_start {
            Some(start) => self.emit_preview(start, pos, now, false),
            None => self.emit_cursor_position(pos.0, pos.1, now),
        }
    }

    fn start_drag(&mut self, pos: (i32, i32), now: u64) -> (actions: Vec<PickerAction>)
        ensures
            (*final(self), actions@) == drag_started(*old(self), pos, now),
    {
        self.drawing_start = Some(pos);
        self.last_preview_emit = None;
        self.emit_preview(pos, pos, now, true)
    }

    /// Whether the drags that `poll_step` would normalize fit (the caller checks
    /// this before polling).
    pub fn poll_step_fits(
        &self,
        right_was_pressed: bool,
        mask: u32,
        cursor: Option<(i32, i32)>,
        now: u64,
    ) -> (b: bool)
        ensures
            b == poll_fits(*self, right_was_pressed, mask, cursor, now),
    {
        let pos = match cursor {
            Some(p) => p,
            None => (0, 0),
        };
        match self.drawing_start {
            Some(start) => {
                let mut probe = *self;
                let allowed = probe.allow_emit(now, false);
                let release = mask & Button3Mask == 0 && right_was_pressed;
                !(allowed || release) || drag_fits(start, pos)
            },
            None => true,
        }
    }

    /// One iteration of the polling picker (used where no input hooks exist):
    /// given the right-button state of the previous poll, the pointer button
    /// mask, the cursor position, whether Escape is down and the time.
    pub fn poll_step(
        &mut self,
        right_was_pressed: bool,
        mask: u32,
        cursor: Option<(i32, i32)>,
        escape_pressed: bool,
        now: u64,
    ) -> (out: PollOutcome)
        requires
            poll_fits(*old(self), right_was_pressed, mask, cursor, now),
        ensures
            (*final(self), out.actions@, out.keep_polling) == polled(
                *old(self),
                right_was_pressed,
                mask,
                cursor,
                escape_pressed,
                now,
            ),
            out.right_pressed == right_down(mask),
            out.pick_ended == poll_ends_pick(*old(self), right_was_pressed, mask, escape_pressed),
    {
        let pos = match cursor {
            Some(p) => p,
            None => (0, 0),
        };
        let right = mask & Button3Mask != 0;
        let mut actions = self.report_pointer(pos, now);
        if !right && right_was_pressed {
            match self.drawing_start {
                Some(start) => {
                    let was_active = self.active;
                    let mut finish = self.finish_pick(normalize_rect(start, pos));
                    actions.append(&mut finish);
                    return PollOutcome {
                        actions,
                        keep_polling: false,
                        right_pressed: right,
                        pick_ended: was_active,
                    };
                },
                None => {},
            }
        }
        if right && !right_was_pressed {
            let mut started = self.start_drag(pos, now);
            actions.append(&mut started);
        }
        if escape_pressed {
            let mut cancelled = self.cancel_pick_from_hook();
            actions.append(&mut cancelled);
            return PollOutcome { actions, keep_polling: false, right_pressed: right, pick_ended: true };
        }
        PollOutcome { actions, keep_polling: true, right_pressed: right, pick_ended: false }
    }

    /// Whether the drags that `mouse_event` would normalize fit (the caller
    /// checks this before handling the event).
    pub fn mouse_event_fits(&self, message: u32, pos: (i32, i32), now: u64) -> (b: bool)
        ensures
            b == mouse_fits(*self, message, pos, now),
    {
        match self.drawing_start {
            Some(start) => {
                let mut probe = *self;
                let allowed = probe.allow_emit(now, false);
                !((message == WM_MOUSEMOVE && allowed) || message == WM_RBUTTONUP) || drag_fits(
                    start,
                    pos,
                )
            },
            None => true,
        }
    }

    /// Handles one event of the low-level mouse hook at pointer position `pos`.
    pub fn mouse_event(&mut self, message: u32, pos: (i32, i32), now: u64) -> (out: HookOutcome)
        requires
            mouse_fits(*old(self), message, pos, now),
        ensures
            (*final(self), out.actions@, out.swallow) == mouse_handled(*old(self), message, pos, now),
            out.pick_ended == mouse_ends_pick(*old(self), message),
    {
        let drawing = self.drawing_start.is_some();
        if message == WM_MOUSEMOVE {
            let actions = if should_emit_drag_preview(drawing) {
                match self.drawing_start {
                    Some(start) => self.emit_preview(start, pos, now, false),
                    None => Vec::new(),
                }
            } else {
                self.emit_cursor_position(pos.0, pos.1, now)
            };
            return HookOutcome { actions, swallow: false, pick_ended: false };
        }
        match classify_mouse_message(message, drawing) {
            MouseHookDecision::Pass => HookOutcome {
                actions: Vec::new(),
                swallow: false,
                pick_ended: false,
            },
            MouseHookDecision::StartDrawing => {
                let actions = self.start_drag(pos, now);
                HookOutcome { actions, swallow: true, pick_ended: false }
            },
            MouseHookDecision::FinishDrawing => {
                let was_active = self.active;
                let actions = match self.drawing_start {
                    Some(start) => self.finish_pick(normalize_rect(start, pos)),
                    None => Vec::new(),
                };
                HookOutcome { actions, swallow: true, pick_ended: was_active }
            },
        }
    }

    /// Handles one event of the low-level keyboard hook: Escape going down
    /// cancels the pick and is consumed; other keys are passed on.
    pub fn keyboard_event(&mut self, message: u32, virtual_key: u32) -> (out: HookOutcome)
        ensures
            keyboard_decision(message, virtual_key) == KeyboardHookDecision::Cancel ==> (
            *final(self), out.actions@) == pick_cancelled_from_hook(*old(self)) && out.swallow,
            keyboard_decision(message, virtual_key) == KeyboardHookDecision::Pass ==> (
            *final(self) == *old(self) && out.actions@.len() == 0 && !out.swallow),
            out.pick_ended == (keyboard_decision(message, virtual_key) == KeyboardHookDecision::Cancel),
    {
        match classify_keyboard_message(message, virtual_key) {
            KeyboardHookDecision::Pass => HookOutcome {
                actions: Vec::new(),
                swallow: false,
                pick_ended: false,
            },
            KeyboardHookDecision::Cancel => {
                let actions = self.cancel_pick_from_hook();
                HookOutcome { actions, swallow: true, pick_ended: true }
            },
        }
    }
}

/// Moving the pointer shows what is being picked. When an event may go out
/// (the pick is active and no event was sent in the last interval), a move seen
/// by the mouse hook during a drag sends exactly one preview of the rectangle
/// from the drag's start to the pointer, with the pointer position; without a
/// drag it sends exactly the pointer position. Either way the event is passed
/// on and only the time of the last event changes.
pub proof fn lemma_move_reports_pointer(s: PickerRuntime, pos: (i32, i32), now: u64)
    requires
        s.active,
        s.last_preview_emit matches Some(last) ==> now >= last + PREVIEW_EMIT_INTERVAL_NANOS,
    ensures
        s.drawing_start matches Some(start) ==> mouse_handled(s, WM_MOUSEMOVE, pos, now) == (
            PickerRuntime { last_preview_emit: Some(now), ..s },
            seq![PickerAction::Preview { rect: normalized(start, pos), cursor_x: pos.0, cursor_y: pos.1 }],
            false,
        ),
        s.drawing_start is None ==> mouse_handled(s, WM_MOUSEMOVE, pos, now) == (
            PickerRuntime { last_preview_emit: Some(now), ..s },
            seq![PickerAction::Cursor { x: pos.0, y: pos.1 }],
            false,
        ),
{
}

/// Within an interval of the last event, or outside a pick, a move sends
/// nothing and changes nothing; it is passed on.
pub proof fn lemma_move_throttled(s: PickerRuntime, pos: (i32, i32), now: u64)
    requires
        !s.active || (s.last_preview_emit matches Some(last) && last <= now && now < last
            + PREVIEW_EMIT_INTERVAL_NANOS),
    ensures
        mouse_handled(s, WM_MOUSEMOVE, pos, now) == (s, Seq::<PickerAction>::empty(), false),
{
}

/// The mouse hook and the poll loop report a move alike: a move seen by the
/// hook gives the same state and the same actions as a poll at the same
/// pointer position and time while the right button stays down and Escape is
/// up, and the poll loop goes on.
pub proof fn lemma_hook_move_matches_poll(s: PickerRuntime, pos: (i32, i32), now: u64, mask: u32)
    requires
        mask & Button3Mask != 0,
    ensures
        mouse_handled(s, WM_MOUSEMOVE, pos, now).0 == polled(s, true, mask, Some(pos), false, now).0,
        mouse_handled(s, WM_MOUSEMOVE, pos, now).1 == polled(s, true, mask, Some(pos), false, now).1,
        polled(s, true, mask, Some(pos), false, now).2,
{
    let (s1, a1) = pointer_reported(s, pos, now);
    assert(a1 + Seq::<PickerAction>::empty() == a1);
}

/// The mouse hook's buttons: during an active pick, pressing the right button
/// starts a drag at the pointer, shows a one-pixel rectangle there at once and
/// is consumed; releasing it during a drag reports the rectangle from the
/// drag's start to the pointer, ends the pick and is consumed. Other messages
/// (left and middle buttons among them) change nothing and are passed on.
pub proof fn lemma_hook_buttons(s: PickerRuntime, message: u32, pos: (i32, i32), now: u64)
    ensures
        s.active ==> mouse_handled(s, WM_RBUTTONDOWN, pos, now) == (
            PickerRuntime { drawing_start: Some(pos), last_preview_emit: Some(now), ..s },
            seq![
                PickerAction::Preview {
                    rect: StopZoneRect { x: pos.0, y: pos.1, width: 1, height: 1 },
                    cursor_x: pos.0,
                    cursor_y: pos.1,
                },
            ],
            true,
        ),
        s.active && s.drawing_start is Some ==> mouse_handled(s, WM_RBUTTONUP, pos, now) == (
            idle(),
            seq![
                PickerAction::Picked { rect: normalized(s.drawing_start->0, pos) },
                PickerAction::Ended,
            ],
            true,
        ),
        message != WM_MOUSEMOVE && message != WM_RBUTTONDOWN && message != WM_RBUTTONUP
            ==> mouse_handled(s, message, pos, now) == (s, Seq::<PickerAction>::empty(), false),
        s.drawing_start is None ==> mouse_handled(s, WM_RBUTTONUP, pos, now) == (
            s,
            Seq::<PickerAction>::empty(),
            false,
        ),
{
}

/// The keyboard hook cancels on Escape (virtual key `0x1B`) going down, as a
/// plain or a system key, and on nothing else.
pub proof fn lemma_escape_cancels(message: u32, virtual_key: u32)
    ensures
        (keyboard_decision(message, virtual_key) == KeyboardHookDecision::Cancel) <==> ((message
            == WM_KEYDOWN || message == WM_SYSKEYDOWN) && virtual_key == 0x1B),
{
}

/// A second start while a pick is in progress is refused and changes nothing;
/// a start after the pick ended begins afresh.
pub proof fn lemma_begin_refused_while_active(s: PickerRuntime)
    ensures
        !pick_begun(pick_begun(s).0).1,
        pick_begun(pick_begun(s).0).0 == pick_begun(s).0,
        pick_begun(idle()).1,
        pick_begun(idle()).0.active,
{
}

/// Preview and cursor events are throttled: after any event is sent at `now`,
/// no unforced event goes out before the interval has passed.
pub proof fn lemma_emit_throttled(s: PickerRuntime, now: u64, force: bool, later: u64, x: i32, y: i32, start: (i32, i32), end: (i32, i32))
    requires
        emit_allowed(s, now, force),
        now <= later,
        (later as int) < (now as int) + PREVIEW_EMIT_INTERVAL_NANOS,
    ensures
        cursor_emitted(with_emit_time(s, now), x, y, later).1.len() == 0,
        preview_emitted(with_emit_time(s, now), start, end, later, false).1.len() == 0,
{
}

/// A pick is reported at most once: finishing an active pick leaves the picker
/// idle, and a second finish reports nothing.
pub proof fn lemma_pick_reported_once(s: PickerRuntime, first: StopZoneRect, second: StopZoneRect)
    ensures
        s.active ==> pick_finished(s, first).0 == idle(),
        pick_finished(pick_finished(s, first).0, second).1.len() == 0,
{
}

/// A poll ends the loop exactly when the right button is released during a drag
/// or Escape is down; a poll of an active pick that ends the loop leaves the
/// picker idle.
pub proof fn lemma_poll_ends_pick(
    s: PickerRuntime,
    right_was_pressed: bool,
    mask: u32,
    cursor: Option<(i32, i32)>,
    escape_pressed: bool,
    now: u64,
)
    ensures
        !polled(s, right_was_pressed, mask, cursor, escape_pressed, now).2 <==> (escape_pressed || (
        !right_down(mask) && right_was_pressed && s.drawing_start is Some)),
        s.active && !polled(s, right_was_pressed, mask, cursor, escape_pressed, now).2 ==> polled(
            s,
            right_was_pressed,
            mask,
            cursor,
            escape_pressed,
            now,
        ).0 == idle(),
{
}

/// A drag finished by releasing the right button reports the rectangle spanned
/// by the drag's start and the release point.
pub proof fn lemma_release_reports_drag(
    s: PickerRuntime,
    right_was_pressed: bool,
    mask: u32,
    cursor: Option<(i32, i32)>,
    escape_pressed: bool,
    now: u64,
)
    requires
        s.active,
        s.drawing_start is Some,
        right_was_pressed,
        !right_down(mask),
    ensures
        polled(s, right_was_pressed, mask, cursor, escape_pressed, now).1.last()
            == PickerAction::Ended,
        polled(s, right_was_pressed, mask, cursor, escape_pressed, now).1.drop_last().last()
            == (PickerAction::Picked {
            rect: normalized(s.drawing_start->0, poll_position(cursor)),
        }),
{
    let (s1, a1) = pointer_reported(s, poll_position(cursor), now);
    let (s2, a2) = pick_finished(s1, normalized(s1.drawing_start->0, poll_position(cursor)));
    assert((a1 + a2).drop_last() == a1 + seq![a2[0]]);
}

/// Pressing the right button starts a drag at the pointer and immediately shows
/// a one-pixel rectangle there.
pub proof fn lemma_press_starts_drag(
    s: PickerRuntime,
    right_was_pressed: bool,
    mask: u32,
    cursor: Option<(i32, i32)>,
    now: u64,
)
    requires
        s.active,
        right_down(mask),
        !right_was_pressed,
    ensures
        polled(s, right_was_pressed, mask, cursor, false, now).0.drawing_start == Some(
            poll_position(cursor),
        ),
        polled(s, right_was_pressed, mask, cursor, false, now).1.last() == (PickerAction::Preview {
            rect: StopZoneRect { x: poll_position(cursor).0, y: poll_position(cursor).1, width: 1, height: 1 },
            cursor_x: poll_position(cursor).0,
            cursor_y: poll_position(cursor).1,
        }),
{
}

/// Escape cancels a pick from the poll loop: unless the same poll releases the
/// right button during a drag, a poll with Escape down ends the pick, hides the
/// overlay as its last actions, leaves the picker idle and stops the loop.
pub proof fn lemma_poll_escape_cancels(
    s: PickerRuntime,
    right_was_pressed: bool,
    mask: u32,
    cursor: Option<(i32, i32)>,
    now: u64,
)
    requires
        s.active,
        !(mask & Button3Mask == 0 && right_was_pressed && s.drawing_start is Some),
    ensures
        ({
            let (s2, acts, keep) = polled(s, right_was_pressed, mask, cursor, true, now);
            &&& !keep
            &&& s2 == idle()
            &&& acts.len() >= 2
            &&& acts[acts.len() - 2] == PickerAction::Ended
            &&& acts.last() == PickerAction::HideOverlay
        }),
{
}

/// What one poll reads: the pointer button mask, the cursor position, whether
/// Escape is down, and the time.
pub type PollInput = (u32, Option<(i32, i32)>, bool, u64);

/// The poll loop over a sequence of polls, starting from state `s` with the
/// right button's previous state `right_was_pressed`: it stops at the first
/// poll that ends it. Gives the final state, all actions in order and whether
/// the loop would go on.
pub open spec fn polls_run(s: PickerRuntime, right_was_pressed: bool, inputs: Seq<PollInput>) -> (
    PickerRuntime,
    Seq<PickerAction>,
    bool,
)
    decreases inputs.len(),
{
    if inputs.len() == 0 {
        (s, Seq::empty(), true)
    } else {
        let i = inputs[0];
        let (s1, a1, keep) = polled(s, right_was_pressed, i.0, i.1, i.2, i.3);
        if !keep {
            (s1, a1, false)
        } else {
            let (s2, a2, k2) = polls_run(s1, right_down(i.0), inputs.drop_first());
            (s2, a1 + a2, k2)
        }
    }
}

/// An action that only reports the pointer or the drag to the overlay.
pub open spec fn is_report(a: PickerAction) -> bool {
    a is Cursor || a is Preview
}

proof fn lemma_pointer_reported_reports(s: PickerRuntime, pos: (i32, i32), now: u64)
    ensures
        forall|k: int|
            0 <= k < pointer_reported(s, pos, now).1.len() ==> is_report(
                #[trigger] pointer_reported(s, pos, now).1[k],
            ),
        pointer_reported(s, pos, now).0.active == s.active,
        pointer_reported(s, pos, now).0.drawing_start == s.drawing_start,
{
}

/// While the right button stays down and Escape stays up, the loop only reports
/// the drag; on the poll where the button is released it reports the rectangle
/// from the drag's start to the release point, then the end of the pick, and stops.
proof fn lemma_held_drag_finishes(s: PickerRuntime, start: (i32, i32), inputs: Seq<PollInput>)
    requires
        s.active,
        s.drawing_start == Some(start),
        inputs.len() >= 1,
        forall|k: int| 0 <= k < inputs.len() - 1 ==> right_down((#[trigger] inputs[k]).0),
        !right_down(inputs.last().0),
        forall|k: int| 0 <= k < inputs.len() ==> !(#[trigger] inputs[k]).2,
    ensures
        ({
            let (s2, acts, keep) = polls_run(s, true, inputs);
            &&& !keep
            &&& s2 == idle()
            &&& acts.len() >= 2
            &&& acts.last() == PickerAction::Ended
            &&& acts[acts.len() - 2] == (PickerAction::Picked {
                rect: normalized(start, poll_position(inputs.last().1)),
            })
            &&& forall|k: int| 0 <= k < acts.len() - 2 ==> is_report(#[trigger] acts[k])
        }),
    decreases inputs.len(),
{
    let i = inputs[0];
    let pos = poll_position(i.1);
    lemma_pointer_reported_reports(s, pos, i.3);
    let (s1, a1) = pointer_reported(s, pos, i.3);
    if inputs.len() == 1 {
        assert(inputs.last() == i);
        let (s2, a2) = pick_finished(s1, normalized(start, pos));
        assert(polled(s, true, i.0, i.1, i.2, i.3) == (s2, a1 + a2, false));
        let acts = a1 + a2;
        assert(acts[acts.len() - 2] == a2[0]);
        assert forall|k: int| 0 <= k < acts.len() - 2 implies is_report(#[trigger] acts[k]) by {
            assert(acts[k] == a1[k]);
        }
    } else {
        assert(right_down(i.0));
        assert(polled(s, true, i.0, i.1, i.2, i.3) == (s1, a1, true));
        let rest = inputs.drop_first();
        assert(rest.last() == inputs.last());
        assert forall|k: int| 0 <= k < rest.len() - 1 implies right_down((#[trigger] rest[k]).0) by {
            assert(rest[k] == inputs[k + 1]);
        }
        assert forall|k: int| 0 <= k < rest.len() implies !(#[trigger] rest[k]).2 by {
            assert(rest[k] == inputs[k + 1]);
        }
        lemma_held_drag_finishes(s1, start, rest);
        let (s2, a2, k2) = polls_run(s1, true, rest);
        let acts = a1 + a2;
        assert(acts.last() == a2.last());
        assert(acts[acts.len() - 2] == a2[a2.len() - 2]);
        assert forall|k: int| 0 <= k < acts.len() - 2 implies is_report(#[trigger] acts[k]) by {
            if k < a1.len() {
                assert(acts[k] == a1[k]);
            } else {
                assert(acts[k] == a2[k - a1.len()]);
            }
        }
    }
}

/// A drag picks exactly one rectangle: when, during an active pick, the right
/// button goes down at the first poll, stays down, and is released at the last
/// poll, with Escape never down, the loop only reports the pointer and the drag
/// until it reports the rectangle from the press point to the release point,
/// then the end of the pick, and stops with the picker idle.
pub proof fn lemma_drag_picks_once(s: PickerRuntime, inputs: Seq<PollInput>)
    requires
        s.active,
        inputs.len() >= 2,
        right_down(inputs[0].0),
        forall|k: int| 1 <= k < inputs.len() - 1 ==> right_down((#[trigger] inputs[k]).0),
        !right_down(inputs.last().0),
        forall|k: int| 0 <= k < inputs.len() ==> !(#[trigger] inputs[k]).2,
    ensures
        ({
            let (s2, acts, keep) = polls_run(s, false, inputs);
            &&& !keep
            &&& s2 == idle()
            &&& acts.len() >= 2
            &&& acts.last() == PickerAction::Ended
            &&& acts[acts.len() - 2] == (PickerAction::Picked {
                rect: normalized(poll_position(inputs[0].1), poll_position(inputs.last().1)),
            })
            &&& forall|k: int| 0 <= k < acts.len() - 2 ==> is_report(#[trigger] acts[k])
        }),
{
    let i = inputs[0];
    let p1 = poll_position(i.1);
    assert(!i.2);
    lemma_pointer_reported_reports(s, p1, i.3);
    let (s1, a1) = pointer_reported(s, p1, i.3);
    let (s2, a2) = drag_started(s1, p1, i.3);
    assert(polled(s, false, i.0, i.1, i.2, i.3) == (s2, a1 + a2, true));
    let first = a1 + a2;
    assert forall|k: int| 0 <= k < first.len() implies is_report(#[trigger] first[k]) by {
        if k < a1.len() {
            assert(first[k] == a1[k]);
        } else {
            assert(first[k] == a2[k - a1.len()]);
        }
    }
    let rest = inputs.drop_first();
    assert(rest.last() == inputs.last());
    assert forall|k: int| 0 <= k < rest.len() - 1 implies right_down((#[trigger] rest[k]).0) by {
        assert(rest[k] == inputs[k + 1]);
    }
    assert forall|k: int| 0 <= k < rest.len() implies !(#[trigger] rest[k]).2 by {
        assert(rest[k] == inputs[k + 1]);
    }
    lemma_held_drag_finishes(s2, p1, rest);
    let (s3, a3, k3) = polls_run(s2, true, rest);
    let acts = first + a3;
    assert(acts.last() == a3.last());
    assert(acts[acts.len() - 2] == a3[a3.len() - 2]);
    assert forall|k: int| 0 <= k < acts.len() - 2 implies is_report(#[trigger] acts[k]) by {
        if k < first.len() {
            assert(acts[k] == first[k]);
        } else {
            assert(acts[k] == a3[k - first.len()]);
        }
    }
}

/// Normalizing does not depend on the drag direction.
pub proof fn lemma_normalize_symmetric(a: (i32, i32), b: (i32, i32))
    requires
        span_fits(a, b),
    ensures
        span_fits(b, a),
        normalized(a, b) == normalized(b, a),
{
}

/// A normalized rectangle has a positive size and contains both end points of the drag.
pub proof fn lemma_normalize_covers_drag(a: (i32, i32), b: (i32, i32))
    requires
        span_fits(a, b),
    ensures
        normalized(a, b).width >= 1,
        normalized(a, b).height >= 1,
        normalized(a, b).x <= a.0 <= normalized(a, b).x + normalized(a, b).width - 1,
        normalized(a, b).x <= b.0 <= normalized(a, b).x + normalized(a, b).width - 1,
        normalized(a, b).y <= a.1 <= normalized(a, b).y + normalized(a, b).height - 1,
        normalized(a, b).y <= b.1 <= normalized(a, b).y + normalized(a, b).height - 1,
{
}

/// Dragging from a rectangle's top-left corner to its bottom-right corner gives
/// that rectangle back.
pub proof fn lemma_normalize_of_corners(r: StopZoneRect)
    requires
        r.width >= 1,
        r.height >= 1,
        r.x + r.width - 1 <= i32::MAX,
        r.y + r.height - 1 <= i32::MAX,
    ensures
        span_fits((r.x, r.y), ((r.x + r.width - 1) as i32, (r.y + r.height - 1) as i32)),
        normalized((r.x, r.y), ((r.x + r.width - 1) as i32, (r.y + r.height - 1) as i32)) == r,
{
}

} // verus!
