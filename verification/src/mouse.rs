//! Mouse events, and how a terminal's button snapshot is folded with the previous
//! event into a press, a release or a motion.

use vstd::prelude::*;

verus! {

/// What a mouse event reports.
#[derive(Clone, Copy, Debug, PartialEq, Eq, Structural)]
pub enum MouseEventType {
    Press,
    Release,
    Motion,
}

/// A cell of the screen, counted from zero.
#[derive(Clone, Copy, Debug, PartialEq, Eq, Structural)]
pub struct Position {
    pub line: u16,
    pub column: u16,
}

/// One of the three buttons that can be held.
#[derive(Clone, Copy, Debug, PartialEq, Eq, Structural)]
pub enum MouseButton {
    Left,
    Right,
    Middle,
}

/// A normalized mouse event: what happened, the buttons and modifiers that are
/// down, and where.
#[derive(Clone, Copy, Debug, PartialEq, Eq, Structural)]
pub struct MouseEvent {
    pub event_type: MouseEventType,
    pub left: bool,
    pub right: bool,
    pub middle: bool,
    pub wheel_up: bool,
    pub wheel_down: bool,
    pub shift: bool,
    pub alt: bool,
    pub ctrl: bool,
    pub position: Position,
}

/// What a terminal reports of the mouse: a cell counted from one, the buttons
/// that are down, and the modifiers. It does not say which button was released.
#[derive(Clone, Copy, Debug, PartialEq, Eq, Structural)]
pub struct MouseReport {
    pub x: u16,
    pub y: u16,
    pub left: bool,
    pub right: bool,
    pub middle: bool,
    pub vert_wheel: bool,
    pub wheel_positive: bool,
    pub shift: bool,
    pub alt: bool,
    pub ctrl: bool,
}

impl MouseEvent {
    /// The state before any report: a motion at the origin with nothing held.
    pub open spec fn spec_new() -> MouseEvent {
        MouseEvent {
            event_type: MouseEventType::Motion,
            left: false,
            right: false,
            middle: false,
            wheel_up: false,
            wheel_down: false,
            shift: false,
            alt: false,
            ctrl: false,
            position: Position { line: 0, column: 0 },
        }
    }

    /// The state before any report: a motion at the origin with nothing held.
    #[verifier::when_used_as_spec(spec_new)]
    pub fn new() -> (event: MouseEvent)
        ensures
            event == Self::spec_new(),
    {
        MouseEvent {
            event_type: MouseEventType::Motion,
            left: false,
            right: false,
            middle: false,
            wheel_up: false,
            wheel_down: false,
            shift: false,
            alt: false,
            ctrl: false,
            position: Position { line: 0, column: 0 },
        }
    }

    /// Whether the given button is down in this event.
    pub open spec fn holds(self, button: MouseButton) -> bool {
        match button {
            MouseButton::Left => self.left,
            MouseButton::Right => self.right,
            MouseButton::Middle => self.middle,
        }
    }

    /// Whether no button is down in this event.
    pub open spec fn holds_nothing(self) -> bool {
        !self.left && !self.right && !self.middle
    }
}

impl MouseReport {
    /// Whether the given button is down in this report.
    pub open spec fn holds(self, button: MouseButton) -> bool {
        match button {
            MouseButton::Left => self.left,
            MouseButton::Right => self.right,
            MouseButton::Middle => self.middle,
        }
    }

    /// Whether the report is a turn of the wheel.
    pub open spec fn is_wheel(self) -> bool {
        self.vert_wheel
    }
}

/// One less, but never below zero.
pub open spec fn zero_based(n: u16) -> u16 {
    if n == 0 {
        0
    } else {
        (n - 1) as u16
    }
}

/// The kind of the event that a report stands for, given the event before it.
/// A turn of the wheel is a press. Otherwise a button that is newly down makes a
/// press, a button that is newly up makes a release, and a report with the same
/// buttons as before is a motion.
pub open spec fn folded_type(carry: MouseEvent, report: MouseReport) -> MouseEventType {
    if report.vert_wheel {
        MouseEventType::Press
    } else if (report.left && !carry.left) || (report.right && !carry.right) || (report.middle
        && !carry.middle) {
        MouseEventType::Press
    } else if (!report.left && carry.left) || (!report.right && carry.right) || (!report.middle
        && carry.middle) {
        MouseEventType::Release
    } else {
        MouseEventType::Motion
    }
}

/// The normalized event that a report stands for, given the event before it.
pub open spec fn folded(carry: MouseEvent, report: MouseReport) -> MouseEvent {
    MouseEvent {
        event_type: folded_type(carry, report),
        left: report.left,
        right: report.right,
        middle: report.middle,
        wheel_up: report.vert_wheel && report.wheel_positive,
        wheel_down: report.vert_wheel && !report.wheel_positive,
        shift: report.shift,
        alt: report.alt,
        ctrl: report.ctrl,
        position: Position { line: zero_based(report.y), column: zero_based(report.x) },
    }
}

/// Folds a report with the carried event: returns the normalized event and
/// carries it for the next report.
pub fn fold_mouse_report(carry: &mut MouseEvent, report: MouseReport) -> (event: MouseEvent)
    ensures
        event == folded(*old(carry), report),
        *final(carry) == event,
{
    let event_type = if report.vert_wheel {
        MouseEventType::Press
    } else if (report.left && !carry.left) || (report.right && !carry.right) || (report.middle
        && !carry.middle) {
        MouseEventType::Press
    } else if (!report.left && carry.left) || (!report.right && carry.right) || (!report.middle
        && carry.middle) {
        MouseEventType::Release
    } else {
        MouseEventType::Motion
    };
    let event = MouseEvent {
        event_type,
        left: report.left,
        right: report.right,
        middle: report.middle,
        wheel_up: report.vert_wheel && report.wheel_positive,
        wheel_down: report.vert_wheel && !report.wheel_positive,
        shift: report.shift,
        alt: report.alt,
        ctrl: report.ctrl,
        position: Position {
            line: report.y.saturating_sub(1),
            column: report.x.saturating_sub(1),
        },
    };
    *carry = event;
    event
}

/// A press, a movement with the button still down and a release come out as a
/// press, a motion that carries the pressed button, and a release: the movement
/// between press and release is never one with no button down.
pub proof fn lemma_press_drag_release(
    carry: MouseEvent,
    button: MouseButton,
    press: MouseReport,
    drag: MouseReport,
    release: MouseReport,
)
    requires
        carry.holds_nothing(),
        !press.is_wheel() && !drag.is_wheel() && !release.is_wheel(),
        forall|b: MouseButton| press.holds(b) == (b == button),
        forall|b: MouseButton| drag.holds(b) == (b == button),
        forall|b: MouseButton| !release.holds(b),
    ensures
        folded(carry, press).event_type == MouseEventType::Press,
        folded(carry, press).holds(button),
        folded(folded(carry, press), drag).event_type == MouseEventType::Motion,
        folded(folded(carry, press), drag).holds(button),
        !folded(folded(carry, press), drag).holds_nothing(),
        folded(folded(folded(carry, press), drag), release).event_type == MouseEventType::Release,
        folded(folded(folded(carry, press), drag), release).holds_nothing(),
{
    assert(press.holds(MouseButton::Left) == (MouseButton::Left == button));
    assert(press.holds(MouseButton::Right) == (MouseButton::Right == button));
    assert(press.holds(MouseButton::Middle) == (MouseButton::Middle == button));
    assert(drag.holds(MouseButton::Left) == (MouseButton::Left == button));
    assert(drag.holds(MouseButton::Right) == (MouseButton::Right == button));
    assert(drag.holds(MouseButton::Middle) == (MouseButton::Middle == button));
    assert(!release.holds(MouseButton::Left));
    assert(!release.holds(MouseButton::Right));
    assert(!release.holds(MouseButton::Middle));
}

} // verus!
