//! The gesture state machine: one `Mode`, updated by one event at a time.

use vstd::prelude::*;

use crate::event::{
    spec_wheel_amount, wheel_amount, DeviceKind, Event, MouseButton, OutputAction, WheelAxis,
};

verus! {

/// The longest press, in microseconds, that still counts as a middle click.
pub const CLICK_WINDOW_MICROS: u64 = 50_000;

/// The machine's whole state.
#[derive(Clone, Copy, Debug, PartialEq, Eq, Structural)]
pub enum Mode {
    /// The button is up and no gesture is in progress.
    Idle,
    /// The button went down at `since` (microseconds of a non-decreasing
    /// clock) and nothing has moved yet.
    Pressed { since: u64 },
    /// A horizontal gesture turned into horizontal wheel motion.
    Scrolling,
    /// A back or forward click was made during the current press.
    SideClicked,
}

/// Whether a release at `now` of a press made at `since` is a click.
pub open spec fn within_click_window(since: u64, now: u64) -> bool {
    now as int <= since as int + CLICK_WINDOW_MICROS as int
}

/// The mode after `event` arrives at `now` in `mode`.
pub open spec fn next_mode(mode: Mode, event: Event, now: u64) -> Mode {
    match event {
        Event::ButtonDown => Mode::Pressed { since: now },
        Event::ButtonUp => Mode::Idle,
        Event::Vertical(_) => if mode is SideClicked {
            Mode::Scrolling
        } else {
            mode
        },
        Event::Horizontal(_) => match mode {
            Mode::Pressed { .. } => Mode::SideClicked,
            Mode::SideClicked => Mode::Scrolling,
            _ => mode,
        },
    }
}

/// The side button that a horizontal delta during a press clicks.
pub open spec fn side_button(dx: i8) -> MouseButton {
    if dx < 0 {
        MouseButton::Back
    } else {
        MouseButton::Forward
    }
}

/// A wheel action for a raw delta on the given axis.
pub open spec fn wheel_action(axis: WheelAxis, delta: i8) -> OutputAction {
    OutputAction::SynthesizeWheel(axis, spec_wheel_amount(delta) as i32)
}

/// The actions produced when `event` from `device` arrives at `now` in `mode`.
pub open spec fn actions(mode: Mode, event: Event, device: DeviceKind, now: u64) -> Seq<
    OutputAction,
> {
    match event {
        Event::ButtonDown => seq![],
        Event::ButtonUp => match mode {
            Mode::Pressed { since } => if within_click_window(since, now) {
                seq![OutputAction::SynthesizeClick(MouseButton::Middle)]
            } else {
                seq![]
            },
            _ => seq![],
        },
        Event::Vertical(dy) => if device is Wired {
            seq![wheel_action(WheelAxis::Vertical, dy)]
        } else {
            seq![]
        },
        Event::Horizontal(dx) => match mode {
            Mode::Pressed { .. } => seq![OutputAction::SynthesizeClick(side_button(dx))],
            Mode::SideClicked => seq![wheel_action(WheelAxis::Horizontal, dx)],
            _ => seq![],
        },
    }
}

/// Whether a press made at `since` and released at `now` is a click.
fn is_click(since: u64, now: u64) -> (r: bool)
    ensures
        r == within_click_window(since, now),
{
    now <= since || now - since <= CLICK_WINDOW_MICROS
}

/// Feeds one event, from `device` at time `now`, to the machine in `mode`.
/// Returns the actions to inject, in order (none or one).
pub fn handle(event: Event, device: DeviceKind, now: u64, mode: &mut Mode) -> (r: Vec<
    OutputAction,
>)
    ensures
        *final(mode) == next_mode(*old(mode), event, now),
        r@ == actions(*old(mode), event, device, now),
{
    let mut out: Vec<OutputAction> = Vec::new();
    match event {
        Event::ButtonDown => {
            *mode = Mode::Pressed { since: now };
        },
        Event::ButtonUp => {
            if let Mode::Pressed { since } = *mode {
                if is_click(since, now) {
                    out.push(OutputAction::SynthesizeClick(MouseButton::Middle));
                }
            }
            *mode = Mode::Idle;
        },
        Event::Vertical(dy) => {
            if let Mode::SideClicked = *mode {
                *mode = Mode::Scrolling;
            }
            if let DeviceKind::Wired = device {
                out.push(OutputAction::SynthesizeWheel(WheelAxis::Vertical, wheel_amount(dy)));
            }
        },
        Event::Horizontal(dx) => {
            match *mode {
                Mode::Pressed { .. } => {
                    *mode = Mode::SideClicked;
                    let button = if dx < 0 {
                        MouseButton::Back
                    } else {
                        MouseButton::Forward
                    };
                    out.push(OutputAction::SynthesizeClick(button));
                },
                Mode::SideClicked => {
                    *mode = Mode::Scrolling;
                    out.push(
                        OutputAction::SynthesizeWheel(WheelAxis::Horizontal, wheel_amount(dx)),
                    );
                },
                _ => {},
            }
        },
    }
    proof {
        assert(out@ =~= actions(*old(mode), event, device, now));
    }
    out
}

/// A decoded report: the event and the device it came from.
#[derive(Clone, Copy, Debug, PartialEq, Eq, Structural)]
pub struct Input {
    pub event: Event,
    pub device: DeviceKind,
}

/// The trackpoint middle-button remapper: owns the one live `Mode`.
pub struct TPMiddle {
    pub state: Mode,
}

impl TPMiddle {
    /// A remapper with no gesture in progress.
    pub fn new() -> (r: TPMiddle)
        ensures
            r.state == Mode::Idle,
    {
        TPMiddle { state: Mode::Idle }
    }

    /// Takes one decoded report that arrived at `now` and returns the
    /// actions to inject.
    pub fn proc(&mut self, input: Input, now: u64) -> (r: Vec<OutputAction>)
        ensures
            final(self).state == next_mode(old(self).state, input.event, now),
            r@ == actions(old(self).state, input.event, input.device, now),
    {
        handle(input.event, input.device, now, &mut self.state)
    }
}

} // verus!
