//! The values that flow into and out of the gesture machine.

use vstd::prelude::*;

verus! {

/// One notch of wheel rotation, in the host's wheel units.
pub const WHEEL_UNIT: i32 = 120;

/// A decoded report of the trackpoint.
#[derive(Clone, Copy, Debug, PartialEq, Eq, Structural)]
pub enum Event {
    /// The middle (scroll) button went down.
    ButtonDown,
    /// The middle (scroll) button went up.
    ButtonUp,
    /// A vertical delta.
    Vertical(i8),
    /// A horizontal delta.
    Horizontal(i8),
}

/// How the trackpoint is attached; decides whether vertical deltas are
/// turned into wheel motion.
#[derive(Clone, Copy, Debug, PartialEq, Eq, Structural)]
pub enum DeviceKind {
    Wired,
    Wireless,
}

/// A logical mouse button that can be clicked.
#[derive(Clone, Copy, Debug, PartialEq, Eq, Structural)]
pub enum MouseButton {
    Middle,
    Back,
    Forward,
}

/// The wheel that a wheel action turns.
#[derive(Clone, Copy, Debug, PartialEq, Eq, Structural)]
pub enum WheelAxis {
    Vertical,
    Horizontal,
}

/// What the machine asks the host to inject.
#[derive(Clone, Copy, Debug, PartialEq, Eq, Structural)]
pub enum OutputAction {
    /// A full press and release of the button.
    SynthesizeClick(MouseButton),
    /// A wheel rotation by the signed amount, in wheel units.
    SynthesizeWheel(WheelAxis, i32),
}

/// The host's number for a button: middle is 3, back 4, forward 5.
pub open spec fn spec_button_number(b: MouseButton) -> u8 {
    match b {
        MouseButton::Middle => 3,
        MouseButton::Back => 4,
        MouseButton::Forward => 5,
    }
}

impl MouseButton {
    /// The host's number for this button.
    pub fn number(&self) -> (r: u8)
        ensures
            r == spec_button_number(*self),
    {
        match self {
            MouseButton::Middle => 3,
            MouseButton::Back => 4,
            MouseButton::Forward => 5,
        }
    }
}

/// The wheel amount for a raw delta: the delta times one notch.
pub open spec fn spec_wheel_amount(delta: i8) -> int {
    delta as int * WHEEL_UNIT as int
}

/// Converts a raw delta into a wheel amount; the sign is kept and nothing
/// is clamped.
pub fn wheel_amount(delta: i8) -> (r: i32)
    ensures
        r as int == spec_wheel_amount(delta),
{
    delta as i32 * WHEEL_UNIT
}

} // verus!
