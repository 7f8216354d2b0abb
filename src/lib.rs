//! Gesture disambiguation for a trackpoint's middle button: raw button and
//! axis events in, synthesized clicks and wheel motion out.

pub mod event;
pub mod laws;
pub mod machine;

pub use event::{DeviceKind, Event, MouseButton, OutputAction, WheelAxis, WHEEL_UNIT};
pub use machine::{handle, Input, Mode, TPMiddle, CLICK_WINDOW_MICROS};
