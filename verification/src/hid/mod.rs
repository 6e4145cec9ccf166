//! Rules of the board's switches and lights.

use vstd::prelude::*;

pub mod debounce;
pub mod led;
pub mod switch;

pub use self::debounce::Edge;
pub use self::led::Led;
pub use self::led::LedState;
pub use self::switch::Switch;
pub use self::switch::SwitchState;

verus! {

/// How a switch is wired.
#[derive(Clone, Copy, Debug, PartialEq, Eq, Structural)]
pub enum SwitchType {
    /// The pin is pulled up, and pressing the switch pulls it low.
    PullUp,
    /// The pin is pulled down, and pressing the switch pulls it high.
    PullDown,
}

/// Where a blinking light stands.
#[derive(Clone, Copy, Debug, PartialEq, Eq, Structural)]
pub enum BlinkStatus {
    /// The light does not blink.
    Disabled,
    /// The light is in the lit part of its cycle.
    On,
    /// The light is in the dark part of its cycle.
    Off,
}

impl SwitchType {
    /// Whether a switch wired this way is pressed when its pin reads high
    /// or low.
    pub fn is_pressed(self, pin_is_high: bool) -> (pressed: bool)
        ensures
            pressed == match self {
                SwitchType::PullUp => !pin_is_high,
                SwitchType::PullDown => pin_is_high,
            },
    {
        match self {
            SwitchType::PullUp => !pin_is_high,
            SwitchType::PullDown => pin_is_high,
        }
    }
}

} // verus!
