//! A light that can blink.

use vstd::prelude::*;
use super::BlinkStatus;

verus! {

/// What a light holds, as plain values.
pub struct LedState {
    /// Whether the pin is low when the light is lit.
    pub invert: bool,
    /// The number of brightness levels.
    pub resolution: u32,
    /// The updates for which a blinking light is lit, if it blinks.
    pub blink_on: Option<u32>,
    /// The updates for which a blinking light is dark, if it blinks.
    pub blink_off: Option<u32>,
    /// The updates since the blinking light last changed.
    pub blink_counter: u32,
    /// Where the blinking stands.
    pub blink_status: BlinkStatus,
}

impl LedState {
    /// Whether the light blinks: both of its times are set.
    pub open spec fn blinks(self) -> bool {
        self.blink_on.is_some() && self.blink_off.is_some()
    }

    /// Whether one more update can be counted.
    pub open spec fn can_update(self) -> bool {
        self.blinks() ==> self.blink_counter < u32::MAX
    }

    /// The light after one more update. A light that blinks counts the
    /// update; it turns dark once it has been lit for more updates than its
    /// lit time, lit once it has been dark for more than its dark time, and
    /// starts lit.
    pub open spec fn updated(self) -> LedState {
        if !self.blinks() {
            self
        } else {
            let counter = (self.blink_counter + 1) as u32;
            match self.blink_status {
                BlinkStatus::On => if counter > self.blink_on.unwrap() {
                    LedState { blink_counter: 0, blink_status: BlinkStatus::Off, ..self }
                } else {
                    LedState { blink_counter: counter, ..self }
                },
                BlinkStatus::Off => if counter > self.blink_off.unwrap() {
                    LedState { blink_counter: 0, blink_status: BlinkStatus::On, ..self }
                } else {
                    LedState { blink_counter: counter, ..self }
                },
                BlinkStatus::Disabled => LedState {
                    blink_counter: counter,
                    blink_status: BlinkStatus::On,
                    ..self
                },
            }
        }
    }

    /// The level of the pin: high while a blinking light is in the lit part
    /// of its cycle, low in the dark part. A light that does not blink
    /// follows its brightness, the other way round if it is inverted.
    pub open spec fn pin_is_high(self, is_bright: bool) -> bool {
        match self.blink_status {
            BlinkStatus::On => true,
            BlinkStatus::Off => false,
            BlinkStatus::Disabled => is_bright != self.invert,
        }
    }
}

/// A light on a pin, dimmed by switching it at a duty cycle and able to
/// blink. The duty cycle is the caller's: each update is told whether the
/// light is in the bright part of it.
pub struct Led {
    invert: bool,
    resolution: u32,
    blink_on: Option<u32>,
    blink_off: Option<u32>,
    blink_counter: u32,
    blink_status: BlinkStatus,
}

impl View for Led {
    type V = LedState;

    closed spec fn view(&self) -> LedState {
        LedState {
            invert: self.invert,
            resolution: self.resolution,
            blink_on: self.blink_on,
            blink_off: self.blink_off,
            blink_counter: self.blink_counter,
            blink_status: self.blink_status,
        }
    }
}

impl Led {
    /// A light that does not blink.
    pub fn new(invert: bool, resolution: u32) -> (led: Self)
        ensures
            led@ == (LedState {
                invert,
                resolution,
                blink_on: None,
                blink_off: None,
                blink_counter: 0,
                blink_status: BlinkStatus::Disabled,
            }),
    {
        Self {
            invert,
            resolution,
            blink_on: None,
            blink_off: None,
            blink_counter: 0,
            blink_status: BlinkStatus::Disabled,
        }
    }

    /// The number of brightness levels.
    pub fn resolution(&self) -> (resolution: u32)
        ensures
            resolution == self@.resolution,
    {
        self.resolution
    }

    /// Whether the pin is low when the light is lit.
    pub fn invert(&self) -> (invert: bool)
        ensures
            invert == self@.invert,
    {
        self.invert
    }

    /// Makes the light blink: lit for `blink_on` updates, dark for
    /// `blink_off`.
    pub fn set_blink(&mut self, blink_on: u32, blink_off: u32)
        ensures
            final(self)@ == (LedState {
                blink_on: Some(blink_on),
                blink_off: Some(blink_off),
                ..old(self)@
            }),
    {
        self.blink_on = Some(blink_on);
        self.blink_off = Some(blink_off);
    }

    /// Stops the blinking.
    pub fn clear_blink(&mut self)
        ensures
            final(self)@ == (LedState {
                blink_on: None,
                blink_off: None,
                blink_status: BlinkStatus::Disabled,
                ..old(self)@
            }),
    {
        self.blink_on = None;
        self.blink_off = None;
        self.blink_status = BlinkStatus::Disabled;
    }

    /// Whether [`Led::update`] can count one more update.
    pub fn can_update(&self) -> (ok: bool)
        ensures
            ok == self@.can_update(),
    {
        self.blink_on.is_none() || self.blink_off.is_none() || self.blink_counter < u32::MAX
    }

    /// Counts one update and gives the level to set the pin to. To be
    /// called on a timer.
    pub fn update(&mut self, is_bright: bool) -> (pin_is_high: bool)
        requires
            old(self)@.can_update(),
        ensures
            final(self)@ == old(self)@.updated(),
            pin_is_high == final(self)@.pin_is_high(is_bright),
    {
        if let (Some(blink_on), Some(blink_off)) = (self.blink_on, self.blink_off) {
            self.blink_counter += 1;
            self.blink_status = match self.blink_status {
                BlinkStatus::On => {
                    if self.blink_counter > blink_on {
                        self.blink_counter = 0;
                        BlinkStatus::Off
                    } else {
                        BlinkStatus::On
                    }
                },
                BlinkStatus::Off => {
                    if self.blink_counter > blink_off {
                        self.blink_counter = 0;
                        BlinkStatus::On
                    } else {
                        BlinkStatus::Off
                    }
                },
                BlinkStatus::Disabled => BlinkStatus::On,
            };
        }
        match self.blink_status {
            BlinkStatus::On => true,
            BlinkStatus::Off => false,
            BlinkStatus::Disabled => (is_bright && !self.invert) || (!is_bright && self.invert),
        }
    }
}

/// A light that blinks never stands still: every update counts or changes
/// its status, and a status of one part of the cycle lasts no longer than
/// the time of that part allows.
pub proof fn lemma_blink_progress(s: LedState)
    requires
        s.blinks(),
        s.can_update(),
    ensures
        s.updated().blink_status != BlinkStatus::Disabled,
        s.updated().blink_status == s.blink_status ==> s.updated().blink_counter
            == s.blink_counter + 1,
        s.blink_status == BlinkStatus::On && s.blink_counter >= s.blink_on.unwrap()
            ==> s.updated().blink_status == BlinkStatus::Off,
        s.blink_status == BlinkStatus::Off && s.blink_counter >= s.blink_off.unwrap()
            ==> s.updated().blink_status == BlinkStatus::On,
{
}

} // verus!
