//! A switch: debounced, with edges, double presses and held presses.

use vstd::prelude::*;
use super::debounce::debounce_4;
use super::debounce::debouncer_bits;
use super::debounce::debouncer_is_high;
use super::debounce::debouncer_is_low;
use super::debounce::debouncer_update;
use super::debounce::edge_of;
use super::debounce::is_steady;
use super::debounce::shifted_in;
use super::debounce::Edge;
use super::SwitchType;

verus! {

/// What a switch holds, as plain values.
pub struct SwitchState {
    /// The last four readings, the latest in bit 0.
    pub bits: u8,
    /// Whether the last reading brought a falling edge.
    pub falling: bool,
    /// Whether the last reading brought a rising edge.
    pub rising: bool,
    /// How the switch is wired.
    pub switch_type: SwitchType,
    /// The most readings between two presses that count as a double press.
    pub double_threshold: Option<u32>,
    /// The fewest readings for which a press counts as held.
    pub held_threshold: Option<u32>,
    /// The pressed readings since the last rising edge.
    pub held_counter: u32,
    /// The readings since the last single press.
    pub last_press_counter: u32,
    /// Whether a single press waits for its second.
    pub single_press: bool,
    /// Whether the last reading completed a double press.
    pub double_press: bool,
}

impl SwitchState {
    /// Whether one more reading can be counted: no counter that it would
    /// advance stands at its limit.
    pub open spec fn can_update(self, pressed: bool) -> bool {
        &&& pressed ==> self.held_counter < u32::MAX
        &&& self.double_threshold.is_some() && self.single_press ==> self.last_press_counter
            < u32::MAX
    }

    /// The switch after the edge flags have taken in a reading.
    pub open spec fn with_edge(self, pressed: bool) -> SwitchState {
        let bits = if is_steady(self.bits, pressed) {
            self.bits
        } else {
            shifted_in(self.bits, pressed)
        };
        match edge_of(self.bits, pressed) {
            Some(Edge::Falling) => SwitchState { bits, falling: true, ..self },
            Some(Edge::Rising) => SwitchState { bits, rising: true, ..self },
            None => SwitchState { bits, falling: false, rising: false, ..self },
        }
    }

    /// The switch after the watch for a double press has taken in the edge
    /// flags. A single press is forgotten once more readings than the
    /// threshold have passed. A falling edge while a single press waits,
    /// with fewer readings passed than the threshold, is a double press; any
    /// other falling edge is a single press anew.
    pub open spec fn with_double_press(self) -> SwitchState {
        match self.double_threshold {
            None => self,
            Some(threshold) => {
                let counter = if self.single_press {
                    (self.last_press_counter + 1) as u32
                } else {
                    self.last_press_counter
                };
                let waiting = self.single_press && counter <= threshold;
                if !self.falling {
                    SwitchState {
                        last_press_counter: counter,
                        single_press: waiting,
                        double_press: false,
                        ..self
                    }
                } else if waiting && counter < threshold {
                    SwitchState {
                        last_press_counter: counter,
                        single_press: false,
                        double_press: true,
                        ..self
                    }
                } else {
                    SwitchState { last_press_counter: 0, single_press: true, ..self }
                }
            },
        }
    }

    /// The switch after the held counter has taken in a reading: a pressed
    /// reading counts, and a rising edge starts the count anew.
    pub open spec fn with_held(self, pressed: bool) -> SwitchState {
        SwitchState {
            held_counter: if self.rising {
                0
            } else if pressed {
                (self.held_counter + 1) as u32
            } else {
                self.held_counter
            },
            ..self
        }
    }

    /// The switch after one more reading.
    pub open spec fn updated(self, pressed: bool) -> SwitchState {
        self.with_edge(pressed).with_double_press().with_held(pressed)
    }

    /// Whether the press that has just ended was held long enough.
    pub open spec fn is_held(self) -> bool {
        match self.held_threshold {
            Some(threshold) => self.falling && self.held_counter >= threshold,
            None => false,
        }
    }
}

/// A two-state switch: its readings are debounced over four samples, and
/// edges, double presses and held presses are told from them.
pub struct Switch {
    state: debouncr::Debouncer<u8, debouncr::Repeat4>,
    falling: bool,
    rising: bool,
    switch_type: SwitchType,
    double_threshold: Option<u32>,
    held_threshold: Option<u32>,
    held_counter: u32,
    last_press_counter: u32,
    single_press: bool,
    double_press: bool,
}

impl View for Switch {
    type V = SwitchState;

    closed spec fn view(&self) -> SwitchState {
        SwitchState {
            bits: debouncer_bits(self.state),
            falling: self.falling,
            rising: self.rising,
            switch_type: self.switch_type,
            double_threshold: self.double_threshold,
            held_threshold: self.held_threshold,
            held_counter: self.held_counter,
            last_press_counter: self.last_press_counter,
            single_press: self.single_press,
            double_press: self.double_press,
        }
    }
}

impl Switch {
    /// A switch wired as `switch_type`, not pressed, with no thresholds.
    pub fn new(switch_type: SwitchType) -> (switch: Self)
        ensures
            switch@ == (SwitchState {
                bits: 0,
                falling: false,
                rising: false,
                switch_type,
                double_threshold: None,
                held_threshold: None,
                held_counter: 0,
                last_press_counter: 0,
                single_press: false,
                double_press: false,
            }),
    {
        Self {
            state: debounce_4(false),
            falling: false,
            rising: false,
            switch_type,
            double_threshold: None,
            held_threshold: None,
            held_counter: 0,
            last_press_counter: 0,
            single_press: false,
            double_press: false,
        }
    }

    /// Sets the threshold for a held press, in readings.
    pub fn set_held_thresh(&mut self, held_threshold: Option<u32>)
        ensures
            final(self)@ == (SwitchState { held_threshold, ..old(self)@ }),
    {
        self.held_threshold = held_threshold;
    }

    /// Sets the threshold for a double press, in readings.
    pub fn set_double_thresh(&mut self, double_threshold: Option<u32>)
        ensures
            final(self)@ == (SwitchState { double_threshold, ..old(self)@ }),
    {
        self.double_threshold = double_threshold;
    }

    /// Whether the switch is pressed when its pin reads high or low.
    pub fn is_pressed(&self, pin_is_high: bool) -> (pressed: bool)
        ensures
            pressed == match self@.switch_type {
                SwitchType::PullUp => !pin_is_high,
                SwitchType::PullDown => pin_is_high,
            },
    {
        self.switch_type.is_pressed(pin_is_high)
    }

    /// Whether [`Switch::update`] can take a reading of the pin: no counter
    /// that the reading would advance stands at its limit.
    pub fn can_update(&self, pin_is_high: bool) -> (ok: bool)
        ensures
            ok == self@.can_update(
                match self@.switch_type {
                    SwitchType::PullUp => !pin_is_high,
                    SwitchType::PullDown => pin_is_high,
                },
            ),
    {
        let pressed = self.switch_type.is_pressed(pin_is_high);
        (!pressed || self.held_counter < u32::MAX) && (self.double_threshold.is_none()
            || !self.single_press || self.last_press_counter < u32::MAX)
    }

    /// Takes a reading of the pin. To be called on a timer.
    pub fn update(&mut self, pin_is_high: bool)
        requires
            old(self)@.can_update(
                match old(self)@.switch_type {
                    SwitchType::PullUp => !pin_is_high,
                    SwitchType::PullDown => pin_is_high,
                },
            ),
        ensures
            final(self)@ == old(self)@.updated(
                match old(self)@.switch_type {
                    SwitchType::PullUp => !pin_is_high,
                    SwitchType::PullDown => pin_is_high,
                },
            ),
    {
        let is_pressed = self.switch_type.is_pressed(pin_is_high);

        match debouncer_update(&mut self.state, is_pressed) {
            Some(Edge::Falling) => {
                self.falling = true;
            },
            Some(Edge::Rising) => {
                self.rising = true;
            },
            None => {
                self.falling = false;
                self.rising = false;
            },
        }

        if let Some(double_threshold) = self.double_threshold {
            if self.single_press {
                self.last_press_counter += 1;
                if self.last_press_counter > double_threshold {
                    self.single_press = false;
                }
            }
            if self.falling {
                if self.single_press && self.last_press_counter < double_threshold {
                    self.double_press = true;
                    self.single_press = false;
                } else {
                    self.single_press = true;
                    self.last_press_counter = 0;
                }
            } else {
                self.double_press = false;
            }
        }

        if is_pressed {
            self.held_counter += 1;
        }
        if self.rising {
            self.held_counter = 0;
        }
    }

    /// Whether the debounced state is high: the last four readings were all
    /// pressed.
    pub fn is_high(&self) -> (high: bool)
        ensures
            high == (self@.bits == 0x0F),
    {
        debouncer_is_high(&self.state)
    }

    /// Whether the debounced state is low: none of the last four readings
    /// was pressed.
    pub fn is_low(&self) -> (low: bool)
        ensures
            low == (self@.bits == 0),
    {
        debouncer_is_low(&self.state)
    }

    /// Whether the last reading brought a rising edge.
    pub fn is_rising(&self) -> (rising: bool)
        ensures
            rising == self@.rising,
    {
        self.rising
    }

    /// Whether the last reading brought a falling edge.
    pub fn is_falling(&self) -> (falling: bool)
        ensures
            falling == self@.falling,
    {
        self.falling
    }

    /// Whether the press that has just ended was held for at least as many
    /// readings as the threshold asks.
    pub fn is_held(&self) -> (held: bool)
        ensures
            held == self@.is_held(),
    {
        if let Some(held_threshold) = self.held_threshold {
            return self.falling && self.held_counter >= held_threshold;
        }
        false
    }

    /// Whether the last reading completed a double press.
    pub fn is_double(&self) -> (double: bool)
        ensures
            double == self@.double_press,
    {
        self.double_press
    }
}

impl SwitchState {
    /// What holds of a switch after any run of readings: an edge flag is up
    /// only while the debounced state is the one that the edge led to.
    pub open spec fn wf(self) -> bool {
        &&& self.bits <= 0x0F
        &&& self.rising ==> self.bits == 0x0F
        &&& self.falling ==> self.bits == 0
    }
}

/// Readings keep a switch well-formed, and a well-formed switch never shows
/// a rising and a falling edge at once.
pub proof fn lemma_edges_exclude_each_other(s: SwitchState, pressed: bool)
    requires
        s.wf(),
    ensures
        s.updated(pressed).wf(),
        !(s.rising && s.falling),
{
}

/// The readings of a switch after one more.
proof fn lemma_updated_bits(s: SwitchState, pressed: bool)
    requires
        s.bits <= 0x0F,
    ensures
        s.updated(pressed).bits == shifted_in(s.bits, pressed),
        s.updated(pressed).bits <= 0x0F,
{
}

/// Four readings that agree fill the four bits.
proof fn lemma_four_shifts(b0: u8, pressed: bool)
    requires
        b0 <= 0x0F,
    ensures
        shifted_in(shifted_in(shifted_in(shifted_in(b0, pressed), pressed), pressed), pressed)
            == if pressed {
            0x0Fu8
        } else {
            0u8
        },
{
    let p: int = if pressed {
        1
    } else {
        0
    };
    let b1 = shifted_in(b0, pressed);
    assert(b1 % 2 == p);
    let b2 = shifted_in(b1, pressed);
    assert(b2 % 4 == 3 * p);
    let b3 = shifted_in(b2, pressed);
    assert(b3 % 8 == 7 * p);
    let b4 = shifted_in(b3, pressed);
    assert(b4 % 16 == 15 * p);
}

/// Four readings in a row that agree settle the debounced state, whatever
/// came before.
pub proof fn lemma_four_readings_settle(s: SwitchState, pressed: bool)
    requires
        s.bits <= 0x0F,
    ensures
        s.updated(pressed).updated(pressed).updated(pressed).updated(pressed).bits == if pressed {
            0x0Fu8
        } else {
            0u8
        },
{
    let a = s.updated(pressed);
    lemma_updated_bits(s, pressed);
    let b = a.updated(pressed);
    lemma_updated_bits(a, pressed);
    let c = b.updated(pressed);
    lemma_updated_bits(b, pressed);
    lemma_updated_bits(c, pressed);
    lemma_four_shifts(s.bits, pressed);
}

/// A double press is reported on a falling edge only, and only while a
/// single press waits.
pub proof fn lemma_double_press_needs_two(s: SwitchState, pressed: bool)
    requires
        s.can_update(pressed),
        s.updated(pressed).double_press,
        !s.double_press,
    ensures
        s.double_threshold.is_some(),
        s.single_press,
        edge_of(s.bits, pressed) == Some(Edge::Falling) || s.falling,
        s.last_press_counter + 1 < s.double_threshold.unwrap(),
        !s.updated(pressed).single_press,
{
}

} // verus!
