//! Debouncing, as the `debouncr` crate does it: a switch counts as high or
//! low once its last four readings agree.
//!
//! What the crate's debouncer does is taken on trust here, from its source;
//! the rest of the library is proved against it.

use vstd::prelude::*;

verus! {

/// The debouncer of the `debouncr` crate: a shift register of the last
/// readings of a switch.
#[verifier::external_type_specification]
#[verifier::external_body]
#[verifier::reject_recursive_types(S)]
#[verifier::reject_recursive_types(M)]
pub struct ExDebouncer<S, M>(debouncr::Debouncer<S, M>);

/// The marker of the `debouncr` crate for a debouncer of four readings.
#[verifier::external_type_specification]
#[verifier::external_body]
pub struct ExRepeat4(debouncr::Repeat4);

/// The last four readings that a debouncer holds, the latest in bit 0.
pub uninterp spec fn debouncer_bits(d: debouncr::Debouncer<u8, debouncr::Repeat4>) -> u8;

/// A change of the debounced state.
#[derive(Clone, Copy, Debug, PartialEq, Eq, Structural)]
pub enum Edge {
    /// The last four readings have all become high.
    Rising,
    /// The last four readings have all become low.
    Falling,
}

/// The readings after one more: the old ones move up and the new one comes
/// in at bit 0; the fifth drops out.
pub open spec fn shifted_in(bits: u8, pressed: bool) -> u8 {
    ((bits as int * 2 + if pressed {
        1int
    } else {
        0int
    }) % 16) as u8
}

/// Whether a reading changes nothing: the debounced state is high and the
/// reading is high, or both are low.
pub open spec fn is_steady(bits: u8, pressed: bool) -> bool {
    (bits == 0x0F && pressed) || (bits == 0 && !pressed)
}

/// The edge that a reading brings about, if any.
pub open spec fn edge_of(bits: u8, pressed: bool) -> Option<Edge> {
    if is_steady(bits, pressed) {
        None
    } else if shifted_in(bits, pressed) == 0x0F {
        Some(Edge::Rising)
    } else if shifted_in(bits, pressed) == 0 {
        Some(Edge::Falling)
    } else {
        None
    }
}

/// `debouncr::debounce_4`: a debouncer of four readings, all of them as the
/// initial state says.
#[verifier::external_body]
pub(crate) fn debounce_4(initial_state_pressed: bool) -> (d: debouncr::Debouncer<u8, debouncr::Repeat4>)
    ensures
        debouncer_bits(d) == if initial_state_pressed {
            0x0Fu8
        } else {
            0u8
        },
{
    debouncr::debounce_4(initial_state_pressed)
}

/// `debouncr::Debouncer::update`: takes one more reading. A steady reading
/// changes nothing and gives no edge. Any other is shifted in, and gives a
/// rising edge if all four readings are then high, a falling edge if all
/// four are low.
#[verifier::external_body]
pub(crate) fn debouncer_update(
    d: &mut debouncr::Debouncer<u8, debouncr::Repeat4>,
    pressed: bool,
) -> (edge: Option<Edge>)
    ensures
        edge == edge_of(debouncer_bits(*old(d)), pressed),
        debouncer_bits(*final(d)) == if is_steady(debouncer_bits(*old(d)), pressed) {
            debouncer_bits(*old(d))
        } else {
            shifted_in(debouncer_bits(*old(d)), pressed)
        },
{
    match d.update(pressed) {
        Some(debouncr::Edge::Rising) => Some(Edge::Rising),
        Some(debouncr::Edge::Falling) => Some(Edge::Falling),
        None => None,
    }
}

/// `debouncr::Debouncer::is_high`: whether all four readings are high.
#[verifier::external_body]
pub(crate) fn debouncer_is_high(d: &debouncr::Debouncer<u8, debouncr::Repeat4>) -> (high: bool)
    ensures
        high == (debouncer_bits(*d) == 0x0F),
{
    d.is_high()
}

/// `debouncr::Debouncer::is_low`: whether all four readings are low.
#[verifier::external_body]
pub(crate) fn debouncer_is_low(d: &debouncr::Debouncer<u8, debouncr::Repeat4>) -> (low: bool)
    ensures
        low == (debouncer_bits(*d) == 0),
{
    d.is_low()
}

} // verus!
