//! Telling the revisions of the board apart.

use vstd::prelude::*;

verus! {

/// A revision of the board.
#[allow(non_camel_case_types)]
#[derive(Clone, Copy, Debug, PartialEq, Eq, Structural)]
pub enum BoardVersion {
    /// Daisy Seed Rev4, the first Daisy Seed.
    DaisySeed,
    /// Daisy Seed 1.1, also known as Daisy Seed Rev5: pin-compatible, with
    /// the WM8731 codec in place of the AK4430.
    DaisySeed1_1,
}

/// The revision of the board, from the level of pin PD3 read with its
/// pull-up on: tied to ground on Daisy Seed 1.1, open on the first revision.
pub fn check_board_version(pd3_is_low: bool) -> (version: BoardVersion)
    ensures
        pd3_is_low ==> version == BoardVersion::DaisySeed1_1,
        !pd3_is_low ==> version == BoardVersion::DaisySeed,
{
    if pd3_is_low {
        BoardVersion::DaisySeed1_1
    } else {
        BoardVersion::DaisySeed
    }
}

} // verus!
