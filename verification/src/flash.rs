//! Decisions of the driver of the IS25LP064A flash memory (64 Mbit).
//!
//! Erasing and programming take the chip a while. The driver does not wait:
//! a call starts the work or looks whether it is done, and is repeated until
//! it is. What is decided here is which command goes to the chip next and
//! what the driver remembers; the caller moves the bytes.

use vstd::prelude::*;

verus! {

/// Command: set the write-enable latch. Comes before every erase or program.
pub const CMD_WRITE_ENABLE: u8 = 0x06;

/// Command: read the status register.
pub const CMD_READ_STATUS: u8 = 0x05;

/// Command: write the status register.
pub const CMD_WRITE_STATUS: u8 = 0x01;

/// Command: read the identification of the chip.
pub const CMD_READ_ID: u8 = 0x9F;

/// Command: enter quad mode.
pub const CMD_ENTER_QUAD: u8 = 0x35;

/// Command: set the read parameters.
pub const CMD_SET_READ_PARAMETERS: u8 = 0xC0;

/// Command: program up to one page.
pub const CMD_PAGE_PROGRAM: u8 = 0x02;

/// Command: read in quad mode.
pub const CMD_FAST_READ_QUAD: u8 = 0xEB;

/// Command: erase the whole chip.
pub const CMD_ERASE_CHIP: u8 = 0x60;

/// Command: erase a sector of 4 Kbyte.
pub const CMD_ERASE_SECTOR_4K: u8 = 0xD7;

/// Command: erase a block of 32 Kbyte.
pub const CMD_ERASE_BLOCK_32K: u8 = 0x52;

/// Command: erase a block of 64 Kbyte.
pub const CMD_ERASE_BLOCK_64K: u8 = 0xD8;

/// Bit of the status register that is set while a write is in progress.
pub const STATUS_WRITE_IN_PROGRESS: u8 = 0x01;

/// Value of the status register that enables quad mode and nothing else.
pub const STATUS_QUAD_ENABLE: u8 = 0b0000_0010;

/// Read parameters: no wrap, default strength, default burst, eight dummy
/// cycles.
pub const READ_PARAMETERS: u8 = 0b1111_1000;

/// Dummy cycles of a read in quad mode.
pub const READ_DUMMY_CYCLES: u8 = 8;

/// The bytes that one transfer moves.
pub const CHUNK_SIZE: usize = 32;

/// The bytes of the chip.
pub const FLASH_SIZE: usize = 0x80_0000;

/// What [`CMD_READ_ID`] reads from this chip.
pub const FLASH_ID: [u8; 3] = [157, 96, 23];

/// What to erase.
#[derive(Clone, Copy, Debug, PartialEq, Eq, Structural)]
pub enum FlashErase {
    /// The whole chip.
    Chip,
    /// The sector of 4 Kbyte at the address.
    Sector4K(u32),
    /// The block of 32 Kbyte at the address.
    Block32K(u32),
    /// The block of 64 Kbyte at the address.
    Block64K(u32),
}

/// What the driver is doing.
#[derive(Clone, Copy, Debug, PartialEq, Eq, Structural)]
pub enum FlashState {
    /// Nothing.
    Idle,
    /// Programming: chunk number `chunk` of the data for `address` has gone
    /// to the chip.
    Programming { address: u32, chunk: u32 },
    /// Erasing.
    Erasing(FlashErase),
}

/// A command for the chip, with the address that follows it, if any.
#[derive(Clone, Copy, Debug, PartialEq, Eq, Structural)]
pub struct FlashCommand {
    /// The instruction byte.
    pub opcode: u8,
    /// The three address bytes.
    pub address: Option<u32>,
}

/// What a call of erase has to do.
#[derive(Clone, Copy, Debug, PartialEq, Eq, Structural)]
pub enum EraseDecision {
    /// Set the write-enable latch and send the command; if the chip takes
    /// it, remember the erasure. The caller has to come again.
    Start(FlashCommand),
    /// Nothing: the chip is still erasing. The caller has to come again.
    Busy,
    /// Nothing: the erasure is done.
    Done,
}

/// What a call of program has to do.
#[derive(Clone, Copy, Debug, PartialEq, Eq, Structural)]
pub enum ProgramDecision {
    /// Set the write-enable latch and send the bytes from `start` up to
    /// `end` of the data to `address`; if the chip takes them, remember the
    /// chunk. The caller has to come again.
    Send { chunk: u32, address: u32, start: usize, end: usize },
    /// Nothing: the chip is still writing. The caller has to come again.
    Busy,
    /// Nothing: all of the data has been programmed.
    Done,
}

/// What a call of read has to do next.
#[derive(Clone, Copy, Debug, PartialEq, Eq, Structural)]
pub enum ReadDecision {
    /// Read the bytes from `start` up to `end` of the data from `address`.
    Transfer { address: u32, start: usize, end: usize },
    /// Nothing: all of the data has been read.
    Done,
}

/// Whether the status register says that the last write is done.
pub open spec fn status_is_complete(status: u8) -> bool {
    status % 2 == 0
}

/// The command that erases `op`.
pub open spec fn erase_command_of(op: FlashErase) -> FlashCommand {
    match op {
        FlashErase::Chip => FlashCommand { opcode: CMD_ERASE_CHIP, address: None },
        FlashErase::Sector4K(a) => FlashCommand { opcode: CMD_ERASE_SECTOR_4K, address: Some(a) },
        FlashErase::Block32K(a) => FlashCommand { opcode: CMD_ERASE_BLOCK_32K, address: Some(a) },
        FlashErase::Block64K(a) => FlashCommand { opcode: CMD_ERASE_BLOCK_64K, address: Some(a) },
    }
}

/// The number of chunks in `len` bytes: the last one may be short.
pub open spec fn chunk_count_of(len: nat) -> nat {
    (len + CHUNK_SIZE - 1) as nat / (CHUNK_SIZE as nat)
}

/// The first byte of chunk `k`.
pub open spec fn chunk_start(k: nat) -> nat {
    k * CHUNK_SIZE as nat
}

/// The byte after the last of chunk `k` of `len` bytes.
pub open spec fn chunk_end(len: nat, k: nat) -> nat {
    if (k + 1) * CHUNK_SIZE <= len {
        (k + 1) * CHUNK_SIZE as nat
    } else {
        len
    }
}

/// What a call of erase for `op` has to do in state `state`, the status
/// register having been read if the driver is not idle.
pub open spec fn erase_decision_of(state: FlashState, op: FlashErase, status: u8) -> EraseDecision {
    match state {
        FlashState::Idle => EraseDecision::Start(erase_command_of(op)),
        _ => if status_is_complete(status) {
            EraseDecision::Done
        } else {
            EraseDecision::Busy
        },
    }
}

/// What a call of program for `len` bytes at `address` has to do in state
/// `state`, the status register having been read if the driver is not idle.
pub open spec fn program_decision_of(
    state: FlashState,
    address: u32,
    len: nat,
    status: u8,
) -> ProgramDecision {
    let next: nat = match state {
        FlashState::Programming { address: _, chunk } => (chunk + 1) as nat,
        _ => 0,
    };
    if state != FlashState::Idle && !status_is_complete(status) {
        ProgramDecision::Busy
    } else if next < chunk_count_of(len) {
        ProgramDecision::Send {
            chunk: next as u32,
            address: (address + chunk_start(next)) as u32,
            start: chunk_start(next) as usize,
            end: chunk_end(len, next) as usize,
        }
    } else {
        ProgramDecision::Done
    }
}

/// What a call of read for `len` bytes at `address` has to do once `chunk`
/// chunks have been read.
pub open spec fn read_decision_of(address: u32, len: nat, chunk: nat) -> ReadDecision {
    if chunk < chunk_count_of(len) {
        ReadDecision::Transfer {
            address: (address + chunk_start(chunk)) as u32,
            start: chunk_start(chunk) as usize,
            end: chunk_end(len, chunk) as usize,
        }
    } else {
        ReadDecision::Done
    }
}

/// Tells whether the status register says that the last write is done.
pub fn write_complete(status: u8) -> (complete: bool)
    ensures
        complete == status_is_complete(status),
{
    assert(status & 0x01u8 == status % 2) by (bit_vector);
    status & STATUS_WRITE_IN_PROGRESS == 0
}

/// Tells whether `info` is the identification of this chip.
pub fn is_expected_id(info: &[u8; 3]) -> (expected: bool)
    ensures
        expected == (info@ == FLASH_ID@),
{
    let expected = info[0] == FLASH_ID[0] && info[1] == FLASH_ID[1] && info[2] == FLASH_ID[2];
    proof {
        if expected {
            assert(info@ =~= FLASH_ID@);
        }
    }
    expected
}

/// The command that erases `op`.
pub fn erase_command(op: FlashErase) -> (command: FlashCommand)
    ensures
        command == erase_command_of(op),
{
    match op {
        FlashErase::Chip => FlashCommand { opcode: CMD_ERASE_CHIP, address: None },
        FlashErase::Sector4K(a) => FlashCommand { opcode: CMD_ERASE_SECTOR_4K, address: Some(a) },
        FlashErase::Block32K(a) => FlashCommand { opcode: CMD_ERASE_BLOCK_32K, address: Some(a) },
        FlashErase::Block64K(a) => FlashCommand { opcode: CMD_ERASE_BLOCK_64K, address: Some(a) },
    }
}

/// The number of chunks in `len` bytes.
pub fn chunk_count(len: usize) -> (count: usize)
    ensures
        count == chunk_count_of(len as nat),
{
    if len % CHUNK_SIZE == 0 {
        len / CHUNK_SIZE
    } else {
        len / CHUNK_SIZE + 1
    }
}

/// The bytes of chunk `k` of `len` bytes: from the first of the pair up to
/// the second.
pub fn chunk_range(len: usize, k: usize) -> (range: (usize, usize))
    requires
        k < chunk_count_of(len as nat),
    ensures
        range.0 == chunk_start(k as nat),
        range.1 == chunk_end(len as nat, k as nat),
        range.0 < range.1 <= len,
        range.1 - range.0 <= CHUNK_SIZE,
{
    let start = k * CHUNK_SIZE;
    let end = if len - start >= CHUNK_SIZE {
        start + CHUNK_SIZE
    } else {
        len
    };
    (start, end)
}

/// Whether `len` bytes at `address` can be read: all of them lie in the
/// chip, short of its last byte.
pub open spec fn is_readable(address: u32, len: nat) -> bool {
    address + len < FLASH_SIZE
}

/// Tells whether `len` bytes at `address` can be read.
fn read_allowed(address: u32, len: usize) -> (allowed: bool)
    ensures
        allowed == is_readable(address, len as nat),
{
    len < FLASH_SIZE && (address as usize) < FLASH_SIZE - len
}

/// The address in the chip of chunk `k` of the data for `address`.
pub fn chunk_address(address: u32, k: usize) -> (at: u32)
    requires
        address + chunk_start(k as nat) <= u32::MAX,
    ensures
        at == address + chunk_start(k as nat),
{
    address + (k * CHUNK_SIZE) as u32
}

/// What the driver remembers between calls.
pub struct Flash {
    state: FlashState,
}

impl View for Flash {
    type V = FlashState;

    closed spec fn view(&self) -> FlashState {
        self.state
    }
}

impl Flash {
    /// A driver that is doing nothing.
    pub fn new() -> (flash: Self)
        ensures
            flash@ == FlashState::Idle,
    {
        Flash { state: FlashState::Idle }
    }

    /// Forgets what the driver was doing. For those who know what the chip
    /// is doing.
    pub fn reset(&mut self)
        ensures
            final(self)@ == FlashState::Idle,
    {
        self.state = FlashState::Idle;
    }

    /// What the driver is doing.
    pub fn state(&self) -> (state: FlashState)
        ensures
            state == self@,
    {
        self.state
    }

    /// Whether the driver is doing nothing, so that data can be read.
    pub fn is_idle(&self) -> (idle: bool)
        ensures
            idle == (self@ == FlashState::Idle),
    {
        self.state == FlashState::Idle
    }

    /// Whether a call of erase for `op` fits what the driver is doing: it is
    /// idle, or erasing just that.
    pub fn can_erase(&self, op: FlashErase) -> (fits: bool)
        ensures
            fits == (self@ == FlashState::Idle || self@ == FlashState::Erasing(op)),
    {
        match self.state {
            FlashState::Idle => true,
            FlashState::Erasing(e) => e == op,
            FlashState::Programming { address: _, chunk: _ } => false,
        }
    }

    /// Whether a call of program for `len` bytes at `address` fits what the
    /// driver is doing: it is idle, or programming at just that address, and
    /// the chunk that comes next has an address.
    pub fn can_program(&self, address: u32, len: usize) -> (fits: bool)
        ensures
            fits == ((self@ == FlashState::Idle || (self@ matches FlashState::Programming {
                address: a,
                chunk: _,
            } && a == address)) && address + len <= u32::MAX + 1),
    {
        let known = match self.state {
            FlashState::Idle => true,
            FlashState::Programming { address: a, chunk: _ } => a == address,
            FlashState::Erasing(_) => false,
        };
        known && len as u64 <= 0x1_0000_0000u64 - address as u64
    }

    /// Whether a call of read for `len` bytes at `address` fits what the
    /// driver is doing and what the chip holds: the driver is idle, and the
    /// bytes lie in the chip.
    pub fn can_read(&self, address: u32, len: usize) -> (fits: bool)
        ensures
            fits == (self@ == FlashState::Idle && is_readable(address, len as nat)),
    {
        self.is_idle() && read_allowed(address, len)
    }

    /// What a call of read for `len` bytes at `address` has to do once
    /// `chunk` chunks have been read: the caller starts with none and comes
    /// again after each transfer.
    pub fn read(&self, address: u32, len: usize, chunk: usize) -> (decision: ReadDecision)
        requires
            self@ == FlashState::Idle,
            is_readable(address, len as nat),
        ensures
            decision == read_decision_of(address, len as nat, chunk as nat),
    {
        if chunk < chunk_count(len) {
            let range = chunk_range(len, chunk);
            ReadDecision::Transfer {
                address: chunk_address(address, chunk),
                start: range.0,
                end: range.1,
            }
        } else {
            ReadDecision::Done
        }
    }

    /// What a call of erase for `op` has to do. `status` is the status
    /// register, read just before; it counts only while the driver is not
    /// idle.
    pub fn erase(&self, op: FlashErase, status: u8) -> (decision: EraseDecision)
        requires
            self@ == FlashState::Idle || self@ == FlashState::Erasing(op),
        ensures
            decision == erase_decision_of(self@, op, status),
    {
        match self.state {
            FlashState::Idle => EraseDecision::Start(erase_command(op)),
            _ => {
                if write_complete(status) {
                    EraseDecision::Done
                } else {
                    EraseDecision::Busy
                }
            },
        }
    }

    /// What a call of program for `len` bytes at `address` has to do.
    /// `status` is the status register, read just before; it counts only
    /// while the driver is not idle.
    pub fn program(
        &self,
        address: u32,
        len: usize,
        status: u8,
    ) -> (decision: ProgramDecision)
        requires
            self@ == FlashState::Idle || (self@ matches FlashState::Programming {
                address: a,
                chunk: _,
            } && a == address),
            address + len <= u32::MAX + 1,
        ensures
            decision == program_decision_of(self@, address, len as nat, status),
    {
        let next: u64 = match self.state {
            FlashState::Programming { address: _, chunk } => chunk as u64 + 1,
            _ => 0,
        };
        if !self.is_idle() && !write_complete(status) {
            ProgramDecision::Busy
        } else if next < chunk_count(len) as u64 {
            let k = next as usize;
            let range = chunk_range(len, k);
            ProgramDecision::Send {
                chunk: next as u32,
                address: chunk_address(address, k),
                start: range.0,
                end: range.1,
            }
        } else {
            ProgramDecision::Done
        }
    }

    /// Remembers that the chip has taken the command to erase `op`.
    pub fn erase_started(&mut self, op: FlashErase)
        ensures
            final(self)@ == FlashState::Erasing(op),
    {
        self.state = FlashState::Erasing(op);
    }

    /// Remembers that the chip has taken chunk `chunk` of the data for
    /// `address`.
    pub fn chunk_sent(&mut self, address: u32, chunk: u32)
        ensures
            final(self)@ == (FlashState::Programming { address, chunk }),
    {
        self.state = FlashState::Programming { address, chunk };
    }

    /// Remembers that the chip is done.
    pub fn finished(&mut self)
        ensures
            final(self)@ == FlashState::Idle,
    {
        self.state = FlashState::Idle;
    }
}

/// The chunks of some data lie end to end and cover it: each is part of the
/// data, none is empty, none is longer than a transfer moves, and each
/// starts where the one before ended.
pub proof fn lemma_chunks_cover(len: nat, k: nat)
    requires
        k < chunk_count_of(len),
    ensures
        chunk_start(0) == 0,
        chunk_start(k) < chunk_end(len, k) <= len,
        chunk_end(len, k) - chunk_start(k) <= CHUNK_SIZE,
        k + 1 < chunk_count_of(len) ==> chunk_end(len, k) == chunk_start(k + 1),
        k + 1 == chunk_count_of(len) ==> chunk_end(len, k) == len,
{
}

} // verus!
