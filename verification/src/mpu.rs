//! Memory protection unit: the words that configure a region.
//!
//! A region is a power of two of at least 32 bytes, at an address aligned to
//! 32 bytes. The functions here compute what is written to the unit's
//! registers; writing them is left to the caller.

use vstd::prelude::*;
use vstd::arithmetic::power2::pow2;
use vstd::arithmetic::power2::lemma2_to64;
use vstd::arithmetic::power2::lemma_pow2_strictly_increases;
use vstd::bits::lemma_u32_shl_is_mul;

verus! {

/// Bit of the system handler control and state register that enables the
/// memory management fault.
pub const MEMFAULTENA: u32 = 0x1_0000;

/// Access permission field of a region: full access.
pub const REGION_FULL_ACCESS: u32 = 0x03;

/// Bit of the region attribute word that enables the region.
pub const REGION_ENABLE: u32 = 0x01;

/// Type extension field of the region of the DMA buffers: normal memory.
pub const REGION_TEX: u32 = 0b001;

/// Shareable bit of the region of the DMA buffers.
pub const REGION_SHAREABLE: u32 = 0x01;

/// Cacheable and bufferable bits of the region of the DMA buffers: neither.
pub const REGION_CB: u32 = 0b00;

/// Bit of the control register that enables the unit.
pub const MPU_ENABLE: u32 = 0x01;

/// Bit of the control register that keeps the default memory map for
/// privileged code.
pub const MPU_DEFAULT_MMAP_FOR_PRIVILEGED: u32 = 0x04;

/// Whether `sz` bytes can be the size of a region: a power of two from `2^5`
/// to `2^31`.
pub open spec fn is_region_size(sz: u32) -> bool {
    exists|x: nat| 5 <= x <= 31 && sz == #[trigger] pow2(x)
}

/// The size field of a region of `sz` bytes: the binary logarithm of the
/// size, less one.
pub open spec fn size_field(sz: u32) -> nat {
    choose|field: nat| 4 <= field <= 30 && sz == #[trigger] pow2(field + 1)
}

/// Tells whether `sz` bytes can be the size of a region.
pub fn region_size_valid(sz: u32) -> (valid: bool)
    ensures
        valid == is_region_size(sz),
{
    let mut x: u32 = 5;
    while x <= 31
        invariant
            5 <= x <= 32,
            forall|y: nat| 5 <= y < x ==> sz != #[trigger] pow2(y),
        decreases 32 - x,
    {
        proof {
            lemma_shift_is_pow2(x);
        }
        if sz == (1u32 << x) {
            return true;
        }
        x += 1;
    }
    false
}

/// The size field of a region of `sz` bytes: the binary logarithm of the
/// size, less one.
pub fn log2minus1(sz: u32) -> (field: u32)
    requires
        is_region_size(sz),
    ensures
        field == size_field(sz),
        4 <= field <= 30,
        sz == pow2((field + 1) as nat),
{
    let mut x: u32 = 5;
    proof {
        lemma_shift_is_pow2(x);
    }
    while sz != (1u32 << x)
        invariant
            5 <= x <= 31,
            (1u32 << x) == pow2(x as nat),
            exists|y: nat| x <= y <= 31 && sz == #[trigger] pow2(y),
        decreases 31 - x,
    {
        let ghost y: nat = choose|y: nat| x <= y <= 31 && sz == #[trigger] pow2(y);
        x += 1;
        proof {
            assert(x <= y);
            lemma_shift_is_pow2(x);
        }
    }
    proof {
        let field = (x - 1) as nat;
        assert(sz == pow2(field + 1));
        lemma_size_field_unique(field + 1, size_field(sz) + 1);
    }
    x - 1
}

/// One shifted left is a power of two.
proof fn lemma_shift_is_pow2(x: u32)
    requires
        x <= 31,
    ensures
        (1u32 << x) == pow2(x as nat),
{
    lemma2_to64();
    if x < 31 {
        lemma_pow2_strictly_increases(x as nat, 31);
    }
    lemma_u32_shl_is_mul(1, x);
}

/// The size field of a region of `2^(field + 1)` bytes is `field`.
pub proof fn lemma_size_field(sz: u32, field: nat)
    requires
        4 <= field <= 30,
        sz == pow2(field + 1),
    ensures
        is_region_size(sz),
        size_field(sz) == field,
{
    lemma_size_field_unique(field + 1, size_field(sz) + 1);
}

/// A region size has one size field only.
pub proof fn lemma_size_field_unique(a: nat, b: nat)
    requires
        pow2(a) == pow2(b),
    ensures
        a == b,
{
    if a < b {
        lemma_pow2_strictly_increases(a, b);
    } else if b < a {
        lemma_pow2_strictly_increases(b, a);
    }
}

/// Attribute bits of the region that holds the DMA buffers: full access,
/// normal memory that is not cached, shareable, enabled.
pub const DMA_REGION_ATTRIBUTES: u32 = 0x030C_0001;

/// Attribute bits of the region that holds the external memory: full
/// access, strongly ordered, enabled.
pub const SDRAM_REGION_ATTRIBUTES: u32 = 0x0300_0001;

/// The number of the region that holds the DMA buffers.
pub const DMA_REGION_NUMBER: u32 = 0x00;

/// The number of the region that holds the external memory.
pub const SDRAM_REGION_NUMBER: u32 = 0x01;

/// The words that set up one region.
#[derive(Clone, Copy, Debug, PartialEq, Eq, Structural)]
pub struct Region {
    /// For the region number register.
    pub number: u32,
    /// For the region base address register.
    pub base: u32,
    /// For the region attribute and size register.
    pub attributes: u32,
}

/// The words that switch the unit off or on.
#[derive(Clone, Copy, Debug, PartialEq, Eq, Structural)]
pub struct Control {
    /// For the system handler control and state register.
    pub shcsr: u32,
    /// For the control register of the unit.
    pub ctrl: u32,
}

/// The address of the region that holds `location`: the address aligned
/// down to 32 bytes.
pub open spec fn region_base(location: u32) -> u32 {
    (location - location % 32) as u32
}

/// The words of region `number` with the given attribute bits, at
/// `location` and of `size` bytes: the size field goes to bits 1 to 5 of the
/// attribute word.
pub open spec fn region_of(number: u32, attributes: u32, location: u32, size: u32) -> Region {
    Region {
        number,
        base: region_base(location),
        attributes: (attributes + 2 * size_field(size)) as u32,
    }
}

/// The words that switch the unit off: the memory management fault is
/// disabled and the control register cleared. To be written after a data
/// memory barrier, before the regions are set up.
pub fn disable(shcsr: u32) -> (words: Control)
    ensures
        words == (Control { shcsr: shcsr & !MEMFAULTENA, ctrl: 0 }),
{
    Control { shcsr: shcsr & !MEMFAULTENA, ctrl: 0 }
}

/// The words that switch the unit on: the unit is enabled with the default
/// memory map kept for privileged code, and the memory management fault is
/// enabled. To be followed by a data and an instruction barrier.
pub fn enable(ctrl: u32, shcsr: u32) -> (words: Control)
    ensures
        words == (Control {
            shcsr: shcsr | MEMFAULTENA,
            ctrl: ctrl | MPU_DEFAULT_MMAP_FOR_PRIVILEGED | MPU_ENABLE,
        }),
{
    Control { shcsr: shcsr | MEMFAULTENA, ctrl: ctrl | MPU_DEFAULT_MMAP_FOR_PRIVILEGED | MPU_ENABLE }
}

/// The words of a region with the given number and attribute bits.
fn region(number: u32, attributes: u32, location: u32, size: u32) -> (words: Region)
    requires
        is_region_size(size),
        attributes == DMA_REGION_ATTRIBUTES || attributes == SDRAM_REGION_ATTRIBUTES,
    ensures
        words == region_of(number, attributes, location, size),
{
    let field = log2minus1(size);
    let base = location & !0x1Fu32;
    let word = attributes | (field << 1);
    proof {
        assert(base == (location - location % 32) as u32) by (bit_vector)
            requires
                base == location & !0x1Fu32,
        ;
        assert(word == attributes + 2 * field) by (bit_vector)
            requires
                word == attributes | (field << 1),
                attributes == 0x030C_0001u32 || attributes == 0x0300_0001u32,
                field <= 30,
        ;
    }
    Region { number, base, attributes: word }
}

/// The words that set up the region of the DMA buffers, `size` bytes at
/// `location`.
pub fn dma_init(location: u32, size: u32) -> (words: Region)
    requires
        is_region_size(size),
    ensures
        words == region_of(DMA_REGION_NUMBER, DMA_REGION_ATTRIBUTES, location, size),
{
    proof {
        lemma_attribute_bits();
    }
    let access = REGION_FULL_ACCESS << 24;
    let memory = (REGION_TEX << 19) | (REGION_SHAREABLE << 18) | (REGION_CB << 16);
    region(DMA_REGION_NUMBER, access | memory | REGION_ENABLE, location, size)
}

/// The words that set up the region of the external memory, `size` bytes at
/// `location`.
pub fn sdram_init(location: u32, size: u32) -> (words: Region)
    requires
        is_region_size(size),
    ensures
        words == region_of(SDRAM_REGION_NUMBER, SDRAM_REGION_ATTRIBUTES, location, size),
{
    proof {
        lemma_attribute_bits();
    }
    let access = REGION_FULL_ACCESS << 24;
    region(SDRAM_REGION_NUMBER, access | REGION_ENABLE, location, size)
}

/// The attribute bits of the two regions, field by field.
proof fn lemma_attribute_bits()
    ensures
        (REGION_FULL_ACCESS << 24) | ((REGION_TEX << 19) | (REGION_SHAREABLE << 18) | (REGION_CB
            << 16)) | REGION_ENABLE == DMA_REGION_ATTRIBUTES,
        (REGION_FULL_ACCESS << 24) | REGION_ENABLE == SDRAM_REGION_ATTRIBUTES,
{
    assert((0x03u32 << 24) | ((0b001u32 << 19) | (0x01u32 << 18) | (0b00u32 << 16)) | 0x01u32
        == 0x030C_0001u32) by (bit_vector);
    assert((0x03u32 << 24) | 0x01u32 == 0x0300_0001u32) by (bit_vector);
}

/// A region starts at a multiple of 32 bytes, at or below the address it
/// was asked for and less than 32 bytes away from it.
pub proof fn lemma_region_base(location: u32)
    ensures
        region_base(location) % 32 == 0,
        region_base(location) <= location < region_base(location) + 32,
{
}

/// Switching the unit off and on changes the bits it is meant to change and
/// no others: off clears the fault enable, on sets it again together with
/// the two bits of the control register.
pub proof fn lemma_control_bits(ctrl: u32, shcsr: u32)
    ensures
        (shcsr & !MEMFAULTENA) & MEMFAULTENA == 0,
        (shcsr & !MEMFAULTENA) | MEMFAULTENA == shcsr | MEMFAULTENA,
        (shcsr | MEMFAULTENA) & MEMFAULTENA == MEMFAULTENA,
        (shcsr | MEMFAULTENA) & !MEMFAULTENA == shcsr & !MEMFAULTENA,
        (ctrl | MPU_DEFAULT_MMAP_FOR_PRIVILEGED | MPU_ENABLE) & 0x05 == 0x05,
        (ctrl | MPU_DEFAULT_MMAP_FOR_PRIVILEGED | MPU_ENABLE) & !0x05u32 == ctrl & !0x05u32,
{
    assert((shcsr & !0x1_0000u32) & 0x1_0000u32 == 0) by (bit_vector);
    assert((shcsr & !0x1_0000u32) | 0x1_0000u32 == shcsr | 0x1_0000u32) by (bit_vector);
    assert((shcsr | 0x1_0000u32) & 0x1_0000u32 == 0x1_0000u32) by (bit_vector);
    assert((shcsr | 0x1_0000u32) & !0x1_0000u32 == shcsr & !0x1_0000u32) by (bit_vector);
    assert((ctrl | 0x04u32 | 0x01u32) & 0x05u32 == 0x05u32) by (bit_vector);
    assert((ctrl | 0x04u32 | 0x01u32) & !0x05u32 == ctrl & !0x05u32) by (bit_vector);
}

} // verus!
