use libdaisy::board::{check_board_version, BoardVersion};
use libdaisy::mpu::{
    disable, dma_init, enable, log2minus1, region_size_valid, sdram_init, Control, Region,
    MEMFAULTENA,
};
use libdaisy::{
    ms_to_cycles, AUDIO_BLOCK_SIZE, AUDIO_FRAME_RATE_HZ, AUDIO_SAMPLE_RATE, CLOCK_RATE_HZ,
    MAX_DELAY_MS, MILICYCLES, MILLI,
};

#[test]
fn board_version_follows_the_pin() {
    assert_eq!(check_board_version(true), BoardVersion::DaisySeed1_1);
    assert_eq!(check_board_version(false), BoardVersion::DaisySeed);
}

#[test]
fn log2minus1_of_every_region_size() {
    for x in 5u32..=31 {
        assert!(region_size_valid(1 << x));
        assert_eq!(log2minus1(1 << x), x - 1);
    }
    assert_eq!(log2minus1(32 * 1024), 14);
    assert_eq!(log2minus1(64 * 1024 * 1024), 25);
}

#[test]
fn region_size_must_be_a_power_of_two_of_32_or_more() {
    for sz in [0u32, 1, 2, 4, 8, 16, 31, 33, 48, 96, 1000, 0xFFFF_FFFF, 0x8000_0001, 0xC000_0000] {
        assert!(!region_size_valid(sz), "{}", sz);
    }
}

#[test]
fn region_words_hold_number_base_attributes_and_size() {
    assert_eq!(
        dma_init(0x3000_0000, 32 * 1024),
        Region {
            number: 0,
            base: 0x3000_0000,
            attributes: (0x03 << 24) | (0b001 << 19) | (0x01 << 18) | (14 << 1) | 0x01,
        }
    );
    assert_eq!(
        sdram_init(0xC000_0000, 64 * 1024 * 1024),
        Region {
            number: 1,
            base: 0xC000_0000,
            attributes: (0x03 << 24) | (25 << 1) | 0x01,
        }
    );
    assert_eq!(dma_init(0, 32).attributes, 0x030C_0009);
    assert_eq!(sdram_init(0, 0x8000_0000).attributes, 0x0300_003D);
}

#[test]
fn region_base_is_aligned_down() {
    assert_eq!(dma_init(0x3000_0000, 32).base, 0x3000_0000);
    assert_eq!(dma_init(0x3000_001F, 32).base, 0x3000_0000);
    assert_eq!(dma_init(0x3000_0020, 32).base, 0x3000_0020);
    assert_eq!(sdram_init(0xFFFF_FFFF, 32).base, 0xFFFF_FFE0);
    assert_eq!(sdram_init(0, 32).base, 0);
}

#[test]
fn control_words_change_their_bits_only() {
    assert_eq!(disable(0xFFFF_FFFF), Control { shcsr: !MEMFAULTENA, ctrl: 0 });
    assert_eq!(disable(0x0000_0005), Control { shcsr: 0x0000_0005, ctrl: 0 });
    assert_eq!(enable(0, 0), Control { shcsr: MEMFAULTENA, ctrl: 0x05 });
    assert_eq!(enable(0x02, 0x0007_0000), Control { shcsr: 0x0007_0000, ctrl: 0x07 });
}

#[test]
fn clock_constants_agree() {
    assert_eq!(MILLI, 1_000);
    assert_eq!(AUDIO_FRAME_RATE_HZ, 1_000);
    assert_eq!(AUDIO_BLOCK_SIZE, 48);
    assert_eq!(AUDIO_SAMPLE_RATE, 48_000);
    assert_eq!(CLOCK_RATE_HZ, 480_000_000);
    assert_eq!(MILICYCLES, 480_000);
    assert_eq!(AUDIO_BLOCK_SIZE as usize * AUDIO_FRAME_RATE_HZ as usize, AUDIO_SAMPLE_RATE);
}

#[test]
fn milliseconds_to_cycles() {
    assert_eq!(ms_to_cycles(0), 0);
    assert_eq!(ms_to_cycles(1), 480_000);
    assert_eq!(ms_to_cycles(5), 2_400_000);
    assert_eq!(ms_to_cycles(MAX_DELAY_MS), 4_294_560_000);
    assert!((MAX_DELAY_MS as u64 + 1) * MILICYCLES as u64 > u32::MAX as u64);
}
