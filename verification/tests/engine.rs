use libdaisy::audio::codec::{decode, encode};
use libdaisy::audio::{
    Audio, AudioBuffer, CapacityError, DmaBuffer, Input, Output, Sample, BLOCK_SIZE_MAX,
    DMA_BUFFER_SIZE, MAX_TRANSFER_SIZE,
};

fn sample(x: f32) -> Sample {
    Sample::from_bits(x.to_bits())
}

fn number(s: Sample) -> f32 {
    f32::from_bits(s.to_bits())
}

/// A sample in steps of `2^-23`, as the hardware would deliver it.
fn word(q: i32) -> u32 {
    (q as u32) & 0xFF_FFFF
}

fn silence() -> AudioBuffer {
    [(Sample::from_bits(0), Sample::from_bits(0)); BLOCK_SIZE_MAX]
}

/// An input buffer whose word `i` holds `1000 * i - 90000` steps.
fn ramp() -> DmaBuffer {
    let mut words = [0u32; DMA_BUFFER_SIZE];
    for i in 0..DMA_BUFFER_SIZE {
        words[i] = word(1000 * i as i32 - 90_000);
    }
    words
}

fn ramp_value(i: usize) -> f32 {
    (1000 * i as i32 - 90_000) as f32 / 8_388_608.0
}

#[test]
fn sizes_follow_from_the_block_size() {
    assert_eq!(BLOCK_SIZE_MAX, 48);
    assert_eq!(MAX_TRANSFER_SIZE, 2 * BLOCK_SIZE_MAX);
    assert_eq!(DMA_BUFFER_SIZE, 2 * 2 * BLOCK_SIZE_MAX);
}

#[test]
fn new_engine_is_cleared() {
    let audio = Audio::new();
    assert_eq!(audio.input_buffer(), &[0u32; DMA_BUFFER_SIZE]);
    assert_eq!(audio.output_buffer(), &[0u32; DMA_BUFFER_SIZE]);
}

#[test]
fn poll_without_a_flag_reports_nothing() {
    let mut audio = Audio::new();
    assert_eq!(audio.poll(), None);
    assert_eq!(audio.poll(), None);
}

#[test]
fn poll_reports_alternating_windows() {
    let mut audio = Audio::new();
    for _ in 0..10 {
        audio.signal_half_transfer();
        assert_eq!(audio.poll(), Some(0));
        assert_eq!(audio.poll(), None);
        audio.signal_transfer_complete();
        assert_eq!(audio.poll(), Some(BLOCK_SIZE_MAX));
        assert_eq!(audio.poll(), None);
    }
}

#[test]
fn poll_clears_one_flag_at_a_time_half_transfer_first() {
    let mut audio = Audio::new();
    audio.signal_transfer_complete();
    audio.signal_half_transfer();
    assert_eq!(audio.poll(), Some(0));
    assert_eq!(audio.poll(), Some(BLOCK_SIZE_MAX));
    assert_eq!(audio.poll(), None);
}

#[test]
fn flags_are_sticky() {
    let mut audio = Audio::new();
    audio.signal_half_transfer();
    audio.signal_half_transfer();
    assert_eq!(audio.poll(), Some(0));
    assert_eq!(audio.poll(), None);
}

#[test]
fn get_stereo_without_a_flag_leaves_the_block() {
    let mut audio = Audio::new();
    audio.load_input(&ramp());
    let mut block = silence();
    block[3] = (sample(0.25), sample(-0.25));
    let before = block;
    assert!(!audio.get_stereo(&mut block));
    assert_eq!(block, before);
}

#[test]
fn get_stereo_decodes_the_first_half_after_half_transfer() {
    let mut audio = Audio::new();
    audio.load_input(&ramp());
    audio.signal_half_transfer();
    let mut block = silence();
    assert!(audio.get_stereo(&mut block));
    for i in 0..BLOCK_SIZE_MAX {
        assert_eq!(number(block[i].0), ramp_value(2 * i));
        assert_eq!(number(block[i].1), ramp_value(2 * i + 1));
    }
    assert!(!audio.get_stereo(&mut block));
}

#[test]
fn get_stereo_decodes_the_second_half_after_transfer_complete() {
    let mut audio = Audio::new();
    audio.load_input(&ramp());
    audio.signal_transfer_complete();
    let mut block = silence();
    assert!(audio.get_stereo(&mut block));
    for i in 0..BLOCK_SIZE_MAX {
        assert_eq!(number(block[i].0), ramp_value(MAX_TRANSFER_SIZE + 2 * i));
        assert_eq!(number(block[i].1), ramp_value(MAX_TRANSFER_SIZE + 2 * i + 1));
    }
}

#[test]
fn end_to_end_block_of_48() {
    let mut audio = Audio::new();
    audio.load_input(&ramp());
    audio.signal_half_transfer();
    let mut block = silence();
    assert!(audio.get_stereo(&mut block));
    for i in 0..48 {
        assert_eq!(block[i], (decode(ramp()[2 * i]), decode(ramp()[2 * i + 1])));
        assert_eq!(number(block[i].0), ramp_value(2 * i));
        assert_eq!(number(block[i].1), ramp_value(2 * i + 1));
    }
    for i in 0..48 {
        let left = i as f32 / 64.0;
        let right = -(i as f32) / 128.0;
        assert_eq!(audio.push_stereo((sample(left), sample(right))), Ok(()));
    }
    let out = audio.output_buffer();
    for i in 0..48 {
        let left = (i as f32 / 64.0 * 8_388_608.0) as i32;
        let right = (-(i as f32) / 128.0 * 8_388_608.0) as i32;
        assert_eq!(out[2 * i], left as u32);
        assert_eq!(out[2 * i + 1], right as u32);
    }
    for i in MAX_TRANSFER_SIZE..DMA_BUFFER_SIZE {
        assert_eq!(out[i], 0);
    }
}

#[test]
fn end_to_end_echo_keeps_every_sample() {
    let mut audio = Audio::new();
    audio.load_input(&ramp());
    audio.signal_transfer_complete();
    let mut block = silence();
    assert!(audio.get_stereo(&mut block));
    for frame in block {
        audio.push_stereo(frame).unwrap();
    }
    let out = audio.output_buffer();
    for i in MAX_TRANSFER_SIZE..DMA_BUFFER_SIZE {
        assert_eq!(decode(out[i]), decode(ramp()[i]));
        assert_eq!(out[i] & 0xFF_FFFF, ramp()[i]);
    }
    for i in 0..MAX_TRANSFER_SIZE {
        assert_eq!(out[i], 0);
    }
}

#[test]
fn push_stereo_is_refused_once_the_window_is_full() {
    let mut audio = Audio::new();
    audio.signal_half_transfer();
    assert_eq!(audio.poll(), Some(0));
    for _ in 0..BLOCK_SIZE_MAX {
        assert_eq!(audio.push_stereo((sample(0.5), sample(-0.5))), Ok(()));
    }
    assert_eq!(
        audio.push_stereo((sample(0.5), sample(-0.5))),
        Err(CapacityError::CapacityExceeded)
    );
    assert_eq!(
        audio.push_stereo((sample(0.5), sample(-0.5))),
        Err(CapacityError::CapacityExceeded)
    );
}

#[test]
fn two_blocks_fill_both_windows() {
    let mut audio = Audio::new();
    let mut accepted = 0;
    audio.signal_half_transfer();
    assert_eq!(audio.poll(), Some(0));
    for _ in 0..BLOCK_SIZE_MAX {
        assert!(audio.push_stereo((sample(0.125), sample(0.25))).is_ok());
        accepted += 1;
    }
    assert!(audio.push_stereo((sample(0.125), sample(0.25))).is_err());
    audio.signal_transfer_complete();
    assert_eq!(audio.poll(), Some(BLOCK_SIZE_MAX));
    for _ in 0..BLOCK_SIZE_MAX {
        assert!(audio.push_stereo((sample(0.125), sample(0.25))).is_ok());
        accepted += 1;
    }
    assert_eq!(accepted, 2 * BLOCK_SIZE_MAX);
    assert_eq!(
        audio.push_stereo((sample(0.125), sample(0.25))),
        Err(CapacityError::CapacityExceeded)
    );
    let out = audio.output_buffer();
    for i in 0..DMA_BUFFER_SIZE / 2 {
        assert_eq!(out[2 * i], 0x10_0000);
        assert_eq!(out[2 * i + 1], 0x20_0000);
    }
}

#[test]
fn refused_push_changes_nothing() {
    let mut audio = Audio::new();
    for _ in 0..BLOCK_SIZE_MAX {
        audio.push_stereo((sample(0.5), sample(0.5))).unwrap();
    }
    let before = *audio.output_buffer();
    assert!(audio.push_stereo((sample(-0.5), sample(-0.5))).is_err());
    assert_eq!(audio.output_buffer(), &before);
}

#[test]
fn new_poll_hit_rewinds_the_cursor() {
    let mut audio = Audio::new();
    audio.signal_half_transfer();
    audio.poll();
    audio.push_stereo((sample(0.5), sample(0.5))).unwrap();
    audio.signal_half_transfer();
    audio.poll();
    audio.push_stereo((sample(0.25), sample(0.25))).unwrap();
    assert_eq!(audio.output_buffer()[0], 0x20_0000);
    assert_eq!(audio.output_buffer()[2], 0);
}

#[test]
fn passthru_copies_raw_words_of_the_active_window() {
    let mut words = [0u32; DMA_BUFFER_SIZE];
    for i in 0..DMA_BUFFER_SIZE {
        words[i] = 0xA500_0000 | (0x1_0001 * i as u32);
    }
    let mut audio = Audio::new();
    audio.load_input(&words);
    audio.signal_half_transfer();
    audio.passthru();
    for i in 0..MAX_TRANSFER_SIZE {
        assert_eq!(audio.output_buffer()[i], words[i]);
        assert_eq!(decode(audio.output_buffer()[i]), decode(words[i]));
    }
    for i in MAX_TRANSFER_SIZE..DMA_BUFFER_SIZE {
        assert_eq!(audio.output_buffer()[i], 0);
    }
    audio.signal_transfer_complete();
    audio.passthru();
    assert_eq!(audio.output_buffer(), &words);
}

#[test]
fn passthru_without_a_flag_does_nothing() {
    let mut audio = Audio::new();
    audio.load_input(&ramp());
    audio.passthru();
    assert_eq!(audio.output_buffer(), &[0u32; DMA_BUFFER_SIZE]);
}

#[test]
fn passthru_avoids_the_loss_of_a_round_trip() {
    let mut words = [0u32; DMA_BUFFER_SIZE];
    words[0] = 0x7F_FFFF;
    words[1] = 0x80_0000;
    let mut audio = Audio::new();
    audio.load_input(&words);
    audio.signal_half_transfer();
    audio.passthru();
    assert_eq!(audio.output_buffer()[0], 0x7F_FFFF);
    assert_eq!(audio.output_buffer()[1], 0x80_0000);
    assert_ne!(encode(decode(0x7F_FFFF)), 0x7F_FFFF);
}

#[test]
fn get_stereo_iter_views_the_block_that_arrived() {
    let mut audio = Audio::new();
    audio.load_input(&ramp());
    assert!(audio.get_stereo_iter().is_none());
    audio.signal_transfer_complete();
    let mut view = audio.get_stereo_iter().unwrap();
    let mut count = 0;
    while let Some((left, right)) = view.next() {
        assert_eq!(number(left), ramp_value(MAX_TRANSFER_SIZE + 2 * count));
        assert_eq!(number(right), ramp_value(MAX_TRANSFER_SIZE + 2 * count + 1));
        count += 1;
    }
    assert_eq!(count, BLOCK_SIZE_MAX);
}

#[test]
fn get_mono_iter_views_the_second_channel() {
    let mut audio = Audio::new();
    audio.load_input(&ramp());
    assert!(audio.get_mono_iter().is_none());
    audio.signal_half_transfer();
    let mut view = audio.get_mono_iter().unwrap();
    let mut count = 0;
    while let Some(right) = view.next() {
        assert_eq!(number(right), ramp_value(2 * count + 1));
        count += 1;
    }
    assert_eq!(count, BLOCK_SIZE_MAX);
}

#[test]
fn input_views_its_first_frame() {
    let input = Input::new(ramp());
    assert_eq!(input.buffer(), &ramp());
    let mut view = input.get_stereo_iter().unwrap();
    let (left, right) = view.next().unwrap();
    assert_eq!(number(left), ramp_value(0));
    assert_eq!(number(right), ramp_value(1));
    assert!(view.next().is_none());
}

#[test]
fn input_takes_over_new_words() {
    let mut input = Input::new([0u32; DMA_BUFFER_SIZE]);
    input.load(&ramp());
    assert_eq!(input.buffer(), &ramp());
    let mut view = input.window_iter();
    assert_eq!(view.next(), Some((decode(ramp()[0]), decode(ramp()[1]))));
    let mut mono = input.window_mono_iter();
    assert_eq!(mono.next(), Some(decode(ramp()[1])));
}

#[test]
fn output_push_writes_left_then_right() {
    let mut output = Output::new([7u32; DMA_BUFFER_SIZE]);
    assert_eq!(output.push((sample(0.5), sample(-1.0))), Ok(()));
    assert_eq!(output.buffer()[0], 0x40_0000);
    assert_eq!(output.buffer()[1], (-8_388_482i32) as u32);
    assert_eq!(output.buffer()[2], 7);
    for _ in 1..BLOCK_SIZE_MAX {
        assert_eq!(output.push((sample(0.0), sample(0.0))), Ok(()));
    }
    assert_eq!(output.buffer()[MAX_TRANSFER_SIZE - 1], 0);
    assert_eq!(output.buffer()[MAX_TRANSFER_SIZE], 7);
    assert_eq!(
        output.push((sample(0.0), sample(0.0))),
        Err(CapacityError::CapacityExceeded)
    );
    assert_eq!(output.buffer()[MAX_TRANSFER_SIZE], 7);
}
