use libdaisy::flash::{
    chunk_address, chunk_count, chunk_range, erase_command, is_expected_id, write_complete,
    EraseDecision, Flash, FlashCommand, FlashErase, FlashState, ProgramDecision, ReadDecision,
    FLASH_ID,
};

#[test]
fn write_is_complete_when_the_busy_bit_is_clear() {
    assert!(write_complete(0x00));
    assert!(write_complete(0x02));
    assert!(write_complete(0xFE));
    assert!(!write_complete(0x01));
    assert!(!write_complete(0x03));
    assert!(!write_complete(0xFF));
}

#[test]
fn identification_is_checked() {
    assert!(is_expected_id(&[157, 96, 23]));
    assert!(is_expected_id(&FLASH_ID));
    assert!(!is_expected_id(&[157, 96, 22]));
    assert!(!is_expected_id(&[157, 97, 23]));
    assert!(!is_expected_id(&[0, 96, 23]));
}

#[test]
fn erase_commands() {
    assert_eq!(erase_command(FlashErase::Chip), FlashCommand { opcode: 0x60, address: None });
    assert_eq!(
        erase_command(FlashErase::Sector4K(0x1000)),
        FlashCommand { opcode: 0xD7, address: Some(0x1000) }
    );
    assert_eq!(
        erase_command(FlashErase::Block32K(0x8000)),
        FlashCommand { opcode: 0x52, address: Some(0x8000) }
    );
    assert_eq!(
        erase_command(FlashErase::Block64K(0x1_0000)),
        FlashCommand { opcode: 0xD8, address: Some(0x1_0000) }
    );
}

#[test]
fn chunks_cover_the_data() {
    for len in 0usize..200 {
        let data: Vec<u8> = (0..len).map(|i| i as u8).collect();
        let expected: Vec<&[u8]> = data.chunks(32).collect();
        assert_eq!(chunk_count(len), expected.len());
        for k in 0..chunk_count(len) {
            let (start, end) = chunk_range(len, k);
            assert_eq!(&data[start..end], expected[k]);
        }
    }
    assert_eq!(chunk_count(usize::MAX), usize::MAX / 32 + 1);
}

#[test]
fn chunk_addresses_step_by_32() {
    assert_eq!(chunk_address(0x1000, 0), 0x1000);
    assert_eq!(chunk_address(0x1000, 1), 0x1020);
    assert_eq!(chunk_address(0x1000, 10), 0x1140);
    assert_eq!(chunk_address(0xFFFF_FFE0, 0), 0xFFFF_FFE0);
}

#[test]
fn reads_must_end_before_the_last_byte() {
    let flash = Flash::new();
    assert!(flash.can_read(0, 0));
    assert!(flash.can_read(0, 0x7F_FFFF));
    assert!(!flash.can_read(0, 0x80_0000));
    assert!(flash.can_read(0x7F_FFFE, 1));
    assert!(!flash.can_read(0x7F_FFFF, 1));
    assert!(!flash.can_read(0x80_0000, 0));
    assert!(!flash.can_read(0xFFFF_FFFF, usize::MAX));
}

#[test]
fn reads_wait_for_the_driver_to_be_idle() {
    let mut flash = Flash::new();
    flash.erase_started(FlashErase::Chip);
    assert!(!flash.can_read(0, 16));
    flash.finished();
    assert!(flash.can_read(0, 16));
}

#[test]
fn read_moves_chunk_after_chunk() {
    let flash = Flash::new();
    assert_eq!(
        flash.read(0x400, 70, 0),
        ReadDecision::Transfer { address: 0x400, start: 0, end: 32 }
    );
    assert_eq!(
        flash.read(0x400, 70, 1),
        ReadDecision::Transfer { address: 0x420, start: 32, end: 64 }
    );
    assert_eq!(
        flash.read(0x400, 70, 2),
        ReadDecision::Transfer { address: 0x440, start: 64, end: 70 }
    );
    assert_eq!(flash.read(0x400, 70, 3), ReadDecision::Done);
    assert_eq!(flash.read(0x400, 0, 0), ReadDecision::Done);
}

#[test]
fn erase_runs_from_idle_to_idle() {
    let mut flash = Flash::new();
    assert!(flash.is_idle());
    let op = FlashErase::Sector4K(0x2000);
    assert!(flash.can_erase(op));
    assert_eq!(
        flash.erase(op, 0xFF),
        EraseDecision::Start(FlashCommand { opcode: 0xD7, address: Some(0x2000) })
    );
    flash.erase_started(op);
    assert_eq!(flash.state(), FlashState::Erasing(op));
    assert!(flash.can_erase(op));
    assert!(!flash.can_erase(FlashErase::Chip));
    assert!(!flash.can_program(0, 1));
    assert_eq!(flash.erase(op, 0x03), EraseDecision::Busy);
    assert_eq!(flash.erase(op, 0x02), EraseDecision::Done);
    flash.finished();
    assert!(flash.is_idle());
}

#[test]
fn program_sends_chunk_after_chunk() {
    let mut flash = Flash::new();
    assert!(flash.can_program(0x100, 70));
    assert_eq!(
        flash.program(0x100, 70, 0xFF),
        ProgramDecision::Send { chunk: 0, address: 0x100, start: 0, end: 32 }
    );
    flash.chunk_sent(0x100, 0);
    assert_eq!(flash.state(), FlashState::Programming { address: 0x100, chunk: 0 });
    assert!(flash.can_program(0x100, 70));
    assert!(!flash.can_program(0x120, 70));
    assert!(!flash.can_erase(FlashErase::Chip));
    assert_eq!(flash.program(0x100, 70, 0x01), ProgramDecision::Busy);
    assert_eq!(
        flash.program(0x100, 70, 0x00),
        ProgramDecision::Send { chunk: 1, address: 0x120, start: 32, end: 64 }
    );
    flash.chunk_sent(0x100, 1);
    assert_eq!(
        flash.program(0x100, 70, 0x00),
        ProgramDecision::Send { chunk: 2, address: 0x140, start: 64, end: 70 }
    );
    flash.chunk_sent(0x100, 2);
    assert_eq!(flash.program(0x100, 70, 0x01), ProgramDecision::Busy);
    assert_eq!(flash.program(0x100, 70, 0x00), ProgramDecision::Done);
    flash.finished();
    assert!(flash.is_idle());
}

#[test]
fn program_of_nothing_is_done_at_once() {
    let flash = Flash::new();
    assert_eq!(flash.program(0x100, 0, 0xFF), ProgramDecision::Done);
}

#[test]
fn program_must_stay_in_the_address_space() {
    let flash = Flash::new();
    assert!(flash.can_program(0xFFFF_FFE0, 32));
    assert!(!flash.can_program(0xFFFF_FFE0, 33));
    assert!(flash.can_program(0, 0));
}

#[test]
fn reset_forgets_the_work() {
    let mut flash = Flash::new();
    flash.erase_started(FlashErase::Chip);
    assert!(!flash.is_idle());
    flash.reset();
    assert!(flash.is_idle());
    assert_eq!(flash.state(), FlashState::Idle);
}
