use nes_core::cpu::FRAME_INSTRUCTION_LIMIT;
use nes_core::emu::EmuState;
use nes_core::errors::EmuError;
use nes_core::opcodes::decode;
use nes_core::opcodes::AddressMode;
use nes_core::opcodes::Mnemonic;
use nes_core::rom::NametableMirrorMode;
use nes_core::rom::RomState;

fn make_rom_image(program: &[u8]) -> Vec<u8> {
    let mut image = vec![0u8; 16 + 16384 + 8192];
    image[0] = 0x4E;
    image[1] = 0x45;
    image[2] = 0x53;
    image[3] = 0x1A;
    image[4] = 1;
    image[5] = 1;
    image[6] = 0;
    for (i, b) in program.iter().enumerate() {
        image[16 + i] = *b;
    }
    image
}

fn boot(program: &[u8]) -> EmuState {
    let image = make_rom_image(program);
    let rom = RomState::load(&image).unwrap();
    EmuState::new(rom)
}

#[test]
fn decode_covers_official_and_invalid_bytes() {
    let brk = decode(0x00);
    assert_eq!(brk.mnemonic, Mnemonic::BRK);
    assert_eq!(brk.address_mode, AddressMode::IMP);
    let jmp_ind = decode(0x6C);
    assert_eq!(jmp_ind.mnemonic, Mnemonic::JMP);
    assert_eq!(jmp_ind.address_mode, AddressMode::IND);
    let lda_imm = decode(0xA9);
    assert_eq!(lda_imm.mnemonic, Mnemonic::LDA);
    assert_eq!(lda_imm.address_mode, AddressMode::IMM);
    let sta_idy = decode(0x91);
    assert_eq!(sta_idy.mnemonic, Mnemonic::STA);
    assert_eq!(sta_idy.address_mode, AddressMode::IDY);
    let invalid = decode(0x02);
    assert_eq!(invalid.mnemonic, Mnemonic::XXX);
    assert_eq!(invalid.address_mode, AddressMode::IMP);
}

#[test]
fn loader_rejects_short_and_empty_bank_images() {
    let short = vec![0u8; 8];
    assert!(matches!(RomState::load(&short), Err(EmuError::InvalidCartridge)));

    let mut no_prg = make_rom_image(&[]);
    no_prg[4] = 0;
    assert!(RomState::load(&no_prg).is_err());

    let mut truncated = make_rom_image(&[]);
    truncated.truncate(16 + 16384); // CHR missing
    assert!(RomState::load(&truncated).is_err());
}

#[test]
fn loader_reads_header_fields() {
    let mut image = make_rom_image(&[0xA9, 0x01]);
    image[6] = 1;
    let rom = RomState::load(&image).unwrap();
    assert_eq!(rom.prg_rom.len(), 16384);
    assert_eq!(rom.chr_rom.len(), 8192);
    assert_eq!(rom.nametable_mirror_mode, NametableMirrorMode::Vertical);
    assert_eq!(rom.prg_rom[0], 0xA9);

    image[6] = 0;
    let rom2 = RomState::load(&image).unwrap();
    assert_eq!(rom2.nametable_mirror_mode, NametableMirrorMode::Horizontal);
}

#[test]
fn cold_reset_state() {
    let emu = boot(&[]);
    assert_eq!(emu.program_counter, 0x8000);
    assert_eq!(emu.stack_pointer, 0xFD);
    assert_eq!(emu.get_flags_as_u8(), 0x24); // interrupt disable set
    assert_eq!(emu.cycle_count, 0);
    assert_eq!(emu.reg_a, 0);
    assert_eq!(emu.ppu_x, 0);
    assert_eq!(emu.ppu_y, -1);
}

#[test]
fn adc_sets_overflow_and_sign() {
    // CLC; LDA #$50; ADC #$50
    let mut emu = boot(&[0x18, 0xA9, 0x50, 0x69, 0x50]);
    emu.run_one_instruction().unwrap();
    emu.run_one_instruction().unwrap();
    emu.run_one_instruction().unwrap();
    assert_eq!(emu.reg_a, 0xA0);
    // N=1, V=1, C=0, Z=0 (and I=1 from reset, plus the always-one bit)
    assert_eq!(emu.get_flags_as_u8(), 0xE4);
}

#[test]
fn sbc_sets_overflow_and_sign() {
    // SEC; LDA #$50; SBC #$B0
    let mut emu = boot(&[0x38, 0xA9, 0x50, 0xE9, 0xB0]);
    emu.run_one_instruction().unwrap();
    emu.run_one_instruction().unwrap();
    emu.run_one_instruction().unwrap();
    assert_eq!(emu.reg_a, 0xA0);
    assert_eq!(emu.get_flags_as_u8(), 0xE4);
}

#[test]
fn flags_push_pull_round_trip() {
    // SEC; SED; PHP; LDA #$00 (sets Z); PLP
    let mut emu = boot(&[0x38, 0xF8, 0x08, 0xA9, 0x00, 0x28]);
    emu.run_one_instruction().unwrap();
    emu.run_one_instruction().unwrap();
    let before = emu.get_flags_as_u8();
    assert_eq!(before, 0x2D); // C, I, D
    emu.run_one_instruction().unwrap(); // PHP
    emu.run_one_instruction().unwrap(); // LDA #0 disturbs Z
    assert_eq!(emu.get_flags_as_u8(), 0x2F);
    emu.run_one_instruction().unwrap(); // PLP
    // All six flags are restored; bits 4 and 5 of the pulled byte are
    // discarded (the stored flags still read back with only bit 5 set).
    assert_eq!(emu.get_flags_as_u8(), before);
}

#[test]
fn jmp_indirect_wraps_pointer_high_byte_within_page() {
    // JMP ($02FF): low byte from $02FF, high byte from $0200, not $0300.
    let mut emu = boot(&[0x6C, 0xFF, 0x02]);
    emu.write_byte(0x02FF, 0x34).unwrap();
    emu.write_byte(0x0200, 0x12).unwrap();
    emu.write_byte(0x0300, 0x99).unwrap(); // must NOT be used
    emu.run_one_instruction().unwrap();
    assert_eq!(emu.program_counter, 0x1234);
}

#[test]
fn cycle_counts_match_documented_bases() {
    // LDA #$01 (2 cycles)
    let mut emu = boot(&[0xA9, 0x01]);
    emu.run_one_instruction().unwrap();
    assert_eq!(emu.cycle_count, 2);

    // LDA $0010 (4 cycles: 2 base + 2 absolute)
    let mut emu = boot(&[0xAD, 0x10, 0x00]);
    emu.run_one_instruction().unwrap();
    assert_eq!(emu.cycle_count, 4);

    // LDX #$FF; LDA $0080,X crosses a page: 2 + (2+2+1) = 7 in all
    let mut emu = boot(&[0xA2, 0xFF, 0xBD, 0x80, 0x00]);
    emu.run_one_instruction().unwrap();
    emu.run_one_instruction().unwrap();
    assert_eq!(emu.cycle_count, 7);

    // LDA $10 zero page (3 cycles)
    let mut emu = boot(&[0xA5, 0x10]);
    emu.run_one_instruction().unwrap();
    assert_eq!(emu.cycle_count, 3);
}

#[test]
fn branch_cycles_depend_on_taken_and_page_cross() {
    // BEQ not taken (Z clear after LDA #1): 2 cycles for the branch.
    let mut emu = boot(&[0xA9, 0x01, 0xF0, 0x10]);
    emu.run_one_instruction().unwrap();
    let before = emu.cycle_count;
    emu.run_one_instruction().unwrap();
    assert_eq!(emu.cycle_count - before, 2);

    // BEQ taken within the page (Z set after LDA #0): 3 cycles.
    let mut emu = boot(&[0xA9, 0x00, 0xF0, 0x10]);
    emu.run_one_instruction().unwrap();
    let before = emu.cycle_count;
    emu.run_one_instruction().unwrap();
    assert_eq!(emu.cycle_count - before, 3);
    assert_eq!(emu.program_counter, 0x8014);

    // BEQ taken across a page boundary: 4 cycles.  The branch sits so
    // that its target 0x7FFE is on the previous page.
    let mut emu = boot(&[0xA9, 0x00, 0xF0, 0xFA]);
    emu.run_one_instruction().unwrap();
    let before = emu.cycle_count;
    emu.run_one_instruction().unwrap();
    assert_eq!(emu.cycle_count - before, 4);
    assert_eq!(emu.program_counter, 0x7FFE);
}

#[test]
fn stack_round_trip_with_pha_pla() {
    // LDA #$42; PHA; LDA #$00; PLA
    let mut emu = boot(&[0xA9, 0x42, 0x48, 0xA9, 0x00, 0x68]);
    for _ in 0..4 {
        emu.run_one_instruction().unwrap();
    }
    assert_eq!(emu.reg_a, 0x42);
    assert_eq!(emu.stack_pointer, 0xFD);
}

#[test]
fn jsr_and_rts_round_trip() {
    // JSR $8005; (dead byte); at $8005: RTS returns to $8003.
    let mut emu = boot(&[0x20, 0x05, 0x80, 0xEA, 0xEA, 0x60]);
    emu.run_one_instruction().unwrap();
    assert_eq!(emu.program_counter, 0x8005);
    assert_eq!(emu.cycle_count, 6);
    emu.run_one_instruction().unwrap();
    assert_eq!(emu.program_counter, 0x8003);
    assert_eq!(emu.cycle_count, 12);
}

#[test]
fn invalid_opcode_executes_as_no_op() {
    let mut emu = boot(&[0x02, 0xA9, 0x07]);
    emu.run_one_instruction().unwrap();
    assert_eq!(emu.cycle_count, 2);
    assert_eq!(emu.program_counter, 0x8001);
    emu.run_one_instruction().unwrap();
    assert_eq!(emu.reg_a, 0x07);
}

#[test]
fn undecoded_addresses_are_errors() {
    let mut emu = boot(&[]);
    assert_eq!(emu.read_byte(0x5000), Err(EmuError::InvalidAddress));
    // Write-only PPU registers read back as open bus, not as errors.
    assert_eq!(emu.read_byte(0x2000), Ok(0));
    assert_eq!(emu.read_byte(0x2005), Ok(0));
    assert_eq!(emu.read_byte(0x2004), Err(EmuError::InvalidAddress)); // OAMDATA undecoded
    assert_eq!(emu.write_byte(0x4500, 1), Err(EmuError::InvalidAddress));
    assert_eq!(emu.write_byte(0x2002, 1), Err(EmuError::InvalidAddress)); // PPUSTATUS is read-only
    assert_eq!(emu.write_byte(0x2003, 5), Err(EmuError::UnsupportedFeature));
    assert_eq!(emu.write_byte(0x2003, 0), Ok(()));
}

#[test]
fn apu_stubs_read_zero_and_ignore_writes() {
    let mut emu = boot(&[]);
    assert_eq!(emu.read_byte(0x4000), Ok(0));
    assert_eq!(emu.read_byte(0x4015), Ok(0));
    assert_eq!(emu.read_byte(0x4017), Ok(0));
    assert_eq!(emu.write_byte(0x4000, 0xFF), Ok(()));
    assert_eq!(emu.write_byte(0x4015, 0xFF), Ok(()));
}

#[test]
fn ram_is_mirrored_every_two_kib() {
    let mut emu = boot(&[]);
    emu.write_byte(0x0005, 0xAB).unwrap();
    assert_eq!(emu.read_byte(0x0805), Ok(0xAB));
    assert_eq!(emu.read_byte(0x1005), Ok(0xAB));
    emu.write_byte(0x1805, 0xCD).unwrap();
    assert_eq!(emu.read_byte(0x0005), Ok(0xCD));
}

#[test]
fn prg_rom_is_mirrored_over_its_length() {
    let mut emu = boot(&[0xA9, 0x55]);
    // One 16 KiB bank is mapped at 0x8000 and mirrored at 0xC000.
    assert_eq!(emu.read_byte(0x8000), Ok(0xA9));
    assert_eq!(emu.read_byte(0xC000), Ok(0xA9));
    assert_eq!(emu.read_byte(0x8001), Ok(0x55));
    assert_eq!(emu.read_byte(0xC001), Ok(0x55));
}

#[test]
fn frame_driver_gives_up_without_nmi() {
    // A ROM full of NOPs never enables NMI: the driver must not hang.
    let program = vec![0xEA; 16384];
    let mut emu = boot(&program);
    assert_eq!(emu.run_to_next_nmi(), Err(EmuError::FrameLimit));
    assert_eq!(emu.cycle_count, 2 * FRAME_INSTRUCTION_LIMIT);
}

#[test]
fn nmi_service_pushes_state_and_jumps_to_vector() {
    let mut image = make_rom_image(&[0xEA]);
    image[16 + 0x3FFA] = 0x34; // NMI vector low
    image[16 + 0x3FFB] = 0x92; // NMI vector high
    let rom = RomState::load(&image).unwrap();
    let mut emu = EmuState::new(rom);

    // Without a pending request the service step is a no-op.
    emu.service_pending_nmi();
    assert_eq!(emu.program_counter, 0x8000);
    assert_eq!(emu.stack_pointer, 0xFD);

    emu.program_counter = 0xABCD;
    emu.ppu_nmi_flag = true;
    let flags_before = emu.get_flags_as_u8();
    emu.service_pending_nmi();
    assert!(!emu.ppu_nmi_flag);
    assert_eq!(emu.program_counter, 0x9234);
    assert_eq!(emu.stack_pointer, 0xFA);
    assert_eq!(emu.read_byte(0x01FD).unwrap(), 0xAB); // return address high
    assert_eq!(emu.read_byte(0x01FC).unwrap(), 0xCD); // return address low
    assert_eq!(emu.read_byte(0x01FB).unwrap(), flags_before); // pushed flags, B clear
}
