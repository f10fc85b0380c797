use nes_core::emu::EmuState;
use nes_core::emu::FRAME_BUFFER_BYTES;
use nes_core::rom::RomState;

fn make_rom_image(program: &[u8]) -> Vec<u8> {
    let mut image = vec![0u8; 16 + 16384 + 8192];
    image[0] = 0x4E;
    image[1] = 0x45;
    image[2] = 0x53;
    image[3] = 0x1A;
    image[4] = 1;
    image[5] = 1;
    image[6] = 0;
    for (i, b) in program.iter().enumerate() {
        image[16 + i] = *b;
    }
    image
}

fn boot(program: &[u8]) -> EmuState {
    let image = make_rom_image(program);
    let rom = RomState::load(&image).unwrap();
    EmuState::new(rom)
}

fn set_vram_address(emu: &mut EmuState, address: u16) {
    emu.write_byte(0x2006, (address >> 8) as u8).unwrap();
    emu.write_byte(0x2006, (address & 0xFF) as u8).unwrap();
}

#[test]
fn framebuffer_is_exactly_256_by_240_rgba() {
    let emu = boot(&[]);
    assert_eq!(emu.framebuffer().len(), 256 * 240 * 4);
    assert_eq!(emu.framebuffer().len(), FRAME_BUFFER_BYTES);
}

#[test]
fn ppustatus_read_clears_vblank_and_latches() {
    let mut emu = boot(&[]);
    set_vram_address(&mut emu, 0x2000);
    assert_eq!(emu.ppu_address, 0x2000);
    emu.write_byte(0x2005, 0x30).unwrap(); // leave the shared toggle set
    assert!(emu.ppu_scroll_latch);
    emu.ppu_status = 0x80; // as if VBlank had begun

    let status = emu.read_byte(0x2002).unwrap();
    assert_eq!(status, 0x80); // the set bit is returned once
    assert_eq!(emu.ppu_status & 0x80, 0);
    assert_eq!(emu.ppu_address, 0);
    assert!(!emu.ppu_scroll_latch);
}

#[test]
fn ppustatus_is_mirrored_through_0x3fff() {
    let mut emu = boot(&[]);
    emu.ppu_status = 0x80;
    let status = emu.read_byte(0x200A).unwrap(); // 0x2002 mirror
    assert_eq!(status, 0x80);
    assert_eq!(emu.ppu_status & 0x80, 0);
}

#[test]
fn ppuaddr_composes_and_ppudata_reads_are_buffered() {
    let mut emu = boot(&[]);
    // Two address writes compose 0x2000.
    emu.write_byte(0x2006, 0x20).unwrap();
    emu.write_byte(0x2006, 0x00).unwrap();
    assert_eq!(emu.ppu_address, 0x2000);

    // Store a byte at 0x2000, then point back at it.
    emu.write_byte(0x2007, 0x77).unwrap();
    set_vram_address(&mut emu, 0x2000);

    // The first read returns the stale buffer, the next the byte itself.
    assert_eq!(emu.read_byte(0x2007).unwrap(), 0x00);
    assert_eq!(emu.read_byte(0x2007).unwrap(), 0x77);
}

#[test]
fn ppudata_increments_by_thirty_two_with_control_bit_two() {
    let mut emu = boot(&[]);
    emu.write_byte(0x2000, 0x04).unwrap();
    set_vram_address(&mut emu, 0x2000);
    emu.write_byte(0x2007, 0x11).unwrap();
    assert_eq!(emu.ppu_address, 0x2020);
    emu.write_byte(0x2007, 0x22).unwrap();
    assert_eq!(emu.ppu_address, 0x2040);

    set_vram_address(&mut emu, 0x2000);
    emu.read_byte(0x2007).unwrap(); // stale buffer; refills from 0x2000
    let second = emu.read_byte(0x2007).unwrap(); // refills from 0x2020
    assert_eq!(second, 0x11);
    let third = emu.read_byte(0x2007).unwrap();
    assert_eq!(third, 0x22);
}

#[test]
fn palette_high_bank_writes_mirror_to_low_bank() {
    let mut emu = boot(&[]);
    // Write through 0x3F10; observe at 0x3F00 (palette reads are direct).
    set_vram_address(&mut emu, 0x3F10);
    emu.write_byte(0x2007, 0x2A).unwrap();
    set_vram_address(&mut emu, 0x3F00);
    assert_eq!(emu.read_byte(0x2007).unwrap(), 0x2A);

    // And the other direction, for each aliased pair.
    for offset in [0x04u16, 0x08, 0x0C] {
        set_vram_address(&mut emu, 0x3F00 + offset);
        emu.write_byte(0x2007, 0x10 + offset as u8).unwrap();
        set_vram_address(&mut emu, 0x3F10 + offset);
        assert_eq!(emu.read_byte(0x2007).unwrap(), 0x10 + offset as u8);
    }
}

#[test]
fn nametable_mirroring_pairs_banks() {
    // Horizontal mirroring: quadrants 0 and 1 share a bank.
    let mut emu = boot(&[]);
    set_vram_address(&mut emu, 0x2005);
    emu.write_byte(0x2007, 0x5A).unwrap();
    set_vram_address(&mut emu, 0x2405);
    emu.read_byte(0x2007).unwrap();
    assert_eq!(emu.read_byte(0x2007).unwrap(), 0x5A);

    // Vertical mirroring: quadrants 0 and 2 share a bank.
    let mut image = make_rom_image(&[]);
    image[6] = 1;
    let rom = RomState::load(&image).unwrap();
    let mut emu = EmuState::new(rom);
    set_vram_address(&mut emu, 0x2005);
    emu.write_byte(0x2007, 0xA5).unwrap();
    set_vram_address(&mut emu, 0x2805);
    emu.read_byte(0x2007).unwrap();
    assert_eq!(emu.read_byte(0x2007).unwrap(), 0xA5);
}

#[test]
fn scroll_latch_orders_x_then_y() {
    let mut emu = boot(&[]);
    emu.write_byte(0x2005, 0x21).unwrap();
    emu.write_byte(0x2005, 0x13).unwrap();
    assert_eq!(emu.ppu_scroll_x, 0x21);
    assert_eq!(emu.ppu_scroll_y, 0x13);
    assert!(!emu.ppu_scroll_latch);
}

#[test]
fn controller_reports_buttons_in_order() {
    let mut emu = boot(&[]);
    let pressed = [true, false, true, false, false, true, false, true];
    for (i, p) in pressed.iter().enumerate() {
        emu.set_button(i, *p);
    }
    emu.write_byte(0x4016, 0x01).unwrap();
    emu.write_byte(0x4016, 0x00).unwrap();
    for p in pressed {
        let bit = emu.read_byte(0x4016).unwrap();
        assert_eq!(bit & 1, if p { 1 } else { 0 });
    }
    // The index rotates modulo eight: the ninth read is button A again.
    assert_eq!(emu.read_byte(0x4016).unwrap(), 1);
}

#[test]
fn oam_dma_copies_a_ram_page_and_charges_cycles() {
    let mut emu = boot(&[]);
    for i in 0..256u16 {
        emu.write_byte(0x0200 + i, i as u8).unwrap();
    }
    let before = emu.cycle_count;
    assert_eq!(before % 2, 0);
    emu.write_byte(0x4014, 0x02).unwrap();
    assert_eq!(emu.cycle_count - before, 513);
    for i in 0..256usize {
        assert_eq!(emu.ppu_oam_ram[i], i as u8);
    }
}

#[test]
fn oam_dma_on_an_odd_cycle_takes_514() {
    // LDA $10 costs three cycles, leaving the counter odd.
    let mut emu = boot(&[0xA5, 0x10]);
    emu.run_one_instruction().unwrap();
    assert_eq!(emu.cycle_count % 2, 1);
    let before = emu.cycle_count;
    emu.write_byte(0x4014, 0x02).unwrap();
    assert_eq!(emu.cycle_count - before, 514);
}

#[test]
fn oam_dma_from_undecoded_pages_is_rejected() {
    let mut emu = boot(&[]);
    assert!(emu.write_byte(0x4014, 0x20).is_err());
    assert!(emu.write_byte(0x4014, 0x40).is_err());
    assert!(emu.write_byte(0x4014, 0x7F).is_err());
    assert!(emu.write_byte(0x4014, 0x1F).is_ok());
    assert!(emu.write_byte(0x4014, 0x80).is_ok());
}

#[test]
fn run_frame_fills_framebuffer_from_palette() {
    // LDA #$08; STA $2001 (background on); LDA #$80; STA $2000 (NMI on);
    // then spin: JMP $800A.
    let program = [
        0xA9, 0x08, 0x8D, 0x01, 0x20, 0xA9, 0x80, 0x8D, 0x00, 0x20, 0x4C, 0x0A, 0x80,
    ];
    let mut image = make_rom_image(&program);
    // NMI vector points at the spin loop.
    image[16 + 0x3FFA] = 0x0A;
    image[16 + 0x3FFB] = 0x80;
    let rom = RomState::load(&image).unwrap();
    let mut emu = EmuState::new(rom);

    emu.run_to_next_nmi().unwrap();
    assert!(emu.ppu_nmi_flag);
    assert_eq!(emu.ppu_status & 0x80, 0x80);

    // Palette RAM is all zero, so every drawn pixel is master palette
    // entry zero: (84, 84, 84, 255).
    let fb = emu.framebuffer();
    assert_eq!(fb.len(), 256 * 240 * 4);
    for p in 0..(256 * 240) {
        assert_eq!(fb[4 * p], 84);
        assert_eq!(fb[4 * p + 1], 84);
        assert_eq!(fb[4 * p + 2], 84);
        assert_eq!(fb[4 * p + 3], 255);
    }
}

#[test]
fn frames_alternate_odd_frame_skip() {
    // With rendering enabled, the pre-render line loses its first dot on
    // odd frames; this is only observable indirectly, but two frames must
    // still complete back to back.
    let program = [
        0xA9, 0x18, 0x8D, 0x01, 0x20, 0xA9, 0x80, 0x8D, 0x00, 0x20, 0x4C, 0x0A, 0x80,
    ];
    let mut image = make_rom_image(&program);
    image[16 + 0x3FFA] = 0x0A;
    image[16 + 0x3FFB] = 0x80;
    let rom = RomState::load(&image).unwrap();
    let mut emu = EmuState::new(rom);
    emu.run_to_next_nmi().unwrap();
    emu.run_to_next_nmi().unwrap();
    assert!(emu.ppu_nmi_flag);
}
