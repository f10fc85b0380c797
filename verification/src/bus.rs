//! The memory bus: CPU reads and writes dispatched on the address, with
//! RAM and PPU-register mirroring, PPU register side effects (which first
//! catch the PPU up to the current cycle), OAM DMA, and the controller
//! latch.
use vstd::prelude::*;

use crate::emu::EmuState;
use crate::errors::EmuError;
use crate::ppu::lemma_fb_from_palette_refl;
use crate::ppu::lemma_ppu_peek_agrees;
use crate::ppu::spec_fb_pixels_from_palette;
use crate::ppu::spec_nt_index;
use crate::ppu::spec_palette_write;
use crate::ppu::spec_ppu_fold;
use crate::ppu::spec_ppu_peek;
use crate::rom::RomState;

verus! {

/// Addresses whose reads have no side effect at all: internal RAM (with
/// its mirrors) and PRG ROM.
pub open spec fn spec_is_plain(address: int) -> bool {
    address < 0x2000 || address >= 0x8000
}

/// The PRG ROM byte behind a CPU address at or above 0x8000, mirrored
/// over the ROM's own length.  Opaque: callers reason about which byte
/// was read by name, not by re-deriving the mirror arithmetic.
#[verifier::opaque]
pub open spec fn spec_prg_byte(rom: RomState, address: int) -> u8 {
    rom.prg_rom@[(address - 0x8000) % (rom.prg_rom@.len() as int)]
}

/// The byte a plain read returns: RAM is mirrored every 2 KiB, PRG is
/// mirrored over its own length.
pub open spec fn spec_read_plain(s: EmuState, address: int) -> u8 {
    if address < 0x2000 {
        s.ram@[address % 2048]
    } else {
        spec_prg_byte(s.rom_state, address)
    }
}

/// Which PPU register a mirrored 0x2000-0x3FFF address selects.
pub open spec fn spec_ppu_reg(address: int) -> int {
    (address - 0x2000) % 8
}

/// The addresses a CPU read decodes: RAM, PPUSTATUS, PPUDATA (when the
/// VRAM address is inside PPU space), the APU stubs, the controllers,
/// and PRG ROM.
pub open spec fn spec_read_ok(s: EmuState, address: int) -> bool {
    ||| address < 0x2000
    ||| (0x2000 <= address < 0x4000 && spec_ppu_reg(address) != 4 && (spec_ppu_reg(address) == 7
        ==> s.ppu_address < 0x4000))
    ||| (0x4000 <= address <= 0x4013)
    ||| address == 0x4015
    ||| address == 0x4016
    ||| address == 0x4017
    ||| address >= 0x8000
}

/// The writes the bus accepts: RAM, the PPU registers (OAMADDR only with
/// value zero, PPUDATA only while the VRAM address is in PPU space and
/// not in read-only CHR), the APU stubs, the controller strobe, and OAM
/// DMA from a RAM or ROM page.
pub open spec fn spec_write_ok(s: EmuState, address: int, value: u8) -> bool {
    ||| address < 0x2000
    ||| (0x2000 <= address < 0x4000 && {
        let reg = spec_ppu_reg(address);
        ||| reg == 0
        ||| reg == 1
        ||| (reg == 3 && value == 0)
        ||| reg == 5
        ||| reg == 6
        ||| (reg == 7 && 0x2000 <= s.ppu_address < 0x4000)
    })
    ||| (0x4000 <= address <= 0x4013)
    ||| address == 0x4015
    ||| address == 0x4016
    ||| address == 0x4017
    ||| (address == 0x4014 && (value < 0x20 || value >= 0x80))
}

proof fn lemma_ctrl_clear_keeps_increment_bit()
    by (bit_vector)
    ensures
        forall|a: u8| ((a & 0xFC) & 4) == #[trigger] (a & 4),
{
}

impl EmuState {
    /// One CPU read.  Reads of RAM and ROM have no effect; a PPUSTATUS
    /// read first catches the PPU up, then clears the VBlank bit, the
    /// stored VRAM address, and the shared scroll/address latch toggle;
    /// a PPUDATA read returns the read buffer (palette reads return the
    /// palette directly), refills the buffer, and post-increments the
    /// VRAM address by 1 or 32; a read of a write-only PPU register is
    /// open bus: it catches the PPU up and reads back zero; a controller
    /// read shifts out one button.  Reads of any undecoded range fail
    /// and change nothing.
    pub fn read_byte(&mut self, address: u16) -> (r: Result<u8, EmuError>)
        requires
            old(self).wf(),
        ensures
            final(self).wf(),
            final(self).cycle_count == old(self).cycle_count,
            final(self).ram == old(self).ram,
            final(self).rom_state == old(self).rom_state,
            final(self).program_counter == old(self).program_counter,
            final(self).stack_pointer == old(self).stack_pointer,
            final(self).reg_a == old(self).reg_a,
            final(self).reg_x == old(self).reg_x,
            final(self).reg_y == old(self).reg_y,
            final(self).cpu_flags == old(self).cpu_flags,
            final(self).ppu_oam_ram == old(self).ppu_oam_ram,
            final(self).ppu_palette_ram == old(self).ppu_palette_ram,
            final(self).ppu_nametable_ram == old(self).ppu_nametable_ram,
            old(self).ppu_nmi_flag ==> final(self).ppu_nmi_flag,
            spec_fb_pixels_from_palette(
                final(self).frame_buffer@,
                old(self).frame_buffer@,
                old(self).ppu_palette_ram@,
            ),
            r is Ok <==> spec_read_ok(*old(self), address as int),
            r is Err ==> r == Err::<u8, EmuError>(EmuError::InvalidAddress) && *final(self)
                == *old(self),
            spec_is_plain(address as int) ==> *final(self) == *old(self) && r == Ok::<
                u8,
                EmuError,
            >(spec_read_plain(*old(self), address as int)),
            (0x2000 <= address < 0x4000 && spec_ppu_reg(address as int) == 2) ==> {
                &&& (r matches Ok(v) ==> final(self).ppu_status == (v & 0x7F))
                &&& (old(self).last_ppu_cycle == old(self).cycle_count ==> r == Ok::<u8, EmuError>(
                    old(self).ppu_status,
                ))
                &&& final(self).ppu_status & 0x80 == 0
                &&& final(self).ppu_scroll_latch == false
                &&& final(self).ppu_address == 0
                &&& final(self).joypad1 == old(self).joypad1
                &&& final(self).ppu_data_read_buffer == old(self).ppu_data_read_buffer
                &&& final(self).ppu_mask == old(self).ppu_mask
                &&& final(self).ppu_scroll_x == old(self).ppu_scroll_x
                &&& final(self).ppu_scroll_y == old(self).ppu_scroll_y
            },
            (0x2000 <= address < 0x4000 && spec_ppu_reg(address as int) == 7
                && old(self).ppu_address < 0x4000) ==> {
                &&& final(self).ppu_address == (old(self).ppu_address + (if old(self).ppu_ctrl & 4
                    != 0 {
                    32int
                } else {
                    1int
                })) % 0x10000
                &&& (old(self).ppu_address < 0x3F00 ==> r == Ok::<u8, EmuError>(
                    old(self).ppu_data_read_buffer,
                ) && final(self).ppu_data_read_buffer == spec_ppu_peek(
                    *old(self),
                    old(self).ppu_address as int,
                ))
                &&& (old(self).ppu_address >= 0x3F00 ==> r == Ok::<u8, EmuError>(
                    spec_ppu_peek(*old(self), old(self).ppu_address as int),
                ) && final(self).ppu_data_read_buffer == spec_ppu_peek(
                    *old(self),
                    old(self).ppu_address - 0x1000,
                ))
                &&& final(self).joypad1 == old(self).joypad1
                &&& final(self).ppu_scroll_latch == old(self).ppu_scroll_latch
            },
            (0x2000 <= address < 0x4000 && {
                let reg = spec_ppu_reg(address as int);
                reg == 0 || reg == 1 || reg == 3 || reg == 5 || reg == 6
            }) ==> r == Ok::<u8, EmuError>(0) && *final(self) == (EmuState {
                ppu_status: final(self).ppu_status,
                ppu_ctrl: final(self).ppu_ctrl,
                ppu_nmi_flag: final(self).ppu_nmi_flag,
                ppu_odd_frame: final(self).ppu_odd_frame,
                ppu_x: final(self).ppu_x,
                ppu_y: final(self).ppu_y,
                sprites_this_scanline: final(self).sprites_this_scanline,
                frame_buffer: final(self).frame_buffer,
                last_ppu_cycle: final(self).last_ppu_cycle,
                ..*old(self)
            }),
            address == 0x4016 ==> {
                &&& *final(self) == (EmuState { joypad1: final(self).joypad1, ..*old(self) })
                &&& final(self).joypad1.buttons == old(self).joypad1.buttons
                &&& final(self).joypad1.next_button == (old(self).joypad1.next_button + 1) % 8
                &&& r == Ok::<u8, EmuError>(
                    if old(self).joypad1.buttons@[old(self).joypad1.next_button as int] {
                        1u8
                    } else {
                        0u8
                    },
                )
            },
            ((0x4000 <= address <= 0x4013) || address == 0x4015 || address == 0x4017)
                ==> *final(self) == *old(self) && r == Ok::<u8, EmuError>(0),
    {
        proof {
            lemma_fb_from_palette_refl(self.frame_buffer@, self.ppu_palette_ram@);
            reveal(spec_prg_byte);
        }
        if address < 0x2000 {
            // Internal RAM, mirrored every 2 KiB.
            Ok(self.ram[(address % 2048) as usize])
        } else if address < 0x4000 {
            let reg = (address - 0x2000) % 8;
            if reg == 2 {
                // PPUSTATUS
                self.update_ppu();
                let result = self.ppu_status;
                self.ppu_status = self.ppu_status & 0x7F;
                self.ppu_address = 0;
                self.ppu_scroll_latch = false;
                proof {
                    assert(((result & 0x7F) & 0x80) == 0) by (bit_vector);
                }
                Ok(result)
            } else if reg == 7 {
                // PPUDATA
                if self.ppu_address >= 0x4000 {
                    return Err(EmuError::InvalidAddress);
                }
                let ghost before_catchup = *self;
                self.update_ppu();
                proof {
                    lemma_ppu_peek_agrees(*self, before_catchup, self.ppu_address as int);
                    lemma_ppu_peek_agrees(
                        *self,
                        before_catchup,
                        self.ppu_address - 0x1000,
                    );
                }
                let result: u8;
                if self.ppu_address >= 0x3F00 {
                    // Palette data is returned directly; the buffer picks
                    // up the nametable byte the palette address shadows.
                    result = self.read_ppu_byte(self.ppu_address);
                    self.ppu_data_read_buffer = self.read_ppu_byte(self.ppu_address - 0x1000);
                } else {
                    result = self.ppu_data_read_buffer;
                    self.ppu_data_read_buffer = self.read_ppu_byte(self.ppu_address);
                }
                proof {
                    lemma_ctrl_clear_keeps_increment_bit();
                }
                let increment: u16 = if self.ppu_ctrl & 4 != 0 {
                    32
                } else {
                    1
                };
                self.ppu_address = self.ppu_address.wrapping_add(increment);
                Ok(result)
            } else if reg == 4 {
                // OAMDATA is not decoded by this core.
                Err(EmuError::InvalidAddress)
            } else {
                // The write-only registers read back as open bus; the
                // catch-up still happens, as for every register touch.
                self.update_ppu();
                Ok(0)
            }
        } else if address == 0x4016 {
            // Controller 1: report one button, then rotate.
            let pressed = self.joypad1.buttons[self.joypad1.next_button];
            self.joypad1.next_button = (self.joypad1.next_button + 1) % 8;
            Ok(if pressed { 1 } else { 0 })
        } else if address <= 0x4013 || address == 0x4015 || address == 0x4017 {
            // APU and second-controller stubs.
            Ok(0)
        } else if address >= 0x8000 {
            // PRG ROM, mirrored over its own length.
            let index = (address - 0x8000) as usize;
            let len = self.rom_state.prg_rom.len();
            Ok(self.rom_state.prg_rom[index % len])
        } else {
            Err(EmuError::InvalidAddress)
        }
    }

    /// Fetch the byte at the program counter and advance the counter,
    /// wrapping at the top of the address space.
    pub fn read_next_program_byte(&mut self) -> (r: Result<u8, EmuError>)
        requires
            old(self).wf(),
        ensures
            final(self).wf(),
            final(self).cycle_count == old(self).cycle_count,
            final(self).ram == old(self).ram,
            final(self).rom_state == old(self).rom_state,
            final(self).stack_pointer == old(self).stack_pointer,
            final(self).reg_a == old(self).reg_a,
            final(self).reg_x == old(self).reg_x,
            final(self).reg_y == old(self).reg_y,
            final(self).cpu_flags == old(self).cpu_flags,
            old(self).ppu_nmi_flag ==> final(self).ppu_nmi_flag,
            r is Ok <==> spec_read_ok(*old(self), old(self).program_counter as int),
            r is Err ==> *final(self) == *old(self) && r == Err::<u8, EmuError>(
                EmuError::InvalidAddress,
            ),
            r is Ok ==> final(self).program_counter == (old(self).program_counter + 1) % 0x10000,
            spec_is_plain(old(self).program_counter as int) ==> r == Ok::<u8, EmuError>(
                spec_read_plain(*old(self), old(self).program_counter as int),
            ) && *final(self) == (EmuState {
                program_counter: final(self).program_counter,
                ..*old(self)
            }),
    {
        let pc = self.program_counter;
        match self.read_byte(pc) {
            Ok(value) => {
                self.program_counter = self.program_counter.wrapping_add(1);
                Ok(value)
            },
            Err(e) => Err(e),
        }
    }
}

impl EmuState {
    /// One CPU write.  RAM writes land in the mirrored 2 KiB; PPU
    /// register writes first catch the PPU up, then set control, mask,
    /// scroll (through the shared latch), or the VRAM address (shifting
    /// the previous value left one byte); PPUDATA stores through the PPU
    /// address space and post-increments; OAM DMA copies a whole RAM or
    /// ROM page into OAM and charges 513 cycles plus one on odd cycles;
    /// a controller write resets the shift index.  Writes the bus does
    /// not decode fail and change nothing.
    #[verifier::rlimit(100)]
    pub fn write_byte(&mut self, address: u16, value: u8) -> (r: Result<(), EmuError>)
        requires
            old(self).wf(),
            old(self).cycle_count <= u64::MAX - 1024,
        ensures
            final(self).wf(),
            final(self).rom_state == old(self).rom_state,
            final(self).program_counter == old(self).program_counter,
            final(self).stack_pointer == old(self).stack_pointer,
            final(self).reg_a == old(self).reg_a,
            final(self).reg_x == old(self).reg_x,
            final(self).reg_y == old(self).reg_y,
            final(self).cpu_flags == old(self).cpu_flags,
            final(self).joypad1.buttons == old(self).joypad1.buttons,
            old(self).ppu_nmi_flag ==> final(self).ppu_nmi_flag,
            spec_fb_pixels_from_palette(
                final(self).frame_buffer@,
                old(self).frame_buffer@,
                old(self).ppu_palette_ram@,
            ),
            r is Ok <==> spec_write_ok(*old(self), address as int, value),
            address != 0x4014 ==> final(self).cycle_count == old(self).cycle_count,
            address >= 0x2000 ==> final(self).ram == old(self).ram,
            r is Err ==> *final(self) == *old(self) && r == Err::<(), EmuError>(
                if 0x2000 <= address < 0x4000 && spec_ppu_reg(address as int) == 3 && value != 0 {
                    EmuError::UnsupportedFeature
                } else {
                    EmuError::InvalidAddress
                },
            ),
            address < 0x2000 ==> r == Ok::<(), EmuError>(()) && *final(self) == (EmuState {
                ram: final(self).ram,
                ..*old(self)
            }) && final(self).ram@ == old(self).ram@.update(address as int % 2048, value),
            (0x2000 <= address < 0x4000 && spec_ppu_reg(address as int) == 0) ==> *final(self)
                == (EmuState {
                ppu_status: final(self).ppu_status,
                ppu_ctrl: final(self).ppu_ctrl,
                ppu_nmi_flag: final(self).ppu_nmi_flag,
                ppu_odd_frame: final(self).ppu_odd_frame,
                ppu_x: final(self).ppu_x,
                ppu_y: final(self).ppu_y,
                sprites_this_scanline: final(self).sprites_this_scanline,
                frame_buffer: final(self).frame_buffer,
                last_ppu_cycle: final(self).last_ppu_cycle,
                ..*old(self)
            }) && final(self).ppu_ctrl == value,
            (0x2000 <= address < 0x4000 && spec_ppu_reg(address as int) == 1) ==> *final(self)
                == (EmuState {
                ppu_status: final(self).ppu_status,
                ppu_ctrl: final(self).ppu_ctrl,
                ppu_nmi_flag: final(self).ppu_nmi_flag,
                ppu_odd_frame: final(self).ppu_odd_frame,
                ppu_x: final(self).ppu_x,
                ppu_y: final(self).ppu_y,
                sprites_this_scanline: final(self).sprites_this_scanline,
                frame_buffer: final(self).frame_buffer,
                last_ppu_cycle: final(self).last_ppu_cycle,
                ppu_mask: final(self).ppu_mask,
                ..*old(self)
            }) && final(self).ppu_mask == value,
            (0x2000 <= address < 0x4000 && spec_ppu_reg(address as int) == 3 && value == 0)
                ==> *final(self) == (EmuState {
                ppu_status: final(self).ppu_status,
                ppu_ctrl: final(self).ppu_ctrl,
                ppu_nmi_flag: final(self).ppu_nmi_flag,
                ppu_odd_frame: final(self).ppu_odd_frame,
                ppu_x: final(self).ppu_x,
                ppu_y: final(self).ppu_y,
                sprites_this_scanline: final(self).sprites_this_scanline,
                frame_buffer: final(self).frame_buffer,
                last_ppu_cycle: final(self).last_ppu_cycle,
                ..*old(self)
            }),
            (0x2000 <= address < 0x4000 && spec_ppu_reg(address as int) == 5) ==> {
                &&& *final(self) == (EmuState {
                    ppu_status: final(self).ppu_status,
                    ppu_ctrl: final(self).ppu_ctrl,
                    ppu_nmi_flag: final(self).ppu_nmi_flag,
                    ppu_odd_frame: final(self).ppu_odd_frame,
                    ppu_x: final(self).ppu_x,
                    ppu_y: final(self).ppu_y,
                    sprites_this_scanline: final(self).sprites_this_scanline,
                    frame_buffer: final(self).frame_buffer,
                    last_ppu_cycle: final(self).last_ppu_cycle,
                    ppu_scroll_x: final(self).ppu_scroll_x,
                    ppu_scroll_y: final(self).ppu_scroll_y,
                    ppu_scroll_latch: final(self).ppu_scroll_latch,
                    ..*old(self)
                })
                &&& final(self).ppu_scroll_latch == !old(self).ppu_scroll_latch
                &&& (!old(self).ppu_scroll_latch ==> final(self).ppu_scroll_x == value
                    && final(self).ppu_scroll_y == old(self).ppu_scroll_y)
                &&& (old(self).ppu_scroll_latch ==> final(self).ppu_scroll_y == value
                    && final(self).ppu_scroll_x == old(self).ppu_scroll_x)
            },
            (0x2000 <= address < 0x4000 && spec_ppu_reg(address as int) == 6) ==> {
                &&& *final(self) == (EmuState {
                    ppu_status: final(self).ppu_status,
                    ppu_ctrl: final(self).ppu_ctrl,
                    ppu_nmi_flag: final(self).ppu_nmi_flag,
                    ppu_odd_frame: final(self).ppu_odd_frame,
                    ppu_x: final(self).ppu_x,
                    ppu_y: final(self).ppu_y,
                    sprites_this_scanline: final(self).sprites_this_scanline,
                    frame_buffer: final(self).frame_buffer,
                    last_ppu_cycle: final(self).last_ppu_cycle,
                    ppu_address: final(self).ppu_address,
                    ..*old(self)
                })
                &&& final(self).ppu_address == (old(self).ppu_address * 256) % 0x10000 + value
            },
            (0x2000 <= address < 0x4000 && spec_ppu_reg(address as int) == 7
                && 0x2000 <= old(self).ppu_address < 0x4000) ==> {
                let fold = spec_ppu_fold(old(self).ppu_address as int);
                &&& final(self).ppu_address == (old(self).ppu_address + (if old(self).ppu_ctrl & 4
                    != 0 {
                    32int
                } else {
                    1int
                })) % 0x10000
                &&& (fold < 0x3F00 ==> *final(self) == (EmuState {
                    ppu_status: final(self).ppu_status,
                    ppu_ctrl: final(self).ppu_ctrl,
                    ppu_nmi_flag: final(self).ppu_nmi_flag,
                    ppu_odd_frame: final(self).ppu_odd_frame,
                    ppu_x: final(self).ppu_x,
                    ppu_y: final(self).ppu_y,
                    sprites_this_scanline: final(self).sprites_this_scanline,
                    frame_buffer: final(self).frame_buffer,
                    last_ppu_cycle: final(self).last_ppu_cycle,
                    ppu_nametable_ram: final(self).ppu_nametable_ram,
                    ppu_address: final(self).ppu_address,
                    ..*old(self)
                }) && final(self).ppu_nametable_ram@ == old(self).ppu_nametable_ram@.update(
                    spec_nt_index(old(self).rom_state.nametable_mirror_mode, fold),
                    value,
                ))
                &&& (fold >= 0x3F00 ==> *final(self) == (EmuState {
                    ppu_status: final(self).ppu_status,
                    ppu_ctrl: final(self).ppu_ctrl,
                    ppu_nmi_flag: final(self).ppu_nmi_flag,
                    ppu_odd_frame: final(self).ppu_odd_frame,
                    ppu_x: final(self).ppu_x,
                    ppu_y: final(self).ppu_y,
                    sprites_this_scanline: final(self).sprites_this_scanline,
                    frame_buffer: final(self).frame_buffer,
                    last_ppu_cycle: final(self).last_ppu_cycle,
                    ppu_palette_ram: final(self).ppu_palette_ram,
                    ppu_address: final(self).ppu_address,
                    ..*old(self)
                }) && final(self).ppu_palette_ram@ == spec_palette_write(
                    old(self).ppu_palette_ram@,
                    fold - 0x3F00,
                    value,
                ))
            },
            (address == 0x4014 && r is Ok) ==> {
                &&& *final(self) == (EmuState {
                    ppu_status: final(self).ppu_status,
                    ppu_ctrl: final(self).ppu_ctrl,
                    ppu_nmi_flag: final(self).ppu_nmi_flag,
                    ppu_odd_frame: final(self).ppu_odd_frame,
                    ppu_x: final(self).ppu_x,
                    ppu_y: final(self).ppu_y,
                    sprites_this_scanline: final(self).sprites_this_scanline,
                    frame_buffer: final(self).frame_buffer,
                    last_ppu_cycle: final(self).last_ppu_cycle,
                    ppu_oam_ram: final(self).ppu_oam_ram,
                    cycle_count: final(self).cycle_count,
                    ..*old(self)
                })
                &&& final(self).ppu_oam_ram@ == Seq::new(
                    256,
                    |i: int| spec_read_plain(*old(self), value * 256 + i),
                )
                &&& final(self).cycle_count == old(self).cycle_count + 513
                    + (old(self).cycle_count % 2)
            },
            address == 0x4016 ==> *final(self) == (EmuState {
                joypad1: final(self).joypad1,
                ..*old(self)
            }) && final(self).joypad1.next_button == 0
                && final(self).joypad1.buttons == old(self).joypad1.buttons,
            ((0x4000 <= address <= 0x4013) || address == 0x4015 || address == 0x4017)
                ==> *final(self) == *old(self),
    {
        proof {
            lemma_fb_from_palette_refl(self.frame_buffer@, self.ppu_palette_ram@);
        }
        if address < 0x2000 {
            self.ram.set((address % 2048) as usize, value);
            Ok(())
        } else if address < 0x4000 {
            let reg = (address - 0x2000) % 8;
            if reg == 0 {
                // PPUCTRL
                self.update_ppu();
                self.ppu_ctrl = value;
                Ok(())
            } else if reg == 1 {
                // PPUMASK
                self.update_ppu();
                self.ppu_mask = value;
                Ok(())
            } else if reg == 3 {
                // OAMADDR: only a zero value is supported.
                if value != 0 {
                    return Err(EmuError::UnsupportedFeature);
                }
                self.update_ppu();
                Ok(())
            } else if reg == 5 {
                // PPUSCROLL: first write X, second write Y.
                self.update_ppu();
                if !self.ppu_scroll_latch {
                    self.ppu_scroll_x = value;
                } else {
                    self.ppu_scroll_y = value;
                }
                self.ppu_scroll_latch = !self.ppu_scroll_latch;
                Ok(())
            } else if reg == 6 {
                // PPUADDR: two writes compose a 16-bit address.
                self.update_ppu();
                self.ppu_address = self.ppu_address.wrapping_mul(256) + (value as u16);
                Ok(())
            } else if reg == 7 {
                // PPUDATA
                if self.ppu_address < 0x2000 || self.ppu_address >= 0x4000 {
                    return Err(EmuError::InvalidAddress);
                }
                self.update_ppu();
                self.write_ppu_byte(self.ppu_address, value);
                proof {
                    lemma_ctrl_clear_keeps_increment_bit();
                }
                let increment: u16 = if self.ppu_ctrl & 4 != 0 {
                    32
                } else {
                    1
                };
                self.ppu_address = self.ppu_address.wrapping_add(increment);
                Ok(())
            } else {
                Err(EmuError::InvalidAddress)
            }
        } else if address == 0x4014 {
            // OAM DMA, from a RAM or ROM page; pages over undecoded space
            // would fail partway through, so they are rejected whole.
            if !(value < 0x20 || value >= 0x80) {
                return Err(EmuError::InvalidAddress);
            }
            self.oam_dma(value);
            Ok(())
        } else if address == 0x4016 {
            // Controller strobe: reset the shift index.
            self.joypad1.next_button = 0;
            Ok(())
        } else if address <= 0x4013 || address == 0x4015 || address == 0x4017 {
            // APU and second-controller stubs ignore writes.
            Ok(())
        } else {
            Err(EmuError::InvalidAddress)
        }
    }

    /// Copy the 256 bytes of one RAM or ROM page into OAM, charge the
    /// 513 DMA cycles (plus one when the counter is odd), and catch the
    /// PPU up.
    #[verifier::rlimit(100)]
    fn oam_dma(&mut self, value: u8)
        requires
            old(self).wf(),
            old(self).cycle_count <= u64::MAX - 1024,
            value < 0x20 || value >= 0x80,
        ensures
            final(self).wf(),
            *final(self) == (EmuState {
                ppu_status: final(self).ppu_status,
                ppu_ctrl: final(self).ppu_ctrl,
                ppu_nmi_flag: final(self).ppu_nmi_flag,
                ppu_odd_frame: final(self).ppu_odd_frame,
                ppu_x: final(self).ppu_x,
                ppu_y: final(self).ppu_y,
                sprites_this_scanline: final(self).sprites_this_scanline,
                frame_buffer: final(self).frame_buffer,
                last_ppu_cycle: final(self).last_ppu_cycle,
                ppu_oam_ram: final(self).ppu_oam_ram,
                cycle_count: final(self).cycle_count,
                ..*old(self)
            }),
            final(self).ppu_oam_ram@ == Seq::new(
                256,
                |i: int| spec_read_plain(*old(self), value * 256 + i),
            ),
            final(self).cycle_count == old(self).cycle_count + 513 + (old(self).cycle_count % 2),
            old(self).ppu_nmi_flag ==> final(self).ppu_nmi_flag,
            spec_fb_pixels_from_palette(
                final(self).frame_buffer@,
                old(self).frame_buffer@,
                old(self).ppu_palette_ram@,
            ),
    {
        proof {
            lemma_fb_from_palette_refl(self.frame_buffer@, self.ppu_palette_ram@);
        }
        let ghost pre = *old(self);
        let base: u16 = (value as u16) * 256;
        let mut index: usize = 0;
        while index < 256
            invariant
                self.wf(),
                *self == (EmuState { ppu_oam_ram: self.ppu_oam_ram, ..pre }),
                value < 0x20 || value >= 0x80,
                base == value * 256,
                index <= 256,
                self.ppu_oam_ram@.len() == 256,
                forall|k: int|
                    0 <= k < index ==> self.ppu_oam_ram@[k] == spec_read_plain(pre, base + k),
                forall|k: int| index <= k < 256 ==> self.ppu_oam_ram@[k] == pre.ppu_oam_ram@[k],
            decreases 256 - index,
        {
            let source: u16 = base + index as u16;
            assert(spec_is_plain(source as int));
            let byte = match self.read_byte(source) {
                Ok(v) => v,
                Err(_) => 0,
            };
            self.ppu_oam_ram.set(index, byte);
            index = index + 1;
        }
        if self.cycle_count % 2 == 1 {
            self.cycle_count = self.cycle_count + 1;
        }
        self.cycle_count = self.cycle_count + 513;
        self.update_ppu();
        proof {
            assert(self.ppu_oam_ram@ =~= Seq::new(
                256,
                |i: int| spec_read_plain(pre, value * 256 + i),
            ));
        }
    }
}

} // verus!
