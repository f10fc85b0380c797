//! The emulator state: CPU registers and RAM, PPU memories and position,
//! the controller latch, and the framebuffer, together with the small
//! helpers (flag packing, stack, reset) that the instruction core builds on.
use vstd::prelude::*;

use crate::rom::RomState;

verus! {

/// The six stored CPU flags.  The always-one bit and the "B" bit are not
/// state: they exist only in pushed byte representations.
#[derive(Clone, Copy, PartialEq, Eq, Structural, Debug)]
pub struct CpuFlags {
    pub carry: bool,
    pub zero: bool,
    pub interrupt_disable: bool,
    pub decimal: bool,
    pub overflow: bool,
    pub negative: bool,
}

/// One sprite selected for the current scanline, copied out of OAM.
#[derive(Clone, Copy, PartialEq, Eq, Structural, Debug)]
pub struct SpriteData {
    pub index: usize,
    pub y: u8,
    pub tile: u8,
    pub attributes: u8,
    pub x: u8,
}

/// The latched shift register behind address 0x4016: eight button states
/// and the index of the next one a read will report.
pub struct JoypadState {
    pub buttons: Vec<bool>,
    pub next_button: usize,
}

impl JoypadState {
    pub open spec fn wf(self) -> bool {
        &&& self.buttons@.len() == 8
        &&& self.next_button < 8
    }
}

/// The whole machine: cartridge, CPU core, PPU core, and framebuffer.
/// The bus is not a component of its own; it is the set of methods that
/// dispatch on CPU addresses.
pub struct EmuState {
    pub rom_state: RomState,
    /// 2 KiB internal RAM, mirrored through 0x0000-0x1FFF.
    pub ram: Vec<u8>,
    /// Monotonic CPU cycle counter.
    pub cycle_count: u64,
    /// The cycle count up to which the PPU has been simulated.
    pub last_ppu_cycle: u64,
    pub program_counter: u16,
    pub stack_pointer: u8,
    pub cpu_flags: CpuFlags,
    pub reg_a: u8,
    pub reg_x: u8,
    pub reg_y: u8,
    pub joypad1: JoypadState,
    pub ppu_ctrl: u8,
    pub ppu_mask: u8,
    /// Only bits 7 (VBlank) and 6 (sprite-0 hit) are ever set.
    pub ppu_status: u8,
    /// Scanline, -1 (pre-render) through 260.
    pub ppu_y: i32,
    /// Dot within the scanline, 0 through 340.
    pub ppu_x: i32,
    pub ppu_odd_frame: bool,
    /// The VRAM address latch written through 0x2006.
    pub ppu_address: u16,
    pub ppu_data_read_buffer: u8,
    /// Two 1 KiB nametable banks, bank 0 first.
    pub ppu_nametable_ram: Vec<u8>,
    /// 32 bytes of palette RAM.
    pub ppu_palette_ram: Vec<u8>,
    /// 256 bytes of sprite attribute memory.
    pub ppu_oam_ram: Vec<u8>,
    pub ppu_scroll_x: u8,
    pub ppu_scroll_y: u8,
    /// The single high/low toggle shared by the scroll and address latches.
    pub ppu_scroll_latch: bool,
    pub ppu_nmi_flag: bool,
    /// 256 x 240 RGBA pixels, row-major, top-left origin.
    pub frame_buffer: Vec<u8>,
    /// Up to eight sprites selected for the scanline being drawn.
    pub sprites_this_scanline: Vec<SpriteData>,
}

/// Number of bytes in the framebuffer: 256 * 240 pixels * 4 bytes.
pub const FRAME_BUFFER_BYTES: usize = 245760;

/// Whether a sprite selected into the scanline buffer covers scanline `y`:
/// its top row is one below its OAM y coordinate.
pub open spec fn sprite_on_scanline(s: SpriteData, y: int) -> bool {
    s.y + 1 <= y <= s.y + 8
}

/// The packed byte representation of the flags, with the always-one bit
/// (0x20) set and the "B" bit clear.
pub open spec fn spec_flags_to_byte(f: CpuFlags) -> u8 {
    0x20u8 | (if f.carry { 0x01u8 } else { 0u8 }) | (if f.zero { 0x02u8 } else { 0u8 })
        | (if f.interrupt_disable { 0x04u8 } else { 0u8 }) | (if f.decimal { 0x08u8 } else { 0u8 })
        | (if f.overflow { 0x40u8 } else { 0u8 }) | (if f.negative { 0x80u8 } else { 0u8 })
}

/// The flags encoded by a pulled byte; bits 4 and 5 carry no state.
pub open spec fn spec_byte_to_flags(v: u8) -> CpuFlags {
    CpuFlags {
        carry: v & 0x01 != 0,
        zero: v & 0x02 != 0,
        interrupt_disable: v & 0x04 != 0,
        decimal: v & 0x08 != 0,
        overflow: v & 0x40 != 0,
        negative: v & 0x80 != 0,
    }
}

/// Law: packing the six flags to a byte and unpacking that byte restores
/// every flag, whatever the byte carried in bits 4 and 5 (as a push by PHP
/// or BRK sets bit 4); unpacking discards those bits.
pub proof fn lemma_flags_round_trip(f: CpuFlags, extra: u8)
    requires
        extra & 0xCF == 0,
    ensures
        spec_byte_to_flags(spec_flags_to_byte(f) | extra) == f,
{
    let c = f.carry;
    let z = f.zero;
    let i = f.interrupt_disable;
    let d = f.decimal;
    let v = f.overflow;
    let n = f.negative;
    let b = spec_flags_to_byte(f);
    assert(b == 0x20u8 | (if c { 0x01u8 } else { 0u8 }) | (if z { 0x02u8 } else { 0u8 })
        | (if i { 0x04u8 } else { 0u8 }) | (if d { 0x08u8 } else { 0u8 })
        | (if v { 0x40u8 } else { 0u8 }) | (if n { 0x80u8 } else { 0u8 }));
    assert(((b | extra) & 0x01 != 0) == c && ((b | extra) & 0x02 != 0) == z
        && ((b | extra) & 0x04 != 0) == i && ((b | extra) & 0x08 != 0) == d
        && ((b | extra) & 0x40 != 0) == v && ((b | extra) & 0x80 != 0) == n) by (bit_vector)
        requires
            extra & 0xCF == 0,
            b == 0x20u8 | (if c { 0x01u8 } else { 0u8 }) | (if z { 0x02u8 } else { 0u8 })
                | (if i { 0x04u8 } else { 0u8 }) | (if d { 0x08u8 } else { 0u8 })
                | (if v { 0x40u8 } else { 0u8 }) | (if n { 0x80u8 } else { 0u8 }),
    ;
    assert(spec_byte_to_flags(b | extra) == f);
}

impl EmuState {
    /// Well-formedness: every memory has its architectural size, the PPU
    /// position is inside its frame, the PPU never lags a negative amount,
    /// and any sprites buffered while a visible scanline is being drawn
    /// really belong to that scanline.
    pub open spec fn wf(self) -> bool {
        &&& self.rom_state.wf()
        &&& self.ram@.len() == 2048
        &&& self.ppu_nametable_ram@.len() == 2048
        &&& self.ppu_palette_ram@.len() == 32
        &&& self.ppu_oam_ram@.len() == 256
        &&& self.frame_buffer@.len() == FRAME_BUFFER_BYTES
        &&& self.joypad1.wf()
        &&& -1 <= self.ppu_y <= 260
        &&& 0 <= self.ppu_x <= 340
        &&& self.last_ppu_cycle <= self.cycle_count
        &&& self.sprites_this_scanline@.len() <= 8
        &&& (0 <= self.ppu_y <= 239 && self.ppu_x >= 1) ==> forall|i: int|
            0 <= i < self.sprites_this_scanline@.len() ==> sprite_on_scanline(
                #[trigger] self.sprites_this_scanline@[i],
                self.ppu_y as int,
            )
    }

    /// Cold reset: PC at the start of the PRG window (simplified startup),
    /// stack pointer 0xFD, interrupts disabled, every memory zeroed, the
    /// PPU at the start of the pre-render scanline.
    pub fn new(rom_state: RomState) -> (r: EmuState)
        requires
            rom_state.wf(),
        ensures
            r.wf(),
            r.rom_state == rom_state,
            r.ram@ == Seq::new(2048, |i: int| 0u8),
            r.cycle_count == 0,
            r.last_ppu_cycle == 0,
            r.program_counter == 0x8000,
            r.stack_pointer == 0xFD,
            r.cpu_flags == (CpuFlags {
                carry: false,
                zero: false,
                interrupt_disable: true,
                decimal: false,
                overflow: false,
                negative: false,
            }),
            r.reg_a == 0 && r.reg_x == 0 && r.reg_y == 0,
            r.joypad1.buttons@ == Seq::new(8, |i: int| false),
            r.joypad1.next_button == 0,
            r.ppu_ctrl == 0 && r.ppu_mask == 0 && r.ppu_status == 0,
            r.ppu_x == 0 && r.ppu_y == -1,
            r.ppu_odd_frame == false,
            r.ppu_address == 0,
            r.ppu_data_read_buffer == 0,
            r.ppu_nametable_ram@ == Seq::new(2048, |i: int| 0u8),
            r.ppu_palette_ram@ == Seq::new(32, |i: int| 0u8),
            r.ppu_oam_ram@ == Seq::new(256, |i: int| 0u8),
            r.ppu_scroll_x == 0 && r.ppu_scroll_y == 0,
            r.ppu_scroll_latch == false,
            r.ppu_nmi_flag == false,
            r.frame_buffer@ == Seq::new(FRAME_BUFFER_BYTES as nat, |i: int| 0u8),
            r.sprites_this_scanline@ == Seq::<SpriteData>::empty(),
    {
        let result = EmuState {
            rom_state,
            ram: zero_bytes(2048),
            cycle_count: 0,
            last_ppu_cycle: 0,
            program_counter: 0x8000,
            stack_pointer: 0xFD,
            cpu_flags: CpuFlags {
                carry: false,
                zero: false,
                interrupt_disable: true,
                decimal: false,
                overflow: false,
                negative: false,
            },
            reg_a: 0,
            reg_x: 0,
            reg_y: 0,
            joypad1: JoypadState { buttons: false_bools(8), next_button: 0 },
            ppu_ctrl: 0,
            ppu_mask: 0,
            ppu_status: 0,
            ppu_x: 0,
            ppu_y: -1,
            ppu_odd_frame: false,
            ppu_address: 0,
            ppu_data_read_buffer: 0,
            ppu_nametable_ram: zero_bytes(2048),
            ppu_palette_ram: zero_bytes(32),
            ppu_oam_ram: zero_bytes(256),
            ppu_scroll_x: 0,
            ppu_scroll_y: 0,
            ppu_scroll_latch: false,
            ppu_nmi_flag: false,
            frame_buffer: zero_bytes(FRAME_BUFFER_BYTES),
            sprites_this_scanline: Vec::new(),
        };
        result
    }

    /// Record a host button state.  Buttons are indexed in report order:
    /// A, B, Select, Start, Up, Down, Left, Right.
    pub fn set_button(&mut self, index: usize, pressed: bool)
        requires
            old(self).wf(),
            index < 8,
        ensures
            final(self).wf(),
            *final(self) == (EmuState { joypad1: final(self).joypad1, ..*old(self) }),
            final(self).joypad1.buttons@ == old(self).joypad1.buttons@.update(index as int, pressed),
            final(self).joypad1.next_button == old(self).joypad1.next_button,
    {
        self.joypad1.buttons.set(index, pressed);
    }

    /// The most recently produced pixels: 256 * 240 * 4 RGBA bytes.
    pub fn framebuffer(&self) -> (r: &Vec<u8>)
        ensures
            r@ == self.frame_buffer@,
            self.wf() ==> r@.len() == FRAME_BUFFER_BYTES,
    {
        &self.frame_buffer
    }

    /// The stored flags packed into their byte representation, with the
    /// always-one bit set and the "B" bit clear.
    pub fn get_flags_as_u8(&self) -> (r: u8)
        ensures
            r == spec_flags_to_byte(self.cpu_flags),
    {
        0x20u8 | (if self.cpu_flags.carry { 0x01u8 } else { 0u8 })
            | (if self.cpu_flags.zero { 0x02u8 } else { 0u8 })
            | (if self.cpu_flags.interrupt_disable { 0x04u8 } else { 0u8 })
            | (if self.cpu_flags.decimal { 0x08u8 } else { 0u8 })
            | (if self.cpu_flags.overflow { 0x40u8 } else { 0u8 })
            | (if self.cpu_flags.negative { 0x80u8 } else { 0u8 })
    }

    /// Replace the stored flags with those a pulled byte encodes; bits 4
    /// and 5 of the byte are discarded.
    pub fn set_flags_as_u8(&mut self, value: u8)
        ensures
            *final(self) == (EmuState { cpu_flags: final(self).cpu_flags, ..*old(self) }),
            final(self).cpu_flags == spec_byte_to_flags(value),
    {
        self.cpu_flags = CpuFlags {
            carry: value & 0x01 != 0,
            zero: value & 0x02 != 0,
            interrupt_disable: value & 0x04 != 0,
            decimal: value & 0x08 != 0,
            overflow: value & 0x40 != 0,
            negative: value & 0x80 != 0,
        };
    }

    /// Store one byte on page 1 at the stack pointer, then decrement the
    /// pointer modulo 256.
    pub fn push_to_stack(&mut self, value: u8)
        requires
            old(self).wf(),
        ensures
            final(self).wf(),
            *final(self) == (EmuState {
                ram: final(self).ram,
                stack_pointer: final(self).stack_pointer,
                ..*old(self)
            }),
            final(self).ram@ == old(self).ram@.update(256 + old(self).stack_pointer, value),
            final(self).stack_pointer == (old(self).stack_pointer + 255) % 256,
    {
        self.ram.set(256 + self.stack_pointer as usize, value);
        self.stack_pointer = self.stack_pointer.wrapping_sub(1);
    }

    /// Increment the stack pointer modulo 256, then load the byte it now
    /// addresses on page 1.
    pub fn pull_from_stack(&mut self) -> (r: u8)
        requires
            old(self).wf(),
        ensures
            final(self).wf(),
            *final(self) == (EmuState { stack_pointer: final(self).stack_pointer, ..*old(self) }),
            final(self).stack_pointer == (old(self).stack_pointer + 1) % 256,
            r == old(self).ram@[256 + final(self).stack_pointer],
    {
        self.stack_pointer = self.stack_pointer.wrapping_add(1);
        self.ram[256 + self.stack_pointer as usize]
    }

    /// Set the zero and negative flags from an 8-bit result, as every
    /// arithmetic, logical, and load/transfer operation does.
    pub fn set_zero_negative_flags(&mut self, value: u8)
        ensures
            *final(self) == (EmuState { cpu_flags: final(self).cpu_flags, ..*old(self) }),
            final(self).cpu_flags == (CpuFlags {
                zero: value == 0,
                negative: value >= 128,
                ..old(self).cpu_flags
            }),
    {
        self.cpu_flags.zero = value == 0;
        self.cpu_flags.negative = value & 0x80 != 0;
        proof {
            assert((value & 0x80 != 0) == (value >= 128)) by (bit_vector);
        }
    }
}

/// A vector of `n` zero bytes.
fn zero_bytes(n: usize) -> (r: Vec<u8>)
    ensures
        r@ == Seq::new(n as nat, |i: int| 0u8),
{
    let mut r: Vec<u8> = Vec::new();
    let mut idx: usize = 0;
    while idx < n
        invariant
            idx <= n,
            r@ == Seq::new(idx as nat, |i: int| 0u8),
        decreases n - idx,
    {
        r.push(0);
        idx = idx + 1;
        assert(r@ =~= Seq::new(idx as nat, |i: int| 0u8));
    }
    r
}

/// A vector of `n` false values.
fn false_bools(n: usize) -> (r: Vec<bool>)
    ensures
        r@ == Seq::new(n as nat, |i: int| false),
{
    let mut r: Vec<bool> = Vec::new();
    let mut idx: usize = 0;
    while idx < n
        invariant
            idx <= n,
            r@ == Seq::new(idx as nat, |i: int| false),
        decreases n - idx,
    {
        r.push(false);
        idx = idx + 1;
        assert(r@ =~= Seq::new(idx as nat, |i: int| false));
    }
    r
}

} // verus!
