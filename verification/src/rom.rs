//! Cartridge state: immutable PRG and CHR byte arrays plus the nametable
//! mirror selector, created once from an iNES image and never mutated.
use vstd::prelude::*;

use crate::errors::EmuError;

verus! {

/// How the two physical nametable banks are mapped onto the four logical
/// nametable quadrants.
#[derive(Clone, Copy, PartialEq, Eq, Structural, Debug)]
pub enum NametableMirrorMode {
    Horizontal,
    Vertical,
}

/// The loaded cartridge: PRG ROM in 16 KiB units, CHR ROM in 8 KiB units,
/// and the mirror mode from the header.
pub struct RomState {
    pub prg_rom: Vec<u8>,
    pub chr_rom: Vec<u8>,
    pub nametable_mirror_mode: NametableMirrorMode,
}

impl RomState {
    /// A loadable cartridge has at least one PRG bank (so the CPU window has
    /// something to mirror) and at least one CHR bank (so every pattern-table
    /// fetch is in bounds).
    pub open spec fn wf(self) -> bool {
        &&& self.prg_rom@.len() > 0
        &&& self.prg_rom@.len() <= 0x400000
        &&& self.chr_rom@.len() >= 0x2000
        &&& self.chr_rom@.len() <= 0x200000
    }

    /// The byte count the header promises: 16 header bytes, then PRG,
    /// then CHR.
    pub open spec fn spec_image_len(content: Seq<u8>) -> int {
        16 + content[4] * 16384 + content[5] * 8192
    }

    /// Whether an image is accepted by `load`.
    pub open spec fn spec_load_ok(content: Seq<u8>) -> bool {
        &&& content.len() >= 16
        &&& content[4] != 0
        &&& content[5] != 0
        &&& content.len() >= Self::spec_image_len(content)
    }

    /// Parse an iNES image already read into memory.  Byte 4 gives the PRG
    /// size in 16 KiB units, byte 5 the CHR size in 8 KiB units, and bit 0 of
    /// byte 6 selects vertical mirroring, as canonical iNES defines it.
    /// Images shorter than the header promises, or declaring zero PRG or CHR
    /// banks, are rejected.
    pub fn load(content: &Vec<u8>) -> (r: Result<RomState, EmuError>)
        ensures
            r is Ok <==> Self::spec_load_ok(content@),
            r is Err ==> r == Err::<RomState, EmuError>(EmuError::InvalidCartridge),
            r matches Ok(rom) ==> {
                &&& rom.wf()
                &&& rom.prg_rom@ == content@.subrange(16, 16 + content@[4] * 16384)
                &&& rom.chr_rom@ == content@.subrange(
                    16 + content@[4] * 16384,
                    Self::spec_image_len(content@),
                )
                &&& rom.nametable_mirror_mode == (if content@[6] & 1 != 0 {
                    NametableMirrorMode::Vertical
                } else {
                    NametableMirrorMode::Horizontal
                })
            },
    {
        if content.len() < 16 {
            return Err(EmuError::InvalidCartridge);
        }
        let prg_units = content[4] as usize;
        let chr_units = content[5] as usize;
        if prg_units == 0 || chr_units == 0 {
            return Err(EmuError::InvalidCartridge);
        }
        let prg_size = prg_units * 16384;
        let chr_size = chr_units * 8192;
        if content.len() < 16 + prg_size + chr_size {
            return Err(EmuError::InvalidCartridge);
        }

        let prg_rom = copy_range(content, 16, prg_size);
        let chr_rom = copy_range(content, 16 + prg_size, chr_size);

        let nametable_mirror_mode = if content[6] & 1 != 0 {
            NametableMirrorMode::Vertical
        } else {
            NametableMirrorMode::Horizontal
        };

        Ok(RomState { prg_rom, chr_rom, nametable_mirror_mode })
    }
}

/// Copy `count` bytes of `content` starting at `start` into a fresh vector.
fn copy_range(content: &Vec<u8>, start: usize, count: usize) -> (r: Vec<u8>)
    requires
        start + count <= content@.len(),
    ensures
        r@ == content@.subrange(start as int, start + count),
{
    let n: usize = content.len();
    let mut r: Vec<u8> = Vec::new();
    let mut idx: usize = 0;
    while idx < count
        invariant
            idx <= count,
            start + count <= n,
            n == content@.len(),
            r@ == content@.subrange(start as int, start + idx),
        decreases count - idx,
    {
        r.push(content[start + idx]);
        idx = idx + 1;
        assert(r@ =~= content@.subrange(start as int, start + idx));
    }
    r
}

} // verus!
