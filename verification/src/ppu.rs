//! The picture processing unit: its address space (pattern tables in CHR,
//! two nametable banks behind mirroring, palette RAM with its aliased
//! entries), sprite evaluation, and the per-dot pixel pipeline that fills
//! the framebuffer and raises VBlank.
use vstd::prelude::*;

use crate::emu::EmuState;
use crate::emu::SpriteData;
use crate::emu::FRAME_BUFFER_BYTES;
use crate::rom::NametableMirrorMode;

verus! {

/// Which physical nametable bank backs logical quadrant `quadrant`
/// (0 through 3): horizontal mirroring stacks the banks vertically,
/// vertical mirroring stacks them side by side.
pub open spec fn spec_mirror_bank(mode: NametableMirrorMode, quadrant: int) -> int {
    match mode {
        NametableMirrorMode::Horizontal => quadrant / 2,
        NametableMirrorMode::Vertical => quadrant % 2,
    }
}

/// The palette RAM slot a 5-bit palette offset lands in: offsets 0x10,
/// 0x14, 0x18 and 0x1C alias their low-bank partners.
pub open spec fn spec_palette_slot(offset: int) -> int {
    if offset == 0x10 || offset == 0x14 || offset == 0x18 || offset == 0x1C {
        offset - 0x10
    } else {
        offset
    }
}

/// Reading palette RAM at a palette-space offset (0 through 0xFF,
/// reduced modulo 32, then folded through the aliases).
pub open spec fn spec_palette_read(pal: Seq<u8>, offset: int) -> u8 {
    pal[spec_palette_slot(offset % 32)]
}

/// Writing palette RAM at a palette-space offset.
pub open spec fn spec_palette_write(pal: Seq<u8>, offset: int, value: u8) -> Seq<u8> {
    pal.update(spec_palette_slot(offset % 32), value)
}

/// Law: a palette write to any of the aliased high-bank offsets (0x10,
/// 0x14, 0x18, 0x1C) is observable at the paired low-bank offset, and a
/// write to the low-bank offset is observable at the high one.
pub proof fn lemma_palette_mirror(pal: Seq<u8>, offset: int, value: u8)
    requires
        pal.len() == 32,
        offset == 0x10 || offset == 0x14 || offset == 0x18 || offset == 0x1C,
    ensures
        spec_palette_read(spec_palette_write(pal, offset, value), offset - 0x10) == value,
        spec_palette_read(spec_palette_write(pal, offset - 0x10, value), offset) == value,
{
}

/// PPU addresses 0x3000 through 0x3EFF mirror the nametable region one
/// 4 KiB below them.
pub open spec fn spec_ppu_fold(address: int) -> int {
    if 0x3000 <= address <= 0x3EFF {
        address - 0x1000
    } else {
        address
    }
}

/// Where a folded nametable address lands in the 2 KiB of nametable RAM.
pub open spec fn spec_nt_index(mode: NametableMirrorMode, folded: int) -> int {
    spec_mirror_bank(mode, (folded - 0x2000) / 0x400) * 0x400 + (folded - 0x2000) % 0x400
}

/// The byte a PPU-space read returns: CHR ROM below 0x2000, mirrored
/// nametable RAM below 0x3F00 (after folding), palette RAM above.
#[verifier::opaque]
pub open spec fn spec_ppu_peek(s: EmuState, address: int) -> u8 {
    let a = spec_ppu_fold(address);
    if a < 0x2000 {
        s.rom_state.chr_rom@[a]
    } else if a < 0x3000 {
        s.ppu_nametable_ram@[spec_nt_index(s.rom_state.nametable_mirror_mode, a)]
    } else {
        spec_palette_read(s.ppu_palette_ram@, a - 0x3F00)
    }
}

/// The two low bits of one pattern-table pixel, given the two plane bytes
/// of the tile row and the pixel's position inside the row.
pub open spec fn spec_pattern_pixel(plane0: u8, plane1: u8, x: u8) -> u8 {
    ((plane0 >> (7 - x) as u8) & 1) | (((plane1 >> (7 - x) as u8) & 1) << 1)
}

/// The four RGBA bytes starting at `base`.
pub open spec fn spec_rgba_at(fb: Seq<u8>, base: int) -> (u8, u8, u8, u8) {
    (fb[base], fb[base + 1], fb[base + 2], fb[base + 3])
}

/// The canonical 64-entry master palette as a mathematical function:
/// the RGBA bytes `master_palette` returns for each colour index.  The
/// exact bytes are part of the external interface.
#[verifier::opaque]
pub open spec fn spec_master_palette(colour_index: u8) -> (u8, u8, u8, u8) {
    match colour_index {
        0 => (84u8, 84u8, 84u8, 255u8),
        1 => (0u8, 30u8, 116u8, 255u8),
        2 => (8u8, 16u8, 144u8, 255u8),
        3 => (48u8, 0u8, 136u8, 255u8),
        4 => (68u8, 0u8, 100u8, 255u8),
        5 => (92u8, 0u8, 48u8, 255u8),
        6 => (84u8, 4u8, 0u8, 255u8),
        7 => (60u8, 24u8, 0u8, 255u8),
        8 => (32u8, 42u8, 0u8, 255u8),
        9 => (8u8, 58u8, 0u8, 255u8),
        10 => (0u8, 64u8, 0u8, 255u8),
        11 => (0u8, 60u8, 0u8, 255u8),
        12 => (0u8, 50u8, 60u8, 255u8),
        13 => (0u8, 0u8, 0u8, 255u8),
        14 => (0u8, 0u8, 0u8, 255u8),
        15 => (0u8, 0u8, 0u8, 255u8),
        16 => (152u8, 150u8, 152u8, 255u8),
        17 => (8u8, 76u8, 196u8, 255u8),
        18 => (48u8, 50u8, 236u8, 255u8),
        19 => (92u8, 30u8, 228u8, 255u8),
        20 => (136u8, 20u8, 176u8, 255u8),
        21 => (160u8, 20u8, 100u8, 255u8),
        22 => (152u8, 34u8, 32u8, 255u8),
        23 => (120u8, 60u8, 0u8, 255u8),
        24 => (84u8, 90u8, 0u8, 255u8),
        25 => (40u8, 114u8, 0u8, 255u8),
        26 => (8u8, 124u8, 0u8, 255u8),
        27 => (0u8, 118u8, 40u8, 255u8),
        28 => (0u8, 102u8, 120u8, 255u8),
        29 => (0u8, 0u8, 0u8, 255u8),
        30 => (0u8, 0u8, 0u8, 255u8),
        31 => (0u8, 0u8, 0u8, 255u8),
        32 => (236u8, 238u8, 236u8, 255u8),
        33 => (76u8, 154u8, 236u8, 255u8),
        34 => (120u8, 124u8, 236u8, 255u8),
        35 => (176u8, 98u8, 236u8, 255u8),
        36 => (228u8, 84u8, 236u8, 255u8),
        37 => (236u8, 88u8, 180u8, 255u8),
        38 => (236u8, 106u8, 100u8, 255u8),
        39 => (212u8, 136u8, 32u8, 255u8),
        40 => (160u8, 170u8, 0u8, 255u8),
        41 => (116u8, 196u8, 0u8, 255u8),
        42 => (76u8, 208u8, 32u8, 255u8),
        43 => (56u8, 204u8, 108u8, 255u8),
        44 => (56u8, 180u8, 204u8, 255u8),
        45 => (60u8, 60u8, 60u8, 255u8),
        46 => (0u8, 0u8, 0u8, 255u8),
        47 => (0u8, 0u8, 0u8, 255u8),
        48 => (236u8, 238u8, 236u8, 255u8),
        49 => (168u8, 204u8, 236u8, 255u8),
        50 => (188u8, 188u8, 236u8, 255u8),
        51 => (212u8, 178u8, 236u8, 255u8),
        52 => (236u8, 174u8, 236u8, 255u8),
        53 => (236u8, 174u8, 212u8, 255u8),
        54 => (236u8, 180u8, 176u8, 255u8),
        55 => (228u8, 196u8, 144u8, 255u8),
        56 => (204u8, 210u8, 120u8, 255u8),
        57 => (180u8, 222u8, 120u8, 255u8),
        58 => (168u8, 226u8, 144u8, 255u8),
        59 => (152u8, 226u8, 180u8, 255u8),
        60 => (160u8, 214u8, 228u8, 255u8),
        61 => (160u8, 162u8, 160u8, 255u8),
        62 => (0u8, 0u8, 0u8, 255u8),
        63 => (0u8, 0u8, 0u8, 255u8),
        _ => (0u8, 0u8, 0u8, 255u8),
    }
}

/// Look up one colour of the master palette.  Colour indices are six bits
/// wide; callers fold palette RAM bytes with `& 0x3F` first.
pub fn master_palette(colour_index: u8) -> (r: (u8, u8, u8, u8))
    ensures
        r == spec_master_palette(colour_index),
{
    proof {
        reveal(spec_master_palette);
    }
    match colour_index {
        0 => (84, 84, 84, 255),
        1 => (0, 30, 116, 255),
        2 => (8, 16, 144, 255),
        3 => (48, 0, 136, 255),
        4 => (68, 0, 100, 255),
        5 => (92, 0, 48, 255),
        6 => (84, 4, 0, 255),
        7 => (60, 24, 0, 255),
        8 => (32, 42, 0, 255),
        9 => (8, 58, 0, 255),
        10 => (0, 64, 0, 255),
        11 => (0, 60, 0, 255),
        12 => (0, 50, 60, 255),
        13 => (0, 0, 0, 255),
        14 => (0, 0, 0, 255),
        15 => (0, 0, 0, 255),
        16 => (152, 150, 152, 255),
        17 => (8, 76, 196, 255),
        18 => (48, 50, 236, 255),
        19 => (92, 30, 228, 255),
        20 => (136, 20, 176, 255),
        21 => (160, 20, 100, 255),
        22 => (152, 34, 32, 255),
        23 => (120, 60, 0, 255),
        24 => (84, 90, 0, 255),
        25 => (40, 114, 0, 255),
        26 => (8, 124, 0, 255),
        27 => (0, 118, 40, 255),
        28 => (0, 102, 120, 255),
        29 => (0, 0, 0, 255),
        30 => (0, 0, 0, 255),
        31 => (0, 0, 0, 255),
        32 => (236, 238, 236, 255),
        33 => (76, 154, 236, 255),
        34 => (120, 124, 236, 255),
        35 => (176, 98, 236, 255),
        36 => (228, 84, 236, 255),
        37 => (236, 88, 180, 255),
        38 => (236, 106, 100, 255),
        39 => (212, 136, 32, 255),
        40 => (160, 170, 0, 255),
        41 => (116, 196, 0, 255),
        42 => (76, 208, 32, 255),
        43 => (56, 204, 108, 255),
        44 => (56, 180, 204, 255),
        45 => (60, 60, 60, 255),
        46 => (0, 0, 0, 255),
        47 => (0, 0, 0, 255),
        48 => (236, 238, 236, 255),
        49 => (168, 204, 236, 255),
        50 => (188, 188, 236, 255),
        51 => (212, 178, 236, 255),
        52 => (236, 174, 236, 255),
        53 => (236, 174, 212, 255),
        54 => (236, 180, 176, 255),
        55 => (228, 196, 144, 255),
        56 => (204, 210, 120, 255),
        57 => (180, 222, 120, 255),
        58 => (168, 226, 144, 255),
        59 => (152, 226, 180, 255),
        60 => (160, 214, 228, 255),
        61 => (160, 162, 160, 255),
        62 => (0, 0, 0, 255),
        63 => (0, 0, 0, 255),
        _ => (0, 0, 0, 255),
    }
}

impl EmuState {
    /// Read one byte of PPU address space.  Every pattern-table, nametable,
    /// and palette fetch of the pixel pipeline goes through here.
    pub fn read_ppu_byte(&self, address: u16) -> (r: u8)
        requires
            self.wf(),
            address < 0x4000,
        ensures
            r == spec_ppu_peek(*self, address as int),
    {
        proof {
            reveal(spec_ppu_peek);
        }
        let a: u16 = if 0x3000 <= address && address <= 0x3EFF {
            address - 0x1000
        } else {
            address
        };
        if a < 0x2000 {
            self.rom_state.chr_rom[a as usize]
        } else if a < 0x3000 {
            let rel = (a - 0x2000) as usize;
            let quadrant = rel / 0x400;
            let bank = match self.rom_state.nametable_mirror_mode {
                NametableMirrorMode::Horizontal => quadrant / 2,
                NametableMirrorMode::Vertical => quadrant % 2,
            };
            self.ppu_nametable_ram[bank * 0x400 + rel % 0x400]
        } else {
            let offset = ((a - 0x3F00) % 32) as usize;
            let slot = if offset == 0x10 || offset == 0x14 || offset == 0x18 || offset == 0x1C {
                offset - 0x10
            } else {
                offset
            };
            self.ppu_palette_ram[slot]
        }
    }

    /// Write one byte of PPU address space.  CHR ROM is read-only, so the
    /// bus rejects addresses below 0x2000 before calling here.
    pub fn write_ppu_byte(&mut self, address: u16, value: u8)
        requires
            old(self).wf(),
            0x2000 <= address < 0x4000,
        ensures
            final(self).wf(),
            spec_ppu_fold(address as int) < 0x3F00 ==> {
                &&& *final(self) == (EmuState {
                    ppu_nametable_ram: final(self).ppu_nametable_ram,
                    ..*old(self)
                })
                &&& final(self).ppu_nametable_ram@ == old(self).ppu_nametable_ram@.update(
                    spec_nt_index(
                        old(self).rom_state.nametable_mirror_mode,
                        spec_ppu_fold(address as int),
                    ),
                    value,
                )
            },
            spec_ppu_fold(address as int) >= 0x3F00 ==> {
                &&& *final(self) == (EmuState {
                    ppu_palette_ram: final(self).ppu_palette_ram,
                    ..*old(self)
                })
                &&& final(self).ppu_palette_ram@ == spec_palette_write(
                    old(self).ppu_palette_ram@,
                    spec_ppu_fold(address as int) - 0x3F00,
                    value,
                )
            },
    {
        let a: u16 = if 0x3000 <= address && address <= 0x3EFF {
            address - 0x1000
        } else {
            address
        };
        if a < 0x3000 {
            let rel = (a - 0x2000) as usize;
            let quadrant = rel / 0x400;
            let bank = match self.rom_state.nametable_mirror_mode {
                NametableMirrorMode::Horizontal => quadrant / 2,
                NametableMirrorMode::Vertical => quadrant % 2,
            };
            self.ppu_nametable_ram.set(bank * 0x400 + rel % 0x400, value);
        } else {
            let offset = ((a - 0x3F00) % 32) as usize;
            let slot = if offset == 0x10 || offset == 0x14 || offset == 0x18 || offset == 0x1C {
                offset - 0x10
            } else {
                offset
            };
            self.ppu_palette_ram.set(slot, value);
        }
    }

    /// Fetch the 2-bit pixel at (x, y) of a tile: two planes eight bytes
    /// apart, most significant bit leftmost.
    pub fn get_pixel_from_pattern_table(&self, pt_base: u16, tile_index: u8, x: u8, y: u8) -> (r:
        u8)
        requires
            self.wf(),
            pt_base == 0 || pt_base == 0x1000,
            x < 8,
            y < 8,
        ensures
            r == spec_pattern_pixel(
                spec_ppu_peek(*self, pt_base + tile_index * 16 + y),
                spec_ppu_peek(*self, pt_base + tile_index * 16 + y + 8),
                x,
            ),
            r <= 3,
    {
        let plane_0_address: u16 = pt_base + (tile_index as u16) * 16 + (y as u16);
        let plane_0_row = self.read_ppu_byte(plane_0_address);
        let plane_1_row = self.read_ppu_byte(plane_0_address + 8);
        let shift: u8 = 7 - x;
        let bit_0 = (plane_0_row >> shift) & 1;
        let bit_1 = (plane_1_row >> shift) & 1;
        proof {
            let p0 = plane_0_row;
            let p1 = plane_1_row;
            assert((((p0 >> shift) & 1) | (((p1 >> shift) & 1) << 1)) <= 3) by (bit_vector);
        }
        bit_0 | (bit_1 << 1)
    }
}


/// The sprite OAM entry `i` describes, carrying its OAM index.
pub open spec fn spec_oam_sprite(oam: Seq<u8>, i: int) -> SpriteData {
    SpriteData {
        index: i as usize,
        y: oam[4 * i],
        tile: oam[4 * i + 1],
        attributes: oam[4 * i + 2],
        x: oam[4 * i + 3],
    }
}

/// Whether OAM entry `i` covers scanline `y`: the sprite occupies the
/// eight scanlines just below its stored y coordinate.
pub open spec fn spec_sprite_matches(oam: Seq<u8>, i: int, y: int) -> bool {
    oam[4 * i] + 1 <= y <= oam[4 * i] + 8
}

/// The sprites among OAM entries 0 through `n`-1 that cover scanline `y`,
/// in OAM order, without the eight-sprite cap.
pub open spec fn spec_sprites_upto(oam: Seq<u8>, y: int, n: int) -> Seq<SpriteData>
    decreases n,
{
    if n <= 0 {
        Seq::empty()
    } else if spec_sprite_matches(oam, n - 1, y) {
        spec_sprites_upto(oam, y, n - 1) + seq![spec_oam_sprite(oam, n - 1)]
    } else {
        spec_sprites_upto(oam, y, n - 1)
    }
}

/// What sprite evaluation selects for scanline `y`: the first eight
/// matching OAM entries, in OAM order.
pub open spec fn spec_scanline_sprites(oam: Seq<u8>, y: int) -> Seq<SpriteData> {
    let all = spec_sprites_upto(oam, y, 64);
    if all.len() <= 8 {
        all
    } else {
        all.take(8)
    }
}

/// Once eight sprites have matched among the first `i` OAM entries,
/// scanning further entries changes nothing about the first eight.
proof fn lemma_sprites_upto_extend(oam: Seq<u8>, y: int, i: int, j: int)
    requires
        0 <= i <= j,
        spec_sprites_upto(oam, y, i).len() >= 8,
    ensures
        spec_sprites_upto(oam, y, j).len() >= 8,
        spec_sprites_upto(oam, y, j).take(8) == spec_sprites_upto(oam, y, i).take(8),
    decreases j - i,
{
    if i < j {
        lemma_sprites_upto_extend(oam, y, i, j - 1);
        assert(spec_sprites_upto(oam, y, j).take(8) =~= spec_sprites_upto(oam, y, j - 1).take(8));
    }
}

impl EmuState {
    /// Rebuild the scanline sprite buffer at the start of a visible
    /// scanline: scan OAM in order and keep the first eight sprites that
    /// cover this line.
    pub fn evaluate_scanline_sprites(&mut self)
        requires
            old(self).wf(),
            0 <= old(self).ppu_y <= 239,
        ensures
            *final(self) == (EmuState {
                sprites_this_scanline: final(self).sprites_this_scanline,
                ..*old(self)
            }),
            final(self).sprites_this_scanline@ == spec_scanline_sprites(
                old(self).ppu_oam_ram@,
                old(self).ppu_y as int,
            ),
            final(self).sprites_this_scanline@.len() <= 8,
            forall|i: int| 0 <= i < final(self).sprites_this_scanline@.len()
                ==> crate::emu::sprite_on_scanline(
                #[trigger] final(self).sprites_this_scanline@[i],
                old(self).ppu_y as int,
            ),
            final(self).wf(),
    {
        let ghost pre = *old(self);
        self.sprites_this_scanline = Vec::new();
        let mut i: usize = 0;
        while i < 64 && self.sprites_this_scanline.len() < 8
            invariant
                i <= 64,
                *self == (EmuState {
                    sprites_this_scanline: self.sprites_this_scanline,
                    ..pre
                }),
                pre.wf(),
                0 <= pre.ppu_y <= 239,
                self.sprites_this_scanline@ == spec_sprites_upto(
                    pre.ppu_oam_ram@,
                    pre.ppu_y as int,
                    i as int,
                ),
                self.sprites_this_scanline@.len() <= 8,
                forall|k: int| 0 <= k < self.sprites_this_scanline@.len()
                    ==> crate::emu::sprite_on_scanline(
                    #[trigger] self.sprites_this_scanline@[k],
                    pre.ppu_y as int,
                ),
            decreases 64 - i,
        {
            let ghost prefix = self.sprites_this_scanline@;
            let sprite_y = self.ppu_oam_ram[i * 4];
            let top = sprite_y as i32 + 1;
            if self.ppu_y >= top && self.ppu_y < top + 8 {
                let s = SpriteData {
                    index: i,
                    y: sprite_y,
                    tile: self.ppu_oam_ram[i * 4 + 1],
                    attributes: self.ppu_oam_ram[i * 4 + 2],
                    x: self.ppu_oam_ram[i * 4 + 3],
                };
                self.sprites_this_scanline.push(s);
                proof {
                    assert(self.sprites_this_scanline@ =~= prefix + seq![
                        spec_oam_sprite(pre.ppu_oam_ram@, i as int),
                    ]);
                }
            }
            i = i + 1;
        }
        proof {
            let oam = pre.ppu_oam_ram@;
            let y = pre.ppu_y as int;
            if self.sprites_this_scanline@.len() == 8 && i < 64 {
                lemma_sprites_upto_extend(oam, y, i as int, 64);
                assert(spec_sprites_upto(oam, y, i as int).take(8) =~= spec_sprites_upto(
                    oam,
                    y,
                    i as int,
                ));
            }
        }
    }
}


/// One PPU dot's effect on the scan position: the odd-frame skip and
/// toggle at the pre-render line's first dot, then the advance that
/// wraps dot 341 to the next scanline and scanline 261 back to the
/// pre-render line.
pub open spec fn spec_ppu_tick(x: int, y: int, odd: bool, mask: u8) -> (int, int, bool) {
    let x1: int = if y == -1 && x == 0 && odd && (mask & 0x18) != 0 {
        1
    } else {
        x
    };
    let odd1: bool = if y == -1 && x == 0 {
        !odd
    } else {
        odd
    };
    if x1 + 1 == 341 {
        if y + 1 == 261 {
            (0, -1, odd1)
        } else {
            (0, y + 1, odd1)
        }
    } else {
        (x1 + 1, y, odd1)
    }
}

/// The scan position after `n` dots from the given position, under a
/// fixed mask.
pub open spec fn spec_ppu_position_after(x: int, y: int, odd: bool, mask: u8, n: nat) -> (
    int,
    int,
    bool,
)
    decreases n,
{
    if n == 0 {
        (x, y, odd)
    } else {
        let prev = spec_ppu_position_after(x, y, odd, mask, (n - 1) as nat);
        spec_ppu_tick(prev.0, prev.1, prev.2, mask)
    }
}

/// Whether the `n` dots starting at the given position include a dot
/// that begins at (tx, ty): either one of the first `n` - 1 does, or
/// the last of the `n` dots starts there.
pub open spec fn spec_span_passes(
    x: int,
    y: int,
    odd: bool,
    mask: u8,
    n: nat,
    tx: int,
    ty: int,
) -> bool
    decreases n,
{
    if n == 0 {
        false
    } else {
        spec_span_passes(x, y, odd, mask, (n - 1) as nat, tx, ty) || ({
            let t = spec_ppu_position_after(x, y, odd, mask, (n - 1) as nat);
            t.0 == tx && t.1 == ty
        })
    }
}

/// Whether the `n` dots starting at the given position include a
/// visible dot (scanline 0 through 239, dot 1 through 256), the only
/// dots that write the framebuffer.
pub open spec fn spec_span_draws(x: int, y: int, odd: bool, mask: u8, n: nat) -> bool
    decreases n,
{
    if n == 0 {
        false
    } else {
        spec_span_draws(x, y, odd, mask, (n - 1) as nat) || ({
            let t = spec_ppu_position_after(x, y, odd, mask, (n - 1) as nat);
            0 <= t.1 <= 239 && 1 <= t.0 <= 256
        })
    }
}

/// Every pixel of `fb` either still holds its bytes from `base_fb` or has
/// been overwritten with a master-palette colour selected by some palette
/// RAM entry of `pal`.
#[verifier::opaque]
pub open spec fn spec_fb_pixels_from_palette(fb: Seq<u8>, base_fb: Seq<u8>, pal: Seq<u8>) -> bool {
    forall|p: int|
        #![trigger spec_rgba_at(fb, 4 * p)]
        0 <= p < 61440 ==> spec_rgba_at(fb, 4 * p) == spec_rgba_at(base_fb, 4 * p) || (exists|pi: int|
            0 <= pi < 32 && spec_rgba_at(fb, 4 * p) == spec_master_palette(#[trigger] pal[pi] & 0x3F))
}

/// Pixel provenance is transitive across successive framebuffer states
/// drawn against the same palette.
pub(crate) proof fn lemma_fb_from_palette_trans(fb0: Seq<u8>, fb1: Seq<u8>, fb2: Seq<u8>, pal: Seq<u8>)
    requires
        spec_fb_pixels_from_palette(fb1, fb0, pal),
        spec_fb_pixels_from_palette(fb2, fb1, pal),
    ensures
        spec_fb_pixels_from_palette(fb2, fb0, pal),
{
    reveal(spec_fb_pixels_from_palette);
    assert forall|p: int|
        #![trigger spec_rgba_at(fb2, 4 * p)]
        0 <= p < 61440 implies spec_rgba_at(fb2, 4 * p) == spec_rgba_at(fb0, 4 * p) || (exists|
        pi: int,
    |
        0 <= pi < 32 && spec_rgba_at(fb2, 4 * p) == spec_master_palette(#[trigger] pal[pi]
            & 0x3F)) by {
        if spec_rgba_at(fb2, 4 * p) == spec_rgba_at(fb1, 4 * p) {
            if spec_rgba_at(fb1, 4 * p) != spec_rgba_at(fb0, 4 * p) {
                let pi = choose|pi: int|
                    0 <= pi < 32 && spec_rgba_at(fb1, 4 * p) == spec_master_palette(
                        pal[pi] & 0x3F,
                    );
                assert(spec_rgba_at(fb2, 4 * p) == spec_master_palette(pal[pi] & 0x3F));
            }
        } else {
            let pi = choose|pi: int|
                0 <= pi < 32 && spec_rgba_at(fb2, 4 * p) == spec_master_palette(pal[pi] & 0x3F);
            assert(spec_rgba_at(fb2, 4 * p) == spec_master_palette(pal[pi] & 0x3F));
        }
    }
}

/// A framebuffer trivially has pixel provenance relative to itself.
pub(crate) proof fn lemma_fb_from_palette_refl(fb: Seq<u8>, pal: Seq<u8>)
    ensures
        spec_fb_pixels_from_palette(fb, fb, pal),
{
    reveal(spec_fb_pixels_from_palette);
}

proof fn lemma_u8_and_le_all()
    by (bit_vector)
    ensures
        forall|a: u8, m: u8| #[trigger] (a & m) <= m,
{
}

/// Two states with the same cartridge, nametable RAM, and palette RAM
/// read back the same PPU-space bytes.
pub(crate) proof fn lemma_ppu_peek_agrees(s1: EmuState, s2: EmuState, address: int)
    requires
        s1.rom_state == s2.rom_state,
        s1.ppu_nametable_ram == s2.ppu_nametable_ram,
        s1.ppu_palette_ram == s2.ppu_palette_ram,
    ensures
        spec_ppu_peek(s1, address) == spec_ppu_peek(s2, address),
{
    reveal(spec_ppu_peek);
}

proof fn lemma_status_bits()
    by (bit_vector)
    ensures
        forall|s: u8| (((#[trigger] (s & 0xBF)) & 0x80) != 0) == ((s & 0x80) != 0),
        forall|s: u8| (((#[trigger] (s | 0x40)) & 0x80) != 0) == ((s & 0x80) != 0),
        forall|s: u8| ((#[trigger] (s | 0x80)) & 0x80) != 0,
        forall|s: u8| ((#[trigger] (s & 0xBF)) & 0x40) == 0,
{
}

proof fn lemma_ctrl_mask_idem()
    by (bit_vector)
    ensures
        forall|a: u8| ((a & 0xFC) & 0xFC) == #[trigger] (a & 0xFC),
        forall|a: u8| (((#[trigger] (a & 0xFC)) & 0x80)) == (a & 0x80),
{
}

proof fn lemma_nt_select_xor()
    by (bit_vector)
    ensures
        forall|s: u16| s <= 3 ==> #[trigger] (s ^ 1) <= 3,
        forall|s: u16| s <= 3 ==> #[trigger] (s ^ 2) <= 3,
{
}

impl EmuState {
    /// Scan this scanline's sprite buffer in OAM order for the first
    /// sprite with an opaque pixel at the current dot, honouring the flip
    /// bits of its attribute byte.  Returns its sprite palette index
    /// (always between 1 and 31), whether it draws in front of the
    /// background, and whether it is OAM sprite 0.
    fn first_opaque_sprite(&self) -> (r: Option<(u8, bool, bool)>)
        requires
            self.wf(),
            1 <= self.ppu_x <= 256,
            0 <= self.ppu_y <= 239,
        ensures
            r matches Some(t) ==> 1 <= t.0 < 32,
    {
        let pattern_table_base: u16 = if self.ppu_ctrl & 0x08 != 0 {
            0x1000
        } else {
            0
        };
        let count = self.sprites_this_scanline.len();
        let mut j: usize = 0;
        while j < count
            invariant
                self.wf(),
                1 <= self.ppu_x <= 256,
                0 <= self.ppu_y <= 239,
                pattern_table_base == 0 || pattern_table_base == 0x1000,
                count == self.sprites_this_scanline@.len(),
                j <= count,
            decreases count - j,
        {
            let sprite = self.sprites_this_scanline[j];
            let sprite_x = sprite.x as i32;
            if self.ppu_x - 1 >= sprite_x && self.ppu_x - 1 < sprite_x + 8 {
                let mut px: i32 = self.ppu_x - 1 - sprite_x;
                if sprite.attributes & 0x40 != 0 {
                    px = 7 - px;
                }
                assert(crate::emu::sprite_on_scanline(
                    self.sprites_this_scanline@[j as int],
                    self.ppu_y as int,
                ));
                let mut py: i32 = self.ppu_y - 1 - sprite.y as i32;
                if sprite.attributes & 0x80 != 0 {
                    py = 7 - py;
                }
                let pixel = self.get_pixel_from_pattern_table(
                    pattern_table_base,
                    sprite.tile,
                    px as u8,
                    py as u8,
                );
                if pixel != 0 {
                    proof {
                        lemma_u8_and_le_all();
                    }
                    let palette = 4 + (sprite.attributes & 3);
                    let sprite_pixel = pixel + palette * 4;
                    let in_front = sprite.attributes & 0x20 == 0;
                    return Some((sprite_pixel, in_front, sprite.index == 0));
                }
            }
            j = j + 1;
        }
        None
    }

    /// The background palette index (0 through 15) at the current dot:
    /// world-space position from the scroll shadows, nametable crossing
    /// by the select bits, then tile, attribute quadrant, and pattern
    /// bits.
    #[verifier::rlimit(100)]
    fn background_pixel_index(&self) -> (r: u8)
        requires
            self.wf(),
            1 <= self.ppu_x <= 256,
            0 <= self.ppu_y <= 239,
        ensures
            r < 16,
    {
        proof {
            lemma_u8_and_le_all();
            lemma_nt_select_xor();
        }
        let mut nt_select: u16 = (self.ppu_ctrl & 3) as u16;

        // Position in world space, in pixels.
        let nt_x: i32 = self.ppu_scroll_x as i32 + self.ppu_x - 1;
        let nt_y: i32 = self.ppu_scroll_y as i32 + self.ppu_y;

        // Tile coordinates, crossing into the adjacent nametable when
        // the scrolled position runs past this one.
        let mut tile_x: i32 = nt_x / 8;
        if tile_x >= 32 {
            tile_x = tile_x - 32;
            nt_select = nt_select ^ 1;
        }
        let mut tile_y: i32 = nt_y / 8;
        if tile_y >= 32 {
            tile_y = tile_y - 32;
            nt_select = nt_select ^ 2;
        }
        let nametable_base: u16 = 0x2000 + nt_select * 0x400;

        let nt_entry = self.read_ppu_byte(nametable_base + (tile_y * 32 + tile_x) as u16);
        let attr_index: i32 = (tile_y / 4) * 8 + tile_x / 4;
        let attribute_byte = self.read_ppu_byte(nametable_base + 0x3C0 + attr_index as u16);
        let attribute_idx: i32 = (tile_y % 4) / 2 * 2 + (tile_x % 4) / 2;
        let attribute = (attribute_byte >> ((attribute_idx * 2) as u8)) & 3;

        let pattern_table_base: u16 = if self.ppu_ctrl & 0x10 != 0 {
            0x1000
        } else {
            0
        };
        let palette_index = self.get_pixel_from_pattern_table(
            pattern_table_base,
            nt_entry,
            (nt_x % 8) as u8,
            (nt_y % 8) as u8,
        );

        if palette_index == 0 {
            0
        } else {
            palette_index + attribute * 4
        }
    }

    /// Draw one visible dot: compose the background pixel (from scroll,
    /// nametable, attribute, and pattern data) with the first opaque
    /// sprite pixel by the priority table, record a sprite-0 hit when
    /// sprite 0 and the background are both opaque, and store the
    /// palette colour as four RGBA bytes.
    #[verifier::rlimit(80)]
    fn draw_visible_dot(&mut self)
        requires
            old(self).wf(),
            1 <= old(self).ppu_x <= 256,
            0 <= old(self).ppu_y <= 239,
        ensures
            final(self).wf(),
            *final(self) == (EmuState {
                frame_buffer: final(self).frame_buffer,
                ppu_status: final(self).ppu_status,
                ..*old(self)
            }),
            final(self).ppu_status == old(self).ppu_status || final(self).ppu_status == (old(self).ppu_status | 0x40),
            ({
                let base = 4 * (old(self).ppu_y * 256 + old(self).ppu_x - 1);
                &&& forall|k: int|
                    0 <= k < FRAME_BUFFER_BYTES && !(base <= k < base + 4)
                        ==> final(self).frame_buffer@[k] == old(self).frame_buffer@[k]
                &&& exists|pi: int|
                    0 <= pi < 32 && spec_rgba_at(final(self).frame_buffer@, base)
                        == spec_master_palette(#[trigger] old(self).ppu_palette_ram@[pi] & 0x3F)
            }),
            spec_fb_pixels_from_palette(
                final(self).frame_buffer@,
                old(self).frame_buffer@,
                old(self).ppu_palette_ram@,
            ),
    {
        let bg_pixel: u8 = if self.ppu_mask & 0x08 != 0 {
            self.background_pixel_index()
        } else {
            0
        };
        let mut sprite_pixel: u8 = 0;
        let mut sprite_in_front: bool = true;

        if self.ppu_mask & 0x10 != 0 {
            match self.first_opaque_sprite() {
                Some(found) => {
                    sprite_pixel = found.0;
                    sprite_in_front = found.1;
                    if found.2 && bg_pixel != 0 {
                        // Sprite 0 and the background are both opaque here.
                        self.ppu_status = self.ppu_status | 0x40;
                    }
                },
                None => {},
            }
        }
        assert(sprite_pixel < 32);

        // Priority: an opaque sprite in front wins; behind the background
        // it shows only through transparent background pixels.
        let palette_index: u8 = if sprite_in_front {
            if sprite_pixel == 0 {
                bg_pixel
            } else {
                sprite_pixel
            }
        } else {
            if bg_pixel == 0 {
                sprite_pixel
            } else {
                bg_pixel
            }
        };

        // Palette RAM holds six-bit colour indices.
        let colour_index = self.ppu_palette_ram[palette_index as usize] & 0x3F;
        let pixel = master_palette(colour_index);

        let base = ((self.ppu_y * 256 + self.ppu_x - 1) * 4) as usize;
        self.frame_buffer.set(base, pixel.0);
        self.frame_buffer.set(base + 1, pixel.1);
        self.frame_buffer.set(base + 2, pixel.2);
        self.frame_buffer.set(base + 3, pixel.3);

        proof {
            reveal(spec_fb_pixels_from_palette);
            let fb = self.frame_buffer@;
            let pal = old(self).ppu_palette_ram@;
            let b = 4 * (old(self).ppu_y * 256 + old(self).ppu_x - 1);
            assert(spec_rgba_at(fb, b) == spec_master_palette(pal[palette_index as int] & 0x3F));
            assert forall|p: int|
                #![trigger spec_rgba_at(fb, 4 * p)]
                0 <= p < 61440 implies spec_rgba_at(fb, 4 * p) == spec_rgba_at(
                old(self).frame_buffer@,
                4 * p,
            ) || (exists|pi: int|
                0 <= pi < 32 && spec_rgba_at(fb, 4 * p) == spec_master_palette(#[trigger] pal[pi]
                    & 0x3F)) by {
                if 4 * p == b {
                    assert(spec_rgba_at(fb, 4 * p) == spec_master_palette(
                        pal[palette_index as int] & 0x3F,
                    ));
                } else {
                    assert(spec_rgba_at(fb, 4 * p) == spec_rgba_at(old(self).frame_buffer@, 4 * p));
                }
            }
        }
    }

    /// Advance the PPU by one dot: run whatever work this (dot, scanline)
    /// cell owns, then step the position, wrapping dot 341 to the next
    /// scanline and scanline 261 back to the pre-render line.
    #[verifier::rlimit(80)]
    fn step_dot(&mut self)
        requires
            old(self).wf(),
        ensures
            final(self).wf(),
            *final(self) == (EmuState {
                ppu_status: final(self).ppu_status,
                ppu_ctrl: final(self).ppu_ctrl,
                ppu_nmi_flag: final(self).ppu_nmi_flag,
                ppu_odd_frame: final(self).ppu_odd_frame,
                ppu_x: final(self).ppu_x,
                ppu_y: final(self).ppu_y,
                sprites_this_scanline: final(self).sprites_this_scanline,
                frame_buffer: final(self).frame_buffer,
                ..*old(self)
            }),
            final(self).ppu_ctrl == old(self).ppu_ctrl || final(self).ppu_ctrl == (old(self).ppu_ctrl & 0xFC),
            old(self).ppu_nmi_flag ==> final(self).ppu_nmi_flag,
            old(self).ppu_status & 0x80 != 0 ==> final(self).ppu_status & 0x80 != 0,
            final(self).ppu_nmi_flag ==> old(self).ppu_nmi_flag || old(self).ppu_ctrl & 0x80 != 0,
            final(self).ppu_nmi_flag ==> old(self).ppu_nmi_flag || (old(self).ppu_x == 1 && old(self).ppu_y == 241),
            !(0 <= old(self).ppu_y <= 239 && 1 <= old(self).ppu_x <= 256) ==> final(self).frame_buffer == old(self).frame_buffer,
            !(old(self).ppu_x == 0 && 0 <= old(self).ppu_y <= 239) ==> final(self).sprites_this_scanline == old(self).sprites_this_scanline,
            (old(self).ppu_x == 0 && 0 <= old(self).ppu_y <= 239) ==> final(self).sprites_this_scanline@ == spec_scanline_sprites(
                old(self).ppu_oam_ram@,
                old(self).ppu_y as int,
            ),
            (old(self).ppu_x == 1 && old(self).ppu_y == 241) ==> final(self).ppu_status & 0x80 != 0
                && (final(self).ppu_nmi_flag <==> (old(self).ppu_nmi_flag || old(self).ppu_ctrl
                & 0x80 != 0)),
            (old(self).ppu_x == 1 && old(self).ppu_y == -1) ==> final(self).ppu_status & 0x40 == 0
                && final(self).ppu_ctrl == (old(self).ppu_ctrl & 0xFC),
            ({
                let t = spec_ppu_tick(
                    old(self).ppu_x as int,
                    old(self).ppu_y as int,
                    old(self).ppu_odd_frame,
                    old(self).ppu_mask,
                );
                &&& final(self).ppu_x == t.0
                &&& final(self).ppu_y == t.1
                &&& final(self).ppu_odd_frame == t.2
            }),
            spec_fb_pixels_from_palette(
                final(self).frame_buffer@,
                old(self).frame_buffer@,
                old(self).ppu_palette_ram@,
            ),
    {
        proof {
            lemma_fb_from_palette_refl(self.frame_buffer@, self.ppu_palette_ram@);
            lemma_status_bits();
        }
        // On odd frames with rendering enabled the pre-render scanline
        // loses its first dot.
        if self.ppu_y == -1 && self.ppu_x == 0 {
            if self.ppu_odd_frame && (self.ppu_mask & 0x18) != 0 {
                self.ppu_x = 1;
            }
            self.ppu_odd_frame = !self.ppu_odd_frame;
        }

        if self.ppu_y == -1 && self.ppu_x == 1 {
            // Pre-render: clear the sprite-0 hit and reset the nametable
            // select bits (a simplification of the coarse scroll reset).
            self.ppu_status = self.ppu_status & 0xBF;
            self.ppu_ctrl = self.ppu_ctrl & 0xFC;
        } else if self.ppu_y >= 0 && self.ppu_y <= 239 && self.ppu_x == 0 {
            self.evaluate_scanline_sprites();
        } else if self.ppu_y >= 0 && self.ppu_y <= 239 && self.ppu_x >= 1 && self.ppu_x <= 256 {
            self.draw_visible_dot();
        } else if self.ppu_y == 241 && self.ppu_x == 1 {
            // VBlank begins: raise the status bit, and the NMI request
            // line when the control register enables it.
            self.ppu_status = self.ppu_status | 0x80;
            if self.ppu_ctrl & 0x80 != 0 {
                self.ppu_nmi_flag = true;
            }
        }

        self.ppu_x = self.ppu_x + 1;
        if self.ppu_x == 341 {
            self.ppu_x = 0;
            self.ppu_y = self.ppu_y + 1;
            if self.ppu_y == 261 {
                self.ppu_y = -1;
            }
        }
    }

    /// Catch the PPU up to the CPU: run three dots for every CPU cycle
    /// elapsed since the last catch-up, so the scan position evolves by
    /// exactly that many dot steps.  CPU-visible CPU state is untouched;
    /// catching up twice changes nothing; control can only lose its
    /// nametable-select bits, and loses them whenever the span crosses
    /// the pre-render dot; VBlank is raised (and the NMI request, when
    /// control enables it) exactly from the span crossing dot (1, 241);
    /// the framebuffer moves only when a visible dot was simulated, and
    /// every byte it touches is a master-palette colour selected by
    /// palette RAM; the sprite buffer changes only to a scanline's
    /// evaluated sprite list.
    pub fn update_ppu(&mut self)
        requires
            old(self).wf(),
        ensures
            final(self).wf(),
            *final(self) == (EmuState {
                ppu_status: final(self).ppu_status,
                ppu_ctrl: final(self).ppu_ctrl,
                ppu_nmi_flag: final(self).ppu_nmi_flag,
                ppu_odd_frame: final(self).ppu_odd_frame,
                ppu_x: final(self).ppu_x,
                ppu_y: final(self).ppu_y,
                sprites_this_scanline: final(self).sprites_this_scanline,
                frame_buffer: final(self).frame_buffer,
                last_ppu_cycle: final(self).last_ppu_cycle,
                ..*old(self)
            }),
            final(self).last_ppu_cycle == old(self).cycle_count,
            final(self).ppu_ctrl == old(self).ppu_ctrl || final(self).ppu_ctrl == (old(self).ppu_ctrl & 0xFC),
            old(self).ppu_nmi_flag ==> final(self).ppu_nmi_flag,
            old(self).ppu_status & 0x80 != 0 ==> final(self).ppu_status & 0x80 != 0,
            final(self).ppu_nmi_flag ==> old(self).ppu_nmi_flag || old(self).ppu_ctrl & 0x80 != 0,
            old(self).last_ppu_cycle == old(self).cycle_count ==> *final(self) == *old(self),
            ({
                let t = spec_ppu_position_after(
                    old(self).ppu_x as int,
                    old(self).ppu_y as int,
                    old(self).ppu_odd_frame,
                    old(self).ppu_mask,
                    (3 * (old(self).cycle_count - old(self).last_ppu_cycle)) as nat,
                );
                &&& final(self).ppu_x == t.0
                &&& final(self).ppu_y == t.1
                &&& final(self).ppu_odd_frame == t.2
            }),
            ({
                let n = (3 * (old(self).cycle_count - old(self).last_ppu_cycle)) as nat;
                let x0 = old(self).ppu_x as int;
                let y0 = old(self).ppu_y as int;
                let odd0 = old(self).ppu_odd_frame;
                let mask0 = old(self).ppu_mask;
                &&& (spec_span_passes(x0, y0, odd0, mask0, n, 1, 241) ==> final(self).ppu_status
                    & 0x80 != 0 && (old(self).ppu_ctrl & 0x80 != 0 ==> final(self).ppu_nmi_flag))
                &&& (final(self).ppu_nmi_flag ==> old(self).ppu_nmi_flag || spec_span_passes(
                    x0,
                    y0,
                    odd0,
                    mask0,
                    n,
                    1,
                    241,
                ))
                &&& (spec_span_passes(x0, y0, odd0, mask0, n, 1, -1) ==> final(self).ppu_ctrl
                    == (old(self).ppu_ctrl & 0xFC))
                &&& (!spec_span_draws(x0, y0, odd0, mask0, n) ==> final(self).frame_buffer == old(
                    self,
                ).frame_buffer)
                &&& (final(self).sprites_this_scanline == old(self).sprites_this_scanline || (
                exists|yy: int|
                    0 <= yy <= 239 && final(self).sprites_this_scanline@ == spec_scanline_sprites(
                        old(self).ppu_oam_ram@,
                        yy,
                    )))
            }),
            spec_fb_pixels_from_palette(
                final(self).frame_buffer@,
                old(self).frame_buffer@,
                old(self).ppu_palette_ram@,
            ),
    {
        proof {
            lemma_fb_from_palette_refl(self.frame_buffer@, self.ppu_palette_ram@);
        }
        if self.last_ppu_cycle == self.cycle_count {
            // Already caught up: catching up again changes nothing.
            return ;
        }
        let ghost pre = *old(self);
        while self.last_ppu_cycle < self.cycle_count
            invariant
                self.wf(),
                *self == (EmuState {
                    ppu_status: self.ppu_status,
                    ppu_ctrl: self.ppu_ctrl,
                    ppu_nmi_flag: self.ppu_nmi_flag,
                    ppu_odd_frame: self.ppu_odd_frame,
                    ppu_x: self.ppu_x,
                    ppu_y: self.ppu_y,
                    sprites_this_scanline: self.sprites_this_scanline,
                    frame_buffer: self.frame_buffer,
                    last_ppu_cycle: self.last_ppu_cycle,
                    ..pre
                }),
                self.ppu_ctrl == pre.ppu_ctrl || self.ppu_ctrl == (pre.ppu_ctrl & 0xFC),
                pre.ppu_nmi_flag ==> self.ppu_nmi_flag,
                pre.ppu_status & 0x80 != 0 ==> self.ppu_status & 0x80 != 0,
                self.ppu_nmi_flag ==> pre.ppu_nmi_flag || pre.ppu_ctrl & 0x80 != 0,
                pre.last_ppu_cycle <= self.last_ppu_cycle,
                ({
                    let t = spec_ppu_position_after(
                        pre.ppu_x as int,
                        pre.ppu_y as int,
                        pre.ppu_odd_frame,
                        pre.ppu_mask,
                        (3 * (self.last_ppu_cycle - pre.last_ppu_cycle)) as nat,
                    );
                    &&& self.ppu_x == t.0
                    &&& self.ppu_y == t.1
                    &&& self.ppu_odd_frame == t.2
                }),
                ({
                    let nd = (3 * (self.last_ppu_cycle - pre.last_ppu_cycle)) as nat;
                    let x0 = pre.ppu_x as int;
                    let y0 = pre.ppu_y as int;
                    let odd0 = pre.ppu_odd_frame;
                    let mask0 = pre.ppu_mask;
                    &&& (spec_span_passes(x0, y0, odd0, mask0, nd, 1, 241) ==> self.ppu_status
                        & 0x80 != 0 && (pre.ppu_ctrl & 0x80 != 0 ==> self.ppu_nmi_flag))
                    &&& (self.ppu_nmi_flag ==> pre.ppu_nmi_flag || spec_span_passes(
                        x0,
                        y0,
                        odd0,
                        mask0,
                        nd,
                        1,
                        241,
                    ))
                    &&& (spec_span_passes(x0, y0, odd0, mask0, nd, 1, -1) ==> self.ppu_ctrl == (
                    pre.ppu_ctrl & 0xFC))
                    &&& (!spec_span_draws(x0, y0, odd0, mask0, nd) ==> self.frame_buffer
                        == pre.frame_buffer)
                    &&& (self.sprites_this_scanline == pre.sprites_this_scanline || (exists|
                        yy: int,
                    |
                        0 <= yy <= 239 && self.sprites_this_scanline@ == spec_scanline_sprites(
                            pre.ppu_oam_ram@,
                            yy,
                        )))
                }),
                spec_fb_pixels_from_palette(self.frame_buffer@, pre.frame_buffer@, pre.ppu_palette_ram@),
            decreases self.cycle_count - self.last_ppu_cycle,
        {
            let ghost lap_start = self.last_ppu_cycle;
            let mut k: usize = 0;
            while k < 3
                invariant
                    k <= 3,
                    self.last_ppu_cycle == lap_start,
                    self.wf(),
                    *self == (EmuState {
                        ppu_status: self.ppu_status,
                        ppu_ctrl: self.ppu_ctrl,
                        ppu_nmi_flag: self.ppu_nmi_flag,
                        ppu_odd_frame: self.ppu_odd_frame,
                        ppu_x: self.ppu_x,
                        ppu_y: self.ppu_y,
                        sprites_this_scanline: self.sprites_this_scanline,
                        frame_buffer: self.frame_buffer,
                        last_ppu_cycle: self.last_ppu_cycle,
                        ..pre
                    }),
                    self.last_ppu_cycle < self.cycle_count,
                    self.ppu_ctrl == pre.ppu_ctrl || self.ppu_ctrl == (pre.ppu_ctrl & 0xFC),
                    pre.ppu_nmi_flag ==> self.ppu_nmi_flag,
                    pre.ppu_status & 0x80 != 0 ==> self.ppu_status & 0x80 != 0,
                    self.ppu_nmi_flag ==> pre.ppu_nmi_flag || pre.ppu_ctrl & 0x80 != 0,
                    pre.last_ppu_cycle <= lap_start,
                    ({
                        let t = spec_ppu_position_after(
                            pre.ppu_x as int,
                            pre.ppu_y as int,
                            pre.ppu_odd_frame,
                            pre.ppu_mask,
                            (3 * (lap_start - pre.last_ppu_cycle) + k) as nat,
                        );
                        &&& self.ppu_x == t.0
                        &&& self.ppu_y == t.1
                        &&& self.ppu_odd_frame == t.2
                    }),
                    ({
                        let nd = (3 * (lap_start - pre.last_ppu_cycle) + k) as nat;
                        let x0 = pre.ppu_x as int;
                        let y0 = pre.ppu_y as int;
                        let odd0 = pre.ppu_odd_frame;
                        let mask0 = pre.ppu_mask;
                        &&& (spec_span_passes(x0, y0, odd0, mask0, nd, 1, 241) ==> self.ppu_status
                            & 0x80 != 0 && (pre.ppu_ctrl & 0x80 != 0 ==> self.ppu_nmi_flag))
                        &&& (self.ppu_nmi_flag ==> pre.ppu_nmi_flag || spec_span_passes(
                            x0,
                            y0,
                            odd0,
                            mask0,
                            nd,
                            1,
                            241,
                        ))
                        &&& (spec_span_passes(x0, y0, odd0, mask0, nd, 1, -1) ==> self.ppu_ctrl
                            == (pre.ppu_ctrl & 0xFC))
                        &&& (!spec_span_draws(x0, y0, odd0, mask0, nd) ==> self.frame_buffer
                            == pre.frame_buffer)
                        &&& (self.sprites_this_scanline == pre.sprites_this_scanline || (exists|
                            yy: int,
                        |
                            0 <= yy <= 239 && self.sprites_this_scanline@
                                == spec_scanline_sprites(pre.ppu_oam_ram@, yy)))
                    }),
                    spec_fb_pixels_from_palette(self.frame_buffer@, pre.frame_buffer@, pre.ppu_palette_ram@),
                decreases 3 - k,
            {
                let ghost mid = *self;
                self.step_dot();
                proof {
                    lemma_ctrl_mask_idem();
                    lemma_fb_from_palette_trans(
                        pre.frame_buffer@,
                        mid.frame_buffer@,
                        self.frame_buffer@,
                        pre.ppu_palette_ram@,
                    );
                }
                k = k + 1;
            }
            self.last_ppu_cycle = self.last_ppu_cycle + 1;
        }
    }
}

} // verus!
