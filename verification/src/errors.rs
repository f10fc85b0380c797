//! Error surface of the emulator core.
use vstd::prelude::*;

verus! {

/// Everything the core can report to its host.
///
/// Invalid opcodes are deliberately *not* an error: they execute as no-ops,
/// because some titles probe them.
#[derive(Clone, Copy, PartialEq, Eq, Structural, Debug)]
pub enum EmuError {
    /// The cartridge image is too short for the sizes its header declares,
    /// or declares zero PRG or CHR banks, which the direct mapper cannot map.
    InvalidCartridge,
    /// A CPU read or write touched an address range the bus does not decode.
    InvalidAddress,
    /// A bus write asked for a feature the core does not implement
    /// (a nonzero OAM address).
    UnsupportedFeature,
    /// The frame driver exhausted its instruction budget without observing
    /// an NMI: the ROM never enabled VBlank interrupts, or the cycle counter
    /// ran out of headroom.
    FrameLimit,
}

} // verus!
