//! What stops a machine: configurations that are refused before the first step,
//! and violations met while stepping.

use vstd::prelude::*;

verus! {

/// Why a machine could not be built from the given ROMs.
#[derive(Clone, Copy, Debug, PartialEq, Eq, Structural)]
pub enum ConfigError {
    /// The boot ROM holds more than 256 bytes.
    BootRomTooLarge,
    /// The cartridge asks for a bank controller other than none or MBC1.
    UnsupportedMapper,
    /// The cartridge asks for banked external RAM.
    UnsupportedRamSize,
    /// The cartridge image ends before its header does.
    HeaderTooShort,
    /// The header's ROM size byte is not a known one.
    UnhandledRomSize { byte: u8 },
    /// The header's RAM size byte is not a known one.
    UnhandledRamSize { byte: u8 },
}

/// Why a step could not be completed. Each is fatal to the machine: its state
/// after a fault is not meaningful.
#[derive(Clone, Copy, Debug, PartialEq, Eq, Structural)]
pub enum Fault {
    /// A read from an address that nothing backs.
    UnmappedRead { address: u16 },
    /// A write to an address that nothing backs.
    UnmappedWrite { address: u16 },
    /// A write below 0x100 while the boot ROM is still mapped there.
    BootRomWrite { address: u16 },
    /// A write into the echo of work RAM.
    EchoRamWrite { address: u16 },
    /// A write to the read-only scanline register.
    LyWrite,
    /// An OAM transfer from a page above 0xDF.
    DmaSourceOutOfRange { page: u8 },
    /// An opcode that the instruction set does not define.
    IllegalOpcode { opcode: u8 },
    /// An instruction that is decoded but has no semantics yet.
    NotImplemented,
    /// A scanline that did not finish within its 456 dots.
    ScanlineOverrun,
    /// A pixel produced for a line outside the 144 visible ones.
    PixelOutsideFrame { x: u8, y: u8 },
    /// A tile map that names a tile whose pixels would be read from beyond
    /// the end of the rendered tile palette.
    TileOutsidePalette,
}

} // verus!
