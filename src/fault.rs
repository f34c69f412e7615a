use vstd::prelude::*;

verus! {

/// A guest access that the hardware model refuses. Each stops emulation.
#[derive(Debug, Clone, Copy, PartialEq, Eq, Structural)]
pub enum Fault {
    /// A CPU read of a write-only port (a PPU register or the DMA port).
    WriteOnlyPort(u16),
    /// A CPU write to the read-only PPU status register.
    StatusWrite,
    /// A CPU read of an address that nothing answers.
    UnmappedRead(u16),
    /// A CPU write to an address that nothing answers.
    UnmappedWrite(u16),
    /// A PPU data-port write into character ROM.
    ChrRomWrite(u16),
    /// A PPU data-port access to the reserved region 0x3000-0x3EFF.
    ReservedVram(u16),
    /// A PPU data-port access to an address with no backing byte.
    UnbackedVram(u16),
    /// A halting (KIL) opcode.
    Halt(u8),
}

} // verus!
