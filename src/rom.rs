use vstd::prelude::*;

verus! {

/// Size of one program-ROM bank.
pub const PRG_ROM_PAGE_SIZE: usize = 0x4000;

/// Size of one program-RAM bank.
pub const PRG_RAM_PAGE_SIZE: usize = 0x2000;

/// Size of one character-ROM bank.
pub const CHR_ROM_PAGE_SIZE: usize = 0x2000;

/// Size of the character RAM a cartridge without character ROM carries.
pub const CHR_RAM_PAGE_SIZE: usize = 0x2000;

/// Header flag: vertical nametable mirroring.
pub const FLAG_MIRRORING: u8 = 0b0000_0001;

/// Header flag: a 512-byte trainer precedes program ROM.
pub const FLAG_TRAINER: u8 = 0b0000_0100;

/// Why an iNES image was rejected.
#[derive(Debug, Clone, Copy, PartialEq, Eq, Structural)]
pub enum RomError {
    /// The image ends before the header or before the banks it announces.
    Truncated,
    /// The first four bytes are not `NES\x1a`.
    BadMagic,
    /// The header names a mapper other than NROM (mapper 0).
    UnsupportedMapper(u8),
}

/// The decoded 16-byte iNES header.
#[derive(Debug)]
pub struct RomHeader {
    pub magic: bool,
    pub prg_rom_bytes: usize,
    pub chr_rom_bytes: usize,
    pub prg_ram_bytes: usize,
    pub chr_ram_bytes: usize,
    pub flags: u8,
}

/// A cartridge image: program ROM, character ROM and the mirroring flag.
#[derive(Debug)]
pub struct Rom {
    pub header: RomHeader,
    pub prg_rom: Vec<u8>,
    pub chr_rom: Vec<u8>,
}

/// Offset of program ROM inside an image whose header byte 6 is `flags`.
pub open spec fn ines_prg_offset(flags: u8) -> int {
    if flags & FLAG_TRAINER != 0 { 528 } else { 16 }
}

/// Length of program ROM announced by an iNES header.
pub open spec fn ines_prg_len(data: Seq<u8>) -> int {
    data[4] as int * PRG_ROM_PAGE_SIZE as int
}

/// Length of character ROM announced by an iNES header.
pub open spec fn ines_chr_len(data: Seq<u8>) -> int {
    data[5] as int * CHR_ROM_PAGE_SIZE as int
}

/// Offset of character ROM inside an iNES image.
pub open spec fn ines_chr_offset(data: Seq<u8>) -> int {
    ines_prg_offset(data[6]) + ines_prg_len(data)
}

/// The mapper number of an iNES header: high nibbles of bytes 7 and 6.
pub open spec fn ines_mapper(data: Seq<u8>) -> u8 {
    (data[7] & 0xf0) | (data[6] >> 4u8)
}

pub open spec fn ines_magic(data: Seq<u8>) -> bool {
    data[0] == 0x4e && data[1] == 0x45 && data[2] == 0x53 && data[3] == 0x1a
}

/// What parsing an iNES image yields: `Ok` exactly for a complete NROM image.
pub open spec fn ines_error(data: Seq<u8>) -> Option<RomError> {
    if data.len() < 16 {
        Some(RomError::Truncated)
    } else if !ines_magic(data) {
        Some(RomError::BadMagic)
    } else if ines_mapper(data) != 0 {
        Some(RomError::UnsupportedMapper(ines_mapper(data)))
    } else if data.len() < ines_chr_offset(data) + ines_chr_len(data) {
        Some(RomError::Truncated)
    } else {
        None
    }
}

/// Index into program ROM of length `len` that CPU address `address` reads:
/// a 16 KiB bank is mirrored into both halves of 0x8000-0xFFFF.
pub open spec fn prg_index(len: nat, address: u16) -> int {
    let a = address - 0x8000;
    if len <= 0x4000 && a >= 0x4000 { a % 0x4000 } else { a }
}

pub(crate) fn copy_range(data: &[u8], start: usize, end: usize) -> (r: Vec<u8>)
    requires
        start <= end <= data@.len(),
    ensures
        r@ == data@.subrange(start as int, end as int),
{
    let mut r: Vec<u8> = Vec::new();
    let mut i: usize = start;
    while i < end
        invariant
            start <= i <= end <= data@.len(),
            r@ == data@.subrange(start as int, i as int),
        decreases end - i,
    {
        r.push(data[i]);
        i = i + 1;
    }
    r
}

impl Rom {
    pub open spec fn mirroring_spec(&self) -> bool {
        self.header.flags & FLAG_MIRRORING != 0
    }

    /// Whether CPU address `address` falls on a byte of program ROM.
    pub open spec fn covers_spec(&self, address: u16) -> bool {
        address >= 0x8000 && prg_index(self.prg_rom@.len(), address) < self.prg_rom@.len()
    }

    /// Parses an iNES image.
    pub fn new_from_ines(data: &[u8]) -> (r: Result<Rom, RomError>)
        ensures
            ines_error(data@) is Some <==> r is Err,
            r matches Err(e) ==> ines_error(data@) == Some(e),
            r matches Ok(rom) ==> {
                let prg = ines_prg_offset(data@[6]);
                &&& rom.prg_rom@ == data@.subrange(prg, prg + ines_prg_len(data@))
                &&& rom.chr_rom@ == data@.subrange(
                    ines_chr_offset(data@),
                    ines_chr_offset(data@) + ines_chr_len(data@),
                )
                &&& rom.header.flags == data@[6]
                &&& rom.header.magic
                &&& rom.mirroring_spec() == (data@[6] & FLAG_MIRRORING != 0)
            },
    {
        if data.len() < 16 {
            return Err(RomError::Truncated);
        }
        if !(data[0] == 0x4e && data[1] == 0x45 && data[2] == 0x53 && data[3] == 0x1a) {
            return Err(RomError::BadMagic);
        }
        let mapper: u8 = (data[7] & 0xf0) | (data[6] >> 4u8);
        if mapper != 0 {
            return Err(RomError::UnsupportedMapper(mapper));
        }
        let prg_rom_bytes: usize = data[4] as usize * PRG_ROM_PAGE_SIZE;
        let chr_rom_bytes: usize = data[5] as usize * CHR_ROM_PAGE_SIZE;
        let flags: u8 = data[6];
        let prg_rom_offset: usize = if flags & FLAG_TRAINER != 0 { 528 } else { 16 };
        let chr_rom_offset: usize = prg_rom_offset + prg_rom_bytes;
        if data.len() < chr_rom_offset || data.len() - chr_rom_offset < chr_rom_bytes {
            return Err(RomError::Truncated);
        }
        let header = RomHeader {
            magic: true,
            prg_rom_bytes,
            chr_rom_bytes,
            prg_ram_bytes: if data[8] == 0 {
                PRG_RAM_PAGE_SIZE
            } else {
                data[8] as usize * PRG_RAM_PAGE_SIZE
            },
            chr_ram_bytes: if data[5] == 0 { CHR_RAM_PAGE_SIZE } else { 0 },
            flags,
        };
        Ok(Rom {
            header,
            prg_rom: copy_range(data, prg_rom_offset, chr_rom_offset),
            chr_rom: copy_range(data, chr_rom_offset, chr_rom_offset + chr_rom_bytes),
        })
    }

    /// A cartridge holding `prg_rom` as program ROM, with no character ROM and
    /// horizontal mirroring.
    pub fn new_from_vec(prg_rom: Vec<u8>) -> (r: Rom)
        ensures
            r.prg_rom@ == prg_rom@,
            r.chr_rom@.len() == 0,
            !r.mirroring_spec(),
    {
        assert(0u8 & FLAG_MIRRORING == 0) by (bit_vector);
        Rom {
            header: RomHeader {
                magic: false,
                prg_rom_bytes: 0,
                chr_rom_bytes: 0,
                prg_ram_bytes: 0,
                chr_ram_bytes: 0,
                flags: 0,
            },
            prg_rom,
            chr_rom: Vec::new(),
        }
    }

    /// Whether CPU address `address` falls on a byte of program ROM.
    pub fn covers(&self, address: u16) -> (r: bool)
        ensures
            r == self.covers_spec(address),
    {
        if address < 0x8000 {
            return false;
        }
        let mut addr: u16 = address - 0x8000;
        if self.prg_rom.len() <= 0x4000 && addr >= 0x4000 {
            addr = addr % 0x4000;
        }
        (addr as usize) < self.prg_rom.len()
    }

    /// Reads program ROM as mapper 0 lays it out at 0x8000-0xFFFF.
    pub fn read_byte(&self, address: u16) -> (r: u8)
        requires
            self.covers_spec(address),
        ensures
            r == self.prg_rom@[prg_index(self.prg_rom@.len(), address)],
    {
        let mut addr: u16 = address - 0x8000;
        if self.prg_rom.len() <= 0x4000 && addr >= 0x4000 {
            addr = addr % 0x4000;
        }
        self.prg_rom[addr as usize]
    }

    /// Nametable mirroring: false for horizontal, true for vertical.
    pub fn mirroring(&self) -> (r: bool)
        ensures
            r == self.mirroring_spec(),
    {
        self.header.flags & FLAG_MIRRORING != 0
    }
}

} // verus!
