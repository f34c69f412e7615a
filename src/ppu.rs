use vstd::prelude::*;

use crate::fault::Fault;

verus! {

/// Control register bit: VRAM address advances by 32 instead of 1.
pub const CTRL_VRAM_INC: u8 = 0b0000_0100;

/// Control register bit: sprites use the pattern table at 0x1000.
pub const CTRL_SPRITE_BANK: u8 = 0b0000_1000;

/// Control register bit: the background uses the pattern table at 0x1000.
pub const CTRL_BG_BANK: u8 = 0b0001_0000;

/// Control register bit: raise an NMI when vertical blank starts.
pub const CTRL_NMI_ON_VBLANK: u8 = 0b1000_0000;

/// Mask register bit: sprites are rendered.
pub const MASK_SHOW_SPRITES: u8 = 0b0001_0000;

/// Status register bit: sprite 0 overlapped the background.
pub const STATUS_SPRITE_0_HIT: u8 = 0b0100_0000;

/// Status register bit: vertical blank is in progress.
pub const STATUS_VBLANK: u8 = 0b1000_0000;

/// Dots on one scanline.
pub const DOTS_PER_LINE: usize = 341;

/// Scanline on which vertical blank starts.
pub const VBLANK_LINE: u16 = 241;

/// Scanlines in one frame.
pub const LINES_PER_FRAME: u16 = 262;

/// `v` reduced to a byte.
pub open spec fn wrap8(v: int) -> u8 {
    (v % 256) as u8
}

/// `v` reduced to a 16-bit word.
pub open spec fn wrap16(v: int) -> u16 {
    (v % 0x10000) as u16
}

/// Index into the 2 KiB of VRAM that nametable address `addr`
/// (0x2000-0x2FFF) reaches under horizontal (`vertical == false`) or
/// vertical mirroring.
pub open spec fn mirror_index(vertical: bool, addr: u16) -> int {
    let i = addr - 0x2000;
    let q = i / 0x400;
    if !vertical {
        if q == 0 {
            i
        } else if q == 1 || q == 2 {
            i - 0x400
        } else {
            i - 0x800
        }
    } else {
        if q <= 1 {
            i
        } else {
            i - 0x800
        }
    }
}

/// Index into the 32-byte palette that address `addr` (0x3F00-0x3FFF)
/// reaches: the palette repeats every 32 bytes, and the backdrop entries of
/// the sprite palettes alias those of the background palettes.
pub open spec fn palette_index(addr: u16) -> int {
    let i = (addr - 0x3f00) % 32;
    if i == 0x10 || i == 0x14 || i == 0x18 || i == 0x1c {
        i - 0x10
    } else {
        i
    }
}

/// The control register (PPUCTRL, 0x2000).
pub struct PpuCtrlRegister {
    pub bits: u8,
}

/// The status register (PPUSTATUS, 0x2002).
pub struct PpuStatusRegister {
    pub bits: u8,
}

/// The mask register (PPUMASK, 0x2001).
pub struct PpuMaskRegister {
    pub bits: u8,
}

/// The VRAM address register (PPUADDR, 0x2006): two writes, high byte first.
pub struct PpuAddrRegister {
    pub value: u16,
    /// Set when the next write supplies the high byte.
    pub latch: bool,
}

/// The scroll register (PPUSCROLL, 0x2005): two writes, x first.
pub struct PpuScrollRegister {
    pub x: u8,
    pub y: u8,
    /// Set when the next write supplies y.
    pub latch: bool,
}

impl PpuCtrlRegister {
    pub fn new() -> (r: Self)
        ensures
            r.bits == 0,
    {
        PpuCtrlRegister { bits: 0 }
    }

    /// How far the VRAM address moves after each data-port access.
    pub fn vram_inc(&self) -> (r: u8)
        ensures
            r == (if self.bits & CTRL_VRAM_INC != 0 { 32u8 } else { 1u8 }),
    {
        if self.bits & CTRL_VRAM_INC != 0 {
            32
        } else {
            1
        }
    }

    /// The base nametable address that bits 0-1 select.
    pub fn base_addr(&self) -> (r: u16)
        ensures
            r == 0x2000 + 0x400 * (self.bits % 4),
    {
        let n: u8 = self.bits % 4;
        if n == 0 {
            0x2000
        } else if n == 1 {
            0x2400
        } else if n == 2 {
            0x2800
        } else {
            0x2c00
        }
    }

    /// The background pattern table.
    pub fn bg_bank_addr(&self) -> (r: u16)
        ensures
            r == (if self.bits & CTRL_BG_BANK != 0 { 0x1000u16 } else { 0u16 }),
    {
        if self.bits & CTRL_BG_BANK != 0 {
            0x1000
        } else {
            0x0000
        }
    }

    /// The sprite pattern table.
    pub fn sprite_bank_addr(&self) -> (r: u16)
        ensures
            r == (if self.bits & CTRL_SPRITE_BANK != 0 { 0x1000u16 } else { 0u16 }),
    {
        if self.bits & CTRL_SPRITE_BANK != 0 {
            0x1000
        } else {
            0x0000
        }
    }

    /// Whether an NMI is raised when vertical blank starts.
    pub fn nmi_starts_on_vblank_ok(&self) -> (r: bool)
        ensures
            r == (self.bits & CTRL_NMI_ON_VBLANK != 0),
    {
        self.bits & CTRL_NMI_ON_VBLANK != 0
    }

    pub fn update(&mut self, input: u8)
        ensures
            final(self).bits == input,
    {
        self.bits = input;
    }
}

impl PpuStatusRegister {
    pub fn new() -> (r: Self)
        ensures
            r.bits == 0,
    {
        PpuStatusRegister { bits: 0 }
    }

    pub fn set_vblank(&mut self, status: bool)
        ensures
            final(self).bits == (if status { old(self).bits | STATUS_VBLANK } else { old(
                self,
            ).bits & !STATUS_VBLANK }),
    {
        if status {
            self.bits = self.bits | STATUS_VBLANK;
        } else {
            self.bits = self.bits & !STATUS_VBLANK;
        }
    }

    pub fn is_vblank(&self) -> (r: bool)
        ensures
            r == (self.bits & STATUS_VBLANK != 0),
    {
        self.bits & STATUS_VBLANK != 0
    }

    pub fn set_sprite0(&mut self)
        ensures
            final(self).bits == old(self).bits | STATUS_SPRITE_0_HIT,
    {
        self.bits = self.bits | STATUS_SPRITE_0_HIT;
    }

    pub fn clear_sprite0(&mut self)
        ensures
            final(self).bits == old(self).bits & !STATUS_SPRITE_0_HIT,
    {
        self.bits = self.bits & !STATUS_SPRITE_0_HIT;
    }

    pub fn read(&self) -> (r: u8)
        ensures
            r == self.bits,
    {
        self.bits
    }
}

impl PpuMaskRegister {
    pub fn new() -> (r: Self)
        ensures
            r.bits == 0,
    {
        PpuMaskRegister { bits: 0 }
    }

    pub fn read(&self) -> (r: u8)
        ensures
            r == self.bits,
    {
        self.bits
    }

    pub fn update(&mut self, data: u8)
        ensures
            final(self).bits == data,
    {
        self.bits = data;
    }
}

impl PpuAddrRegister {
    pub fn new() -> (r: Self)
        ensures
            r.value == 0,
            r.latch,
    {
        PpuAddrRegister { value: 0, latch: true }
    }

    /// Writes the high byte when the latch is set, else the low byte, and
    /// flips the latch.
    pub fn update(&mut self, data: u8)
        ensures
            final(self).value == (if old(self).latch {
                data as int * 256 + old(self).value % 256
            } else {
                (old(self).value / 256) * 256 + data as int
            }),
            final(self).latch == !old(self).latch,
    {
        let lo: u16 = self.value % 256;
        let hi: u16 = self.value / 256;
        if self.latch {
            self.value = data as u16 * 256 + lo;
        } else {
            self.value = hi * 256 + data as u16;
        }
        self.latch = !self.latch;
    }

    /// Advances the address by `input`, within the 14-bit PPU address space.
    pub fn inc(&mut self, input: u8)
        ensures
            final(self).value == (old(self).value + input) % 0x4000,
            final(self).latch == old(self).latch,
    {
        self.value = ((self.value as u32 + input as u32) % 0x4000) as u16;
    }

    pub fn reset(&mut self)
        ensures
            final(self).value == old(self).value,
            final(self).latch,
    {
        self.latch = true;
    }
}

impl PpuScrollRegister {
    pub fn new() -> (r: Self)
        ensures
            r.x == 0,
            r.y == 0,
            !r.latch,
    {
        PpuScrollRegister { x: 0, y: 0, latch: false }
    }

    /// Stores x when the latch is clear, else y, and flips the latch.
    pub fn write(&mut self, data: u8)
        ensures
            final(self).x == (if old(self).latch { old(self).x } else { data }),
            final(self).y == (if old(self).latch { data } else { old(self).y }),
            final(self).latch == !old(self).latch,
    {
        if !self.latch {
            self.x = data;
        } else {
            self.y = data;
        }
        self.latch = !self.latch;
    }

    pub fn reset(&mut self)
        ensures
            final(self).x == old(self).x,
            final(self).y == old(self).y,
            !final(self).latch,
    {
        self.latch = false;
    }
}

} // verus!

verus! {

/// The state of the picture processing unit, as plain values.
pub struct PpuView {
    pub chr_rom: Seq<u8>,
    pub palette: Seq<u8>,
    pub vram: Seq<u8>,
    pub oam: Seq<u8>,
    pub oam_addr: u8,
    /// false for horizontal, true for vertical nametable mirroring.
    pub mirroring: bool,
    pub ctrl: u8,
    pub mask: u8,
    pub status: u8,
    pub addr: u16,
    pub addr_latch: bool,
    pub scroll_x: u8,
    pub scroll_y: u8,
    pub scroll_latch: bool,
    pub buffer: u8,
    pub cycle: int,
    pub scanline: int,
    pub nmi: Option<bool>,
}

impl PpuView {
    /// A PPU at power-up: memories and registers cleared, beam at the
    /// start of the frame, no NMI pending.
    pub open spec fn power_up(chr_rom: Seq<u8>, mirroring: bool) -> PpuView {
        PpuView {
            chr_rom,
            palette: Seq::new(32, |i: int| 0u8),
            vram: Seq::new(0x800, |i: int| 0u8),
            oam: Seq::new(256, |i: int| 0u8),
            oam_addr: 0,
            mirroring,
            ctrl: 0,
            mask: 0,
            status: 0,
            addr: 0,
            addr_latch: true,
            scroll_x: 0,
            scroll_y: 0,
            scroll_latch: false,
            buffer: 0,
            cycle: 0,
            scanline: 0,
            nmi: None,
        }
    }

    /// Sizes of the memories.
    pub open spec fn wf_mem(self) -> bool {
        &&& self.palette.len() == 32
        &&& self.vram.len() == 0x800
        &&& self.oam.len() == 256
        &&& 0 <= self.scanline < LINES_PER_FRAME
    }

    pub open spec fn wf(self) -> bool {
        &&& self.wf_mem()
        &&& 0 <= self.cycle < DOTS_PER_LINE
    }

    pub open spec fn write_ctrl(self, v: u8) -> PpuView {
        let raise = self.ctrl & CTRL_NMI_ON_VBLANK == 0 && v & CTRL_NMI_ON_VBLANK != 0 && self.status
            & STATUS_VBLANK != 0;
        PpuView { ctrl: v, nmi: if raise { Some(true) } else { self.nmi }, ..self }
    }

    pub open spec fn write_mask(self, v: u8) -> PpuView {
        PpuView { mask: v, ..self }
    }

    pub open spec fn write_oamaddr(self, v: u8) -> PpuView {
        PpuView { oam_addr: v, ..self }
    }

    pub open spec fn write_oamdata(self, v: u8) -> PpuView {
        PpuView {
            oam: self.oam.update(self.oam_addr as int, v),
            oam_addr: wrap8(self.oam_addr + 1),
            ..self
        }
    }

    /// `data` pushed through the OAM data port, one byte after another.
    pub open spec fn dma(self, data: Seq<u8>) -> PpuView
        decreases data.len(),
    {
        if data.len() == 0 {
            self
        } else {
            self.write_oamdata(data[0]).dma(data.subrange(1, data.len() as int))
        }
    }

    pub open spec fn write_scroll(self, v: u8) -> PpuView {
        if self.scroll_latch {
            PpuView { scroll_y: v, scroll_latch: false, ..self }
        } else {
            PpuView { scroll_x: v, scroll_latch: true, ..self }
        }
    }

    pub open spec fn write_addr(self, v: u8) -> PpuView {
        if self.addr_latch {
            PpuView { addr: (v * 256 + self.addr % 256) as u16, addr_latch: false, ..self }
        } else {
            PpuView { addr: ((self.addr / 256) * 256 + v) as u16, addr_latch: true, ..self }
        }
    }

    pub open spec fn vram_step(self) -> int {
        if self.ctrl & CTRL_VRAM_INC != 0 { 32 } else { 1 }
    }

    pub open spec fn inc_addr(self) -> PpuView {
        PpuView { addr: ((self.addr + self.vram_step()) % 0x4000) as u16, ..self }
    }

    /// A write through the data port (PPUDATA).
    pub open spec fn write_data(self, v: u8) -> (Result<(), Fault>, PpuView) {
        let a = self.addr;
        if a <= 0x1fff {
            (Err(Fault::ChrRomWrite(a)), self)
        } else if a <= 0x2fff {
            (
                Ok(()),
                PpuView {
                    vram: self.vram.update(mirror_index(self.mirroring, a), v),
                    ..self
                }.inc_addr(),
            )
        } else if a <= 0x3eff {
            (Err(Fault::ReservedVram(a)), self)
        } else if a <= 0x3fff {
            (Ok(()), PpuView { palette: self.palette.update(palette_index(a), v), ..self }.inc_addr())
        } else {
            (Err(Fault::UnbackedVram(a)), self)
        }
    }

    /// A read through the data port (PPUDATA): below the palette, the byte
    /// read comes out of the buffer, which takes the addressed byte.
    pub open spec fn read_data(self) -> (Result<u8, Fault>, PpuView) {
        let a = self.addr;
        if a <= 0x1fff {
            if (a as int) < self.chr_rom.len() {
                (Ok(self.buffer), PpuView { buffer: self.chr_rom[a as int], ..self }.inc_addr())
            } else {
                (Err(Fault::UnbackedVram(a)), self)
            }
        } else if a <= 0x2fff {
            (
                Ok(self.buffer),
                PpuView {
                    buffer: self.vram[mirror_index(self.mirroring, a)],
                    ..self
                }.inc_addr(),
            )
        } else if a <= 0x3eff {
            (Err(Fault::ReservedVram(a)), self)
        } else if a <= 0x3fff {
            (Ok(self.palette[palette_index(a)]), self.inc_addr())
        } else {
            (Err(Fault::UnbackedVram(a)), self)
        }
    }

    /// A read of the status port: vertical blank and both latches reset.
    pub open spec fn read_status(self) -> (u8, PpuView) {
        (
            self.status,
            PpuView {
                status: self.status & !STATUS_VBLANK,
                addr_latch: true,
                scroll_latch: false,
                ..self
            },
        )
    }

    /// Whether sprite 0 sits on the current scanline at or before the current dot.
    pub open spec fn sprite0_hit(self) -> bool {
        &&& self.oam[0] as int == self.scanline
        &&& self.oam[3] as int <= self.cycle
        &&& self.mask & MASK_SHOW_SPRITES != 0
    }

    pub open spec fn check_sprite0(self) -> PpuView {
        if self.sprite0_hit() {
            PpuView { status: self.status | STATUS_SPRITE_0_HIT, ..self }
        } else {
            self
        }
    }

    /// One completed scanline; true when it completes the frame.
    pub open spec fn next_line(self) -> (PpuView, bool) {
        let s = PpuView { cycle: self.cycle - DOTS_PER_LINE, scanline: self.scanline + 1, ..self };
        if s.scanline == VBLANK_LINE {
            (
                PpuView {
                    status: (s.status | STATUS_VBLANK) & !STATUS_SPRITE_0_HIT,
                    nmi: if s.ctrl & CTRL_NMI_ON_VBLANK != 0 { Some(true) } else { s.nmi },
                    ..s
                },
                false,
            )
        } else if s.scanline >= LINES_PER_FRAME {
            (
                PpuView {
                    scanline: 0,
                    nmi: None,
                    status: (s.status & !STATUS_SPRITE_0_HIT) & !STATUS_VBLANK,
                    ..s
                },
                true,
            )
        } else {
            (s, false)
        }
    }

    /// Completes scanlines while a whole line of dots is pending; true when a
    /// frame was completed on the way.
    pub open spec fn cross_lines(self) -> (PpuView, bool)
        decreases self.cycle,
    {
        if self.cycle < DOTS_PER_LINE {
            (self, false)
        } else {
            let (n, f) = self.next_line();
            let (m, g) = n.cross_lines();
            (m, f || g)
        }
    }

    /// `dots` dots of time; true when a frame was completed.
    pub open spec fn tick(self, dots: int) -> (PpuView, bool) {
        PpuView { cycle: self.cycle + dots, ..self }.check_sprite0().cross_lines()
    }

    /// Offsets into VRAM of the nametable that the control register selects
    /// and of the other one.
    pub open spec fn background_offsets(self) -> (int, int) {
        let n = self.ctrl % 4;
        let first = if self.mirroring { n % 2 == 0 } else { n < 2 };
        if first { (0, 0x400) } else { (0x400, 0) }
    }
}

pub(crate) fn zeroed(n: usize) -> (r: Vec<u8>)
    ensures
        r@ == Seq::new(n as nat, |i: int| 0u8),
{
    let mut r: Vec<u8> = Vec::new();
    let mut i: usize = 0;
    while i < n
        invariant
            i <= n,
            r@ == Seq::new(i as nat, |j: int| 0u8),
        decreases n - i,
    {
        r.push(0);
        i = i + 1;
        assert(r@ =~= Seq::new(i as nat, |j: int| 0u8));
    }
    r
}

/// The picture processing unit: its memories, registers and beam position.
pub struct Ppu {
    pub chr_rom: Vec<u8>,
    pub palette: Vec<u8>,
    pub vram: Vec<u8>,
    pub oam: Vec<u8>,
    pub oam_addr: u8,
    /// false for horizontal, true for vertical nametable mirroring.
    pub mirroring: bool,
    pub ctrl_register: PpuCtrlRegister,
    pub mask_register: PpuMaskRegister,
    pub addr_register: PpuAddrRegister,
    pub status_register: PpuStatusRegister,
    pub scroll_register: PpuScrollRegister,
    pub buffer: u8,
    pub cycle: usize,
    pub scanline: u16,
    /// Raised (`Some(true)`) when an NMI is pending for the CPU.
    pub has_nmi: Option<bool>,
}

impl View for Ppu {
    type V = PpuView;

    open spec fn view(&self) -> PpuView {
        PpuView {
            chr_rom: self.chr_rom@,
            palette: self.palette@,
            vram: self.vram@,
            oam: self.oam@,
            oam_addr: self.oam_addr,
            mirroring: self.mirroring,
            ctrl: self.ctrl_register.bits,
            mask: self.mask_register.bits,
            status: self.status_register.bits,
            addr: self.addr_register.value,
            addr_latch: self.addr_register.latch,
            scroll_x: self.scroll_register.x,
            scroll_y: self.scroll_register.y,
            scroll_latch: self.scroll_register.latch,
            buffer: self.buffer,
            cycle: self.cycle as int,
            scanline: self.scanline as int,
            nmi: self.has_nmi,
        }
    }
}

} // verus!

verus! {

impl Ppu {
    pub open spec fn wf(&self) -> bool {
        self@.wf()
    }

    /// A powered-up PPU reading pattern tables from `chr_rom`.
    pub fn new(chr_rom: Vec<u8>, mirroring: bool) -> (r: Self)
        ensures
            r.wf(),
            r@ == PpuView::power_up(chr_rom@, mirroring),
    {
        Ppu {
            chr_rom,
            palette: zeroed(32),
            vram: zeroed(0x800),
            oam: zeroed(256),
            oam_addr: 0,
            mirroring,
            ctrl_register: PpuCtrlRegister::new(),
            mask_register: PpuMaskRegister::new(),
            addr_register: PpuAddrRegister::new(),
            status_register: PpuStatusRegister::new(),
            scroll_register: PpuScrollRegister::new(),
            buffer: 0,
            cycle: 0,
            scanline: 0,
            has_nmi: None,
        }
    }

    fn set_sprite0_hit(&mut self)
        requires
            old(self)@.wf_mem(),
        ensures
            final(self)@ == old(self)@.check_sprite0(),
    {
        if self.oam[0] as u16 == self.scanline && self.oam[3] as usize <= self.cycle
            && self.mask_register.bits & MASK_SHOW_SPRITES != 0 {
            self.status_register.set_sprite0();
        }
    }

    fn next_line(&mut self) -> (r: bool)
        requires
            old(self)@.wf_mem(),
            old(self).cycle >= DOTS_PER_LINE,
        ensures
            final(self)@.wf_mem(),
            (final(self)@, r) == old(self)@.next_line(),
    {
        self.cycle = self.cycle - DOTS_PER_LINE;
        self.scanline = self.scanline + 1;
        if self.scanline == VBLANK_LINE {
            self.status_register.set_vblank(true);
            self.status_register.clear_sprite0();
            if self.ctrl_register.nmi_starts_on_vblank_ok() {
                self.has_nmi = Some(true);
            }
        }
        if self.scanline >= LINES_PER_FRAME {
            self.scanline = 0;
            self.has_nmi = None;
            self.status_register.clear_sprite0();
            self.status_register.set_vblank(false);
            return true;
        }
        false
    }

    /// Advances the beam by `dots` dots; true when that completes a frame.
    pub fn tick(&mut self, dots: u16) -> (r: bool)
        requires
            old(self).wf(),
        ensures
            final(self).wf(),
            (final(self)@, r) == old(self)@.tick(dots as int),
    {
        self.cycle = self.cycle + dots as usize;
        self.set_sprite0_hit();
        let ghost start = self@;
        let mut frame = false;
        while self.cycle >= DOTS_PER_LINE
            invariant
                self@.wf_mem(),
                self.cycle < DOTS_PER_LINE + 0x10000,
                (self@.cross_lines().0, frame || self@.cross_lines().1) == start.cross_lines(),
            decreases self.cycle,
        {
            let f = self.next_line();
            frame = frame || f;
        }
        frame
    }

    /// OAMDATA read: the byte at the OAM pointer.
    pub fn read_oamdata(&self) -> (r: u8)
        requires
            self.wf(),
        ensures
            r == self@.oam[self@.oam_addr as int],
    {
        self.oam[self.oam_addr as usize]
    }

    /// OAMDATA write: stores at the OAM pointer and advances it.
    pub fn write_oamdata(&mut self, input: u8)
        requires
            old(self).wf(),
        ensures
            final(self).wf(),
            final(self)@ == old(self)@.write_oamdata(input),
    {
        self.oam.set(self.oam_addr as usize, input);
        self.oam_addr = ((self.oam_addr as u16 + 1) % 256) as u8;
    }

    /// OAMADDR write.
    pub fn write_oamaddr(&mut self, addr: u8)
        ensures
            final(self)@ == old(self)@.write_oamaddr(addr),
    {
        self.oam_addr = addr;
    }

    /// OAM DMA: pushes `data` through the OAM data port.
    pub fn write_oamdata_dma(&mut self, data: &[u8])
        requires
            old(self).wf(),
        ensures
            final(self).wf(),
            final(self)@ == old(self)@.dma(data@),
    {
        let ghost start = self@;
        let mut i: usize = 0;
        assert(data@.subrange(0, data@.len() as int) =~= data@);
        while i < data.len()
            invariant
                i <= data@.len(),
                self.wf(),
                self@.dma(data@.subrange(i as int, data@.len() as int)) == start.dma(data@),
            decreases data@.len() - i,
        {
            let ghost rest = data@.subrange(i as int, data@.len() as int);
            assert(rest.subrange(1, rest.len() as int) =~= data@.subrange(
                i + 1,
                data@.len() as int,
            ));
            self.write_oamdata(data[i]);
            i = i + 1;
        }
        assert(data@.subrange(i as int, data@.len() as int) =~= Seq::<u8>::empty());
    }

    /// PPUSCROLL write.
    pub fn write_scrolldata(&mut self, input: u8)
        ensures
            final(self)@ == old(self)@.write_scroll(input),
    {
        self.scroll_register.write(input);
    }

    /// PPUMASK write.
    pub fn write_ppumask(&mut self, input: u8)
        ensures
            final(self)@ == old(self)@.write_mask(input),
    {
        self.mask_register.update(input);
    }

    /// PPUADDR write.
    pub fn write_ppuaddr(&mut self, input: u8)
        ensures
            final(self)@ == old(self)@.write_addr(input),
    {
        self.addr_register.update(input);
    }

    fn increment_vram(&mut self)
        ensures
            final(self)@ == old(self)@.inc_addr(),
    {
        let step = self.ctrl_register.vram_inc();
        self.addr_register.inc(step);
    }

    /// The VRAM index that nametable address `addr` reaches under this
    /// PPU's mirroring.
    pub fn mirror_vram_addr(&self, addr: u16) -> (r: u16)
        requires
            0x2000 <= addr <= 0x2fff,
        ensures
            r == mirror_index(self.mirroring, addr),
            r < 0x800,
    {
        let index: u16 = addr - 0x2000;
        let quadrant: u16 = index / 0x400;
        if !self.mirroring {
            if quadrant == 0 {
                index
            } else if quadrant == 1 || quadrant == 2 {
                index - 0x400
            } else {
                index - 0x800
            }
        } else {
            if quadrant <= 1 {
                index
            } else {
                index - 0x800
            }
        }
    }

    /// The palette index that address `addr` (0x3F00-0x3FFF) reaches.
    pub fn palette_addr(addr: u16) -> (r: usize)
        requires
            0x3f00 <= addr <= 0x3fff,
        ensures
            r == palette_index(addr),
            r < 32,
    {
        let i: u16 = (addr - 0x3f00) % 32;
        if i == 0x10 || i == 0x14 || i == 0x18 || i == 0x1c {
            (i - 0x10) as usize
        } else {
            i as usize
        }
    }

    /// PPUDATA write: stores `input` where the VRAM address points, then
    /// advances the address.
    pub fn write_ppudata(&mut self, input: u8) -> (r: Result<(), Fault>)
        requires
            old(self).wf(),
        ensures
            final(self).wf(),
            (r, final(self)@) == old(self)@.write_data(input),
    {
        let addr = self.addr_register.value;
        if addr <= 0x1fff {
            return Err(Fault::ChrRomWrite(addr));
        } else if addr <= 0x2fff {
            let i = self.mirror_vram_addr(addr);
            self.vram.set(i as usize, input);
        } else if addr <= 0x3eff {
            return Err(Fault::ReservedVram(addr));
        } else if addr <= 0x3fff {
            let i = Ppu::palette_addr(addr);
            self.palette.set(i, input);
        } else {
            return Err(Fault::UnbackedVram(addr));
        }
        self.increment_vram();
        Ok(())
    }

    /// PPUCTRL write: raises an NMI when NMI-on-vblank is switched on
    /// during vertical blank.
    pub fn write_ppuctrl(&mut self, input: u8)
        ensures
            final(self)@ == old(self)@.write_ctrl(input),
    {
        let before = self.ctrl_register.nmi_starts_on_vblank_ok();
        self.ctrl_register.update(input);
        if !before && self.ctrl_register.nmi_starts_on_vblank_ok()
            && self.status_register.is_vblank() {
            self.has_nmi = Some(true);
        }
    }

    /// PPUSTATUS read: the status bits; clears vertical blank and resets
    /// the address and scroll latches.
    pub fn read_ppustatus(&mut self) -> (r: u8)
        ensures
            (r, final(self)@) == old(self)@.read_status(),
    {
        let ret = self.status_register.read();
        self.scroll_register.reset();
        self.addr_register.reset();
        self.status_register.set_vblank(false);
        ret
    }

    /// The nametable that the control register selects, then the other one.
    pub fn get_background_addrs(&self) -> (r: (&[u8], &[u8]))
        requires
            self.wf(),
        ensures
            r.0@ == self@.vram.subrange(
                self@.background_offsets().0,
                self@.background_offsets().0 + 0x400,
            ),
            r.1@ == self@.vram.subrange(
                self@.background_offsets().1,
                self@.background_offsets().1 + 0x400,
            ),
    {
        let n: u8 = self.ctrl_register.bits % 4;
        let first = if self.mirroring {
            n % 2 == 0
        } else {
            n < 2
        };
        let v = self.vram.as_slice();
        if first {
            (&v[0..0x400], &v[0x400..0x800])
        } else {
            (&v[0x400..0x800], &v[0..0x400])
        }
    }

    /// PPUDATA read (delayed below the palette), then advances the address.
    pub fn read_data(&mut self) -> (r: Result<u8, Fault>)
        requires
            old(self).wf(),
        ensures
            final(self).wf(),
            (r, final(self)@) == old(self)@.read_data(),
    {
        let addr = self.addr_register.value;
        let result: u8;
        if addr <= 0x1fff {
            if (addr as usize) < self.chr_rom.len() {
                result = self.buffer;
                self.buffer = self.chr_rom[addr as usize];
            } else {
                return Err(Fault::UnbackedVram(addr));
            }
        } else if addr <= 0x2fff {
            result = self.buffer;
            let i = self.mirror_vram_addr(addr);
            self.buffer = self.vram[i as usize];
        } else if addr <= 0x3eff {
            return Err(Fault::ReservedVram(addr));
        } else if addr <= 0x3fff {
            result = self.palette[Ppu::palette_addr(addr)];
        } else {
            return Err(Fault::UnbackedVram(addr));
        }
        self.increment_vram();
        Ok(result)
    }
}

} // verus!

verus! {

/// Each PPUADDR or PPUSCROLL write flips that register's latch; a PPUSTATUS
/// read resets both latches.
pub proof fn lemma_latches(s: PpuView, v: u8)
    ensures
        s.write_addr(v).addr_latch == !s.addr_latch,
        s.write_addr(v).scroll_latch == s.scroll_latch,
        s.write_scroll(v).scroll_latch == !s.scroll_latch,
        s.write_scroll(v).addr_latch == s.addr_latch,
        s.read_status().1.addr_latch,
        !s.read_status().1.scroll_latch,
{
}

/// With the latch reset, writing `hi` then `lo` to PPUADDR and advancing
/// by one leaves the address one past `hi:lo`.
pub proof fn lemma_addr_then_increment(s: PpuView, hi: u8, lo: u8)
    requires
        s.addr_latch,
        s.ctrl & CTRL_VRAM_INC == 0,
        hi * 256 + lo + 1 < 0x4000,
    ensures
        s.write_addr(hi).write_addr(lo).inc_addr().addr == hi * 256 + lo + 1,
{
}

/// A value written through the data port at 0x3F10 reads back at 0x3F00.
pub proof fn lemma_palette_mirror(s: PpuView, v: u8)
    requires
        s.wf(),
        s.addr == 0x3f10,
    ensures
        ({
            let (w, s1) = s.write_data(v);
            let s2 = s1.read_status().1.write_addr(0x3f).write_addr(0x00);
            &&& w is Ok
            &&& s2.addr == 0x3f00
            &&& s2.read_data().0 == Ok::<u8, Fault>(v)
        }),
{
}

} // verus!
