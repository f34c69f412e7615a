use vstd::prelude::*;

use crate::controller::Controller;
use crate::fault::Fault;
use crate::ppu::{Ppu, PpuView};
use crate::rom::{copy_range, prg_index, Rom};

verus! {

/// Size of CPU RAM; it repeats through 0x0000-0x1FFF.
pub const RAM_SIZE: usize = 0x800;

/// The CPU bus as plain values.
pub struct BusView {
    pub ram: Seq<u8>,
    pub prg_rom: Seq<u8>,
    pub ppu: PpuView,
    pub controller: Controller,
    pub cycle: u64,
}

/// The PPU register that CPU address `addr` (0x2000-0x3FFF) selects.
pub open spec fn ppu_port(addr: u16) -> u16 {
    (0x2000 + addr % 8) as u16
}

impl BusView {
    pub open spec fn wf(self) -> bool {
        self.ram.len() == RAM_SIZE && self.ppu.wf()
    }

    pub open spec fn with_ppu(self, p: PpuView) -> BusView {
        BusView { ppu: p, ..self }
    }

    /// A CPU read of `addr`: the byte, or the fault, and the bus after it.
    #[verifier::opaque]
    pub open spec fn read(self, addr: u16) -> (Result<u8, Fault>, BusView) {
        if addr <= 0x1fff {
            (Ok(self.ram[addr as int % 0x800]), self)
        } else if addr <= 0x3fff {
            let port = ppu_port(addr);
            if port == 0x2002 {
                (Ok(self.ppu.read_status().0), self.with_ppu(self.ppu.read_status().1))
            } else if port == 0x2004 {
                (Ok(self.ppu.oam[self.ppu.oam_addr as int]), self)
            } else if port == 0x2007 {
                (self.ppu.read_data().0, self.with_ppu(self.ppu.read_data().1))
            } else {
                (Err(Fault::WriteOnlyPort(addr)), self)
            }
        } else if addr == 0x4014 {
            (Err(Fault::WriteOnlyPort(addr)), self)
        } else if addr == 0x4016 {
            (
                Ok(self.controller.read_spec().0),
                BusView { controller: self.controller.read_spec().1, ..self },
            )
        } else if addr <= 0x4017 {
            (Ok(0), self)
        } else if addr >= 0x8000 && prg_index(self.prg_rom.len(), addr) < self.prg_rom.len() {
            (Ok(self.prg_rom[prg_index(self.prg_rom.len(), addr)]), self)
        } else {
            (Err(Fault::UnmappedRead(addr)), self)
        }
    }

    /// A CPU write of `data` to `addr`.
    #[verifier::opaque]
    pub open spec fn write(self, addr: u16, data: u8) -> (Result<(), Fault>, BusView) {
        if addr <= 0x1fff {
            (Ok(()), BusView { ram: self.ram.update(addr as int % 0x800, data), ..self })
        } else if addr <= 0x3fff {
            let port = ppu_port(addr);
            if port == 0x2000 {
                (Ok(()), self.with_ppu(self.ppu.write_ctrl(data)))
            } else if port == 0x2001 {
                (Ok(()), self.with_ppu(self.ppu.write_mask(data)))
            } else if port == 0x2002 {
                (Err(Fault::StatusWrite), self)
            } else if port == 0x2003 {
                (Ok(()), self.with_ppu(self.ppu.write_oamaddr(data)))
            } else if port == 0x2004 {
                (Ok(()), self.with_ppu(self.ppu.write_oamdata(data)))
            } else if port == 0x2005 {
                (Ok(()), self.with_ppu(self.ppu.write_scroll(data)))
            } else if port == 0x2006 {
                (Ok(()), self.with_ppu(self.ppu.write_addr(data)))
            } else {
                (self.ppu.write_data(data).0, self.with_ppu(self.ppu.write_data(data).1))
            }
        } else if addr == 0x4014 {
            self.oam_dma(data)
        } else if addr == 0x4016 {
            (Ok(()), BusView { controller: self.controller.write_spec(data), ..self })
        } else if addr <= 0x4017 {
            (Ok(()), self)
        } else {
            (Err(Fault::UnmappedWrite(addr)), self)
        }
    }

    /// The first `n` of the bytes from `start` on, read one after another.
    pub open spec fn read_run(self, start: u16, n: nat) -> (Result<Seq<u8>, Fault>, BusView)
        decreases n,
    {
        if n == 0 {
            (Ok(Seq::empty()), self)
        } else {
            let (r, b) = self.read_run(start, (n - 1) as nat);
            match r {
                Err(e) => (Err(e), b),
                Ok(s) => {
                    let (x, b2) = b.read(((start + n - 1) % 0x10000) as u16);
                    match x {
                        Err(e) => (Err(e), b2),
                        Ok(v) => (Ok(s.push(v)), b2),
                    }
                },
            }
        }
    }

    /// OAM DMA from CPU page `page`: 256 reads from `page << 8`, then the
    /// block through the OAM data port.
    pub open spec fn oam_dma(self, page: u8) -> (Result<(), Fault>, BusView) {
        let (r, b) = self.read_run((page * 256) as u16, 256);
        match r {
            Err(e) => (Err(e), b),
            Ok(s) => (Ok(()), b.with_ppu(b.ppu.dma(s))),
        }
    }

    /// `n` CPU cycles: three PPU dots each. The flag tells whether an NMI
    /// became pending.
    #[verifier::opaque]
    pub open spec fn tick(self, n: u8) -> (BusView, bool) {
        let (p, _) = self.ppu.tick(3 * n);
        (
            BusView { ppu: p, cycle: ((self.cycle + n) % 0x1_0000_0000_0000_0000) as u64, ..self },
            self.ppu.nmi is None && p.nmi is Some,
        )
    }

    /// A little-endian word read as two byte reads.
    pub open spec fn read_u16(self, addr: u16) -> (Result<u16, Fault>, BusView) {
        let (lo, b1) = self.read(addr);
        let (hi, b2) = b1.read(((addr + 1) % 0x10000) as u16);
        match lo {
            Err(e) => (Err(e), b1),
            Ok(l) => match hi {
                Err(e) => (Err(e), b2),
                Ok(h) => (Ok((l + h * 256) as u16), b2),
            },
        }
    }
}

/// Once a run of reads has faulted, reading further changes nothing.
proof fn lemma_read_run_fault(b: BusView, start: u16, n: nat, m: nat)
    requires
        n <= m,
        b.read_run(start, n).0 is Err,
    ensures
        b.read_run(start, m) == b.read_run(start, n),
    decreases m,
{
    if m > n {
        lemma_read_run_fault(b, start, n, (m - 1) as nat);
    }
}

/// A run of reads that succeeds yields as many bytes as were asked for.
pub proof fn lemma_read_run_len(b: BusView, start: u16, n: nat)
    ensures
        b.read_run(start, n).0 matches Ok(s) ==> s.len() == n,
    decreases n,
{
    if n > 0 {
        lemma_read_run_len(b, start, (n - 1) as nat);
    }
}

/// A word read yields `read(a) | read(a + 1) << 8`, the second address
/// wrapping at the top of memory, and leaves the bus as the two byte
/// reads do.
pub proof fn lemma_read_u16_bytes(b: BusView, addr: u16)
    ensures
        ({
            let (lo, b1) = b.read(addr);
            let (hi, b2) = b1.read(((addr + 1) % 0x10000) as u16);
            match (lo, hi) {
                (Ok(l), Ok(h)) => b.read_u16(addr) == (
                    Ok::<u16, Fault>((l as u16) | ((h as u16) << 8u16)),
                    b2,
                ),
                _ => true,
            }
        }),
{
    let (lo, b1) = b.read(addr);
    let (hi, b2) = b1.read(((addr + 1) % 0x10000) as u16);
    if let Ok(l) = lo {
        if let Ok(h) = hi {
            assert((l as u16) | ((h as u16) << 8u16) == (l as u16) + (h as u16) * 256) by (
            bit_vector);
        }
    }
}

/// A read of 0x4016 is a read of the controller's serial port.
pub proof fn lemma_controller_port(b: BusView)
    ensures
        b.read(0x4016) == (
            Ok::<u8, Fault>(b.controller.read_spec().0),
            BusView { controller: b.controller.read_spec().1, ..b },
        ),
{
    reveal(BusView::read);
}

/// The CPU bus: RAM, cartridge, PPU and controller behind one address space.
pub struct Bus {
    pub ram: Vec<u8>,
    pub rom: Rom,
    pub ppu: Ppu,
    pub controller: Controller,
    pub cycle: u64,
}

impl View for Bus {
    type V = BusView;

    open spec fn view(&self) -> BusView {
        BusView {
            ram: self.ram@,
            prg_rom: self.rom.prg_rom@,
            ppu: self.ppu@,
            controller: self.controller,
            cycle: self.cycle,
        }
    }
}

impl Bus {
    pub open spec fn wf(&self) -> bool {
        self@.wf()
    }

    /// A bus around `rom`, with cleared RAM and a powered-up PPU reading
    /// the cartridge's character ROM.
    pub fn new(rom: Rom) -> (r: Self)
        ensures
            r.wf(),
            r@.ram == Seq::new(RAM_SIZE as nat, |i: int| 0u8),
            r@.prg_rom == rom.prg_rom@,
            r@.ppu == PpuView::power_up(rom.chr_rom@, rom.mirroring_spec()),
            r@.controller == (Controller { index: 0, status: 0, strobe: false }),
            r@.cycle == 0,
    {
        let chr = copy_range(rom.chr_rom.as_slice(), 0, rom.chr_rom.len());
        assert(chr@ =~= rom.chr_rom@);
        let mirroring = rom.mirroring();
        let ppu = Ppu::new(chr, mirroring);
        Bus { ram: crate::ppu::zeroed(RAM_SIZE), rom, ppu, controller: Controller::new(), cycle: 0 }
    }

    /// Charges `cycle` CPU cycles, running the PPU three dots per cycle;
    /// true when that made an NMI pending.
    pub fn tick(&mut self, cycle: u8) -> (r: bool)
        requires
            old(self).wf(),
        ensures
            final(self).wf(),
            (final(self)@, r) == old(self)@.tick(cycle),
    {
        proof {
            reveal(BusView::tick);
        }
        self.cycle = self.cycle.wrapping_add(cycle as u64);
        let before = self.ppu.has_nmi.is_some();
        self.ppu.tick(cycle as u16 * 3);
        !before && self.ppu.has_nmi.is_some()
    }

    /// Latches the buttons that the host found pressed.
    pub fn read_keys(&mut self, pressed: u8)
        ensures
            final(self)@ == (BusView {
                controller: Controller { status: pressed, ..old(self)@.controller },
                ..old(self)@
            }),
    {
        self.controller.read_keys(pressed)
    }

    /// Takes the pending NMI: true when one was raised; none is pending after.
    pub fn take_nmi(&mut self) -> (r: bool)
        ensures
            r == (old(self)@.ppu.nmi == Some(true)),
            final(self)@ == old(self)@.with_ppu(PpuView { nmi: None, ..old(self)@.ppu }),
    {
        let r = match self.ppu.has_nmi {
            Some(b) => b,
            None => false,
        };
        self.ppu.has_nmi = None;
        r
    }

    fn read_port(&mut self, port: u16, address: u16) -> (r: Result<u8, Fault>)
        requires
            old(self).wf(),
            0x2000 <= address <= 0x3fff,
            port == ppu_port(address),
        ensures
            final(self).wf(),
            (r, final(self)@) == old(self)@.read(address),
    {
        proof {
            reveal(BusView::read);
        }
        if port == 0x2002 {
            Ok(self.ppu.read_ppustatus())
        } else if port == 0x2004 {
            Ok(self.ppu.read_oamdata())
        } else if port == 0x2007 {
            self.ppu.read_data()
        } else {
            Err(Fault::WriteOnlyPort(address))
        }
    }

    /// A CPU read: routes `address` to RAM, a PPU register, the controller
    /// or the cartridge.
    pub fn read_u8(&mut self, address: u16) -> (r: Result<u8, Fault>)
        requires
            old(self).wf(),
        ensures
            final(self).wf(),
            (r, final(self)@) == old(self)@.read(address),
    {
        proof {
            reveal(BusView::read);
        }
        if address <= 0x1fff {
            Ok(self.ram[(address % 0x800) as usize])
        } else if address <= 0x3fff {
            self.read_port(0x2000 + address % 8, address)
        } else if address == 0x4014 {
            Err(Fault::WriteOnlyPort(address))
        } else if address == 0x4016 {
            Ok(self.controller.read())
        } else if address <= 0x4017 {
            Ok(0)
        } else if self.rom.covers(address) {
            Ok(self.rom.read_byte(address))
        } else {
            Err(Fault::UnmappedRead(address))
        }
    }

    fn write_port(&mut self, port: u16, address: u16, data: u8) -> (r: Result<(), Fault>)
        requires
            old(self).wf(),
            0x2000 <= address <= 0x3fff,
            port == ppu_port(address),
        ensures
            final(self).wf(),
            (r, final(self)@) == old(self)@.write(address, data),
    {
        proof {
            reveal(BusView::write);
        }
        if port == 0x2000 {
            self.ppu.write_ppuctrl(data);
        } else if port == 0x2001 {
            self.ppu.write_ppumask(data);
        } else if port == 0x2002 {
            return Err(Fault::StatusWrite);
        } else if port == 0x2003 {
            self.ppu.write_oamaddr(data);
        } else if port == 0x2004 {
            self.ppu.write_oamdata(data);
        } else if port == 0x2005 {
            self.ppu.write_scrolldata(data);
        } else if port == 0x2006 {
            self.ppu.write_ppuaddr(data);
        } else {
            return self.ppu.write_ppudata(data);
        }
        Ok(())
    }

    fn oam_dma(&mut self, page: u8) -> (r: Result<(), Fault>)
        requires
            old(self).wf(),
        ensures
            final(self).wf(),
            (r, final(self)@) == old(self)@.oam_dma(page),
    {
        let start: u16 = page as u16 * 256;
        let mut buffer: Vec<u8> = Vec::new();
        let mut i: u16 = 0;
        let ghost first = self@;
        while i < 256
            invariant
                i <= 256,
                start == page * 256,
                first == old(self)@,
                self.wf(),
                first.read_run(start, i as nat) == (Ok::<Seq<u8>, Fault>(buffer@), self@),
            decreases 256 - i,
        {
            match self.read_u8(start + i) {
                Ok(v) => buffer.push(v),
                Err(e) => {
                    proof {
                        lemma_read_run_fault(first, start, (i + 1) as nat, 256);
                    }
                    return Err(e);
                },
            }
            i = i + 1;
        }
        self.ppu.write_oamdata_dma(buffer.as_slice());
        Ok(())
    }

    /// A CPU write: routes `address` like a read; a write to 0x4014 starts
    /// an OAM DMA from page `data`.
    pub fn write_u8(&mut self, address: u16, data: u8) -> (r: Result<(), Fault>)
        requires
            old(self).wf(),
        ensures
            final(self).wf(),
            (r, final(self)@) == old(self)@.write(address, data),
    {
        proof {
            reveal(BusView::write);
        }
        if address <= 0x1fff {
            self.ram.set((address % 0x800) as usize, data);
            Ok(())
        } else if address <= 0x3fff {
            self.write_port(0x2000 + address % 8, address, data)
        } else if address == 0x4014 {
            self.oam_dma(data)
        } else if address == 0x4016 {
            self.controller.write(data);
            Ok(())
        } else if address <= 0x4017 {
            Ok(())
        } else {
            Err(Fault::UnmappedWrite(address))
        }
    }

    /// A little-endian word: the byte at `address`, then the one after it.
    pub fn read_u16(&mut self, address: u16) -> (r: Result<u16, Fault>)
        requires
            old(self).wf(),
        ensures
            final(self).wf(),
            (r, final(self)@) == old(self)@.read_u16(address),
    {
        let lo = self.read_u8(address);
        let lo = match lo {
            Ok(v) => v,
            Err(e) => {
                return Err(e);
            },
        };
        let hi = match self.read_u8(address.wrapping_add(1)) {
            Ok(v) => v,
            Err(e) => {
                return Err(e);
            },
        };
        Ok(lo as u16 + hi as u16 * 256)
    }

    /// `size` bytes read one after another from `address` on, wrapping at
    /// the end of the address space.
    pub fn read_bytes(&mut self, address: u16, size: u8) -> (r: Result<Vec<u8>, Fault>)
        requires
            old(self).wf(),
        ensures
            final(self).wf(),
            ({
                let (s, b) = old(self)@.read_run(address, size as nat);
                &&& final(self)@ == b
                &&& s is Ok <==> r is Ok
                &&& r matches Ok(v) ==> s == Ok::<Seq<u8>, Fault>(v@)
                &&& r matches Err(e) ==> s == Err::<Seq<u8>, Fault>(e)
            }),
    {
        let mut bytes: Vec<u8> = Vec::new();
        let mut i: u8 = 0;
        let ghost first = self@;
        while i < size
            invariant
                i <= size,
                first == old(self)@,
                self.wf(),
                first.read_run(address, i as nat) == (Ok::<Seq<u8>, Fault>(bytes@), self@),
            decreases size - i,
        {
            match self.read_u8(address.wrapping_add(i as u16)) {
                Ok(v) => bytes.push(v),
                Err(e) => {
                    proof {
                        lemma_read_run_fault(first, address, (i + 1) as nat, size as nat);
                    }
                    return Err(e);
                },
            }
            i = i + 1;
        }
        Ok(bytes)
    }
}

} // verus!
