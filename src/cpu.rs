use vstd::prelude::*;

use crate::bus::{lemma_read_run_len, Bus, BusView};
use crate::fault::Fault;
use crate::opcodes::{decode, decode_spec, has_address, AddressingMode, Instruction, Opcode};
use crate::ppu::{wrap16, wrap8};

verus! {

// Bits of the processor status register P.
pub const FLAG_CARRY: u8 = 0b0000_0001;
pub const FLAG_ZERO: u8 = 0b0000_0010;
pub const FLAG_INT_DISABLE: u8 = 0b0000_0100;
pub const FLAG_DECIMAL: u8 = 0b0000_1000;
pub const FLAG_BREAK: u8 = 0b0001_0000;
pub const FLAG_UNUSED: u8 = 0b0010_0000;
pub const FLAG_OVERFLOW: u8 = 0b0100_0000;
pub const FLAG_NEGATIVE: u8 = 0b1000_0000;

/// Page that holds the stack.
pub const STACK_BASE: u16 = 0x0100;

/// Where the NMI (and BRK) handler's address is stored.
pub const NMI_VECTOR: u16 = 0xfffa;

/// Where the reset handler's address is stored.
pub const RESET_VECTOR: u16 = 0xfffc;

/// `v` reduced to 64 bits.
pub open spec fn wrap64(v: int) -> u64 {
    (v % 0x1_0000_0000_0000_0000) as u64
}

/// Where a branch with offset byte `off` lands from the address `next`
/// after the branch instruction: `off` counts as a signed byte.
pub open spec fn branch_target(next: u16, off: u8) -> u16 {
    if off < 128 {
        wrap16(next + off)
    } else {
        wrap16(next + off + 0xff00)
    }
}

/// What a shift or rotate makes of `v` with carry `carry`: the result and
/// the carry out.
pub open spec fn shifted(op: Opcode, v: u8, carry: bool) -> (u8, bool) {
    match op {
        Opcode::Asl => (wrap8(v * 2), v >= 0x80),
        Opcode::Rol => (wrap8(v * 2 + if carry { 1int } else { 0int }), v >= 0x80),
        Opcode::Lsr => (v / 2, v % 2 == 1),
        _ => ((v / 2 + if carry { 0x80int } else { 0int }) as u8, v % 2 == 1),
    }
}

/// The CPU as plain values.
pub struct CpuView {
    pub pc: u16,
    pub a: u8,
    pub x: u8,
    pub y: u8,
    pub sp: u8,
    pub p: u8,
    pub cycles: u64,
    pub bus: BusView,
}

/// The pc set on success; a fault leaves the state as it stands.
pub open spec fn with_pc(r: (Result<(), Fault>, CpuView), pc: u16) -> (Result<(), Fault>, CpuView) {
    match r.0 {
        Ok(_) => (r.0, CpuView { pc, ..r.1 }),
        Err(_) => r,
    }
}

impl CpuView {
    pub open spec fn wf(self) -> bool {
        self.bus.wf()
    }

    pub open spec fn with_bus(self, b: BusView) -> CpuView {
        CpuView { bus: b, ..self }
    }

    pub open spec fn read(self, addr: u16) -> (Result<u8, Fault>, CpuView) {
        (self.bus.read(addr).0, self.with_bus(self.bus.read(addr).1))
    }

    pub open spec fn write(self, addr: u16, v: u8) -> (Result<(), Fault>, CpuView) {
        (self.bus.write(addr, v).0, self.with_bus(self.bus.write(addr, v).1))
    }

    pub open spec fn flag(self, f: u8) -> bool {
        self.p & f != 0
    }

    pub open spec fn set_flag(self, f: u8, on: bool) -> CpuView {
        CpuView { p: if on { self.p | f } else { self.p & !f }, ..self }
    }

    pub open spec fn set_zn(self, v: u8) -> CpuView {
        self.set_flag(FLAG_ZERO, v == 0).set_flag(FLAG_NEGATIVE, v & 0x80 != 0)
    }

    /// `v` stored at the stack pointer, which then moves down.
    pub open spec fn push(self, v: u8) -> CpuView {
        CpuView {
            sp: wrap8(self.sp + 255),
            bus: BusView { ram: self.bus.ram.update(STACK_BASE + self.sp, v), ..self.bus },
            ..self
        }
    }

    /// The stack pointer moves up and the byte it then points at comes off.
    pub open spec fn pop(self) -> (u8, CpuView) {
        let sp = wrap8(self.sp + 1);
        (self.bus.ram[STACK_BASE + sp], CpuView { sp, ..self })
    }

    /// High byte first, so the low byte ends up lower in memory.
    pub open spec fn push_u16(self, v: u16) -> CpuView {
        self.push((v / 256) as u8).push((v % 256) as u8)
    }

    pub open spec fn pop_u16(self) -> (u16, CpuView) {
        let (lo, s1) = self.pop();
        let (hi, s2) = s1.pop();
        ((lo + hi * 256) as u16, s2)
    }

    /// A little-endian word from the bytes at `lo_addr` and `hi_addr`.
    pub open spec fn read_word(self, lo_addr: u16, hi_addr: u16) -> (Result<u16, Fault>, CpuView) {
        let (lo, s1) = self.read(lo_addr);
        match lo {
            Err(e) => (Err(e), s1),
            Ok(l) => {
                let (hi, s2) = s1.read(hi_addr);
                match hi {
                    Err(e) => (Err(e), s2),
                    Ok(h) => (Ok((l + h * 256) as u16), s2),
                }
            },
        }
    }

    /// The effective address of a memory operand. An indirect pointer's
    /// high byte comes from the same page as its low byte.
    #[verifier::opaque]
    pub open spec fn operand_address(self, ins: Instruction, bs: Seq<u8>) -> (
        Result<u16, Fault>,
        CpuView,
    ) {
        let word = (bs[1] + bs[2] * 256) as u16;
        match ins.mode {
            AddressingMode::ZeroPage => (Ok(bs[1] as u16), self),
            AddressingMode::ZeroPageX => (Ok(wrap8(bs[1] + self.x) as u16), self),
            AddressingMode::ZeroPageY => (Ok(wrap8(bs[1] + self.y) as u16), self),
            AddressingMode::Absolute => (Ok(word), self),
            AddressingMode::AbsoluteX => (Ok(wrap16(word + self.x)), self),
            AddressingMode::AbsoluteY => (Ok(wrap16(word + self.y)), self),
            AddressingMode::Indirect => self.read_word(
                word,
                ((word / 256) * 256 + (word % 256 + 1) % 256) as u16,
            ),
            AddressingMode::IndirectX => {
                let ptr = wrap8(bs[1] + self.x);
                self.read_word(ptr as u16, wrap8(ptr + 1) as u16)
            },
            AddressingMode::IndirectY => {
                let (r, s) = self.read_word(bs[1] as u16, wrap8(bs[1] + 1) as u16);
                match r {
                    Err(e) => (Err(e), s),
                    Ok(t) => (Ok(wrap16(t + self.y)), s),
                }
            },
            _ => (Ok(0), self),
        }
    }

    /// The operand's value: the literal byte, the accumulator or the byte
    /// at the effective address.
    pub open spec fn operand(self, ins: Instruction, bs: Seq<u8>) -> (Result<u8, Fault>, CpuView) {
        match ins.mode {
            AddressingMode::Immediate => (Ok(bs[1]), self),
            AddressingMode::Accumulator => (Ok(self.a), self),
            _ => {
                let (r, s) = self.operand_address(ins, bs);
                match r {
                    Err(e) => (Err(e), s),
                    Ok(addr) => s.read(addr),
                }
            },
        }
    }

    /// A + M + C, with carry out of bit 7 and signed overflow.
    pub open spec fn adc(self, m: u8) -> CpuView {
        let sum = self.a + m + if self.flag(FLAG_CARRY) { 1int } else { 0int };
        let r = wrap8(sum);
        CpuView {
            a: r,
            ..self.set_flag(FLAG_CARRY, sum > 0xff).set_flag(
                FLAG_OVERFLOW,
                (m ^ r) & (self.a ^ r) & 0x80 != 0,
            )
        }.set_zn(r)
    }

    /// reg - M: carry when no borrow, N and Z from the difference.
    pub open spec fn compare(self, reg: u8, m: u8) -> CpuView {
        self.set_flag(FLAG_CARRY, reg >= m).set_zn(wrap8(reg - m + 256))
    }

    /// What an instruction that only reads its operand makes of value `m`.
    pub open spec fn alu(self, op: Opcode, m: u8) -> CpuView {
        match op {
            Opcode::Adc => self.adc(m),
            Opcode::Sbc => self.adc((255 - m) as u8),
            Opcode::And => CpuView { a: self.a & m, ..self }.set_zn(self.a & m),
            Opcode::Ora => CpuView { a: self.a | m, ..self }.set_zn(self.a | m),
            Opcode::Eor => CpuView { a: self.a ^ m, ..self }.set_zn(self.a ^ m),
            Opcode::Lda => CpuView { a: m, ..self }.set_zn(m),
            Opcode::Ldx => CpuView { x: m, ..self }.set_zn(m),
            Opcode::Ldy => CpuView { y: m, ..self }.set_zn(m),
            Opcode::Cmp => self.compare(self.a, m),
            Opcode::Cpx => self.compare(self.x, m),
            Opcode::Cpy => self.compare(self.y, m),
            Opcode::Bit => self.set_flag(FLAG_ZERO, self.a & m == 0).set_flag(
                FLAG_NEGATIVE,
                m & 0x80 != 0,
            ).set_flag(FLAG_OVERFLOW, m & 0x40 != 0),
            _ => self,
        }
    }

    #[verifier::opaque]
    pub open spec fn read_op(self, ins: Instruction, bs: Seq<u8>) -> (Result<(), Fault>, CpuView) {
        let (r, s) = self.operand(ins, bs);
        match r {
            Err(e) => (Err(e), s),
            Ok(m) => (Ok(()), s.alu(ins.opcode, m)),
        }
    }

    /// `v` written to the effective address.
    #[verifier::opaque]
    pub open spec fn store(self, ins: Instruction, bs: Seq<u8>, v: u8) -> (
        Result<(), Fault>,
        CpuView,
    ) {
        let (r, s) = self.operand_address(ins, bs);
        match r {
            Err(e) => (Err(e), s),
            Ok(addr) => s.write(addr, v),
        }
    }

    /// A shift or rotate of the accumulator or of a byte in memory.
    #[verifier::opaque]
    pub open spec fn shift(self, ins: Instruction, bs: Seq<u8>) -> (Result<(), Fault>, CpuView) {
        let carry = self.flag(FLAG_CARRY);
        if ins.mode == AddressingMode::Accumulator {
            let (r, c) = shifted(ins.opcode, self.a, carry);
            (Ok(()), CpuView { a: r, ..self }.set_flag(FLAG_CARRY, c).set_zn(r))
        } else {
            let (ra, s1) = self.operand_address(ins, bs);
            match ra {
                Err(e) => (Err(e), s1),
                Ok(addr) => {
                    let (rv, s2) = s1.read(addr);
                    match rv {
                        Err(e) => (Err(e), s2),
                        Ok(v) => {
                            let (r, c) = shifted(ins.opcode, v, carry);
                            let (rw, s3) = s2.write(addr, r);
                            match rw {
                                Err(e) => (Err(e), s3),
                                Ok(_) => (Ok(()), s3.set_flag(FLAG_CARRY, c).set_zn(r)),
                            }
                        },
                    }
                },
            }
        }
    }

    /// The byte in memory moved by `delta` (1 up, 255 down), with N and Z.
    #[verifier::opaque]
    pub open spec fn step_mem(self, ins: Instruction, bs: Seq<u8>, delta: u8) -> (
        Result<(), Fault>,
        CpuView,
    ) {
        let (ra, s1) = self.operand_address(ins, bs);
        match ra {
            Err(e) => (Err(e), s1),
            Ok(addr) => {
                let (rv, s2) = s1.read(addr);
                match rv {
                    Err(e) => (Err(e), s2),
                    Ok(v) => {
                        let r = wrap8(v + delta);
                        let (rw, s3) = s2.write(addr, r);
                        match rw {
                            Err(e) => (Err(e), s3),
                            Ok(_) => (Ok(()), s3.set_zn(r)),
                        }
                    },
                }
            },
        }
    }

    /// Instructions that touch only registers and the stack.
    #[verifier::opaque]
    pub open spec fn implied(self, op: Opcode) -> CpuView {
        match op {
            Opcode::Clc => self.set_flag(FLAG_CARRY, false),
            Opcode::Sec => self.set_flag(FLAG_CARRY, true),
            Opcode::Cli => self.set_flag(FLAG_INT_DISABLE, false),
            Opcode::Sei => self.set_flag(FLAG_INT_DISABLE, true),
            Opcode::Clv => self.set_flag(FLAG_OVERFLOW, false),
            Opcode::Cld => self.set_flag(FLAG_DECIMAL, false),
            Opcode::Sed => self.set_flag(FLAG_DECIMAL, true),
            Opcode::Inx => CpuView { x: wrap8(self.x + 1), ..self }.set_zn(wrap8(self.x + 1)),
            Opcode::Iny => CpuView { y: wrap8(self.y + 1), ..self }.set_zn(wrap8(self.y + 1)),
            Opcode::Dex => CpuView { x: wrap8(self.x + 255), ..self }.set_zn(wrap8(self.x + 255)),
            Opcode::Dey => CpuView { y: wrap8(self.y + 255), ..self }.set_zn(wrap8(self.y + 255)),
            Opcode::Tax => CpuView { x: self.a, ..self }.set_zn(self.a),
            Opcode::Tay => CpuView { y: self.a, ..self }.set_zn(self.a),
            Opcode::Tsx => CpuView { x: self.sp, ..self }.set_zn(self.sp),
            Opcode::Txa => CpuView { a: self.x, ..self }.set_zn(self.x),
            Opcode::Txs => CpuView { sp: self.x, ..self },
            Opcode::Tya => CpuView { a: self.y, ..self }.set_zn(self.y),
            Opcode::Pha => self.push(self.a),
            Opcode::Php => self.push(self.p | FLAG_BREAK | FLAG_UNUSED),
            Opcode::Pla => CpuView { a: self.pop().0, ..self.pop().1 }.set_zn(self.pop().0),
            Opcode::Plp => CpuView { p: self.pop().0, ..self.pop().1 }.set_flag(
                FLAG_BREAK,
                false,
            ).set_flag(FLAG_UNUSED, true),
            _ => self,
        }
    }

    /// Interrupt entry: pc and status pushed, interrupts disabled, pc
    /// loaded from the NMI vector.
    #[verifier::opaque]
    pub open spec fn interrupt(self) -> (Result<u16, Fault>, CpuView) {
        let s1 = self.push_u16(self.pc).set_flag(FLAG_BREAK, false).set_flag(FLAG_UNUSED, true);
        let s2 = s1.push(s1.p).set_flag(FLAG_INT_DISABLE, true);
        let (r, s3) = s2.read_word(NMI_VECTOR, (NMI_VECTOR + 1) as u16);
        match r {
            Err(e) => (Err(e), s3),
            Ok(v) => (Ok(v), CpuView { pc: v, ..s3 }),
        }
    }

    /// A branch: to the target when `cond` holds, else on to `next`.
    pub open spec fn branch(self, next: u16, cond: bool, off: u8) -> (Result<(), Fault>, CpuView) {
        (Ok(()), CpuView { pc: if cond { branch_target(next, off) } else { next }, ..self })
    }

    /// The effect of one decoded instruction whose bytes are `bs`.
    #[verifier::opaque]
    pub open spec fn execute(self, ins: Instruction, bs: Seq<u8>) -> (Result<(), Fault>, CpuView) {
        let next = wrap16(self.pc + ins.length);
        match ins.opcode {
            Opcode::Adc | Opcode::Sbc | Opcode::And | Opcode::Ora | Opcode::Eor | Opcode::Lda
            | Opcode::Ldx | Opcode::Ldy | Opcode::Cmp | Opcode::Cpx | Opcode::Cpy
            | Opcode::Bit => with_pc(self.read_op(ins, bs), next),
            Opcode::Sta => with_pc(self.store(ins, bs, self.a), next),
            Opcode::Stx => with_pc(self.store(ins, bs, self.x), next),
            Opcode::Sty => with_pc(self.store(ins, bs, self.y), next),
            Opcode::Asl | Opcode::Lsr | Opcode::Rol | Opcode::Ror => with_pc(
                self.shift(ins, bs),
                next,
            ),
            Opcode::Inc => with_pc(self.step_mem(ins, bs, 1), next),
            Opcode::Dec => with_pc(self.step_mem(ins, bs, 255), next),
            Opcode::Bcc => self.branch(next, !self.flag(FLAG_CARRY), bs[1]),
            Opcode::Bcs => self.branch(next, self.flag(FLAG_CARRY), bs[1]),
            Opcode::Bvc => self.branch(next, !self.flag(FLAG_OVERFLOW), bs[1]),
            Opcode::Bvs => self.branch(next, self.flag(FLAG_OVERFLOW), bs[1]),
            Opcode::Bne => self.branch(next, !self.flag(FLAG_ZERO), bs[1]),
            Opcode::Beq => self.branch(next, self.flag(FLAG_ZERO), bs[1]),
            Opcode::Bpl => self.branch(next, !self.flag(FLAG_NEGATIVE), bs[1]),
            Opcode::Bmi => self.branch(next, self.flag(FLAG_NEGATIVE), bs[1]),
            Opcode::Jmp => {
                let (r, s) = self.operand_address(ins, bs);
                match r {
                    Err(e) => (Err(e), s),
                    Ok(t) => (Ok(()), CpuView { pc: t, ..s }),
                }
            },
            Opcode::Jsr => {
                let (r, s) = self.operand_address(ins, bs);
                match r {
                    Err(e) => (Err(e), s),
                    Ok(t) => (Ok(()), CpuView { pc: t, ..s.push_u16(wrap16(self.pc + 2)) }),
                }
            },
            Opcode::Rts => (
                Ok(()),
                CpuView { pc: wrap16(self.pop_u16().0 + 1), ..self.pop_u16().1 },
            ),
            Opcode::Rti => {
                let (p, s1) = self.pop();
                let (pc, s2) = s1.pop_u16();
                (
                    Ok(()),
                    CpuView { p, pc, ..s2 }.set_flag(FLAG_BREAK, false).set_flag(
                        FLAG_UNUSED,
                        true,
                    ),
                )
            },
            Opcode::Brk => {
                let (r, s) = self.interrupt();
                match r {
                    Err(e) => (Err(e), s),
                    Ok(_) => (Ok(()), s),
                }
            },
            Opcode::Kil => (Err(Fault::Halt(bs[0])), self),
            _ => (Ok(()), CpuView { pc: next, ..self.implied(ins.opcode) }),
        }
    }

    /// One fetch, decode and execute: the opcode byte is read, then the
    /// whole instruction, the instruction runs, and its cycles are charged
    /// to the cycle count and to the bus. Success reports the cycles.
    pub open spec fn step(self) -> (Result<u8, Fault>, CpuView) {
        let (rop, s1) = self.read(self.pc);
        match rop {
            Err(e) => (Err(e), s1),
            Ok(op) => {
                let ins = decode_spec(op);
                let (rb, b2) = s1.bus.read_run(self.pc, ins.length as nat);
                let s2 = s1.with_bus(b2);
                match rb {
                    Err(e) => (Err(e), s2),
                    Ok(bs) => {
                        let (r, s3) = s2.execute(ins, bs);
                        match r {
                            Err(e) => (Err(e), s3),
                            Ok(_) => (
                                Ok(ins.cycles),
                                CpuView {
                                    cycles: wrap64(s3.cycles + ins.cycles),
                                    bus: s3.bus.tick(ins.cycles).0,
                                    ..s3
                                },
                            ),
                        }
                    },
                }
            },
        }
    }

    /// Registers after reset: A, X, Y cleared, P = 0x24, SP = 0xFD and pc
    /// loaded from the reset vector.
    pub open spec fn reset(self) -> (Result<(), Fault>, CpuView) {
        let (r, s) = self.read_word(RESET_VECTOR, (RESET_VECTOR + 1) as u16);
        match r {
            Err(e) => (Err(e), s),
            Ok(v) => (Ok(()), CpuView { a: 0, x: 0, y: 0, p: 0x24, sp: 0xfd, pc: v, ..s }),
        }
    }
}

} // verus!

verus! {

/// An instruction with the bytes it was fetched as, opcode first.
pub struct InstructionBytes {
    pub instruction: Instruction,
    pub bytes: Vec<u8>,
}

impl InstructionBytes {
    pub open spec fn wf(&self) -> bool {
        self.instruction.wf() && self.bytes@.len() == self.instruction.length
    }

    /// The 16-bit operand of a three-byte instruction.
    pub fn get_address(&self) -> (r: u16)
        requires
            self.bytes@.len() == 3,
        ensures
            r == self.bytes@[1] + self.bytes@[2] * 256,
    {
        self.bytes[1] as u16 + self.bytes[2] as u16 * 256
    }

    /// The operand byte of a two-byte instruction.
    pub fn get_immediate(&self) -> (r: u8)
        requires
            self.bytes@.len() == 2,
        ensures
            r == self.bytes@[1],
    {
        self.bytes[1]
    }

    /// The operand byte of a two-byte instruction, read as signed.
    pub fn get_offset(&self) -> (r: i8)
        requires
            self.bytes@.len() == 2,
        ensures
            r == (if self.bytes@[1] < 128 { self.bytes@[1] as int } else { self.bytes@[1] - 256 }),
    {
        let b = self.bytes[1];
        if b < 128 {
            b as i8
        } else {
            (b as i16 - 256) as i8
        }
    }
}

/// The 6502 CPU: registers, cycle count, and the bus it drives.
pub struct Cpu {
    pub pc: u16,
    pub a: u8,
    pub x: u8,
    pub y: u8,
    pub sp: u8,
    pub p: u8,
    pub cycles: u64,
    pub bus: Bus,
}

impl View for Cpu {
    type V = CpuView;

    open spec fn view(&self) -> CpuView {
        CpuView {
            pc: self.pc,
            a: self.a,
            x: self.x,
            y: self.y,
            sp: self.sp,
            p: self.p,
            cycles: self.cycles,
            bus: self.bus@,
        }
    }
}

impl Cpu {
    pub open spec fn wf(&self) -> bool {
        self@.wf()
    }

    /// A CPU on `bus` with every register cleared.
    pub fn new(bus: Bus) -> (r: Self)
        ensures
            r@ == (CpuView { pc: 0, a: 0, x: 0, y: 0, sp: 0, p: 0, cycles: 0, bus: bus@ }),
    {
        Cpu { pc: 0, sp: 0, a: 0, x: 0, y: 0, p: 0, cycles: 0, bus }
    }

    fn read(&mut self, addr: u16) -> (r: Result<u8, Fault>)
        requires
            old(self).wf(),
        ensures
            final(self).wf(),
            (r, final(self)@) == old(self)@.read(addr),
    {
        self.bus.read_u8(addr)
    }

    fn write(&mut self, addr: u16, v: u8) -> (r: Result<(), Fault>)
        requires
            old(self).wf(),
        ensures
            final(self).wf(),
            (r, final(self)@) == old(self)@.write(addr, v),
    {
        self.bus.write_u8(addr, v)
    }

    fn is_flag_set(&self, flag: u8) -> (r: bool)
        ensures
            r == self@.flag(flag),
    {
        self.p & flag != 0
    }

    fn change_flag(&mut self, flag: u8, value: bool)
        ensures
            final(self)@ == old(self)@.set_flag(flag, value),
    {
        if value {
            self.p = self.p | flag;
        } else {
            self.p = self.p & !flag;
        }
    }

    fn set_zero_negative_flags(&mut self, value: u8)
        ensures
            final(self)@ == old(self)@.set_zn(value),
    {
        self.change_flag(FLAG_ZERO, value == 0);
        self.change_flag(FLAG_NEGATIVE, value & 0x80 != 0);
    }

    /// Pushes a byte onto the stack.
    pub fn stack_push_u8(&mut self, value: u8)
        requires
            old(self).wf(),
        ensures
            final(self).wf(),
            final(self)@ == old(self)@.push(value),
    {
        proof {
            reveal(BusView::write);
        }
        let _ = self.bus.write_u8(STACK_BASE + self.sp as u16, value);
        self.sp = ((self.sp as u16 + 255) % 256) as u8;
    }

    /// Pushes a word, high byte first.
    pub fn stack_push_u16(&mut self, value: u16)
        requires
            old(self).wf(),
        ensures
            final(self).wf(),
            final(self)@ == old(self)@.push_u16(value),
    {
        self.stack_push_u8((value / 256) as u8);
        self.stack_push_u8((value % 256) as u8);
    }

    /// Pops a byte off the stack.
    pub fn stack_pop_u8(&mut self) -> (r: u8)
        requires
            old(self).wf(),
        ensures
            final(self).wf(),
            (r, final(self)@) == old(self)@.pop(),
    {
        proof {
            reveal(BusView::read);
        }
        self.sp = ((self.sp as u16 + 1) % 256) as u8;
        match self.bus.read_u8(STACK_BASE + self.sp as u16) {
            Ok(v) => v,
            Err(_) => 0,
        }
    }

    /// Pops a word, low byte first.
    pub fn stack_pop_u16(&mut self) -> (r: u16)
        requires
            old(self).wf(),
        ensures
            final(self).wf(),
            (r, final(self)@) == old(self)@.pop_u16(),
    {
        let lo = self.stack_pop_u8();
        let hi = self.stack_pop_u8();
        lo as u16 + hi as u16 * 256
    }

    fn read_word(&mut self, lo_addr: u16, hi_addr: u16) -> (r: Result<u16, Fault>)
        requires
            old(self).wf(),
        ensures
            final(self).wf(),
            (r, final(self)@) == old(self)@.read_word(lo_addr, hi_addr),
    {
        let lo = match self.read(lo_addr) {
            Ok(v) => v,
            Err(e) => {
                return Err(e);
            },
        };
        let hi = match self.read(hi_addr) {
            Ok(v) => v,
            Err(e) => {
                return Err(e);
            },
        };
        Ok(lo as u16 + hi as u16 * 256)
    }

    fn zero_page_address(b: &InstructionBytes, index: u8) -> (r: u16)
        requires
            b.bytes@.len() == 2,
        ensures
            r == wrap8(b.bytes@[1] + index) as u16,
    {
        (b.get_immediate() as u16 + index as u16) % 256
    }

    fn absolute_address(b: &InstructionBytes, index: u8) -> (r: u16)
        requires
            b.bytes@.len() == 3,
        ensures
            r == wrap16(((b.bytes@[1] + b.bytes@[2] * 256) as u16) + index),
    {
        ((b.get_address() as u32 + index as u32) % 0x10000) as u16
    }

    /// JMP's indirect pointer: its high byte is read from the same page.
    fn indirect_address(&mut self, b: &InstructionBytes) -> (r: Result<u16, Fault>)
        requires
            old(self).wf(),
            b.wf(),
            b.instruction.mode == AddressingMode::Indirect,
        ensures
            final(self).wf(),
            (r, final(self)@) == old(self)@.operand_address(b.instruction, b.bytes@),
    {
        proof {
            reveal(CpuView::operand_address);
        }
        let addr = b.get_address();
        self.read_word(addr, (addr / 256) * 256 + (addr % 256 + 1) % 256)
    }

    /// (zp,X) and (zp),Y: a pointer in the zero page, whose two bytes wrap
    /// within it.
    fn zero_page_pointer(&mut self, b: &InstructionBytes) -> (r: Result<u16, Fault>)
        requires
            old(self).wf(),
            b.wf(),
            b.instruction.mode == AddressingMode::IndirectX || b.instruction.mode
                == AddressingMode::IndirectY,
        ensures
            final(self).wf(),
            (r, final(self)@) == old(self)@.operand_address(b.instruction, b.bytes@),
    {
        proof {
            reveal(CpuView::operand_address);
        }
        if b.instruction.mode == AddressingMode::IndirectX {
            let ptr: u16 = Cpu::zero_page_address(b, self.x);
            self.read_word(ptr, (ptr + 1) % 256)
        } else {
            let ptr: u16 = b.get_immediate() as u16;
            let y = self.y;
            let target = match self.read_word(ptr, (ptr + 1) % 256) {
                Ok(t) => t,
                Err(e) => {
                    return Err(e);
                },
            };
            Ok(((target as u32 + y as u32) % 0x10000) as u16)
        }
    }

    /// The effective address of the instruction's memory operand.
    fn get_operand_address(&mut self, b: &InstructionBytes) -> (r: Result<u16, Fault>)
        requires
            old(self).wf(),
            b.wf(),
            has_address(b.instruction.mode),
        ensures
            final(self).wf(),
            (r, final(self)@) == old(self)@.operand_address(b.instruction, b.bytes@),
            final(self).pc == old(self).pc,
    {
        proof {
            reveal(CpuView::operand_address);
        }
        match b.instruction.mode {
            AddressingMode::ZeroPage => Ok(Cpu::zero_page_address(b, 0)),
            AddressingMode::ZeroPageX => Ok(Cpu::zero_page_address(b, self.x)),
            AddressingMode::ZeroPageY => Ok(Cpu::zero_page_address(b, self.y)),
            AddressingMode::Absolute => Ok(Cpu::absolute_address(b, 0)),
            AddressingMode::AbsoluteX => Ok(Cpu::absolute_address(b, self.x)),
            AddressingMode::AbsoluteY => Ok(Cpu::absolute_address(b, self.y)),
            AddressingMode::Indirect => self.indirect_address(b),
            _ => self.zero_page_pointer(b),
        }
    }

    /// The operand's value.
    fn get_operand(&mut self, b: &InstructionBytes) -> (r: Result<u8, Fault>)
        requires
            old(self).wf(),
            b.wf(),
            b.instruction.mode == AddressingMode::Immediate || b.instruction.mode
                == AddressingMode::Accumulator || has_address(b.instruction.mode),
        ensures
            final(self).wf(),
            (r, final(self)@) == old(self)@.operand(b.instruction, b.bytes@),
    {
        match b.instruction.mode {
            AddressingMode::Immediate => Ok(b.get_immediate()),
            AddressingMode::Accumulator => Ok(self.a),
            _ => {
                let addr = match self.get_operand_address(b) {
                    Ok(a) => a,
                    Err(e) => {
                        return Err(e);
                    },
                };
                self.read(addr)
            },
        }
    }

    /// A + M + C into A.
    fn add_to_a(&mut self, operand: u8)
        ensures
            final(self)@ == old(self)@.adc(operand),
    {
        let carry: u16 = if self.is_flag_set(FLAG_CARRY) {
            1
        } else {
            0
        };
        let sum: u16 = self.a as u16 + operand as u16 + carry;
        let result: u8 = (sum % 256) as u8;
        self.change_flag(FLAG_CARRY, sum > 0xff);
        self.change_flag(FLAG_OVERFLOW, (operand ^ result) & (self.a ^ result) & 0x80 != 0);
        self.a = result;
        self.set_zero_negative_flags(result);
    }

    fn compare(&mut self, reg: u8, op: u8)
        ensures
            final(self)@ == old(self)@.compare(reg, op),
    {
        self.change_flag(FLAG_CARRY, reg >= op);
        self.set_zero_negative_flags(((reg as u16 + 256 - op as u16) % 256) as u8);
    }

    /// Instructions that read their operand and act on registers.
    fn read_op(&mut self, b: &InstructionBytes) -> (r: Result<(), Fault>)
        requires
            old(self).wf(),
            b.wf(),
            b.instruction.mode == AddressingMode::Immediate || has_address(b.instruction.mode),
        ensures
            final(self).wf(),
            (r, final(self)@) == old(self)@.read_op(b.instruction, b.bytes@),
    {
        proof {
            reveal(CpuView::read_op);
        }
        let m = match self.get_operand(b) {
            Ok(m) => m,
            Err(e) => {
                return Err(e);
            },
        };
        match b.instruction.opcode {
            Opcode::Adc => self.add_to_a(m),
            Opcode::Sbc => self.add_to_a(255 - m),
            Opcode::And => {
                self.a = self.a & m;
                self.set_zero_negative_flags(self.a);
            },
            Opcode::Ora => {
                self.a = self.a | m;
                self.set_zero_negative_flags(self.a);
            },
            Opcode::Eor => {
                self.a = self.a ^ m;
                self.set_zero_negative_flags(self.a);
            },
            Opcode::Lda => {
                self.a = m;
                self.set_zero_negative_flags(m);
            },
            Opcode::Ldx => {
                self.x = m;
                self.set_zero_negative_flags(m);
            },
            Opcode::Ldy => {
                self.y = m;
                self.set_zero_negative_flags(m);
            },
            Opcode::Cmp => self.compare(self.a, m),
            Opcode::Cpx => self.compare(self.x, m),
            Opcode::Cpy => self.compare(self.y, m),
            Opcode::Bit => {
                let result = self.a & m;
                self.change_flag(FLAG_ZERO, result == 0);
                self.change_flag(FLAG_NEGATIVE, m & 0x80 != 0);
                self.change_flag(FLAG_OVERFLOW, m & 0x40 != 0);
            },
            _ => {},
        }
        Ok(())
    }

    fn store(&mut self, b: &InstructionBytes, v: u8) -> (r: Result<(), Fault>)
        requires
            old(self).wf(),
            b.wf(),
            has_address(b.instruction.mode),
        ensures
            final(self).wf(),
            (r, final(self)@) == old(self)@.store(b.instruction, b.bytes@, v),
    {
        proof {
            reveal(CpuView::store);
        }
        let addr = match self.get_operand_address(b) {
            Ok(a) => a,
            Err(e) => {
                return Err(e);
            },
        };
        self.write(addr, v)
    }

    fn shifted(op: Opcode, v: u8, carry: bool) -> (r: (u8, bool))
        ensures
            r == shifted(op, v, carry),
    {
        match op {
            Opcode::Asl => (((v as u16 * 2) % 256) as u8, v >= 0x80),
            Opcode::Rol => (((v as u16 * 2 + if carry { 1 } else { 0 }) % 256) as u8, v >= 0x80),
            Opcode::Lsr => (v / 2, v % 2 == 1),
            _ => (v / 2 + if carry { 0x80 } else { 0 }, v % 2 == 1),
        }
    }

    /// ASL, LSR, ROL and ROR, on A or on memory.
    fn shift(&mut self, b: &InstructionBytes) -> (r: Result<(), Fault>)
        requires
            old(self).wf(),
            b.wf(),
            b.instruction.mode == AddressingMode::Accumulator || has_address(b.instruction.mode),
        ensures
            final(self).wf(),
            (r, final(self)@) == old(self)@.shift(b.instruction, b.bytes@),
    {
        proof {
            reveal(CpuView::shift);
        }
        let carry = self.is_flag_set(FLAG_CARRY);
        if b.instruction.mode == AddressingMode::Accumulator {
            let (result, c) = Cpu::shifted(b.instruction.opcode, self.a, carry);
            self.a = result;
            self.change_flag(FLAG_CARRY, c);
            self.set_zero_negative_flags(result);
            return Ok(());
        }
        let addr = match self.get_operand_address(b) {
            Ok(a) => a,
            Err(e) => {
                return Err(e);
            },
        };
        let v = match self.read(addr) {
            Ok(v) => v,
            Err(e) => {
                return Err(e);
            },
        };
        let (result, c) = Cpu::shifted(b.instruction.opcode, v, carry);
        match self.write(addr, result) {
            Ok(()) => {},
            Err(e) => {
                return Err(e);
            },
        }
        self.change_flag(FLAG_CARRY, c);
        self.set_zero_negative_flags(result);
        Ok(())
    }

    /// INC (`delta` 1) and DEC (`delta` 255).
    fn step_mem(&mut self, b: &InstructionBytes, delta: u8) -> (r: Result<(), Fault>)
        requires
            old(self).wf(),
            b.wf(),
            has_address(b.instruction.mode),
        ensures
            final(self).wf(),
            (r, final(self)@) == old(self)@.step_mem(b.instruction, b.bytes@, delta),
    {
        proof {
            reveal(CpuView::step_mem);
        }
        let addr = match self.get_operand_address(b) {
            Ok(a) => a,
            Err(e) => {
                return Err(e);
            },
        };
        let v = match self.read(addr) {
            Ok(v) => v,
            Err(e) => {
                return Err(e);
            },
        };
        let value: u8 = ((v as u16 + delta as u16) % 256) as u8;
        match self.write(addr, value) {
            Ok(()) => {},
            Err(e) => {
                return Err(e);
            },
        }
        self.set_zero_negative_flags(value);
        Ok(())
    }

    /// Where a branch goes: past the instruction, plus the offset if `condition`.
    fn branch(&self, b: &InstructionBytes, condition: bool) -> (r: u16)
        requires
            b.wf(),
            b.instruction.mode == AddressingMode::Relative,
        ensures
            r == (self@.branch(
                wrap16(self.pc + b.instruction.length),
                condition,
                b.bytes@[1],
            )).1.pc,
    {
        let new_pc: u16 = ((self.pc as u32 + b.instruction.length as u32) % 0x10000) as u16;
        if condition {
            let off = b.get_immediate();
            if off < 128 {
                ((new_pc as u32 + off as u32) % 0x10000) as u16
            } else {
                ((new_pc as u32 + off as u32 + 0xff00) % 0x10000) as u16
            }
        } else {
            new_pc
        }
    }

    /// Register, flag and stack instructions without an operand.
    fn implied(&mut self, op: Opcode)
        requires
            old(self).wf(),
        ensures
            final(self).wf(),
            final(self)@ == old(self)@.implied(op),
    {
        proof {
            reveal(CpuView::implied);
        }
        match op {
            Opcode::Clc => self.change_flag(FLAG_CARRY, false),
            Opcode::Sec => self.change_flag(FLAG_CARRY, true),
            Opcode::Cli => self.change_flag(FLAG_INT_DISABLE, false),
            Opcode::Sei => self.change_flag(FLAG_INT_DISABLE, true),
            Opcode::Clv => self.change_flag(FLAG_OVERFLOW, false),
            Opcode::Cld => self.change_flag(FLAG_DECIMAL, false),
            Opcode::Sed => self.change_flag(FLAG_DECIMAL, true),
            Opcode::Inx => {
                self.x = ((self.x as u16 + 1) % 256) as u8;
                self.set_zero_negative_flags(self.x);
            },
            Opcode::Iny => {
                self.y = ((self.y as u16 + 1) % 256) as u8;
                self.set_zero_negative_flags(self.y);
            },
            Opcode::Dex => {
                self.x = ((self.x as u16 + 255) % 256) as u8;
                self.set_zero_negative_flags(self.x);
            },
            Opcode::Dey => {
                self.y = ((self.y as u16 + 255) % 256) as u8;
                self.set_zero_negative_flags(self.y);
            },
            Opcode::Tax => {
                self.x = self.a;
                self.set_zero_negative_flags(self.x);
            },
            Opcode::Tay => {
                self.y = self.a;
                self.set_zero_negative_flags(self.y);
            },
            Opcode::Tsx => {
                self.x = self.sp;
                self.set_zero_negative_flags(self.x);
            },
            Opcode::Txa => {
                self.a = self.x;
                self.set_zero_negative_flags(self.a);
            },
            Opcode::Txs => {
                self.sp = self.x;
            },
            Opcode::Tya => {
                self.a = self.y;
                self.set_zero_negative_flags(self.a);
            },
            Opcode::Pha => self.stack_push_u8(self.a),
            Opcode::Php => self.stack_push_u8(self.p | FLAG_BREAK | FLAG_UNUSED),
            Opcode::Pla => {
                self.a = self.stack_pop_u8();
                self.set_zero_negative_flags(self.a);
            },
            Opcode::Plp => {
                self.p = self.stack_pop_u8();
                self.change_flag(FLAG_BREAK, false);
                self.change_flag(FLAG_UNUSED, true);
            },
            _ => {},
        }
    }

    /// Interrupt entry: pushes pc and status, disables interrupts and jumps
    /// through the NMI vector, whose address it returns.
    pub fn nmi(&mut self) -> (r: Result<u16, Fault>)
        requires
            old(self).wf(),
        ensures
            final(self).wf(),
            (r, final(self)@) == old(self)@.interrupt(),
    {
        proof {
            reveal(CpuView::interrupt);
        }
        self.stack_push_u16(self.pc);
        self.change_flag(FLAG_BREAK, false);
        self.change_flag(FLAG_UNUSED, true);
        self.stack_push_u8(self.p);
        self.change_flag(FLAG_INT_DISABLE, true);
        let new_pc = match self.read_word(NMI_VECTOR, NMI_VECTOR + 1) {
            Ok(v) => v,
            Err(e) => {
                return Err(e);
            },
        };
        self.pc = new_pc;
        Ok(new_pc)
    }
}


impl Cpu {
    /// Moves pc on to `next` when `r` reports success.
    fn finish(&mut self, r: Result<(), Fault>, next: u16) -> (out: Result<(), Fault>)
        ensures
            (out, final(self)@) == with_pc((r, old(self)@), next),
    {
        match r {
            Ok(()) => {
                self.pc = next;
                r
            },
            Err(e) => r,
        }
    }

    /// Runs one decoded instruction.
    fn execute(&mut self, b: &InstructionBytes) -> (r: Result<(), Fault>)
        requires
            old(self).wf(),
            b.wf(),
        ensures
            final(self).wf(),
            (r, final(self)@) == old(self)@.execute(b.instruction, b.bytes@),
    {
        proof {
            reveal(CpuView::execute);
        }
        let next: u16 = ((self.pc as u32 + b.instruction.length as u32) % 0x10000) as u16;
        match b.instruction.opcode {
            Opcode::Adc | Opcode::Sbc | Opcode::And | Opcode::Ora | Opcode::Eor | Opcode::Lda
            | Opcode::Ldx | Opcode::Ldy | Opcode::Cmp | Opcode::Cpx | Opcode::Cpy
            | Opcode::Bit => {
                let r = self.read_op(b);
                self.finish(r, next)
            },
            Opcode::Sta => {
                let v = self.a;
                let r = self.store(b, v);
                self.finish(r, next)
            },
            Opcode::Stx => {
                let v = self.x;
                let r = self.store(b, v);
                self.finish(r, next)
            },
            Opcode::Sty => {
                let v = self.y;
                let r = self.store(b, v);
                self.finish(r, next)
            },
            Opcode::Asl | Opcode::Lsr | Opcode::Rol | Opcode::Ror => {
                let r = self.shift(b);
                self.finish(r, next)
            },
            Opcode::Inc => {
                let r = self.step_mem(b, 1);
                self.finish(r, next)
            },
            Opcode::Dec => {
                let r = self.step_mem(b, 255);
                self.finish(r, next)
            },
            Opcode::Bcc | Opcode::Bcs | Opcode::Bvc | Opcode::Bvs | Opcode::Bne | Opcode::Beq
            | Opcode::Bpl | Opcode::Bmi => {
                let condition = match b.instruction.opcode {
                    Opcode::Bcc => !self.is_flag_set(FLAG_CARRY),
                    Opcode::Bcs => self.is_flag_set(FLAG_CARRY),
                    Opcode::Bvc => !self.is_flag_set(FLAG_OVERFLOW),
                    Opcode::Bvs => self.is_flag_set(FLAG_OVERFLOW),
                    Opcode::Bne => !self.is_flag_set(FLAG_ZERO),
                    Opcode::Beq => self.is_flag_set(FLAG_ZERO),
                    Opcode::Bpl => !self.is_flag_set(FLAG_NEGATIVE),
                    _ => self.is_flag_set(FLAG_NEGATIVE),
                };
                self.pc = self.branch(b, condition);
                return Ok(());
            },
            Opcode::Jmp => {
                match self.get_operand_address(b) {
                    Ok(t) => {
                        self.pc = t;
                        return Ok(());
                    },
                    Err(e) => {
                        return Err(e);
                    },
                }
            },
            Opcode::Jsr => {
                let target = match self.get_operand_address(b) {
                    Ok(t) => t,
                    Err(e) => {
                        return Err(e);
                    },
                };
                let ret: u16 = ((self.pc as u32 + 2) % 0x10000) as u16;
                self.stack_push_u16(ret);
                self.pc = target;
                return Ok(());
            },
            Opcode::Rts => {
                let v = self.stack_pop_u16();
                self.pc = ((v as u32 + 1) % 0x10000) as u16;
                return Ok(());
            },
            Opcode::Rti => {
                self.p = self.stack_pop_u8();
                self.pc = self.stack_pop_u16();
                self.change_flag(FLAG_BREAK, false);
                self.change_flag(FLAG_UNUSED, true);
                return Ok(());
            },
            Opcode::Brk => {
                match self.nmi() {
                    Ok(_) => {
                        return Ok(());
                    },
                    Err(e) => {
                        return Err(e);
                    },
                }
            },
            Opcode::Kil => {
                return Err(Fault::Halt(b.bytes[0]));
            },
            _ => {
                self.implied(b.instruction.opcode);
                self.pc = next;
                Ok(())
            },
        }
    }

    /// Fetches, decodes and runs one instruction, then charges its base
    /// cycles to the cycle count and to the bus; returns the cycles charged.
    pub fn step(&mut self) -> (r: Result<u8, Fault>)
        requires
            old(self).wf(),
        ensures
            final(self).wf(),
            (r, final(self)@) == old(self)@.step(),
            r matches Ok(c) ==> {
                &&& old(self)@.read(old(self).pc).0 matches Ok(op)
                &&& c == decode_spec(op).cycles
                &&& final(self).cycles == wrap64(old(self).cycles + c)
            },
    {
        proof {
            lemma_step_cycles(old(self)@);
        }
        let op = match self.bus.read_u8(self.pc) {
            Ok(op) => op,
            Err(e) => {
                return Err(e);
            },
        };
        let instruction = decode(op);
        let bytes = match self.bus.read_bytes(self.pc, instruction.length) {
            Ok(bytes) => bytes,
            Err(e) => {
                return Err(e);
            },
        };
        proof {
            lemma_read_run_len(
                old(self)@.read(old(self).pc).1.bus,
                old(self).pc,
                instruction.length as nat,
            );
        }
        let instruction_bytes = InstructionBytes { instruction, bytes };
        match self.execute(&instruction_bytes) {
            Ok(()) => {},
            Err(e) => {
                return Err(e);
            },
        }
        self.cycles = self.cycles.wrapping_add(instruction.cycles as u64);
        self.bus.tick(instruction.cycles);
        Ok(instruction.cycles)
    }

    /// Power-up register state, with pc taken from the reset vector.
    pub fn reset(&mut self) -> (r: Result<(), Fault>)
        requires
            old(self).wf(),
        ensures
            final(self).wf(),
            (r, final(self)@) == old(self)@.reset(),
    {
        let v = match self.read_word(RESET_VECTOR, RESET_VECTOR + 1) {
            Ok(v) => v,
            Err(e) => {
                return Err(e);
            },
        };
        self.a = 0;
        self.x = 0;
        self.y = 0;
        self.p = 0x24;
        self.sp = 0xfd;
        self.pc = v;
        Ok(())
    }
}

} // verus!

verus! {

/// A pushed byte pops back; a pushed word pops back; either way the stack
/// pointer returns to where it was, moving modulo 256.
pub proof fn lemma_stack_round_trip(s: CpuView, v: u8, w: u16)
    requires
        s.wf(),
    ensures
        s.push(v).sp == wrap8(s.sp + 255),
        s.pop().1.sp == wrap8(s.sp + 1),
        s.push(v).pop().0 == v,
        s.push(v).pop().1.sp == s.sp,
        s.push_u16(w).pop_u16().0 == w,
        s.push_u16(w).pop_u16().1.sp == s.sp,
{
    let s1 = s.push((w / 256) as u8);
    let s2 = s1.push((w % 256) as u8);
    assert(s2.pop().0 == (w % 256) as u8);
    assert(s2.pop().1.pop().0 == (w / 256) as u8);
}

proof fn lemma_operand_address_keeps_cycles(s: CpuView, ins: Instruction, bs: Seq<u8>)
    ensures
        s.operand_address(ins, bs).1.cycles == s.cycles,
{
    reveal(CpuView::operand_address);
}

/// Executing an instruction leaves the cycle count alone: only the fetch
/// charges cycles.
proof fn lemma_execute_keeps_cycles(s: CpuView, ins: Instruction, bs: Seq<u8>)
    ensures
        s.execute(ins, bs).1.cycles == s.cycles,
{
    lemma_operand_address_keeps_cycles(s, ins, bs);
    assert(s.read_op(ins, bs).1.cycles == s.cycles) by {
        reveal(CpuView::read_op);
    }
    assert(s.store(ins, bs, s.a).1.cycles == s.cycles) by {
        reveal(CpuView::store);
    }
    assert(s.store(ins, bs, s.x).1.cycles == s.cycles) by {
        reveal(CpuView::store);
    }
    assert(s.store(ins, bs, s.y).1.cycles == s.cycles) by {
        reveal(CpuView::store);
    }
    assert(s.shift(ins, bs).1.cycles == s.cycles) by {
        reveal(CpuView::shift);
    }
    assert(s.step_mem(ins, bs, 1).1.cycles == s.cycles) by {
        reveal(CpuView::step_mem);
    }
    assert(s.step_mem(ins, bs, 255).1.cycles == s.cycles) by {
        reveal(CpuView::step_mem);
    }
    assert(s.implied(ins.opcode).cycles == s.cycles) by {
        reveal(CpuView::implied);
    }
    assert(s.interrupt().1.cycles == s.cycles) by {
        reveal(CpuView::interrupt);
    }
    reveal(CpuView::execute);
}

/// A step that succeeds charges exactly the base cycles of the opcode it
/// fetched.
pub proof fn lemma_step_cycles(s: CpuView)
    ensures
        s.step().0 matches Ok(c) ==> {
            &&& s.read(s.pc).0 matches Ok(op)
            &&& c == decode_spec(op).cycles
            &&& s.step().1.cycles == wrap64(s.cycles + c)
        },
{
    let (rop, s1) = s.read(s.pc);
    if let Ok(op) = rop {
        let ins = decode_spec(op);
        let (rb, b2) = s1.bus.read_run(s.pc, ins.length as nat);
        let s2 = s1.with_bus(b2);
        if let Ok(bs) = rb {
            lemma_execute_keeps_cycles(s2, ins, bs);
        }
    }
}

/// JSR then RTS comes back to the instruction after the JSR, with the
/// stack pointer where it was.
pub proof fn lemma_jsr_then_rts(s: CpuView, lo: u8, hi: u8)
    requires
        s.wf(),
    ensures
        ({
            let (j, s1) = s.execute(decode_spec(0x20), seq![0x20u8, lo, hi]);
            let (r, s2) = s1.execute(decode_spec(0x60), seq![0x60u8]);
            &&& j is Ok
            &&& s1.pc == lo + hi * 256
            &&& r is Ok
            &&& s2.pc == wrap16(s.pc + 3)
            &&& s2.sp == s.sp
        }),
{
    let jsr = decode_spec(0x20);
    let rts = decode_spec(0x60);
    assert(jsr == Instruction { opcode: Opcode::Jsr, mode: AddressingMode::Absolute, length: 3, cycles: 6 });
    assert(rts == Instruction { opcode: Opcode::Rts, mode: AddressingMode::Implied, length: 1, cycles: 6 });
    let bs = seq![0x20u8, lo, hi];
    let target = (lo + hi * 256) as u16;
    let ret = wrap16(s.pc + 2);
    assert(s.operand_address(jsr, bs) == (Ok::<u16, Fault>(target), s)) by {
        reveal(CpuView::operand_address);
    }
    let s1 = CpuView { pc: target, ..s.push_u16(ret) };
    assert(s.execute(jsr, bs) == (Ok::<(), Fault>(()), s1)) by {
        reveal(CpuView::execute);
    }
    lemma_stack_round_trip(s, 0, ret);
    assert(s1.pop_u16() == (ret, CpuView { pc: target, ..s.push_u16(ret).pop_u16().1 }));
    assert(s1.execute(rts, seq![0x60u8]).1.pc == wrap16(ret + 1)) by {
        reveal(CpuView::execute);
    }
    assert(s1.execute(rts, seq![0x60u8]).1.sp == s.sp) by {
        reveal(CpuView::execute);
    }
    assert(s1.execute(rts, seq![0x60u8]).0 is Ok) by {
        reveal(CpuView::execute);
    }
}

} // verus!
