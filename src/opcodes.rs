use vstd::prelude::*;

verus! {

/// How an instruction finds its operand.
#[derive(Debug, Clone, Copy, PartialEq, Eq, Structural)]
pub enum AddressingMode {
    Absolute,
    AbsoluteX,
    AbsoluteY,
    Accumulator,
    Immediate,
    Implied,
    Indirect,
    IndirectX,
    IndirectY,
    Relative,
    ZeroPage,
    ZeroPageX,
    ZeroPageY,
}

/// The documented 6502 mnemonics, with the halting `Kil`.
#[derive(Debug, Clone, Copy, PartialEq, Eq, Structural)]
pub enum Opcode {
    Adc,
    And,
    Asl,
    Bcc,
    Bcs,
    Beq,
    Bit,
    Bmi,
    Bne,
    Bpl,
    Brk,
    Bvc,
    Bvs,
    Clc,
    Cld,
    Cli,
    Clv,
    Cmp,
    Cpx,
    Cpy,
    Dec,
    Dex,
    Dey,
    Eor,
    Inc,
    Inx,
    Iny,
    Jmp,
    Jsr,
    Kil,
    Lda,
    Ldx,
    Ldy,
    Lsr,
    Nop,
    Ora,
    Pha,
    Php,
    Pla,
    Plp,
    Rol,
    Ror,
    Rti,
    Rts,
    Sbc,
    Sec,
    Sed,
    Sei,
    Sta,
    Stx,
    Sty,
    Tax,
    Tay,
    Tsx,
    Txa,
    Txs,
    Tya,
}

/// A decoded instruction: what it does, how it addresses, how many bytes
/// it occupies and how many cycles it costs.
#[derive(Debug, Clone, Copy, PartialEq, Eq, Structural)]
pub struct Instruction {
    pub opcode: Opcode,
    pub mode: AddressingMode,
    pub length: u8,
    pub cycles: u8,
}

/// Bytes that an addressing mode occupies, opcode included.
pub open spec fn mode_length(mode: AddressingMode) -> u8 {
    match mode {
        AddressingMode::Absolute | AddressingMode::AbsoluteX | AddressingMode::AbsoluteY
        | AddressingMode::Indirect => 3,
        AddressingMode::Accumulator | AddressingMode::Implied => 1,
        _ => 2,
    }
}

/// Whether the mode names a memory address.
pub open spec fn has_address(mode: AddressingMode) -> bool {
    match mode {
        AddressingMode::Accumulator | AddressingMode::Immediate | AddressingMode::Implied
        | AddressingMode::Relative => false,
        _ => true,
    }
}

impl Instruction {
    /// The length fits the mode, and the mode fits what the mnemonic does
    /// with its operand.
    pub open spec fn wf(self) -> bool {
        &&& (self.length == mode_length(self.mode) || (self.opcode == Opcode::Nop && self.mode
            == AddressingMode::Implied && self.length == 2))
        &&& match self.opcode {
            Opcode::Sta | Opcode::Stx | Opcode::Sty | Opcode::Inc | Opcode::Dec | Opcode::Jmp
            | Opcode::Jsr => has_address(self.mode),
            Opcode::Asl | Opcode::Lsr | Opcode::Rol | Opcode::Ror => self.mode
                == AddressingMode::Accumulator || has_address(self.mode),
            Opcode::Adc | Opcode::Sbc | Opcode::And | Opcode::Ora | Opcode::Eor | Opcode::Lda
            | Opcode::Ldx | Opcode::Ldy | Opcode::Cmp | Opcode::Cpx | Opcode::Cpy
            | Opcode::Bit => self.mode == AddressingMode::Immediate || has_address(self.mode),
            Opcode::Bcc | Opcode::Bcs | Opcode::Beq | Opcode::Bmi | Opcode::Bne | Opcode::Bpl
            | Opcode::Bvc | Opcode::Bvs => self.mode == AddressingMode::Relative,
            _ => true,
        }
    }
}

pub open spec fn ins(opcode: Opcode, mode: AddressingMode, length: u8, cycles: u8) -> Instruction {
    Instruction { opcode, mode, length, cycles }
}

/// The decode table: every documented opcode, the multi-byte NOPs and the
/// halting KIL forms; anything else is a one-byte NOP.
pub open spec fn decode_spec(op: u8) -> Instruction {
    match op {
        0x00 => ins(Opcode::Brk, AddressingMode::Implied, 1, 7),
        0x01 => ins(Opcode::Ora, AddressingMode::IndirectX, 2, 6),
        0x02 => ins(Opcode::Kil, AddressingMode::Implied, 1, 1),
        0x05 => ins(Opcode::Ora, AddressingMode::ZeroPage, 2, 3),
        0x06 => ins(Opcode::Asl, AddressingMode::ZeroPage, 2, 5),
        0x08 => ins(Opcode::Php, AddressingMode::Implied, 1, 3),
        0x09 => ins(Opcode::Ora, AddressingMode::Immediate, 2, 2),
        0x0a => ins(Opcode::Asl, AddressingMode::Accumulator, 1, 2),
        0x0d => ins(Opcode::Ora, AddressingMode::Absolute, 3, 4),
        0x0e => ins(Opcode::Asl, AddressingMode::Absolute, 3, 2),
        0x10 => ins(Opcode::Bpl, AddressingMode::Relative, 2, 2),
        0x11 => ins(Opcode::Ora, AddressingMode::IndirectY, 2, 5),
        0x12 => ins(Opcode::Kil, AddressingMode::Implied, 1, 1),
        0x15 => ins(Opcode::Ora, AddressingMode::ZeroPageX, 2, 4),
        0x16 => ins(Opcode::Asl, AddressingMode::ZeroPageX, 2, 6),
        0x18 => ins(Opcode::Clc, AddressingMode::Implied, 1, 2),
        0x19 => ins(Opcode::Ora, AddressingMode::AbsoluteY, 3, 4),
        0x1a => ins(Opcode::Nop, AddressingMode::Implied, 2, 1),
        0x1d => ins(Opcode::Ora, AddressingMode::AbsoluteX, 3, 4),
        0x1e => ins(Opcode::Asl, AddressingMode::AbsoluteX, 3, 4),
        0x20 => ins(Opcode::Jsr, AddressingMode::Absolute, 3, 6),
        0x21 => ins(Opcode::And, AddressingMode::IndirectX, 2, 6),
        0x22 => ins(Opcode::Kil, AddressingMode::Implied, 1, 1),
        0x24 => ins(Opcode::Bit, AddressingMode::ZeroPage, 2, 3),
        0x25 => ins(Opcode::And, AddressingMode::ZeroPage, 2, 3),
        0x26 => ins(Opcode::Rol, AddressingMode::ZeroPage, 2, 5),
        0x28 => ins(Opcode::Plp, AddressingMode::Implied, 1, 3),
        0x29 => ins(Opcode::And, AddressingMode::Immediate, 2, 2),
        0x2a => ins(Opcode::Rol, AddressingMode::Accumulator, 1, 2),
        0x2c => ins(Opcode::Bit, AddressingMode::Absolute, 3, 4),
        0x2d => ins(Opcode::And, AddressingMode::Absolute, 3, 4),
        0x2e => ins(Opcode::Rol, AddressingMode::Absolute, 3, 6),
        0x30 => ins(Opcode::Bmi, AddressingMode::Relative, 2, 2),
        0x31 => ins(Opcode::And, AddressingMode::IndirectY, 2, 5),
        0x32 => ins(Opcode::Kil, AddressingMode::Implied, 1, 1),
        0x35 => ins(Opcode::And, AddressingMode::ZeroPageX, 2, 4),
        0x36 => ins(Opcode::Rol, AddressingMode::ZeroPageX, 2, 6),
        0x38 => ins(Opcode::Sec, AddressingMode::Implied, 1, 2),
        0x39 => ins(Opcode::And, AddressingMode::AbsoluteY, 3, 4),
        0x3a => ins(Opcode::Nop, AddressingMode::Implied, 2, 1),
        0x3d => ins(Opcode::And, AddressingMode::AbsoluteX, 3, 4),
        0x3e => ins(Opcode::Rol, AddressingMode::AbsoluteX, 3, 7),
        0x40 => ins(Opcode::Rti, AddressingMode::Implied, 1, 6),
        0x41 => ins(Opcode::Eor, AddressingMode::IndirectX, 2, 6),
        0x42 => ins(Opcode::Kil, AddressingMode::Implied, 1, 1),
        0x45 => ins(Opcode::Eor, AddressingMode::ZeroPage, 2, 3),
        0x46 => ins(Opcode::Lsr, AddressingMode::ZeroPage, 2, 5),
        0x48 => ins(Opcode::Pha, AddressingMode::Implied, 1, 3),
        0x49 => ins(Opcode::Eor, AddressingMode::Immediate, 2, 2),
        0x4a => ins(Opcode::Lsr, AddressingMode::Accumulator, 1, 2),
        0x4c => ins(Opcode::Jmp, AddressingMode::Absolute, 3, 3),
        0x4d => ins(Opcode::Eor, AddressingMode::Absolute, 3, 4),
        0x4e => ins(Opcode::Lsr, AddressingMode::Absolute, 3, 6),
        0x50 => ins(Opcode::Bvc, AddressingMode::Relative, 2, 2),
        0x51 => ins(Opcode::Eor, AddressingMode::IndirectY, 2, 5),
        0x52 => ins(Opcode::Kil, AddressingMode::Implied, 1, 1),
        0x55 => ins(Opcode::Eor, AddressingMode::ZeroPageX, 2, 4),
        0x56 => ins(Opcode::Lsr, AddressingMode::ZeroPageX, 2, 6),
        0x58 => ins(Opcode::Cli, AddressingMode::Implied, 1, 2),
        0x59 => ins(Opcode::Eor, AddressingMode::AbsoluteY, 3, 4),
        0x5a => ins(Opcode::Nop, AddressingMode::Implied, 2, 1),
        0x5d => ins(Opcode::Eor, AddressingMode::AbsoluteX, 3, 4),
        0x5e => ins(Opcode::Lsr, AddressingMode::AbsoluteX, 3, 7),
        0x60 => ins(Opcode::Rts, AddressingMode::Implied, 1, 6),
        0x61 => ins(Opcode::Adc, AddressingMode::IndirectX, 2, 6),
        0x62 => ins(Opcode::Kil, AddressingMode::Implied, 1, 1),
        0x65 => ins(Opcode::Adc, AddressingMode::ZeroPage, 2, 3),
        0x66 => ins(Opcode::Ror, AddressingMode::ZeroPage, 2, 5),
        0x68 => ins(Opcode::Pla, AddressingMode::Implied, 1, 3),
        0x69 => ins(Opcode::Adc, AddressingMode::Immediate, 2, 2),
        0x6a => ins(Opcode::Ror, AddressingMode::Accumulator, 1, 2),
        0x6c => ins(Opcode::Jmp, AddressingMode::Indirect, 3, 5),
        0x6d => ins(Opcode::Adc, AddressingMode::Absolute, 3, 4),
        0x6e => ins(Opcode::Ror, AddressingMode::Absolute, 3, 6),
        0x70 => ins(Opcode::Bvs, AddressingMode::Relative, 2, 2),
        0x71 => ins(Opcode::Adc, AddressingMode::IndirectY, 2, 5),
        0x72 => ins(Opcode::Kil, AddressingMode::Implied, 1, 1),
        0x75 => ins(Opcode::Adc, AddressingMode::ZeroPageX, 2, 4),
        0x76 => ins(Opcode::Ror, AddressingMode::ZeroPageX, 2, 6),
        0x78 => ins(Opcode::Sei, AddressingMode::Implied, 1, 2),
        0x79 => ins(Opcode::Adc, AddressingMode::AbsoluteY, 3, 4),
        0x7a => ins(Opcode::Nop, AddressingMode::Implied, 2, 1),
        0x7d => ins(Opcode::Adc, AddressingMode::AbsoluteX, 3, 4),
        0x7e => ins(Opcode::Ror, AddressingMode::AbsoluteX, 3, 7),
        0x81 => ins(Opcode::Sta, AddressingMode::IndirectX, 2, 6),
        0x84 => ins(Opcode::Sty, AddressingMode::ZeroPage, 2, 3),
        0x85 => ins(Opcode::Sta, AddressingMode::ZeroPage, 2, 3),
        0x86 => ins(Opcode::Stx, AddressingMode::ZeroPage, 2, 3),
        0x88 => ins(Opcode::Dey, AddressingMode::Implied, 1, 2),
        0x8a => ins(Opcode::Txa, AddressingMode::Implied, 1, 2),
        0x8c => ins(Opcode::Sty, AddressingMode::Absolute, 3, 4),
        0x8d => ins(Opcode::Sta, AddressingMode::Absolute, 3, 4),
        0x8e => ins(Opcode::Stx, AddressingMode::Absolute, 3, 4),
        0x90 => ins(Opcode::Bcc, AddressingMode::Relative, 2, 2),
        0x91 => ins(Opcode::Sta, AddressingMode::IndirectY, 2, 6),
        0x92 => ins(Opcode::Kil, AddressingMode::Implied, 1, 1),
        0x94 => ins(Opcode::Sty, AddressingMode::ZeroPageX, 2, 4),
        0x95 => ins(Opcode::Sta, AddressingMode::ZeroPageX, 2, 4),
        0x96 => ins(Opcode::Stx, AddressingMode::ZeroPageY, 2, 4),
        0x98 => ins(Opcode::Tya, AddressingMode::Implied, 1, 2),
        0x99 => ins(Opcode::Sta, AddressingMode::AbsoluteY, 3, 5),
        0x9a => ins(Opcode::Txs, AddressingMode::Implied, 1, 2),
        0x9d => ins(Opcode::Sta, AddressingMode::AbsoluteX, 3, 5),
        0xa0 => ins(Opcode::Ldy, AddressingMode::Immediate, 2, 2),
        0xa1 => ins(Opcode::Lda, AddressingMode::IndirectX, 2, 6),
        0xa2 => ins(Opcode::Ldx, AddressingMode::Immediate, 2, 2),
        0xa4 => ins(Opcode::Ldy, AddressingMode::ZeroPage, 2, 3),
        0xa5 => ins(Opcode::Lda, AddressingMode::ZeroPage, 2, 3),
        0xa6 => ins(Opcode::Ldx, AddressingMode::ZeroPage, 2, 3),
        0xa8 => ins(Opcode::Tay, AddressingMode::Implied, 1, 2),
        0xa9 => ins(Opcode::Lda, AddressingMode::Immediate, 2, 2),
        0xaa => ins(Opcode::Tax, AddressingMode::Implied, 1, 2),
        0xac => ins(Opcode::Ldy, AddressingMode::Absolute, 3, 4),
        0xad => ins(Opcode::Lda, AddressingMode::Absolute, 3, 4),
        0xae => ins(Opcode::Ldx, AddressingMode::Absolute, 3, 4),
        0xb0 => ins(Opcode::Bcs, AddressingMode::Relative, 2, 2),
        0xb1 => ins(Opcode::Lda, AddressingMode::IndirectY, 2, 5),
        0xb2 => ins(Opcode::Kil, AddressingMode::Implied, 1, 1),
        0xb4 => ins(Opcode::Ldy, AddressingMode::ZeroPageX, 2, 4),
        0xb5 => ins(Opcode::Lda, AddressingMode::ZeroPageX, 2, 4),
        0xb6 => ins(Opcode::Ldx, AddressingMode::ZeroPageY, 2, 4),
        0xb8 => ins(Opcode::Clv, AddressingMode::Implied, 1, 2),
        0xb9 => ins(Opcode::Lda, AddressingMode::AbsoluteY, 3, 4),
        0xba => ins(Opcode::Tsx, AddressingMode::Implied, 1, 2),
        0xbc => ins(Opcode::Ldy, AddressingMode::AbsoluteX, 3, 4),
        0xbd => ins(Opcode::Lda, AddressingMode::AbsoluteX, 3, 4),
        0xbe => ins(Opcode::Ldx, AddressingMode::AbsoluteY, 3, 4),
        0xc0 => ins(Opcode::Cpy, AddressingMode::Immediate, 2, 2),
        0xc1 => ins(Opcode::Cmp, AddressingMode::IndirectX, 2, 6),
        0xc4 => ins(Opcode::Cpy, AddressingMode::ZeroPage, 2, 3),
        0xc5 => ins(Opcode::Cmp, AddressingMode::ZeroPage, 2, 3),
        0xc6 => ins(Opcode::Dec, AddressingMode::ZeroPage, 2, 5),
        0xc8 => ins(Opcode::Iny, AddressingMode::Implied, 1, 2),
        0xc9 => ins(Opcode::Cmp, AddressingMode::Immediate, 2, 2),
        0xca => ins(Opcode::Dex, AddressingMode::Implied, 1, 2),
        0xcc => ins(Opcode::Cpy, AddressingMode::Absolute, 3, 4),
        0xcd => ins(Opcode::Cmp, AddressingMode::Absolute, 3, 4),
        0xce => ins(Opcode::Dec, AddressingMode::Absolute, 3, 6),
        0xd0 => ins(Opcode::Bne, AddressingMode::Relative, 2, 2),
        0xd1 => ins(Opcode::Cmp, AddressingMode::IndirectY, 2, 5),
        0xd2 => ins(Opcode::Kil, AddressingMode::Implied, 1, 1),
        0xd5 => ins(Opcode::Cmp, AddressingMode::ZeroPageX, 2, 4),
        0xd6 => ins(Opcode::Dec, AddressingMode::ZeroPageX, 2, 6),
        0xd8 => ins(Opcode::Cld, AddressingMode::Implied, 1, 2),
        0xd9 => ins(Opcode::Cmp, AddressingMode::AbsoluteY, 3, 4),
        0xda => ins(Opcode::Nop, AddressingMode::Implied, 2, 1),
        0xdd => ins(Opcode::Cmp, AddressingMode::AbsoluteX, 3, 4),
        0xde => ins(Opcode::Dec, AddressingMode::AbsoluteX, 3, 7),
        0xe0 => ins(Opcode::Cpx, AddressingMode::Immediate, 2, 2),
        0xe1 => ins(Opcode::Sbc, AddressingMode::IndirectX, 2, 6),
        0xe4 => ins(Opcode::Cpx, AddressingMode::ZeroPage, 2, 3),
        0xe5 => ins(Opcode::Sbc, AddressingMode::ZeroPage, 2, 3),
        0xe6 => ins(Opcode::Inc, AddressingMode::ZeroPage, 2, 5),
        0xe8 => ins(Opcode::Inx, AddressingMode::Implied, 1, 2),
        0xe9 => ins(Opcode::Sbc, AddressingMode::Immediate, 2, 2),
        0xec => ins(Opcode::Cpx, AddressingMode::Absolute, 3, 4),
        0xed => ins(Opcode::Sbc, AddressingMode::Absolute, 3, 4),
        0xee => ins(Opcode::Inc, AddressingMode::Absolute, 3, 6),
        0xf0 => ins(Opcode::Beq, AddressingMode::Relative, 2, 2),
        0xf1 => ins(Opcode::Sbc, AddressingMode::IndirectY, 2, 5),
        0xf2 => ins(Opcode::Kil, AddressingMode::Implied, 1, 1),
        0xf5 => ins(Opcode::Sbc, AddressingMode::ZeroPageX, 2, 4),
        0xf6 => ins(Opcode::Inc, AddressingMode::ZeroPageX, 2, 6),
        0xf8 => ins(Opcode::Sed, AddressingMode::Implied, 1, 2),
        0xf9 => ins(Opcode::Sbc, AddressingMode::AbsoluteY, 3, 4),
        0xfa => ins(Opcode::Nop, AddressingMode::Implied, 2, 1),
        0xfd => ins(Opcode::Sbc, AddressingMode::AbsoluteX, 3, 4),
        0xfe => ins(Opcode::Inc, AddressingMode::AbsoluteX, 3, 7),
        _ => ins(Opcode::Nop, AddressingMode::Implied, 1, 1),
    }
}

/// Decodes an opcode byte.
pub fn decode(op: u8) -> (r: Instruction)
    ensures
        r == decode_spec(op),
        r.wf(),
{
    match op {
        0x00 => Instruction { opcode: Opcode::Brk, mode: AddressingMode::Implied, length: 1, cycles: 7 },
        0x01 => Instruction { opcode: Opcode::Ora, mode: AddressingMode::IndirectX, length: 2, cycles: 6 },
        0x02 => Instruction { opcode: Opcode::Kil, mode: AddressingMode::Implied, length: 1, cycles: 1 },
        0x05 => Instruction { opcode: Opcode::Ora, mode: AddressingMode::ZeroPage, length: 2, cycles: 3 },
        0x06 => Instruction { opcode: Opcode::Asl, mode: AddressingMode::ZeroPage, length: 2, cycles: 5 },
        0x08 => Instruction { opcode: Opcode::Php, mode: AddressingMode::Implied, length: 1, cycles: 3 },
        0x09 => Instruction { opcode: Opcode::Ora, mode: AddressingMode::Immediate, length: 2, cycles: 2 },
        0x0a => Instruction { opcode: Opcode::Asl, mode: AddressingMode::Accumulator, length: 1, cycles: 2 },
        0x0d => Instruction { opcode: Opcode::Ora, mode: AddressingMode::Absolute, length: 3, cycles: 4 },
        0x0e => Instruction { opcode: Opcode::Asl, mode: AddressingMode::Absolute, length: 3, cycles: 2 },
        0x10 => Instruction { opcode: Opcode::Bpl, mode: AddressingMode::Relative, length: 2, cycles: 2 },
        0x11 => Instruction { opcode: Opcode::Ora, mode: AddressingMode::IndirectY, length: 2, cycles: 5 },
        0x12 => Instruction { opcode: Opcode::Kil, mode: AddressingMode::Implied, length: 1, cycles: 1 },
        0x15 => Instruction { opcode: Opcode::Ora, mode: AddressingMode::ZeroPageX, length: 2, cycles: 4 },
        0x16 => Instruction { opcode: Opcode::Asl, mode: AddressingMode::ZeroPageX, length: 2, cycles: 6 },
        0x18 => Instruction { opcode: Opcode::Clc, mode: AddressingMode::Implied, length: 1, cycles: 2 },
        0x19 => Instruction { opcode: Opcode::Ora, mode: AddressingMode::AbsoluteY, length: 3, cycles: 4 },
        0x1a => Instruction { opcode: Opcode::Nop, mode: AddressingMode::Implied, length: 2, cycles: 1 },
        0x1d => Instruction { opcode: Opcode::Ora, mode: AddressingMode::AbsoluteX, length: 3, cycles: 4 },
        0x1e => Instruction { opcode: Opcode::Asl, mode: AddressingMode::AbsoluteX, length: 3, cycles: 4 },
        0x20 => Instruction { opcode: Opcode::Jsr, mode: AddressingMode::Absolute, length: 3, cycles: 6 },
        0x21 => Instruction { opcode: Opcode::And, mode: AddressingMode::IndirectX, length: 2, cycles: 6 },
        0x22 => Instruction { opcode: Opcode::Kil, mode: AddressingMode::Implied, length: 1, cycles: 1 },
        0x24 => Instruction { opcode: Opcode::Bit, mode: AddressingMode::ZeroPage, length: 2, cycles: 3 },
        0x25 => Instruction { opcode: Opcode::And, mode: AddressingMode::ZeroPage, length: 2, cycles: 3 },
        0x26 => Instruction { opcode: Opcode::Rol, mode: AddressingMode::ZeroPage, length: 2, cycles: 5 },
        0x28 => Instruction { opcode: Opcode::Plp, mode: AddressingMode::Implied, length: 1, cycles: 3 },
        0x29 => Instruction { opcode: Opcode::And, mode: AddressingMode::Immediate, length: 2, cycles: 2 },
        0x2a => Instruction { opcode: Opcode::Rol, mode: AddressingMode::Accumulator, length: 1, cycles: 2 },
        0x2c => Instruction { opcode: Opcode::Bit, mode: AddressingMode::Absolute, length: 3, cycles: 4 },
        0x2d => Instruction { opcode: Opcode::And, mode: AddressingMode::Absolute, length: 3, cycles: 4 },
        0x2e => Instruction { opcode: Opcode::Rol, mode: AddressingMode::Absolute, length: 3, cycles: 6 },
        0x30 => Instruction { opcode: Opcode::Bmi, mode: AddressingMode::Relative, length: 2, cycles: 2 },
        0x31 => Instruction { opcode: Opcode::And, mode: AddressingMode::IndirectY, length: 2, cycles: 5 },
        0x32 => Instruction { opcode: Opcode::Kil, mode: AddressingMode::Implied, length: 1, cycles: 1 },
        0x35 => Instruction { opcode: Opcode::And, mode: AddressingMode::ZeroPageX, length: 2, cycles: 4 },
        0x36 => Instruction { opcode: Opcode::Rol, mode: AddressingMode::ZeroPageX, length: 2, cycles: 6 },
        0x38 => Instruction { opcode: Opcode::Sec, mode: AddressingMode::Implied, length: 1, cycles: 2 },
        0x39 => Instruction { opcode: Opcode::And, mode: AddressingMode::AbsoluteY, length: 3, cycles: 4 },
        0x3a => Instruction { opcode: Opcode::Nop, mode: AddressingMode::Implied, length: 2, cycles: 1 },
        0x3d => Instruction { opcode: Opcode::And, mode: AddressingMode::AbsoluteX, length: 3, cycles: 4 },
        0x3e => Instruction { opcode: Opcode::Rol, mode: AddressingMode::AbsoluteX, length: 3, cycles: 7 },
        0x40 => Instruction { opcode: Opcode::Rti, mode: AddressingMode::Implied, length: 1, cycles: 6 },
        0x41 => Instruction { opcode: Opcode::Eor, mode: AddressingMode::IndirectX, length: 2, cycles: 6 },
        0x42 => Instruction { opcode: Opcode::Kil, mode: AddressingMode::Implied, length: 1, cycles: 1 },
        0x45 => Instruction { opcode: Opcode::Eor, mode: AddressingMode::ZeroPage, length: 2, cycles: 3 },
        0x46 => Instruction { opcode: Opcode::Lsr, mode: AddressingMode::ZeroPage, length: 2, cycles: 5 },
        0x48 => Instruction { opcode: Opcode::Pha, mode: AddressingMode::Implied, length: 1, cycles: 3 },
        0x49 => Instruction { opcode: Opcode::Eor, mode: AddressingMode::Immediate, length: 2, cycles: 2 },
        0x4a => Instruction { opcode: Opcode::Lsr, mode: AddressingMode::Accumulator, length: 1, cycles: 2 },
        0x4c => Instruction { opcode: Opcode::Jmp, mode: AddressingMode::Absolute, length: 3, cycles: 3 },
        0x4d => Instruction { opcode: Opcode::Eor, mode: AddressingMode::Absolute, length: 3, cycles: 4 },
        0x4e => Instruction { opcode: Opcode::Lsr, mode: AddressingMode::Absolute, length: 3, cycles: 6 },
        0x50 => Instruction { opcode: Opcode::Bvc, mode: AddressingMode::Relative, length: 2, cycles: 2 },
        0x51 => Instruction { opcode: Opcode::Eor, mode: AddressingMode::IndirectY, length: 2, cycles: 5 },
        0x52 => Instruction { opcode: Opcode::Kil, mode: AddressingMode::Implied, length: 1, cycles: 1 },
        0x55 => Instruction { opcode: Opcode::Eor, mode: AddressingMode::ZeroPageX, length: 2, cycles: 4 },
        0x56 => Instruction { opcode: Opcode::Lsr, mode: AddressingMode::ZeroPageX, length: 2, cycles: 6 },
        0x58 => Instruction { opcode: Opcode::Cli, mode: AddressingMode::Implied, length: 1, cycles: 2 },
        0x59 => Instruction { opcode: Opcode::Eor, mode: AddressingMode::AbsoluteY, length: 3, cycles: 4 },
        0x5a => Instruction { opcode: Opcode::Nop, mode: AddressingMode::Implied, length: 2, cycles: 1 },
        0x5d => Instruction { opcode: Opcode::Eor, mode: AddressingMode::AbsoluteX, length: 3, cycles: 4 },
        0x5e => Instruction { opcode: Opcode::Lsr, mode: AddressingMode::AbsoluteX, length: 3, cycles: 7 },
        0x60 => Instruction { opcode: Opcode::Rts, mode: AddressingMode::Implied, length: 1, cycles: 6 },
        0x61 => Instruction { opcode: Opcode::Adc, mode: AddressingMode::IndirectX, length: 2, cycles: 6 },
        0x62 => Instruction { opcode: Opcode::Kil, mode: AddressingMode::Implied, length: 1, cycles: 1 },
        0x65 => Instruction { opcode: Opcode::Adc, mode: AddressingMode::ZeroPage, length: 2, cycles: 3 },
        0x66 => Instruction { opcode: Opcode::Ror, mode: AddressingMode::ZeroPage, length: 2, cycles: 5 },
        0x68 => Instruction { opcode: Opcode::Pla, mode: AddressingMode::Implied, length: 1, cycles: 3 },
        0x69 => Instruction { opcode: Opcode::Adc, mode: AddressingMode::Immediate, length: 2, cycles: 2 },
        0x6a => Instruction { opcode: Opcode::Ror, mode: AddressingMode::Accumulator, length: 1, cycles: 2 },
        0x6c => Instruction { opcode: Opcode::Jmp, mode: AddressingMode::Indirect, length: 3, cycles: 5 },
        0x6d => Instruction { opcode: Opcode::Adc, mode: AddressingMode::Absolute, length: 3, cycles: 4 },
        0x6e => Instruction { opcode: Opcode::Ror, mode: AddressingMode::Absolute, length: 3, cycles: 6 },
        0x70 => Instruction { opcode: Opcode::Bvs, mode: AddressingMode::Relative, length: 2, cycles: 2 },
        0x71 => Instruction { opcode: Opcode::Adc, mode: AddressingMode::IndirectY, length: 2, cycles: 5 },
        0x72 => Instruction { opcode: Opcode::Kil, mode: AddressingMode::Implied, length: 1, cycles: 1 },
        0x75 => Instruction { opcode: Opcode::Adc, mode: AddressingMode::ZeroPageX, length: 2, cycles: 4 },
        0x76 => Instruction { opcode: Opcode::Ror, mode: AddressingMode::ZeroPageX, length: 2, cycles: 6 },
        0x78 => Instruction { opcode: Opcode::Sei, mode: AddressingMode::Implied, length: 1, cycles: 2 },
        0x79 => Instruction { opcode: Opcode::Adc, mode: AddressingMode::AbsoluteY, length: 3, cycles: 4 },
        0x7a => Instruction { opcode: Opcode::Nop, mode: AddressingMode::Implied, length: 2, cycles: 1 },
        0x7d => Instruction { opcode: Opcode::Adc, mode: AddressingMode::AbsoluteX, length: 3, cycles: 4 },
        0x7e => Instruction { opcode: Opcode::Ror, mode: AddressingMode::AbsoluteX, length: 3, cycles: 7 },
        0x81 => Instruction { opcode: Opcode::Sta, mode: AddressingMode::IndirectX, length: 2, cycles: 6 },
        0x84 => Instruction { opcode: Opcode::Sty, mode: AddressingMode::ZeroPage, length: 2, cycles: 3 },
        0x85 => Instruction { opcode: Opcode::Sta, mode: AddressingMode::ZeroPage, length: 2, cycles: 3 },
        0x86 => Instruction { opcode: Opcode::Stx, mode: AddressingMode::ZeroPage, length: 2, cycles: 3 },
        0x88 => Instruction { opcode: Opcode::Dey, mode: AddressingMode::Implied, length: 1, cycles: 2 },
        0x8a => Instruction { opcode: Opcode::Txa, mode: AddressingMode::Implied, length: 1, cycles: 2 },
        0x8c => Instruction { opcode: Opcode::Sty, mode: AddressingMode::Absolute, length: 3, cycles: 4 },
        0x8d => Instruction { opcode: Opcode::Sta, mode: AddressingMode::Absolute, length: 3, cycles: 4 },
        0x8e => Instruction { opcode: Opcode::Stx, mode: AddressingMode::Absolute, length: 3, cycles: 4 },
        0x90 => Instruction { opcode: Opcode::Bcc, mode: AddressingMode::Relative, length: 2, cycles: 2 },
        0x91 => Instruction { opcode: Opcode::Sta, mode: AddressingMode::IndirectY, length: 2, cycles: 6 },
        0x92 => Instruction { opcode: Opcode::Kil, mode: AddressingMode::Implied, length: 1, cycles: 1 },
        0x94 => Instruction { opcode: Opcode::Sty, mode: AddressingMode::ZeroPageX, length: 2, cycles: 4 },
        0x95 => Instruction { opcode: Opcode::Sta, mode: AddressingMode::ZeroPageX, length: 2, cycles: 4 },
        0x96 => Instruction { opcode: Opcode::Stx, mode: AddressingMode::ZeroPageY, length: 2, cycles: 4 },
        0x98 => Instruction { opcode: Opcode::Tya, mode: AddressingMode::Implied, length: 1, cycles: 2 },
        0x99 => Instruction { opcode: Opcode::Sta, mode: AddressingMode::AbsoluteY, length: 3, cycles: 5 },
        0x9a => Instruction { opcode: Opcode::Txs, mode: AddressingMode::Implied, length: 1, cycles: 2 },
        0x9d => Instruction { opcode: Opcode::Sta, mode: AddressingMode::AbsoluteX, length: 3, cycles: 5 },
        0xa0 => Instruction { opcode: Opcode::Ldy, mode: AddressingMode::Immediate, length: 2, cycles: 2 },
        0xa1 => Instruction { opcode: Opcode::Lda, mode: AddressingMode::IndirectX, length: 2, cycles: 6 },
        0xa2 => Instruction { opcode: Opcode::Ldx, mode: AddressingMode::Immediate, length: 2, cycles: 2 },
        0xa4 => Instruction { opcode: Opcode::Ldy, mode: AddressingMode::ZeroPage, length: 2, cycles: 3 },
        0xa5 => Instruction { opcode: Opcode::Lda, mode: AddressingMode::ZeroPage, length: 2, cycles: 3 },
        0xa6 => Instruction { opcode: Opcode::Ldx, mode: AddressingMode::ZeroPage, length: 2, cycles: 3 },
        0xa8 => Instruction { opcode: Opcode::Tay, mode: AddressingMode::Implied, length: 1, cycles: 2 },
        0xa9 => Instruction { opcode: Opcode::Lda, mode: AddressingMode::Immediate, length: 2, cycles: 2 },
        0xaa => Instruction { opcode: Opcode::Tax, mode: AddressingMode::Implied, length: 1, cycles: 2 },
        0xac => Instruction { opcode: Opcode::Ldy, mode: AddressingMode::Absolute, length: 3, cycles: 4 },
        0xad => Instruction { opcode: Opcode::Lda, mode: AddressingMode::Absolute, length: 3, cycles: 4 },
        0xae => Instruction { opcode: Opcode::Ldx, mode: AddressingMode::Absolute, length: 3, cycles: 4 },
        0xb0 => Instruction { opcode: Opcode::Bcs, mode: AddressingMode::Relative, length: 2, cycles: 2 },
        0xb1 => Instruction { opcode: Opcode::Lda, mode: AddressingMode::IndirectY, length: 2, cycles: 5 },
        0xb2 => Instruction { opcode: Opcode::Kil, mode: AddressingMode::Implied, length: 1, cycles: 1 },
        0xb4 => Instruction { opcode: Opcode::Ldy, mode: AddressingMode::ZeroPageX, length: 2, cycles: 4 },
        0xb5 => Instruction { opcode: Opcode::Lda, mode: AddressingMode::ZeroPageX, length: 2, cycles: 4 },
        0xb6 => Instruction { opcode: Opcode::Ldx, mode: AddressingMode::ZeroPageY, length: 2, cycles: 4 },
        0xb8 => Instruction { opcode: Opcode::Clv, mode: AddressingMode::Implied, length: 1, cycles: 2 },
        0xb9 => Instruction { opcode: Opcode::Lda, mode: AddressingMode::AbsoluteY, length: 3, cycles: 4 },
        0xba => Instruction { opcode: Opcode::Tsx, mode: AddressingMode::Implied, length: 1, cycles: 2 },
        0xbc => Instruction { opcode: Opcode::Ldy, mode: AddressingMode::AbsoluteX, length: 3, cycles: 4 },
        0xbd => Instruction { opcode: Opcode::Lda, mode: AddressingMode::AbsoluteX, length: 3, cycles: 4 },
        0xbe => Instruction { opcode: Opcode::Ldx, mode: AddressingMode::AbsoluteY, length: 3, cycles: 4 },
        0xc0 => Instruction { opcode: Opcode::Cpy, mode: AddressingMode::Immediate, length: 2, cycles: 2 },
        0xc1 => Instruction { opcode: Opcode::Cmp, mode: AddressingMode::IndirectX, length: 2, cycles: 6 },
        0xc4 => Instruction { opcode: Opcode::Cpy, mode: AddressingMode::ZeroPage, length: 2, cycles: 3 },
        0xc5 => Instruction { opcode: Opcode::Cmp, mode: AddressingMode::ZeroPage, length: 2, cycles: 3 },
        0xc6 => Instruction { opcode: Opcode::Dec, mode: AddressingMode::ZeroPage, length: 2, cycles: 5 },
        0xc8 => Instruction { opcode: Opcode::Iny, mode: AddressingMode::Implied, length: 1, cycles: 2 },
        0xc9 => Instruction { opcode: Opcode::Cmp, mode: AddressingMode::Immediate, length: 2, cycles: 2 },
        0xca => Instruction { opcode: Opcode::Dex, mode: AddressingMode::Implied, length: 1, cycles: 2 },
        0xcc => Instruction { opcode: Opcode::Cpy, mode: AddressingMode::Absolute, length: 3, cycles: 4 },
        0xcd => Instruction { opcode: Opcode::Cmp, mode: AddressingMode::Absolute, length: 3, cycles: 4 },
        0xce => Instruction { opcode: Opcode::Dec, mode: AddressingMode::Absolute, length: 3, cycles: 6 },
        0xd0 => Instruction { opcode: Opcode::Bne, mode: AddressingMode::Relative, length: 2, cycles: 2 },
        0xd1 => Instruction { opcode: Opcode::Cmp, mode: AddressingMode::IndirectY, length: 2, cycles: 5 },
        0xd2 => Instruction { opcode: Opcode::Kil, mode: AddressingMode::Implied, length: 1, cycles: 1 },
        0xd5 => Instruction { opcode: Opcode::Cmp, mode: AddressingMode::ZeroPageX, length: 2, cycles: 4 },
        0xd6 => Instruction { opcode: Opcode::Dec, mode: AddressingMode::ZeroPageX, length: 2, cycles: 6 },
        0xd8 => Instruction { opcode: Opcode::Cld, mode: AddressingMode::Implied, length: 1, cycles: 2 },
        0xd9 => Instruction { opcode: Opcode::Cmp, mode: AddressingMode::AbsoluteY, length: 3, cycles: 4 },
        0xda => Instruction { opcode: Opcode::Nop, mode: AddressingMode::Implied, length: 2, cycles: 1 },
        0xdd => Instruction { opcode: Opcode::Cmp, mode: AddressingMode::AbsoluteX, length: 3, cycles: 4 },
        0xde => Instruction { opcode: Opcode::Dec, mode: AddressingMode::AbsoluteX, length: 3, cycles: 7 },
        0xe0 => Instruction { opcode: Opcode::Cpx, mode: AddressingMode::Immediate, length: 2, cycles: 2 },
        0xe1 => Instruction { opcode: Opcode::Sbc, mode: AddressingMode::IndirectX, length: 2, cycles: 6 },
        0xe4 => Instruction { opcode: Opcode::Cpx, mode: AddressingMode::ZeroPage, length: 2, cycles: 3 },
        0xe5 => Instruction { opcode: Opcode::Sbc, mode: AddressingMode::ZeroPage, length: 2, cycles: 3 },
        0xe6 => Instruction { opcode: Opcode::Inc, mode: AddressingMode::ZeroPage, length: 2, cycles: 5 },
        0xe8 => Instruction { opcode: Opcode::Inx, mode: AddressingMode::Implied, length: 1, cycles: 2 },
        0xe9 => Instruction { opcode: Opcode::Sbc, mode: AddressingMode::Immediate, length: 2, cycles: 2 },
        0xec => Instruction { opcode: Opcode::Cpx, mode: AddressingMode::Absolute, length: 3, cycles: 4 },
        0xed => Instruction { opcode: Opcode::Sbc, mode: AddressingMode::Absolute, length: 3, cycles: 4 },
        0xee => Instruction { opcode: Opcode::Inc, mode: AddressingMode::Absolute, length: 3, cycles: 6 },
        0xf0 => Instruction { opcode: Opcode::Beq, mode: AddressingMode::Relative, length: 2, cycles: 2 },
        0xf1 => Instruction { opcode: Opcode::Sbc, mode: AddressingMode::IndirectY, length: 2, cycles: 5 },
        0xf2 => Instruction { opcode: Opcode::Kil, mode: AddressingMode::Implied, length: 1, cycles: 1 },
        0xf5 => Instruction { opcode: Opcode::Sbc, mode: AddressingMode::ZeroPageX, length: 2, cycles: 4 },
        0xf6 => Instruction { opcode: Opcode::Inc, mode: AddressingMode::ZeroPageX, length: 2, cycles: 6 },
        0xf8 => Instruction { opcode: Opcode::Sed, mode: AddressingMode::Implied, length: 1, cycles: 2 },
        0xf9 => Instruction { opcode: Opcode::Sbc, mode: AddressingMode::AbsoluteY, length: 3, cycles: 4 },
        0xfa => Instruction { opcode: Opcode::Nop, mode: AddressingMode::Implied, length: 2, cycles: 1 },
        0xfd => Instruction { opcode: Opcode::Sbc, mode: AddressingMode::AbsoluteX, length: 3, cycles: 4 },
        0xfe => Instruction { opcode: Opcode::Inc, mode: AddressingMode::AbsoluteX, length: 3, cycles: 7 },
        _ => Instruction { opcode: Opcode::Nop, mode: AddressingMode::Implied, length: 1, cycles: 1 },
    }
}

} // verus!
