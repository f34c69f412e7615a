use crabbiness::bus::Bus;
use crabbiness::cpu::{Cpu, InstructionBytes};
use crabbiness::fault::Fault;
use crabbiness::opcodes::{decode, AddressingMode, Instruction, Opcode};
use crabbiness::rom::Rom;

fn setup_cpu(prg_rom: Vec<u8>) -> Cpu {
    let rom = Rom::new_from_vec(prg_rom);
    let bus = Bus::new(rom);
    Cpu::new(bus)
}

/// A 16 KiB bank holding `instructions` at 0x8000 and a reset vector to 0x8000.
fn test_program(instructions: Vec<u8>) -> Vec<u8> {
    let mut prog: Vec<u8> = instructions.to_vec();
    prog.append(&mut vec![0; 0x3ffc - instructions.len()]);
    prog.append(&mut vec![0x00, 0x80]);
    prog
}

fn run_one(prg: Vec<u8>, a: u8, x: u8, y: u8, p: u8) -> Cpu {
    let mut cpu = setup_cpu(test_program(prg));
    cpu.reset().unwrap();
    cpu.a = a;
    cpu.x = x;
    cpu.y = y;
    cpu.p = p;
    cpu.step().unwrap();
    cpu
}

#[test]
fn test_stack() {
    let mut cpu = setup_cpu(test_program(vec![]));
    cpu.reset().unwrap();
    cpu.stack_push_u8(0xda);
    assert_eq!(cpu.bus.read_u8(0x01fd), Ok(0xda));
    let val = cpu.stack_pop_u8();
    assert_eq!(val, 0xda);
    cpu.stack_push_u16(0xda5c);
    assert_eq!(cpu.bus.read_u16(0x01fc), Ok(0xda5c));
    let val = cpu.stack_pop_u16();
    assert_eq!(val, 0xda5c);
}

#[test]
fn test_nmi() {
    let mut prog: Vec<u8> = vec![0x00];
    prog.append(&mut vec![0; 0x3ffa - 1]);
    prog.append(&mut vec![0x00, 0xaa]);
    prog.append(&mut vec![0x00, 0x80]);

    let mut cpu = setup_cpu(prog);
    cpu.reset().unwrap();
    cpu.step().unwrap();
    assert_eq!(cpu.pc, 0xaa00);
}

#[test]
fn nmi_pushes_pc_and_status() {
    let mut prog: Vec<u8> = vec![0xea];
    prog.append(&mut vec![0; 0x3ffa - 1]);
    prog.append(&mut vec![0x34, 0x92]);
    prog.append(&mut vec![0x00, 0x80]);
    let mut cpu = setup_cpu(prog);
    cpu.reset().unwrap();
    cpu.p = 0b1001_0001;
    assert_eq!(cpu.nmi(), Ok(0x9234));
    assert_eq!(cpu.pc, 0x9234);
    assert_eq!(cpu.sp, 0xfa);
    assert_eq!(cpu.bus.read_u8(0x01fd), Ok(0x80));
    assert_eq!(cpu.bus.read_u8(0x01fc), Ok(0x00));
    assert_eq!(cpu.bus.read_u8(0x01fb), Ok(0b1010_0001));
    assert_eq!(cpu.p, 0b1010_0101);
}

#[test]
fn stack_pointer_wraps() {
    let mut cpu = setup_cpu(test_program(vec![]));
    cpu.reset().unwrap();
    cpu.sp = 0x00;
    cpu.stack_push_u8(0x77);
    assert_eq!(cpu.sp, 0xff);
    assert_eq!(cpu.bus.read_u8(0x0100), Ok(0x77));
    assert_eq!(cpu.stack_pop_u8(), 0x77);
    assert_eq!(cpu.sp, 0x00);
}

#[test]
fn reset_loads_vector() {
    let mut cpu = setup_cpu(test_program(vec![]));
    cpu.a = 1;
    cpu.x = 2;
    cpu.y = 3;
    cpu.reset().unwrap();
    assert_eq!(cpu.pc, 0x8000);
    assert_eq!(cpu.sp, 0xfd);
    assert_eq!(cpu.p, 0x24);
    assert_eq!((cpu.a, cpu.x, cpu.y), (0, 0, 0));
}

#[test]
fn reset_without_vector_faults() {
    let bus = Bus::new(Rom::new_from_vec(vec![0xea; 0x5000]));
    let mut cpu = Cpu::new(bus);
    assert_eq!(cpu.reset(), Err(Fault::UnmappedRead(0xfffc)));
    assert_eq!(cpu.pc, 0);
}

#[test]
fn lda_immediate_program() {
    let mut cpu = setup_cpu(test_program(vec![0xa9, 0x42, 0x00]));
    cpu.reset().unwrap();
    assert_eq!(cpu.step(), Ok(2));
    assert_eq!(cpu.a, 0x42);
    assert_eq!(cpu.p & 0b0000_0010, 0);
    assert_eq!(cpu.p & 0b1000_0000, 0);
    assert_eq!(cpu.pc, 0x8002);
}

#[test]
fn step_charges_base_cycles() {
    let mut cpu = setup_cpu(test_program(vec![0xa9, 0x42, 0x8d, 0x00, 0x02, 0xe8]));
    cpu.reset().unwrap();
    let before = cpu.cycles;
    assert_eq!(cpu.step(), Ok(2));
    assert_eq!(cpu.cycles - before, 2);
    assert_eq!(cpu.step(), Ok(4));
    assert_eq!(cpu.cycles - before, 6);
    assert_eq!(cpu.bus.read_u8(0x0200), Ok(0x42));
    assert_eq!(cpu.step(), Ok(2));
    assert_eq!(cpu.cycles - before, 8);
    assert_eq!(cpu.bus.cycle, 8);
}

#[test]
fn jsr_then_rts_program() {
    let mut cpu = setup_cpu(test_program(vec![0x20, 0x05, 0x80, 0x00, 0x00, 0x60]));
    cpu.reset().unwrap();
    let sp = cpu.sp;
    cpu.step().unwrap();
    assert_eq!(cpu.pc, 0x8005);
    assert_eq!(cpu.sp, sp.wrapping_sub(2));
    assert_eq!(cpu.bus.read_u8(0x01fd), Ok(0x80));
    assert_eq!(cpu.bus.read_u8(0x01fc), Ok(0x02));
    cpu.step().unwrap();
    assert_eq!(cpu.pc, 0x8003);
    assert_eq!(cpu.sp, sp);
}

#[test]
fn rti_restores_status_and_pc() {
    let mut cpu = setup_cpu(test_program(vec![0x40]));
    cpu.reset().unwrap();
    cpu.stack_push_u16(0x9abc);
    cpu.stack_push_u8(0b1101_0011);
    cpu.step().unwrap();
    assert_eq!(cpu.pc, 0x9abc);
    assert_eq!(cpu.p, 0b1110_0011);
    assert_eq!(cpu.sp, 0xfd);
}

#[test]
fn adc_overflow_boundary() {
    let cpu = run_one(vec![0x69, 0x50], 0x50, 0, 0, 0);
    assert_eq!(cpu.a, 0xa0);
    assert_eq!(cpu.p, 0b1100_0000);
}

#[test]
fn sbc_equal_operands() {
    let cpu = run_one(vec![0xe9, 0x50], 0x50, 0, 0, 0b0000_0001);
    assert_eq!(cpu.a, 0x00);
    assert_eq!(cpu.p, 0b0000_0011);
}

#[test]
fn jmp_indirect_page_bug() {
    let mut cpu = setup_cpu(test_program(vec![0x6c, 0xff, 0x02]));
    cpu.reset().unwrap();
    cpu.bus.write_u8(0x02ff, 0x34).unwrap();
    cpu.bus.write_u8(0x0200, 0x12).unwrap();
    cpu.bus.write_u8(0x0300, 0x56).unwrap();
    cpu.step().unwrap();
    assert_eq!(cpu.pc, 0x1234);
}

#[test]
fn branch_backwards_from_c000() {
    let mut cpu = setup_cpu(test_program(vec![0x10, 0xfb]));
    cpu.reset().unwrap();
    cpu.p = 0;
    cpu.pc = 0xc000;
    cpu.step().unwrap();
    assert_eq!(cpu.pc, 0xbffd);
}

#[test]
fn kil_halts() {
    let mut cpu = setup_cpu(test_program(vec![0x02]));
    cpu.reset().unwrap();
    assert_eq!(cpu.step(), Err(Fault::Halt(0x02)));
    assert_eq!(cpu.pc, 0x8000);
}

#[test]
fn store_to_rom_faults() {
    let mut cpu = setup_cpu(test_program(vec![0x8d, 0x00, 0x90]));
    cpu.reset().unwrap();
    assert_eq!(cpu.step(), Err(Fault::UnmappedWrite(0x9000)));
}

#[test]
fn accumulator_ops() {
    let cases: Vec<(Vec<u8>, u8, u8, u8)> = vec![
        (vec![0x09, 0x40], 0x84, 0xc4, 0b1010_0100),
        (vec![0x09, 0x00], 0x00, 0x00, 0b0010_0110),
        (vec![0x29, 0xf0], 0x80, 0x80, 0b1010_0100),
        (vec![0x49, 0xf0], 0x0f, 0xff, 0b1010_0100),
    ];
    for (prg, in_a, ex_a, ex_flags) in cases {
        let mut cpu = setup_cpu(test_program(prg));
        cpu.reset().unwrap();
        cpu.a = in_a;
        cpu.step().unwrap();
        assert_eq!(cpu.a, ex_a);
        assert_eq!(cpu.p, ex_flags);
    }
}

#[test]
fn branches() {
    let cases: Vec<(Vec<u8>, u16, u8, u8, u16)> = vec![
        (vec![0x10, 0x10], 0xc000, 0b1000_0000, 0b1000_0000, 0xc002),
        (vec![0x10, 0x10], 0xc000, 0b0000_0000, 0b0000_0000, 0xc012),
        (vec![0x10, 0xfb], 0xc000, 0b0000_0000, 0b0000_0000, 0xbffd),
        (vec![0xf0, 0x32], 0xc000, 0b1110_1111, 0b1110_1111, 0xc034),
    ];
    for (prg, in_pc, in_flags, ex_flags, ex_pc) in cases {
        let mut cpu = setup_cpu(test_program(prg));
        cpu.reset().unwrap();
        cpu.p = in_flags;
        cpu.pc = in_pc;
        cpu.step().unwrap();
        assert_eq!(cpu.p, ex_flags);
        assert_eq!(cpu.pc, ex_pc);
    }
}

#[test]
fn flag_instructions() {
    let cases: Vec<(Vec<u8>, u8, u8)> = vec![
        (vec![0x18], 0b0000_1001, 0b0000_1000),
        (vec![0xd8], 0b0000_1100, 0b0000_0100),
        (vec![0x58], 0b0000_1110, 0b0000_1010),
        (vec![0xf8], 0b0000_0110, 0b0000_1110),
    ];
    for (prg, in_flags, ex_flags) in cases {
        let cpu = run_one(prg, 0, 0, 0, in_flags);
        assert_eq!(cpu.p, ex_flags);
    }
}

#[test]
fn jumps() {
    let cases: Vec<(Vec<u8>, u16)> = vec![
        (vec![0x4c, 0x5a, 0xa5], 0xa55a),
        (vec![0x6c, 0x03, 0x80, 0x5a, 0xa5], 0xa55a),
    ];
    for (prg, ex_pc) in cases {
        let mut cpu = setup_cpu(test_program(prg));
        cpu.reset().unwrap();
        cpu.step().unwrap();
        assert_eq!(cpu.pc, ex_pc);
    }
}

#[test]
fn push_pull() {
    let mut cpu = setup_cpu(test_program(vec![0x48, 0x68, 0x08, 0x28]));
    cpu.reset().unwrap();
    cpu.sp = 0xff;
    cpu.a = 0x12;
    cpu.step().unwrap();
    assert_eq!(cpu.sp, 0xfe);
    assert_eq!(cpu.bus.read_u8(0x01ff), Ok(0x12));
    cpu.a = 0x00;
    cpu.step().unwrap();
    assert_eq!(cpu.a, 0x12);
    assert_eq!(cpu.sp, 0xff);
    cpu.p = 0b1010_0101;
    cpu.step().unwrap();
    assert_eq!(cpu.sp, 0xfe);
    assert_eq!(cpu.bus.read_u8(0x01ff), Ok(0b1011_0101));
    cpu.p = 0x00;
    cpu.step().unwrap();
    assert_eq!(cpu.p, 0b1010_0101);
    assert_eq!(cpu.sp, 0xff);
}

#[test]
fn transfers() {
    let cases: Vec<(u8, u8, u8, u8, u8, u8, u8, u8, u8)> = vec![
        (0xaa, 0xfa, 0, 0, 0, 0xfa, 0xfa, 0, 0),
        (0xa8, 0xfa, 0, 0, 0, 0xfa, 0, 0xfa, 0),
        (0xba, 0, 0, 0, 0xba, 0, 0xba, 0, 0xba),
        (0x8a, 0, 0x8a, 0, 0, 0x8a, 0x8a, 0, 0),
        (0x9a, 0, 0x9a, 0, 0, 0, 0x9a, 0, 0x9a),
        (0x98, 0, 0, 0x98, 0, 0x98, 0, 0x98, 0),
    ];
    for (op, in_a, in_x, in_y, in_sp, ex_a, ex_x, ex_y, ex_sp) in cases {
        let mut cpu = setup_cpu(test_program(vec![op]));
        cpu.reset().unwrap();
        cpu.a = in_a;
        cpu.x = in_x;
        cpu.y = in_y;
        cpu.sp = in_sp;
        cpu.step().unwrap();
        assert_eq!(cpu.a, ex_a);
        assert_eq!(cpu.x, ex_x);
        assert_eq!(cpu.y, ex_y);
        assert_eq!(cpu.sp, ex_sp);
    }
}

#[test]
fn decrements() {
    let cases: Vec<(u8, u8, u8, u8, u8, u8)> = vec![
        (0xca, 0xff, 0, 0xfe, 0, 0b1010_0100),
        (0x88, 0xa0, 0x05, 0xa0, 0x04, 0b0010_0100),
    ];
    for (op, in_x, in_y, ex_x, ex_y, ex_flags) in cases {
        let mut cpu = setup_cpu(test_program(vec![op]));
        cpu.reset().unwrap();
        cpu.x = in_x;
        cpu.y = in_y;
        cpu.step().unwrap();
        assert_eq!(cpu.x, ex_x);
        assert_eq!(cpu.y, ex_y);
        assert_eq!(cpu.p, ex_flags);
    }
}

#[test]
fn accumulator_arithmetic() {
    // (program, A in, flags in, A out, flags out)
    let cases: Vec<(Vec<u8>, u8, u8, u8, u8)> = vec![
        (vec![0x2a], 0x01, 0b00000000, 0x02, 0b00000000),
        (vec![0x2a], 0x01, 0b00000001, 0x03, 0b00000000),
        (vec![0x2a], 0x81, 0b00000000, 0x02, 0b00000001),
        (vec![0x6a], 0x80, 0b00000000, 0x40, 0b00000000),
        (vec![0x6a], 0x80, 0b00000001, 0xc0, 0b10000000),
        (vec![0x6a], 0x81, 0b00000000, 0x40, 0b00000001),
        (vec![0x69, 0x0f], 0xf0, 0b00000000, 0xff, 0b10000000),
        (vec![0x69, 0x0f], 0xf0, 0b00000001, 0x00, 0b00000011),
        (vec![0x69, 0x50], 0x50, 0b00000000, 0xa0, 0b11000000),
        (vec![0xe9, 0x50], 0x50, 0b00000001, 0x00, 0b00000011),
        (vec![0xe9, 0x41], 0x40, 0b11100101, 0xff, 0b10100100),
        (vec![0x2c, 0x03, 0xc0, 0xf0], 0xf0, 0b00000000, 0xf0, 0b11000000),
        (vec![0x2c, 0x03, 0xc0, 0x00], 0xf0, 0b00000000, 0xf0, 0b00000010),
        (vec![0x4a], 0xff, 0b00000000, 0x7f, 0b00000001),
        (vec![0x4a], 0x80, 0b00000000, 0x40, 0b00000000),
        (vec![0x0a], 0x80, 0b00000000, 0x00, 0b00000011),
    ];
    for (prg, in_a, in_flags, ex_a, ex_flags) in cases {
        let cpu = run_one(prg, in_a, 0, 0, in_flags);
        assert_eq!(cpu.a, ex_a);
        assert_eq!(cpu.p, ex_flags);
    }
}

#[test]
fn loads_through_addressing_modes() {
    // (program, memory, A in, X in, A out)
    let cases: Vec<(Vec<u8>, Vec<(u16, u8)>, u8, u8, u8)> = vec![
        (vec![0xa5, 0xff], vec![(0x00ff, 0x5a)], 0xff, 0xff, 0x5a),
        (vec![0xb5, 0xef], vec![(0x00ff, 0x5a)], 0xff, 0x10, 0x5a),
        (vec![0xad, 0x23, 0x01], vec![(0x0123, 0x77)], 0xff, 0x10, 0x77),
        (vec![0xa1, 0x10], vec![(0x0020, 0x23), (0x0021, 0x01), (0x0123, 0x5a)], 0xff, 0x10, 0x5a),
        (vec![0xa1, 0xff], vec![(0x00ff, 0x23), (0x0000, 0x01), (0x0123, 0x5a)], 0xff, 0x00, 0x5a),
    ];
    for (prg, memory, in_a, in_x, ex_a) in cases {
        let mut cpu = setup_cpu(test_program(prg));
        cpu.reset().unwrap();
        cpu.a = in_a;
        cpu.x = in_x;
        for (addr, mem) in memory {
            cpu.bus.write_u8(addr, mem).unwrap();
        }
        cpu.p = 0;
        cpu.step().unwrap();
        assert_eq!(cpu.a, ex_a);
        assert_eq!(cpu.p, 0);
    }
}

#[test]
fn indirect_indexed_y_load_and_compare() {
    // LDA ($10),Y ; CMP #$5a
    let mut cpu = setup_cpu(test_program(vec![0xb1, 0x10, 0xc9, 0x5a]));
    cpu.reset().unwrap();
    cpu.y = 0x05;
    cpu.bus.write_u8(0x0010, 0x00).unwrap();
    cpu.bus.write_u8(0x0011, 0x02).unwrap();
    cpu.bus.write_u8(0x0205, 0x5a).unwrap();
    cpu.step().unwrap();
    assert_eq!(cpu.a, 0x5a);
    cpu.step().unwrap();
    assert_eq!(cpu.p & 0b0000_0011, 0b0000_0011);
}

#[test]
fn memory_increment_and_rotate() {
    // INC $40 ; ROL $40 ; DEC $40
    let mut cpu = setup_cpu(test_program(vec![0xe6, 0x40, 0x26, 0x40, 0xc6, 0x40]));
    cpu.reset().unwrap();
    cpu.bus.write_u8(0x0040, 0x7f).unwrap();
    cpu.p = 0;
    cpu.step().unwrap();
    assert_eq!(cpu.bus.read_u8(0x0040), Ok(0x80));
    assert_eq!(cpu.p, 0b1000_0000);
    cpu.step().unwrap();
    assert_eq!(cpu.bus.read_u8(0x0040), Ok(0x00));
    assert_eq!(cpu.p, 0b0000_0011);
    cpu.step().unwrap();
    assert_eq!(cpu.bus.read_u8(0x0040), Ok(0xff));
    assert_eq!(cpu.p, 0b1000_0001);
}

#[test]
fn decode_table_entries() {
    assert_eq!(
        decode(0x69),
        Instruction { opcode: Opcode::Adc, mode: AddressingMode::Immediate, length: 2, cycles: 2 }
    );
    assert_eq!(
        decode(0x6c),
        Instruction { opcode: Opcode::Jmp, mode: AddressingMode::Indirect, length: 3, cycles: 5 }
    );
    assert_eq!(
        decode(0x1a),
        Instruction { opcode: Opcode::Nop, mode: AddressingMode::Implied, length: 2, cycles: 1 }
    );
    assert_eq!(
        decode(0xf2),
        Instruction { opcode: Opcode::Kil, mode: AddressingMode::Implied, length: 1, cycles: 1 }
    );
    assert_eq!(
        decode(0xff),
        Instruction { opcode: Opcode::Nop, mode: AddressingMode::Implied, length: 1, cycles: 1 }
    );
}

#[test]
fn instruction_byte_operands() {
    let abs = InstructionBytes { instruction: decode(0xad), bytes: vec![0xad, 0x34, 0x12] };
    assert_eq!(abs.get_address(), 0x1234);
    let rel = InstructionBytes { instruction: decode(0xd0), bytes: vec![0xd0, 0xfb] };
    assert_eq!(rel.get_immediate(), 0xfb);
    assert_eq!(rel.get_offset(), -5);
    let fwd = InstructionBytes { instruction: decode(0xd0), bytes: vec![0xd0, 0x7f] };
    assert_eq!(fwd.get_offset(), 127);
}
