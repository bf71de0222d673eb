use gbemu::bus::{BusTrait, FlatBus};
use gbemu::sharp8080::{ExecError, Sharp8080};

struct State {
    reg: u8,
    reg_p: u8,
    zf: u8,
    nf: u8,
    hf: u8,
    cf: u8,
}

fn get_reg(cpu: &Sharp8080, bus: &FlatBus, op: u16) -> u8 {
    match op % 0x8 {
        0x0 => cpu.b,
        0x1 => cpu.c,
        0x2 => cpu.d,
        0x3 => cpu.e,
        0x4 => cpu.h,
        0x5 => cpu.l,
        0x6 => bus.read((cpu.h as u16) << 8 | cpu.l as u16),
        _ => cpu.a,
    }
}

fn flag(b: bool) -> u8 {
    if b {
        1
    } else {
        0
    }
}

fn assert_state(cpu: &Sharp8080, reg: u8, state: &State) {
    assert!(reg == state.reg_p);
    assert!(flag(cpu.flags.c) == state.cf);
    assert!(flag(cpu.flags.h) == state.hf);
    assert!(flag(cpu.flags.n) == state.nf);
    assert!(flag(cpu.flags.z) == state.zf);
}

fn set_reg_state(cpu: &mut Sharp8080, bus: &mut FlatBus, state: &[State; 8]) {
    cpu.b = state[0].reg;
    cpu.c = state[1].reg;
    cpu.d = state[2].reg;
    cpu.e = state[3].reg;
    cpu.h = state[4].reg;
    cpu.l = state[5].reg;
    bus.write((state[4].reg_p as u16) << 8 | state[5].reg_p as u16, state[6].reg);
    cpu.a = state[7].reg;
}

fn check_reg_state(cpu: &mut Sharp8080, bus: &mut FlatBus, state: &[State; 8]) {
    loop {
        let opcode = cpu.fetch_opcode(bus);
        if opcode == 0 {
            break;
        }
        cpu.execute(bus, opcode).unwrap();
        let reg = get_reg(cpu, bus, opcode);
        assert_state(cpu, reg, &state[(opcode % 0x08) as usize]);
    }
}

#[test]
fn test_cb_rlc() {
    let mut cpu = Sharp8080::new(0x0000);
    let mut bus = FlatBus::new();
    for i in 0x00..0x07u8 {
        bus.write(2 * i as u16, 0xCB);
        bus.write(((2 * i) + 1) as u16, i);
    }
    let state: [State; 8] = [
        State { reg: 0xC0, reg_p: 0xC0 << 1 | 0x1, zf: 0, nf: 0, hf: 0, cf: 1 },
        State { reg: 0x20, reg_p: 0x20 << 1, zf: 0, nf: 0, hf: 0, cf: 0 },
        State { reg: 0x10, reg_p: 0x10 << 1, zf: 0, nf: 0, hf: 0, cf: 0 },
        State { reg: 0x08, reg_p: 0x08 << 1, zf: 0, nf: 0, hf: 0, cf: 0 },
        State { reg: 0x04, reg_p: 0x04 << 1, zf: 0, nf: 0, hf: 0, cf: 0 },
        State { reg: 0x02, reg_p: 0x02 << 1, zf: 0, nf: 0, hf: 0, cf: 0 },
        State { reg: 0x01, reg_p: 0x01 << 1, zf: 0, nf: 0, hf: 0, cf: 0 },
        State { reg: 0x00, reg_p: 0x00, zf: 1, nf: 0, hf: 0, cf: 0 },
    ];
    set_reg_state(&mut cpu, &mut bus, &state);
    check_reg_state(&mut cpu, &mut bus, &state);
}

fn load_program(bus: &mut FlatBus, at: u16, bytes: &[u8]) {
    for (i, b) in bytes.iter().enumerate() {
        bus.write(at + i as u16, *b);
    }
}

fn step(cpu: &mut Sharp8080, bus: &mut FlatBus) {
    let opcode = cpu.fetch_opcode(bus);
    cpu.execute(bus, opcode).unwrap();
}

#[test]
fn cb_rlc_sweep_with_accumulator() {
    let mut cpu = Sharp8080::new(0x0000);
    let mut bus = FlatBus::new();
    load_program(
        &mut bus,
        0,
        &[0xCB, 0x00, 0xCB, 0x01, 0xCB, 0x02, 0xCB, 0x03, 0xCB, 0x04, 0xCB, 0x05, 0xCB, 0x07],
    );
    cpu.b = 0xC0;
    cpu.c = 0x20;
    cpu.d = 0x10;
    cpu.e = 0x08;
    cpu.h = 0x04;
    cpu.l = 0x02;
    cpu.a = 0x01;
    let mut first = true;
    loop {
        let opcode = cpu.fetch_opcode(&bus);
        if opcode == 0 {
            break;
        }
        cpu.execute(&mut bus, opcode).unwrap();
        assert_eq!(cpu.flags.c, first);
        first = false;
    }
    assert_eq!(
        (cpu.b, cpu.c, cpu.d, cpu.e, cpu.h, cpu.l, cpu.a),
        (0x81, 0x40, 0x20, 0x10, 0x08, 0x04, 0x02)
    );
    assert_eq!(cpu.pc, 14);
    assert_eq!(cpu.cycles, 7 * 8);
}

#[test]
fn absolute_jump() {
    let mut cpu = Sharp8080::new(0x0100);
    let mut bus = FlatBus::new();
    load_program(&mut bus, 0x100, &[0xC3, 0x34, 0x12]);
    cpu.flags.z = true;
    cpu.flags.h = true;
    let before = cpu.flags;
    assert_eq!(cpu.fetch_opcode(&bus), 0x00C3);
    step(&mut cpu, &mut bus);
    assert_eq!(cpu.pc, 0x1234);
    assert_eq!(cpu.cycles, 16);
    assert_eq!(cpu.flags, before);
}

#[test]
fn disable_and_enable_interrupts() {
    let mut cpu = Sharp8080::new(0x0100);
    let mut bus = FlatBus::new();
    load_program(&mut bus, 0x100, &[0xF3, 0xFB]);
    assert!(cpu.ime);
    step(&mut cpu, &mut bus);
    assert!(!cpu.ime);
    assert_eq!(cpu.pc, 0x101);
    assert_eq!(cpu.cycles, 4);
    step(&mut cpu, &mut bus);
    assert!(cpu.ime);
    assert_eq!(cpu.pc, 0x102);
    assert_eq!(cpu.cycles, 8);
}

#[test]
fn wide_immediate_loads() {
    let mut cpu = Sharp8080::new(0x0100);
    let mut bus = FlatBus::new();
    load_program(
        &mut bus,
        0x100,
        &[0x01, 0xCD, 0xAB, 0x11, 0x34, 0x12, 0x21, 0x78, 0x56, 0x31, 0xFE, 0xFF],
    );
    step(&mut cpu, &mut bus);
    assert_eq!((cpu.b, cpu.c), (0xAB, 0xCD));
    assert_eq!(cpu.pc, 0x103);
    assert_eq!(cpu.cycles, 12);
    step(&mut cpu, &mut bus);
    assert_eq!((cpu.d, cpu.e), (0x12, 0x34));
    step(&mut cpu, &mut bus);
    assert_eq!((cpu.h, cpu.l), (0x56, 0x78));
    step(&mut cpu, &mut bus);
    assert_eq!(cpu.sp, 0xFFFE);
    assert_eq!(cpu.pc, 0x10C);
    assert_eq!(cpu.cycles, 48);
}

#[test]
fn add_half_carry() {
    let mut cpu = Sharp8080::new(0x0100);
    let mut bus = FlatBus::new();
    cpu.a = 0x0F;
    cpu.b = 0x01;
    cpu.execute(&mut bus, 0x0080).unwrap();
    assert_eq!(cpu.a, 0x10);
    assert!(!cpu.flags.z && !cpu.flags.n && cpu.flags.h && !cpu.flags.c);
    assert_eq!(cpu.pc, 0x101);
    assert_eq!(cpu.cycles, 4);
}

#[test]
fn add_carry_and_zero() {
    let mut cpu = Sharp8080::new(0);
    let mut bus = FlatBus::new();
    cpu.a = 0xF0;
    cpu.b = 0x10;
    cpu.execute(&mut bus, 0x0080).unwrap();
    assert_eq!(cpu.a, 0x00);
    assert!(cpu.flags.z && !cpu.flags.n && !cpu.flags.h && cpu.flags.c);
}

#[test]
fn alu_group_results() {
    let mut bus = FlatBus::new();
    // (opcode, A, operand in C, carry in, A after, Z, N, H, C)
    let cases: [(u16, u8, u8, bool, u8, bool, bool, bool, bool); 12] = [
        (0x89, 0x0E, 0x01, true, 0x10, false, false, true, false),
        (0x89, 0xFF, 0x00, true, 0x00, true, false, true, true),
        (0x91, 0x10, 0x01, false, 0x0F, false, true, true, false),
        (0x91, 0x01, 0x02, false, 0xFF, false, true, true, true),
        (0x91, 0x42, 0x42, false, 0x00, true, true, false, false),
        (0x99, 0x10, 0x0F, true, 0x00, true, true, true, false),
        (0x99, 0x00, 0x00, true, 0xFF, false, true, true, true),
        (0xA1, 0xF0, 0x3C, false, 0x30, false, false, true, false),
        (0xA9, 0xFF, 0xFF, true, 0x00, true, false, false, false),
        (0xB1, 0xF0, 0x0F, true, 0xFF, false, false, false, false),
        (0xB9, 0x20, 0x21, false, 0x20, false, true, true, true),
        (0xB9, 0x20, 0x20, false, 0x20, true, true, false, false),
    ];
    for (op, a, s, cin, r, z, n, h, c) in cases {
        let mut cpu = Sharp8080::new(0);
        cpu.a = a;
        cpu.c = s;
        cpu.flags.c = cin;
        cpu.execute(&mut bus, op).unwrap();
        assert_eq!(cpu.a, r, "opcode {:#04x}", op);
        assert_eq!(
            (cpu.flags.z, cpu.flags.n, cpu.flags.h, cpu.flags.c),
            (z, n, h, c),
            "opcode {:#04x}",
            op
        );
    }
}

#[test]
fn alu_on_memory_operand_takes_eight_cycles() {
    let mut cpu = Sharp8080::new(0);
    let mut bus = FlatBus::new();
    cpu.h = 0xC0;
    cpu.l = 0x10;
    bus.write(0xC010, 0x05);
    cpu.a = 0x03;
    cpu.execute(&mut bus, 0x0086).unwrap();
    assert_eq!(cpu.a, 0x08);
    assert_eq!(cpu.cycles, 8);
}

#[test]
fn register_loads_copy_and_keep_flags() {
    let mut bus = FlatBus::new();
    for op in 0x40u16..0x80 {
        if op == 0x76 {
            continue;
        }
        let mut cpu = Sharp8080::new(0);
        cpu.a = 0xA1;
        cpu.b = 0xB2;
        cpu.c = 0xC3;
        cpu.d = 0xD4;
        cpu.e = 0xE5;
        cpu.h = 0xC1;
        cpu.l = 0x23;
        cpu.flags.z = true;
        cpu.flags.c = true;
        bus.write(0xC123, 0x5A);
        let before = cpu;
        let src = get_reg(&before, &bus, op);
        cpu.execute(&mut bus, op).unwrap();
        let dst = get_reg(&cpu, &bus, op >> 3);
        assert_eq!(dst, src, "opcode {:#04x}", op);
        assert_eq!(cpu.flags, before.flags);
        assert_eq!(cpu.pc, 1);
        let cycles = if op % 8 == 6 || (op >> 3) % 8 == 6 { 8 } else { 4 };
        assert_eq!(cpu.cycles, cycles);
    }
}

#[test]
fn load_through_hl() {
    let mut cpu = Sharp8080::new(0);
    let mut bus = FlatBus::new();
    cpu.h = 0xC0;
    cpu.l = 0x00;
    cpu.a = 0x77;
    cpu.execute(&mut bus, 0x0077).unwrap();
    assert_eq!(bus.read(0xC000), 0x77);
    cpu.execute(&mut bus, 0x0046).unwrap();
    assert_eq!(cpu.b, 0x77);
}

#[test]
fn halt_is_not_a_load() {
    let mut cpu = Sharp8080::new(0);
    let mut bus = FlatBus::new();
    let before = cpu;
    assert_eq!(cpu.execute(&mut bus, 0x0076), Err(ExecError::UndefinedInstruction(0x0076)));
    assert_eq!(cpu, before);
}

#[test]
fn undefined_opcodes_are_errors() {
    let mut bus = FlatBus::new();
    for op in [0x00D3u16, 0x00FD, 0x0006, 0x00CB, 0x1240] {
        let mut cpu = Sharp8080::new(0x200);
        let before = cpu;
        assert_eq!(cpu.execute(&mut bus, op), Err(ExecError::UndefinedInstruction(op)));
        assert_eq!(cpu, before);
    }
}

#[test]
fn load_a_to_bc_and_increment_bc() {
    let mut cpu = Sharp8080::new(0);
    let mut bus = FlatBus::new();
    cpu.b = 0xC0;
    cpu.c = 0xFF;
    cpu.a = 0x99;
    cpu.execute(&mut bus, 0x0002).unwrap();
    assert_eq!(bus.read(0xC0FF), 0x99);
    cpu.execute(&mut bus, 0x0003).unwrap();
    assert_eq!((cpu.b, cpu.c), (0xC1, 0x00));
    cpu.b = 0xFF;
    cpu.c = 0xFF;
    cpu.execute(&mut bus, 0x0003).unwrap();
    assert_eq!((cpu.b, cpu.c), (0x00, 0x00));
    assert_eq!(cpu.cycles, 24);
}

#[test]
fn bit_test_changes_only_flags() {
    let mut bus = FlatBus::new();
    for low in 0x40u16..0x80 {
        let mut cpu = Sharp8080::new(0);
        cpu.a = 0x01;
        cpu.b = 0x02;
        cpu.c = 0x04;
        cpu.d = 0x08;
        cpu.e = 0x10;
        cpu.h = 0xC0;
        cpu.l = 0x80;
        cpu.flags.c = low % 2 == 0;
        bus.write(0xC080, 0x40);
        let before = cpu;
        let v = get_reg(&before, &bus, low);
        cpu.execute(&mut bus, 0xCB00 | low).unwrap();
        let n = (low >> 3) & 7;
        assert_eq!(cpu.flags.z, (v >> n) & 1 == 0, "opcode {:#06x}", 0xCB00 | low);
        assert!(!cpu.flags.n && cpu.flags.h);
        assert_eq!(cpu.flags.c, before.flags.c);
        assert_eq!(
            (cpu.a, cpu.b, cpu.c, cpu.d, cpu.e, cpu.h, cpu.l, cpu.sp),
            (before.a, before.b, before.c, before.d, before.e, before.h, before.l, before.sp)
        );
        assert_eq!(bus.read(0xC080), 0x40);
        assert_eq!(cpu.pc, 2);
        assert_eq!(cpu.cycles, if low % 8 == 6 { 16 } else { 8 });
    }
}

#[test]
fn set_then_res_restores_clear_bit() {
    let mut bus = FlatBus::new();
    for n in 0u16..8 {
        for v in [0x00u8, 0xFF, 0x5A, 0xA5] {
            let mut cpu = Sharp8080::new(0);
            cpu.d = v;
            cpu.execute(&mut bus, 0xCBC2 | (n << 3)).unwrap();
            assert_eq!(cpu.d, v | (1 << n));
            cpu.execute(&mut bus, 0xCB82 | (n << 3)).unwrap();
            assert_eq!(cpu.d == v, (v >> n) & 1 == 0);
            let mut cpu = Sharp8080::new(0);
            cpu.d = v;
            cpu.execute(&mut bus, 0xCB82 | (n << 3)).unwrap();
            cpu.execute(&mut bus, 0xCBC2 | (n << 3)).unwrap();
            assert_eq!(cpu.d == v, (v >> n) & 1 == 1);
        }
    }
}

#[test]
fn set_and_res_on_memory() {
    let mut cpu = Sharp8080::new(0);
    let mut bus = FlatBus::new();
    cpu.h = 0xD0;
    cpu.l = 0x00;
    bus.write(0xD000, 0x0F);
    cpu.execute(&mut bus, 0xCBFE).unwrap();
    assert_eq!(bus.read(0xD000), 0x8F);
    cpu.execute(&mut bus, 0xCB86).unwrap();
    assert_eq!(bus.read(0xD000), 0x8E);
    assert_eq!(cpu.cycles, 32);
}

#[test]
fn rlc_eight_times_restores_value() {
    let mut bus = FlatBus::new();
    for v in [0x00u8, 0x01, 0x80, 0x5A, 0xC3, 0xFF] {
        let mut cpu = Sharp8080::new(0);
        cpu.e = v;
        cpu.flags.c = v & 1 == 1;
        let start = cpu.flags.c;
        for _ in 0..8 {
            cpu.execute(&mut bus, 0xCB03).unwrap();
        }
        assert_eq!(cpu.e, v);
        assert_eq!(cpu.flags.c, start);
    }
}

#[test]
fn swap_twice_restores_value() {
    let mut bus = FlatBus::new();
    for v in [0x00u8, 0x12, 0xF0, 0xAB] {
        let mut cpu = Sharp8080::new(0);
        cpu.a = v;
        cpu.execute(&mut bus, 0xCB37).unwrap();
        assert_eq!(cpu.a, (v << 4) | (v >> 4));
        assert!(!cpu.flags.c && !cpu.flags.h && !cpu.flags.n);
        assert_eq!(cpu.flags.z, v == 0);
        cpu.execute(&mut bus, 0xCB37).unwrap();
        assert_eq!(cpu.a, v);
    }
}

#[test]
fn rotate_and_shift_results() {
    let mut bus = FlatBus::new();
    // (low byte, operand in B, carry in, result, carry out)
    let cases: [(u16, u8, bool, u8, bool); 10] = [
        (0x08, 0x01, false, 0x80, true),
        (0x10, 0x80, false, 0x00, true),
        (0x10, 0x01, true, 0x03, false),
        (0x18, 0x01, true, 0x80, true),
        (0x20, 0x81, false, 0x02, true),
        (0x20, 0x01, true, 0x02, false),
        (0x28, 0x81, false, 0xC0, true),
        (0x38, 0x81, true, 0x40, true),
        (0x38, 0x01, false, 0x00, true),
        (0x30, 0x0F, true, 0xF0, false),
    ];
    for (low, v, cin, r, cout) in cases {
        let mut cpu = Sharp8080::new(0);
        cpu.b = v;
        cpu.flags.c = cin;
        cpu.flags.n = true;
        cpu.flags.h = true;
        cpu.execute(&mut bus, 0xCB00 | low).unwrap();
        assert_eq!(cpu.b, r, "opcode {:#06x}", 0xCB00 | low);
        assert_eq!(cpu.flags.c, cout, "opcode {:#06x}", 0xCB00 | low);
        assert_eq!(cpu.flags.z, r == 0);
        assert!(!cpu.flags.n && !cpu.flags.h);
    }
}

#[test]
fn cb_operation_on_memory_writes_back() {
    let mut cpu = Sharp8080::new(0x10);
    let mut bus = FlatBus::new();
    load_program(&mut bus, 0x10, &[0xCB, 0x0E]);
    cpu.h = 0xC2;
    cpu.l = 0x00;
    bus.write(0xC200, 0x03);
    step(&mut cpu, &mut bus);
    assert_eq!(bus.read(0xC200), 0x81);
    assert!(cpu.flags.c);
    assert_eq!(cpu.pc, 0x12);
    assert_eq!(cpu.cycles, 16);
}

#[test]
fn fetch_reads_prefix_and_does_not_move_pc() {
    let cpu = Sharp8080::new(0xFFFF);
    let mut bus = FlatBus::new();
    bus.write(0xFFFF, 0xCB);
    bus.write(0x0000, 0x37);
    assert_eq!(cpu.fetch_opcode(&bus), 0xCB37);
    assert_eq!(cpu.pc, 0xFFFF);
}

#[test]
fn pc_wraps_at_top_of_memory() {
    let mut cpu = Sharp8080::new(0xFFFF);
    let mut bus = FlatBus::new();
    cpu.execute(&mut bus, 0x0000).unwrap();
    assert_eq!(cpu.pc, 0x0000);
}

#[test]
fn flag_register_low_bits_are_zero() {
    let mut cpu = Sharp8080::new(0);
    assert_eq!(cpu.f(), 0x00);
    cpu.flags.z = true;
    cpu.flags.c = true;
    assert_eq!(cpu.f(), 0x90);
    cpu.flags.n = true;
    cpu.flags.h = true;
    assert_eq!(cpu.f(), 0xF0);
}

#[test]
fn power_on_state() {
    let cpu = Sharp8080::new(0x0100);
    assert_eq!(cpu.pc, 0x0100);
    assert_eq!((cpu.a, cpu.b, cpu.c, cpu.d, cpu.e, cpu.h, cpu.l, cpu.sp), (0, 0, 0, 0, 0, 0, 0, 0));
    assert!(cpu.ime);
    assert_eq!(cpu.cycles, 0);
    assert_eq!(cpu.f(), 0);
}
