//! The LR35902 interpreter: register file, fetch, decode and execute.
use crate::alu::{alu, alu_result, bit_of, cb_apply, cb_result, Flags};
use crate::bus::BusTrait;
use crate::instructions::{
    cb_cycles, cb_entry, is_alu, is_hole, is_register_load, is_wide_load, primary_cycles,
    primary_entry, primary_handled, primary_length,
};
use vstd::prelude::*;

verus! {

/// The 16-bit value of register pair `hi:lo`.
pub open spec fn pair(hi: u8, lo: u8) -> u16 {
    (hi * 256 + lo) as u16
}

/// `x + k` modulo 2^16.
pub open spec fn add16(x: u16, k: u16) -> u16 {
    if x + k > u16::MAX {
        (x + k - 0x10000) as u16
    } else {
        (x + k) as u16
    }
}

/// The cycle counter after `k` more cycles; it stops at its maximum rather
/// than wrap, so that it never decreases.
pub open spec fn add_cycles(total: u64, k: u8) -> u64 {
    if total + k > u64::MAX {
        u64::MAX
    } else {
        (total + k) as u64
    }
}

/// The high byte of a 16-bit opcode: 0xCB for the CB-prefixed bank.
pub open spec fn opcode_high(opcode: u16) -> int {
    (opcode / 256) as int
}

/// The low byte of a 16-bit opcode: the index into its table.
pub open spec fn opcode_low(opcode: u16) -> u8 {
    (opcode % 256) as u8
}

/// Whether the interpreter has a handler for `opcode`: every CB-prefixed
/// opcode, and the handled primary opcodes with a zero high byte.
pub open spec fn handles(opcode: u16) -> bool {
    opcode_high(opcode) == 0xCB || (opcode_high(opcode) == 0 && primary_handled(
        opcode_low(opcode),
    ))
}

/// Machine clocks of `opcode` by its table entry.
pub open spec fn entry_cycles(opcode: u16) -> u8 {
    if opcode_high(opcode) == 0xCB {
        cb_cycles(opcode_low(opcode))
    } else {
        primary_cycles(opcode_low(opcode))
    }
}

/// Length in bytes of `opcode` by its table entry.
pub open spec fn entry_length(opcode: u16) -> u8 {
    if opcode_high(opcode) == 0xCB {
        2
    } else {
        primary_length(opcode_low(opcode))
    }
}

/// Why an opcode could not be executed.
#[derive(Clone, Copy, Debug, PartialEq, Eq, Structural)]
pub enum ExecError {
    /// The opcode has no table entry or no handler.
    UndefinedInstruction(u16),
}

/// The register file of the CPU.
#[derive(Clone, Copy, Debug, PartialEq, Eq, Structural)]
pub struct Sharp8080 {
    pub a: u8,
    pub b: u8,
    pub c: u8,
    pub d: u8,
    pub e: u8,
    pub h: u8,
    pub l: u8,
    pub sp: u16,
    pub pc: u16,
    pub flags: Flags,
    /// Interrupt master enable.
    pub ime: bool,
    /// Machine clocks consumed so far.
    pub cycles: u64,
}

impl Sharp8080 {
    /// The HL pair.
    pub open spec fn hl(self) -> u16 {
        pair(self.h, self.l)
    }

    /// Register `sel` of the operand map B, C, D, E, H, L, (HL), A; for
    /// selector 6, which names memory, this is A's slot and unused.
    pub open spec fn reg(self, sel: u8) -> u8 {
        match sel {
            0 => self.b,
            1 => self.c,
            2 => self.d,
            3 => self.e,
            4 => self.h,
            5 => self.l,
            _ => self.a,
        }
    }

    /// This state with register `sel` (not 6) set to `v`.
    pub open spec fn with_reg(self, sel: u8, v: u8) -> Sharp8080 {
        match sel {
            0 => Sharp8080 { b: v, ..self },
            1 => Sharp8080 { c: v, ..self },
            2 => Sharp8080 { d: v, ..self },
            3 => Sharp8080 { e: v, ..self },
            4 => Sharp8080 { h: v, ..self },
            5 => Sharp8080 { l: v, ..self },
            _ => Sharp8080 { a: v, ..self },
        }
    }

    /// Operand `sel` of the map B, C, D, E, H, L, (HL), A, where (HL) is the
    /// byte at the address in HL.
    pub open spec fn operand<B: BusTrait>(self, bus: B, sel: u8) -> u8 {
        if sel == 6 {
            bus.peek(self.hl())
        } else {
            self.reg(sel)
        }
    }

    /// The opcode that a fetch at PC yields: 0xCBxx for the prefix and the
    /// byte after it, 0x00xx otherwise.
    pub open spec fn fetched<B: BusTrait>(self, bus: B) -> u16 {
        if bus.peek(self.pc) == 0xCB {
            (0xCB00 + bus.peek(add16(self.pc, 1))) as u16
        } else {
            bus.peek(self.pc) as u16
        }
    }

    /// The register file after `opcode`, before PC and the cycle counter
    /// move on.
    pub open spec fn effect<B: BusTrait>(self, bus: B, opcode: u16) -> Sharp8080 {
        let lo = opcode_low(opcode);
        if opcode_high(opcode) == 0xCB {
            let sel = lo % 8;
            let (v, f) = cb_result(lo, self.operand(bus, sel), self.flags);
            let s = Sharp8080 { flags: f, ..self };
            if sel == 6 || (0x40 <= lo < 0x80) {
                s
            } else {
                s.with_reg(sel, v)
            }
        } else if is_register_load(lo) {
            let dst = lo / 8 % 8;
            if dst == 6 {
                self
            } else {
                self.with_reg(dst, self.operand(bus, lo % 8))
            }
        } else if is_alu(lo) {
            let (v, f) = alu_result(lo / 8 % 8, self.a, self.operand(bus, lo % 8), self.flags);
            Sharp8080 { a: v, flags: f, ..self }
        } else if is_wide_load(lo) {
            let low = bus.peek(add16(self.pc, 1));
            let high = bus.peek(add16(self.pc, 2));
            if lo == 0x01 {
                Sharp8080 { b: high, c: low, ..self }
            } else if lo == 0x11 {
                Sharp8080 { d: high, e: low, ..self }
            } else if lo == 0x21 {
                Sharp8080 { h: high, l: low, ..self }
            } else {
                Sharp8080 { sp: pair(high, low), ..self }
            }
        } else if lo == 0x03 {
            let bc = add16(pair(self.b, self.c), 1);
            Sharp8080 { b: (bc / 256) as u8, c: (bc % 256) as u8, ..self }
        } else if lo == 0xF3 {
            Sharp8080 { ime: false, ..self }
        } else if lo == 0xFB {
            Sharp8080 { ime: true, ..self }
        } else {
            self
        }
    }

    /// The one bus write that `opcode` makes, if any, as address and byte.
    pub open spec fn written<B: BusTrait>(self, bus: B, opcode: u16) -> Option<(u16, u8)> {
        let lo = opcode_low(opcode);
        if opcode_high(opcode) == 0xCB {
            if lo % 8 == 6 && !(0x40 <= lo < 0x80) {
                Some((self.hl(), cb_result(lo, bus.peek(self.hl()), self.flags).0))
            } else {
                None
            }
        } else if is_register_load(lo) && lo / 8 % 8 == 6 {
            Some((self.hl(), self.operand(bus, lo % 8)))
        } else if lo == 0x02 {
            Some((pair(self.b, self.c), self.a))
        } else {
            None
        }
    }

    /// PC after `opcode`: the target of an absolute jump, else PC advanced by
    /// the instruction's length.
    pub open spec fn next_pc<B: BusTrait>(self, bus: B, opcode: u16) -> u16 {
        if opcode == 0xC3 {
            pair(bus.peek(add16(self.pc, 2)), bus.peek(add16(self.pc, 1)))
        } else {
            add16(self.pc, entry_length(opcode) as u16)
        }
    }

    /// The register file after executing `opcode` on `bus`.
    pub open spec fn step_state<B: BusTrait>(self, bus: B, opcode: u16) -> Sharp8080 {
        Sharp8080 {
            pc: self.next_pc(bus, opcode),
            cycles: add_cycles(self.cycles, entry_cycles(opcode)),
            ..self.effect(bus, opcode)
        }
    }

    /// Whether `next` is the bus that executing `opcode` on `bus` leaves.
    pub open spec fn bus_after<B: BusTrait>(self, bus: B, opcode: u16, next: B) -> bool {
        match self.written(bus, opcode) {
            Some((addr, v)) => bus.stores(addr, v, &next),
            None => next == bus,
        }
    }

    /// The power-on register file with PC at `pc`: all registers and flags
    /// zero, interrupts enabled, no cycles consumed.
    pub open spec fn power_on_state(pc: u16) -> Sharp8080 {
        Sharp8080 {
            a: 0,
            b: 0,
            c: 0,
            d: 0,
            e: 0,
            h: 0,
            l: 0,
            sp: 0,
            pc,
            flags: Flags { z: false, n: false, h: false, c: false },
            ime: true,
            cycles: 0,
        }
    }

    /// The power-on register file with PC at `pc`.
    pub fn new(pc: u16) -> (r: Sharp8080)
        ensures
            r == Sharp8080::power_on_state(pc),
    {
        Sharp8080 {
            a: 0,
            b: 0,
            c: 0,
            d: 0,
            e: 0,
            h: 0,
            l: 0,
            sp: 0,
            pc,
            flags: Flags::new(),
            ime: true,
            cycles: 0,
        }
    }

    /// The flag register F.
    pub fn f(&self) -> (r: u8)
        ensures
            r == crate::alu::flag_byte(self.flags),
            r % 16 == 0,
    {
        self.flags.to_byte()
    }

    fn hl_exec(&self) -> (r: u16)
        ensures
            r == self.hl(),
    {
        self.h as u16 * 256 + self.l as u16
    }

    fn get_operand<B: BusTrait>(&self, bus: &B, sel: u8) -> (r: u8)
        requires
            sel < 8,
        ensures
            r == self.operand(*bus, sel),
    {
        match sel {
            0 => self.b,
            1 => self.c,
            2 => self.d,
            3 => self.e,
            4 => self.h,
            5 => self.l,
            6 => bus.read(self.hl_exec()),
            _ => self.a,
        }
    }

    fn set_operand<B: BusTrait>(&mut self, bus: &mut B, sel: u8, v: u8)
        requires
            sel < 8,
        ensures
            sel == 6 ==> *final(self) == *old(self) && old(bus).stores(old(self).hl(), v, final(bus)),
            sel != 6 ==> *final(self) == old(self).with_reg(sel, v) && *final(bus) == *old(bus),
    {
        match sel {
            0 => self.b = v,
            1 => self.c = v,
            2 => self.d = v,
            3 => self.e = v,
            4 => self.h = v,
            5 => self.l = v,
            6 => {
                let addr = self.hl_exec();
                bus.write(addr, v);
            },
            _ => self.a = v,
        }
    }

    /// Reads the opcode at PC, two bytes when the first is the CB prefix.
    /// PC does not move.
    pub fn fetch_opcode<B: BusTrait>(&self, bus: &B) -> (r: u16)
        ensures
            r == self.fetched(*bus),
    {
        let first = bus.read(self.pc);
        if first == 0xCB {
            0xCB00u16 + bus.read(self.pc.wrapping_add(1)) as u16
        } else {
            first as u16
        }
    }

    fn retire(&mut self, length: u8, cycles: u8)
        ensures
            *final(self) == (Sharp8080 {
                pc: add16(old(self).pc, length as u16),
                cycles: add_cycles(old(self).cycles, cycles),
                ..*old(self)
            }),
    {
        self.pc = self.pc.wrapping_add(length as u16);
        self.wait(cycles);
    }

    /// Counts `cycles` more machine clocks.
    fn wait(&mut self, cycles: u8)
        ensures
            *final(self) == (Sharp8080 { cycles: add_cycles(old(self).cycles, cycles), ..*old(self) }),
    {
        if self.cycles > u64::MAX - cycles as u64 {
            self.cycles = u64::MAX;
        } else {
            self.cycles = self.cycles + cycles as u64;
        }
    }

    fn execute_cb<B: BusTrait>(&mut self, bus: &mut B, opcode: u16)
        requires
            opcode_high(opcode) == 0xCB,
        ensures
            *final(self) == old(self).step_state(*old(bus), opcode),
            old(self).bus_after(*old(bus), opcode, *final(bus)),
    {
        let lo = (opcode % 256) as u8;
        let sel = lo % 8;
        let v = self.get_operand(bus, sel);
        let (nv, nf) = cb_apply(lo, v, self.flags);
        self.flags = nf;
        if !(0x40 <= lo && lo < 0x80) {
            self.set_operand(bus, sel, nv);
        }
        let info = cb_entry(lo);
        self.retire(info.length, info.cycles);
    }

    /// Executes one already fetched opcode: applies its effect to the
    /// registers and the bus, moves PC past it (or to a jump's target) and
    /// counts its cycles. An opcode without a handler changes nothing.
    pub fn execute<B: BusTrait>(&mut self, bus: &mut B, opcode: u16) -> (r: Result<(), ExecError>)
        ensures
            r is Ok <==> handles(opcode),
            r is Ok ==> *final(self) == old(self).step_state(*old(bus), opcode),
            r is Ok ==> old(self).bus_after(*old(bus), opcode, *final(bus)),
            r is Err ==> r == Err::<(), ExecError>(ExecError::UndefinedInstruction(opcode)),
            r is Err ==> *final(self) == *old(self) && *final(bus) == *old(bus),
    {
        let hi = opcode / 256;
        if hi == 0xCB {
            self.execute_cb(bus, opcode);
            return Ok(());
        }
        let lo = (opcode % 256) as u8;
        if hi != 0 || !Sharp8080::handled(lo) {
            return Err(ExecError::UndefinedInstruction(opcode));
        }
        let info = match primary_entry(lo) {
            Some(info) => info,
            None => return Err(ExecError::UndefinedInstruction(opcode)),
        };
        if 0x40 <= lo && lo < 0x80 {
            let v = self.get_operand(bus, lo % 8);
            self.set_operand(bus, lo / 8 % 8, v);
        } else if 0x80 <= lo && lo < 0xC0 {
            let s = self.get_operand(bus, lo % 8);
            let (v, f) = alu(lo / 8 % 8, self.a, s, self.flags);
            self.a = v;
            self.flags = f;
        } else if lo == 0x01 || lo == 0x11 || lo == 0x21 || lo == 0x31 {
            let low = bus.read(self.pc.wrapping_add(1));
            let high = bus.read(self.pc.wrapping_add(2));
            if lo == 0x01 {
                self.b = high;
                self.c = low;
            } else if lo == 0x11 {
                self.d = high;
                self.e = low;
            } else if lo == 0x21 {
                self.h = high;
                self.l = low;
            } else {
                self.sp = high as u16 * 256 + low as u16;
            }
        } else if lo == 0x02 {
            let addr = self.b as u16 * 256 + self.c as u16;
            bus.write(addr, self.a);
        } else if lo == 0x03 {
            let bc = (self.b as u16 * 256 + self.c as u16).wrapping_add(1);
            self.b = (bc / 256) as u8;
            self.c = (bc % 256) as u8;
        } else if lo == 0xC3 {
            let low = bus.read(self.pc.wrapping_add(1));
            let high = bus.read(self.pc.wrapping_add(2));
            self.pc = high as u16 * 256 + low as u16;
            self.wait(info.cycles);
            return Ok(());
        } else if lo == 0xF3 {
            self.ime = false;
        } else if lo == 0xFB {
            self.ime = true;
        }
        self.retire(info.length, info.cycles);
        Ok(())
    }

    /// Whether the interpreter has a handler for primary opcode `op`.
    fn handled(op: u8) -> (r: bool)
        ensures
            r == primary_handled(op),
            r ==> !is_hole(op),
    {
        op == 0x00 || op == 0x01 || op == 0x11 || op == 0x21 || op == 0x31 || op == 0x02 || op
            == 0x03 || (0x40 <= op && op < 0x80 && op != 0x76) || (0x80 <= op && op < 0xC0) || op
            == 0xC3 || op == 0xF3 || op == 0xFB
    }
}

/// LD r,r' (opcodes 0x40-0x7F but HALT) copies the source operand (bits 0-2)
/// into the destination (bits 3-5): into a register, leaving every other
/// register as it was, or, for (HL), into memory through one bus write. The
/// flags are kept.
pub proof fn lemma_register_load<B: BusTrait>(cpu: Sharp8080, bus: B, op: u8)
    requires
        is_register_load(op),
    ensures
        ({
            let next = cpu.step_state(bus, op as u16);
            let src = cpu.operand(bus, op % 8);
            let dst = op / 8 % 8;
            &&& next.flags == cpu.flags
            &&& next.sp == cpu.sp && next.ime == cpu.ime
            &&& dst != 6 ==> next.reg(dst) == src && cpu.written(bus, op as u16) is None
            &&& dst != 6 ==> forall|sel: u8|
                sel < 8 && sel != dst && sel != 6 ==> #[trigger] next.reg(sel) == cpu.reg(sel)
            &&& dst == 6 ==> cpu.written(bus, op as u16) == Some((cpu.hl(), src))
            &&& dst == 6 ==> forall|sel: u8| sel < 8 ==> #[trigger] next.reg(sel) == cpu.reg(sel)
        }),
{
    assert(opcode_low(op as u16) == op);
}

/// BIT n,r (CB-prefixed 0x40-0x7F) changes no register and writes no memory:
/// it sets Z to the complement of the tested bit, clears N, sets H and keeps C.
pub proof fn lemma_bit_test_keeps_registers<B: BusTrait>(cpu: Sharp8080, bus: B, low: u8)
    requires
        0x40 <= low < 0x80,
    ensures
        ({
            let opcode = (0xCB00 + low) as u16;
            let next = cpu.step_state(bus, opcode);
            &&& forall|sel: u8| sel < 8 ==> #[trigger] next.reg(sel) == cpu.reg(sel)
            &&& next.sp == cpu.sp && next.ime == cpu.ime
            &&& next.flags.z == !bit_of(cpu.operand(bus, low % 8), low / 8 % 8)
            &&& !next.flags.n && next.flags.h && next.flags.c == cpu.flags.c
            &&& cpu.written(bus, opcode) is None
        }),
{
    let opcode = (0xCB00 + low) as u16;
    assert(opcode_low(opcode) == low && opcode_high(opcode) == 0xCB);
}

} // verus!
