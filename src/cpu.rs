//! A minimal interpreter over the console bus that knows five opcodes: NOP,
//! LD BC,d16, LD D,A, JP a16 and DI.
use crate::bus::{Bus, BusTrait};
use crate::sharp8080::{add16, add_cycles, pair};
use vstd::prelude::*;

verus! {

/// Register file of the minimal interpreter.
#[derive(Clone, Copy, Debug, PartialEq, Eq, Structural)]
pub struct Cpu {
    pub a: u8,
    pub b: u8,
    pub c: u8,
    pub d: u8,
    pub e: u8,
    pub h: u8,
    pub l: u8,
    pub sp: u16,
    pub pc: u16,
    /// Interrupt master enable.
    pub ime: bool,
    /// Machine clocks consumed so far.
    pub cycles: u64,
}

/// The opcodes that the minimal interpreter executes.
pub open spec fn cpu_handles(instr: u16) -> bool {
    instr == 0x0000 || instr == 0x0001 || instr == 0x0057 || instr == 0x00C3 || instr == 0x00F3
}

impl Cpu {
    /// The register file after executing handled opcode `instr` on `bus`.
    pub open spec fn step_state(self, bus: Bus, instr: u16) -> Cpu {
        if instr == 0x0001 {
            Cpu {
                b: bus.peek(add16(self.pc, 2)),
                c: bus.peek(add16(self.pc, 1)),
                pc: add16(self.pc, 3),
                cycles: add_cycles(self.cycles, 12),
                ..self
            }
        } else if instr == 0x0057 {
            Cpu { d: self.a, pc: add16(self.pc, 1), cycles: add_cycles(self.cycles, 4), ..self }
        } else if instr == 0x00C3 {
            Cpu {
                pc: pair(bus.peek(add16(self.pc, 2)), bus.peek(add16(self.pc, 1))),
                cycles: add_cycles(self.cycles, 16),
                ..self
            }
        } else if instr == 0x00F3 {
            Cpu { ime: false, pc: add16(self.pc, 1), cycles: add_cycles(self.cycles, 4), ..self }
        } else {
            Cpu { pc: add16(self.pc, 1), cycles: add_cycles(self.cycles, 4), ..self }
        }
    }

    /// The power-on register file: PC at 0x0100, everything else zero,
    /// interrupts enabled.
    pub fn new() -> (r: Cpu)
        ensures
            r == (Cpu {
                a: 0,
                b: 0,
                c: 0,
                d: 0,
                e: 0,
                h: 0,
                l: 0,
                sp: 0,
                pc: 0x0100,
                ime: true,
                cycles: 0,
            }),
    {
        Cpu { a: 0, b: 0, c: 0, d: 0, e: 0, h: 0, l: 0, sp: 0, pc: 0x0100, ime: true, cycles: 0 }
    }

    /// Counts `cycles` more machine clocks.
    fn wait(&mut self, cycles: u8)
        ensures
            *final(self) == (Cpu { cycles: add_cycles(old(self).cycles, cycles), ..*old(self) }),
    {
        if self.cycles > u64::MAX - cycles as u64 {
            self.cycles = u64::MAX;
        } else {
            self.cycles = self.cycles + cycles as u64;
        }
    }

    fn nop(&mut self)
        ensures
            *final(self) == (Cpu {
                pc: add16(old(self).pc, 1),
                cycles: add_cycles(old(self).cycles, 4),
                ..*old(self)
            }),
    {
        self.wait(4);
        self.pc = self.pc.wrapping_add(1);
    }

    fn ld_bc_d16(&mut self, bus: &mut Bus)
        ensures
            *final(self) == old(self).step_state(*old(bus), 0x0001),
            *final(bus) == *old(bus),
    {
        self.b = bus.read(self.pc.wrapping_add(2));
        self.c = bus.read(self.pc.wrapping_add(1));
        self.wait(12);
        self.pc = self.pc.wrapping_add(3);
    }

    fn ld_da(&mut self)
        ensures
            *final(self) == (Cpu {
                d: old(self).a,
                pc: add16(old(self).pc, 1),
                cycles: add_cycles(old(self).cycles, 4),
                ..*old(self)
            }),
    {
        self.d = self.a;
        self.wait(4);
        self.pc = self.pc.wrapping_add(1);
    }

    fn jp_a16(&mut self, bus: &mut Bus)
        ensures
            *final(self) == old(self).step_state(*old(bus), 0x00C3),
            *final(bus) == *old(bus),
    {
        let high = bus.read(self.pc.wrapping_add(2));
        let low = bus.read(self.pc.wrapping_add(1));
        self.wait(16);
        self.pc = high as u16 * 256 + low as u16;
    }

    fn di(&mut self)
        ensures
            *final(self) == (Cpu {
                ime: false,
                pc: add16(old(self).pc, 1),
                cycles: add_cycles(old(self).cycles, 4),
                ..*old(self)
            }),
    {
        self.ime = false;
        self.wait(4);
        self.pc = self.pc.wrapping_add(1);
    }

    /// Executes one fetched opcode. Returns false, changing nothing, for an
    /// opcode that this interpreter does not know.
    pub fn execute(&mut self, bus: &mut Bus, instr: u16) -> (r: bool)
        ensures
            r == cpu_handles(instr),
            r ==> *final(self) == old(self).step_state(*old(bus), instr),
            !r ==> *final(self) == *old(self),
            *final(bus) == *old(bus),
    {
        match instr {
            0x0000 => self.nop(),
            0x0001 => self.ld_bc_d16(bus),
            0x0057 => self.ld_da(),
            0x00C3 => self.jp_a16(bus),
            0x00F3 => self.di(),
            _ => {
                return false;
            },
        }
        true
    }

    /// Reads the opcode at PC, two bytes when the first is the CB prefix.
    pub fn fetch(&self, bus: &mut Bus) -> (r: u16)
        ensures
            r == (if old(bus).peek(self.pc) == 0xCB {
                (0xCB00 + old(bus).peek(add16(self.pc, 1))) as u16
            } else {
                old(bus).peek(self.pc) as u16
            }),
            *final(bus) == *old(bus),
    {
        let first = bus.read(self.pc);
        if first == 0xCB {
            0xCB00u16 + bus.read(self.pc.wrapping_add(1)) as u16
        } else {
            first as u16
        }
    }
}

} // verus!
