//! Instruction metadata: the primary opcode table and the CB-prefixed table,
//! each indexed by the opcode's low byte.
use vstd::prelude::*;

verus! {

/// How an instruction's operand is encoded after its opcode.
#[derive(Clone, Copy, Debug, PartialEq, Eq, Structural)]
pub enum Encoding {
    /// No operand.
    N,
    /// One 8-bit immediate.
    D8,
    /// A little-endian 16-bit immediate.
    D16,
    /// One byte, an offset into page 0xFF00.
    A8,
    /// A little-endian 16-bit absolute address.
    A16,
    /// A signed byte, relative to the program counter.
    R8,
    /// An entry of the CB-prefixed table (or the prefix itself).
    CB,
}

/// The metadata of one opcode.
#[derive(Clone, Copy, Debug)]
pub struct Instruction {
    pub encoding: Encoding,
    pub mnemonic: &'static str,
    /// Machine clocks the instruction takes.
    pub cycles: u8,
    /// Bytes the instruction takes, opcode included.
    pub length: u8,
}

/// Primary opcodes that no instruction uses.
pub open spec fn is_hole(op: u8) -> bool {
    op == 0xD3 || op == 0xDB || op == 0xDD || op == 0xE3 || op == 0xE4 || op == 0xEB
        || op == 0xEC || op == 0xED || op == 0xF4 || op == 0xFC || op == 0xFD
}

/// LD rr,d16 for BC, DE, HL and SP.
pub open spec fn is_wide_load(op: u8) -> bool {
    op == 0x01 || op == 0x11 || op == 0x21 || op == 0x31
}

/// LD r,r': opcodes 0x40-0x7F but HALT (0x76).
pub open spec fn is_register_load(op: u8) -> bool {
    0x40 <= op < 0x80 && op != 0x76
}

/// The 8-bit ALU group against A: opcodes 0x80-0xBF.
pub open spec fn is_alu(op: u8) -> bool {
    0x80 <= op < 0xC0
}

/// The primary opcodes that the interpreter executes.
pub open spec fn primary_handled(op: u8) -> bool {
    ||| op == 0x00
    ||| is_wide_load(op)
    ||| op == 0x02
    ||| op == 0x03
    ||| is_register_load(op)
    ||| is_alu(op)
    ||| op == 0xC3
    ||| op == 0xF3
    ||| op == 0xFB
}

/// Operand encoding of a handled primary opcode or of the CB prefix.
pub open spec fn primary_encoding(op: u8) -> Encoding {
    if is_wide_load(op) {
        Encoding::D16
    } else if op == 0xC3 {
        Encoding::A16
    } else if op == 0xCB {
        Encoding::CB
    } else {
        Encoding::N
    }
}

/// Length of a handled primary opcode or of the CB prefix.
pub open spec fn primary_length(op: u8) -> u8 {
    if is_wide_load(op) || op == 0xC3 {
        3
    } else {
        1
    }
}

/// Machine clocks of a handled primary opcode or of the CB prefix: 4 for a
/// plain one-byte instruction, 4 more for each access through (HL).
pub open spec fn primary_cycles(op: u8) -> u8 {
    if is_wide_load(op) {
        12
    } else if op == 0x02 || op == 0x03 {
        8
    } else if op == 0xC3 {
        16
    } else if is_register_load(op) {
        if op % 8 == 6 || op / 8 % 8 == 6 {
            8
        } else {
            4
        }
    } else if is_alu(op) {
        if op % 8 == 6 {
            8
        } else {
            4
        }
    } else {
        4
    }
}

/// Machine clocks of a CB-prefixed opcode: 8, or 16 on (HL).
pub open spec fn cb_cycles(low: u8) -> u8 {
    if low % 8 == 6 {
        16
    } else {
        8
    }
}

/// The primary table's entry for `op`; `None` for an unused opcode.
#[verifier::rlimit(50)]
pub fn primary_entry(op: u8) -> (r: Option<Instruction>)
    ensures
        r is Some <==> !is_hole(op),
        primary_handled(op) || op == 0xCB ==> {
            &&& r.unwrap().encoding == primary_encoding(op)
            &&& r.unwrap().cycles == primary_cycles(op)
            &&& r.unwrap().length == primary_length(op)
        },
{
    match op {
        0x00 => Some(Instruction { encoding: Encoding::N, mnemonic: "NOP", cycles: 4, length: 1 }),
        0x01 => Some(Instruction { encoding: Encoding::D16, mnemonic: "LD BC,d16", cycles: 12, length: 3 }),
        0x02 => Some(Instruction { encoding: Encoding::N, mnemonic: "LD (BC),A", cycles: 8, length: 1 }),
        0x03 => Some(Instruction { encoding: Encoding::N, mnemonic: "INC BC", cycles: 8, length: 1 }),
        0x04 => Some(Instruction { encoding: Encoding::N, mnemonic: "INC B", cycles: 4, length: 1 }),
        0x05 => Some(Instruction { encoding: Encoding::N, mnemonic: "DEC B", cycles: 4, length: 1 }),
        0x06 => Some(Instruction { encoding: Encoding::D8, mnemonic: "LD B,d8", cycles: 8, length: 2 }),
        0x07 => Some(Instruction { encoding: Encoding::N, mnemonic: "RLCA", cycles: 4, length: 1 }),
        0x08 => Some(Instruction { encoding: Encoding::A16, mnemonic: "LD (a16),SP", cycles: 20, length: 3 }),
        0x09 => Some(Instruction { encoding: Encoding::N, mnemonic: "ADD HL,BC", cycles: 8, length: 1 }),
        0x0A => Some(Instruction { encoding: Encoding::N, mnemonic: "LD A,(BC)", cycles: 8, length: 1 }),
        0x0B => Some(Instruction { encoding: Encoding::N, mnemonic: "DEC BC", cycles: 8, length: 1 }),
        0x0C => Some(Instruction { encoding: Encoding::N, mnemonic: "INC C", cycles: 4, length: 1 }),
        0x0D => Some(Instruction { encoding: Encoding::N, mnemonic: "DEC C", cycles: 4, length: 1 }),
        0x0E => Some(Instruction { encoding: Encoding::D8, mnemonic: "LD C,d8", cycles: 8, length: 2 }),
        0x0F => Some(Instruction { encoding: Encoding::N, mnemonic: "RRCA", cycles: 4, length: 1 }),
        0x10 => Some(Instruction { encoding: Encoding::D8, mnemonic: "STOP 0", cycles: 4, length: 2 }),
        0x11 => Some(Instruction { encoding: Encoding::D16, mnemonic: "LD DE,d16", cycles: 12, length: 3 }),
        0x12 => Some(Instruction { encoding: Encoding::N, mnemonic: "LD (DE),A", cycles: 8, length: 1 }),
        0x13 => Some(Instruction { encoding: Encoding::N, mnemonic: "INC DE", cycles: 8, length: 1 }),
        0x14 => Some(Instruction { encoding: Encoding::N, mnemonic: "INC D", cycles: 4, length: 1 }),
        0x15 => Some(Instruction { encoding: Encoding::N, mnemonic: "DEC D", cycles: 4, length: 1 }),
        0x16 => Some(Instruction { encoding: Encoding::D8, mnemonic: "LD D,d8", cycles: 8, length: 2 }),
        0x17 => Some(Instruction { encoding: Encoding::N, mnemonic: "RLA", cycles: 4, length: 1 }),
        0x18 => Some(Instruction { encoding: Encoding::R8, mnemonic: "JR r8", cycles: 12, length: 2 }),
        0x19 => Some(Instruction { encoding: Encoding::N, mnemonic: "ADD HL,DE", cycles: 8, length: 1 }),
        0x1A => Some(Instruction { encoding: Encoding::N, mnemonic: "LD A,(DE)", cycles: 8, length: 1 }),
        0x1B => Some(Instruction { encoding: Encoding::N, mnemonic: "DEC DE", cycles: 8, length: 1 }),
        0x1C => Some(Instruction { encoding: Encoding::N, mnemonic: "INC E", cycles: 4, length: 1 }),
        0x1D => Some(Instruction { encoding: Encoding::N, mnemonic: "DEC E", cycles: 4, length: 1 }),
        0x1E => Some(Instruction { encoding: Encoding::D8, mnemonic: "LD E,d8", cycles: 8, length: 2 }),
        0x1F => Some(Instruction { encoding: Encoding::N, mnemonic: "RRA", cycles: 4, length: 1 }),
        0x20 => Some(Instruction { encoding: Encoding::R8, mnemonic: "JR NZ,r8", cycles: 12, length: 2 }),
        0x21 => Some(Instruction { encoding: Encoding::D16, mnemonic: "LD HL,d16", cycles: 12, length: 3 }),
        0x22 => Some(Instruction { encoding: Encoding::N, mnemonic: "LD (HL+),A", cycles: 8, length: 1 }),
        0x23 => Some(Instruction { encoding: Encoding::N, mnemonic: "INC HL", cycles: 8, length: 1 }),
        0x24 => Some(Instruction { encoding: Encoding::N, mnemonic: "INC H", cycles: 4, length: 1 }),
        0x25 => Some(Instruction { encoding: Encoding::N, mnemonic: "DEC H", cycles: 4, length: 1 }),
        0x26 => Some(Instruction { encoding: Encoding::D8, mnemonic: "LD H,d8", cycles: 8, length: 2 }),
        0x27 => Some(Instruction { encoding: Encoding::N, mnemonic: "DAA", cycles: 4, length: 1 }),
        0x28 => Some(Instruction { encoding: Encoding::R8, mnemonic: "JR Z,r8", cycles: 12, length: 2 }),
        0x29 => Some(Instruction { encoding: Encoding::N, mnemonic: "ADD HL,HL", cycles: 8, length: 1 }),
        0x2A => Some(Instruction { encoding: Encoding::N, mnemonic: "LD A,(HL+)", cycles: 8, length: 1 }),
        0x2B => Some(Instruction { encoding: Encoding::N, mnemonic: "DEC HL", cycles: 8, length: 1 }),
        0x2C => Some(Instruction { encoding: Encoding::N, mnemonic: "INC L", cycles: 4, length: 1 }),
        0x2D => Some(Instruction { encoding: Encoding::N, mnemonic: "DEC L", cycles: 4, length: 1 }),
        0x2E => Some(Instruction { encoding: Encoding::D8, mnemonic: "LD L,d8", cycles: 8, length: 2 }),
        0x2F => Some(Instruction { encoding: Encoding::N, mnemonic: "CPL", cycles: 4, length: 1 }),
        0x30 => Some(Instruction { encoding: Encoding::R8, mnemonic: "JR NC,r8", cycles: 12, length: 2 }),
        0x31 => Some(Instruction { encoding: Encoding::D16, mnemonic: "LD SP,d16", cycles: 12, length: 3 }),
        0x32 => Some(Instruction { encoding: Encoding::N, mnemonic: "LD (HL-),A", cycles: 8, length: 1 }),
        0x33 => Some(Instruction { encoding: Encoding::N, mnemonic: "INC SP", cycles: 8, length: 1 }),
        0x34 => Some(Instruction { encoding: Encoding::N, mnemonic: "INC (HL)", cycles: 12, length: 1 }),
        0x35 => Some(Instruction { encoding: Encoding::N, mnemonic: "DEC (HL)", cycles: 12, length: 1 }),
        0x36 => Some(Instruction { encoding: Encoding::D8, mnemonic: "LD (HL),d8", cycles: 12, length: 2 }),
        0x37 => Some(Instruction { encoding: Encoding::N, mnemonic: "SCF", cycles: 4, length: 1 }),
        0x38 => Some(Instruction { encoding: Encoding::R8, mnemonic: "JR C,r8", cycles: 12, length: 2 }),
        0x39 => Some(Instruction { encoding: Encoding::N, mnemonic: "ADD HL,SP", cycles: 8, length: 1 }),
        0x3A => Some(Instruction { encoding: Encoding::N, mnemonic: "LD A,(HL-)", cycles: 8, length: 1 }),
        0x3B => Some(Instruction { encoding: Encoding::N, mnemonic: "DEC SP", cycles: 8, length: 1 }),
        0x3C => Some(Instruction { encoding: Encoding::N, mnemonic: "INC A", cycles: 4, length: 1 }),
        0x3D => Some(Instruction { encoding: Encoding::N, mnemonic: "DEC A", cycles: 4, length: 1 }),
        0x3E => Some(Instruction { encoding: Encoding::D8, mnemonic: "LD A,d8", cycles: 8, length: 2 }),
        0x3F => Some(Instruction { encoding: Encoding::N, mnemonic: "CCF", cycles: 4, length: 1 }),
        0x40 => Some(Instruction { encoding: Encoding::N, mnemonic: "LD B,B", cycles: 4, length: 1 }),
        0x41 => Some(Instruction { encoding: Encoding::N, mnemonic: "LD B,C", cycles: 4, length: 1 }),
        0x42 => Some(Instruction { encoding: Encoding::N, mnemonic: "LD B,D", cycles: 4, length: 1 }),
        0x43 => Some(Instruction { encoding: Encoding::N, mnemonic: "LD B,E", cycles: 4, length: 1 }),
        0x44 => Some(Instruction { encoding: Encoding::N, mnemonic: "LD B,H", cycles: 4, length: 1 }),
        0x45 => Some(Instruction { encoding: Encoding::N, mnemonic: "LD B,L", cycles: 4, length: 1 }),
        0x46 => Some(Instruction { encoding: Encoding::N, mnemonic: "LD B,(HL)", cycles: 8, length: 1 }),
        0x47 => Some(Instruction { encoding: Encoding::N, mnemonic: "LD B,A", cycles: 4, length: 1 }),
        0x48 => Some(Instruction { encoding: Encoding::N, mnemonic: "LD C,B", cycles: 4, length: 1 }),
        0x49 => Some(Instruction { encoding: Encoding::N, mnemonic: "LD C,C", cycles: 4, length: 1 }),
        0x4A => Some(Instruction { encoding: Encoding::N, mnemonic: "LD C,D", cycles: 4, length: 1 }),
        0x4B => Some(Instruction { encoding: Encoding::N, mnemonic: "LD C,E", cycles: 4, length: 1 }),
        0x4C => Some(Instruction { encoding: Encoding::N, mnemonic: "LD C,H", cycles: 4, length: 1 }),
        0x4D => Some(Instruction { encoding: Encoding::N, mnemonic: "LD C,L", cycles: 4, length: 1 }),
        0x4E => Some(Instruction { encoding: Encoding::N, mnemonic: "LD C,(HL)", cycles: 8, length: 1 }),
        0x4F => Some(Instruction { encoding: Encoding::N, mnemonic: "LD C,A", cycles: 4, length: 1 }),
        0x50 => Some(Instruction { encoding: Encoding::N, mnemonic: "LD D,B", cycles: 4, length: 1 }),
        0x51 => Some(Instruction { encoding: Encoding::N, mnemonic: "LD D,C", cycles: 4, length: 1 }),
        0x52 => Some(Instruction { encoding: Encoding::N, mnemonic: "LD D,D", cycles: 4, length: 1 }),
        0x53 => Some(Instruction { encoding: Encoding::N, mnemonic: "LD D,E", cycles: 4, length: 1 }),
        0x54 => Some(Instruction { encoding: Encoding::N, mnemonic: "LD D,H", cycles: 4, length: 1 }),
        0x55 => Some(Instruction { encoding: Encoding::N, mnemonic: "LD D,L", cycles: 4, length: 1 }),
        0x56 => Some(Instruction { encoding: Encoding::N, mnemonic: "LD D,(HL)", cycles: 8, length: 1 }),
        0x57 => Some(Instruction { encoding: Encoding::N, mnemonic: "LD D,A", cycles: 4, length: 1 }),
        0x58 => Some(Instruction { encoding: Encoding::N, mnemonic: "LD E,B", cycles: 4, length: 1 }),
        0x59 => Some(Instruction { encoding: Encoding::N, mnemonic: "LD E,C", cycles: 4, length: 1 }),
        0x5A => Some(Instruction { encoding: Encoding::N, mnemonic: "LD E,D", cycles: 4, length: 1 }),
        0x5B => Some(Instruction { encoding: Encoding::N, mnemonic: "LD E,E", cycles: 4, length: 1 }),
        0x5C => Some(Instruction { encoding: Encoding::N, mnemonic: "LD E,H", cycles: 4, length: 1 }),
        0x5D => Some(Instruction { encoding: Encoding::N, mnemonic: "LD E,L", cycles: 4, length: 1 }),
        0x5E => Some(Instruction { encoding: Encoding::N, mnemonic: "LD E,(HL)", cycles: 8, length: 1 }),
        0x5F => Some(Instruction { encoding: Encoding::N, mnemonic: "LD E,A", cycles: 4, length: 1 }),
        0x60 => Some(Instruction { encoding: Encoding::N, mnemonic: "LD H,B", cycles: 4, length: 1 }),
        0x61 => Some(Instruction { encoding: Encoding::N, mnemonic: "LD H,C", cycles: 4, length: 1 }),
        0x62 => Some(Instruction { encoding: Encoding::N, mnemonic: "LD H,D", cycles: 4, length: 1 }),
        0x63 => Some(Instruction { encoding: Encoding::N, mnemonic: "LD H,E", cycles: 4, length: 1 }),
        0x64 => Some(Instruction { encoding: Encoding::N, mnemonic: "LD H,H", cycles: 4, length: 1 }),
        0x65 => Some(Instruction { encoding: Encoding::N, mnemonic: "LD H,L", cycles: 4, length: 1 }),
        0x66 => Some(Instruction { encoding: Encoding::N, mnemonic: "LD H,(HL)", cycles: 8, length: 1 }),
        0x67 => Some(Instruction { encoding: Encoding::N, mnemonic: "LD H,A", cycles: 4, length: 1 }),
        0x68 => Some(Instruction { encoding: Encoding::N, mnemonic: "LD L,B", cycles: 4, length: 1 }),
        0x69 => Some(Instruction { encoding: Encoding::N, mnemonic: "LD L,C", cycles: 4, length: 1 }),
        0x6A => Some(Instruction { encoding: Encoding::N, mnemonic: "LD L,D", cycles: 4, length: 1 }),
        0x6B => Some(Instruction { encoding: Encoding::N, mnemonic: "LD L,E", cycles: 4, length: 1 }),
        0x6C => Some(Instruction { encoding: Encoding::N, mnemonic: "LD L,H", cycles: 4, length: 1 }),
        0x6D => Some(Instruction { encoding: Encoding::N, mnemonic: "LD L,L", cycles: 4, length: 1 }),
        0x6E => Some(Instruction { encoding: Encoding::N, mnemonic: "LD L,(HL)", cycles: 8, length: 1 }),
        0x6F => Some(Instruction { encoding: Encoding::N, mnemonic: "LD L,A", cycles: 4, length: 1 }),
        0x70 => Some(Instruction { encoding: Encoding::N, mnemonic: "LD (HL),B", cycles: 8, length: 1 }),
        0x71 => Some(Instruction { encoding: Encoding::N, mnemonic: "LD (HL),C", cycles: 8, length: 1 }),
        0x72 => Some(Instruction { encoding: Encoding::N, mnemonic: "LD (HL),D", cycles: 8, length: 1 }),
        0x73 => Some(Instruction { encoding: Encoding::N, mnemonic: "LD (HL),E", cycles: 8, length: 1 }),
        0x74 => Some(Instruction { encoding: Encoding::N, mnemonic: "LD (HL),H", cycles: 8, length: 1 }),
        0x75 => Some(Instruction { encoding: Encoding::N, mnemonic: "LD (HL),L", cycles: 8, length: 1 }),
        0x76 => Some(Instruction { encoding: Encoding::N, mnemonic: "HALT", cycles: 4, length: 1 }),
        0x77 => Some(Instruction { encoding: Encoding::N, mnemonic: "LD (HL),A", cycles: 8, length: 1 }),
        0x78 => Some(Instruction { encoding: Encoding::N, mnemonic: "LD A,B", cycles: 4, length: 1 }),
        0x79 => Some(Instruction { encoding: Encoding::N, mnemonic: "LD A,C", cycles: 4, length: 1 }),
        0x7A => Some(Instruction { encoding: Encoding::N, mnemonic: "LD A,D", cycles: 4, length: 1 }),
        0x7B => Some(Instruction { encoding: Encoding::N, mnemonic: "LD A,E", cycles: 4, length: 1 }),
        0x7C => Some(Instruction { encoding: Encoding::N, mnemonic: "LD A,H", cycles: 4, length: 1 }),
        0x7D => Some(Instruction { encoding: Encoding::N, mnemonic: "LD A,L", cycles: 4, length: 1 }),
        0x7E => Some(Instruction { encoding: Encoding::N, mnemonic: "LD A,(HL)", cycles: 8, length: 1 }),
        0x7F => Some(Instruction { encoding: Encoding::N, mnemonic: "LD A,A", cycles: 4, length: 1 }),
        0x80 => Some(Instruction { encoding: Encoding::N, mnemonic: "ADD A,B", cycles: 4, length: 1 }),
        0x81 => Some(Instruction { encoding: Encoding::N, mnemonic: "ADD A,C", cycles: 4, length: 1 }),
        0x82 => Some(Instruction { encoding: Encoding::N, mnemonic: "ADD A,D", cycles: 4, length: 1 }),
        0x83 => Some(Instruction { encoding: Encoding::N, mnemonic: "ADD A,E", cycles: 4, length: 1 }),
        0x84 => Some(Instruction { encoding: Encoding::N, mnemonic: "ADD A,H", cycles: 4, length: 1 }),
        0x85 => Some(Instruction { encoding: Encoding::N, mnemonic: "ADD A,L", cycles: 4, length: 1 }),
        0x86 => Some(Instruction { encoding: Encoding::N, mnemonic: "ADD A,(HL)", cycles: 8, length: 1 }),
        0x87 => Some(Instruction { encoding: Encoding::N, mnemonic: "ADD A,A", cycles: 4, length: 1 }),
        0x88 => Some(Instruction { encoding: Encoding::N, mnemonic: "ADC A,B", cycles: 4, length: 1 }),
        0x89 => Some(Instruction { encoding: Encoding::N, mnemonic: "ADC A,C", cycles: 4, length: 1 }),
        0x8A => Some(Instruction { encoding: Encoding::N, mnemonic: "ADC A,D", cycles: 4, length: 1 }),
        0x8B => Some(Instruction { encoding: Encoding::N, mnemonic: "ADC A,E", cycles: 4, length: 1 }),
        0x8C => Some(Instruction { encoding: Encoding::N, mnemonic: "ADC A,H", cycles: 4, length: 1 }),
        0x8D => Some(Instruction { encoding: Encoding::N, mnemonic: "ADC A,L", cycles: 4, length: 1 }),
        0x8E => Some(Instruction { encoding: Encoding::N, mnemonic: "ADC A,(HL)", cycles: 8, length: 1 }),
        0x8F => Some(Instruction { encoding: Encoding::N, mnemonic: "ADC A,A", cycles: 4, length: 1 }),
        0x90 => Some(Instruction { encoding: Encoding::N, mnemonic: "SUB B", cycles: 4, length: 1 }),
        0x91 => Some(Instruction { encoding: Encoding::N, mnemonic: "SUB C", cycles: 4, length: 1 }),
        0x92 => Some(Instruction { encoding: Encoding::N, mnemonic: "SUB D", cycles: 4, length: 1 }),
        0x93 => Some(Instruction { encoding: Encoding::N, mnemonic: "SUB E", cycles: 4, length: 1 }),
        0x94 => Some(Instruction { encoding: Encoding::N, mnemonic: "SUB H", cycles: 4, length: 1 }),
        0x95 => Some(Instruction { encoding: Encoding::N, mnemonic: "SUB L", cycles: 4, length: 1 }),
        0x96 => Some(Instruction { encoding: Encoding::N, mnemonic: "SUB (HL)", cycles: 8, length: 1 }),
        0x97 => Some(Instruction { encoding: Encoding::N, mnemonic: "SUB A", cycles: 4, length: 1 }),
        0x98 => Some(Instruction { encoding: Encoding::N, mnemonic: "SBC A,B", cycles: 4, length: 1 }),
        0x99 => Some(Instruction { encoding: Encoding::N, mnemonic: "SBC A,C", cycles: 4, length: 1 }),
        0x9A => Some(Instruction { encoding: Encoding::N, mnemonic: "SBC A,D", cycles: 4, length: 1 }),
        0x9B => Some(Instruction { encoding: Encoding::N, mnemonic: "SBC A,E", cycles: 4, length: 1 }),
        0x9C => Some(Instruction { encoding: Encoding::N, mnemonic: "SBC A,H", cycles: 4, length: 1 }),
        0x9D => Some(Instruction { encoding: Encoding::N, mnemonic: "SBC A,L", cycles: 4, length: 1 }),
        0x9E => Some(Instruction { encoding: Encoding::N, mnemonic: "SBC A,(HL)", cycles: 8, length: 1 }),
        0x9F => Some(Instruction { encoding: Encoding::N, mnemonic: "SBC A,A", cycles: 4, length: 1 }),
        0xA0 => Some(Instruction { encoding: Encoding::N, mnemonic: "AND B", cycles: 4, length: 1 }),
        0xA1 => Some(Instruction { encoding: Encoding::N, mnemonic: "AND C", cycles: 4, length: 1 }),
        0xA2 => Some(Instruction { encoding: Encoding::N, mnemonic: "AND D", cycles: 4, length: 1 }),
        0xA3 => Some(Instruction { encoding: Encoding::N, mnemonic: "AND E", cycles: 4, length: 1 }),
        0xA4 => Some(Instruction { encoding: Encoding::N, mnemonic: "AND H", cycles: 4, length: 1 }),
        0xA5 => Some(Instruction { encoding: Encoding::N, mnemonic: "AND L", cycles: 4, length: 1 }),
        0xA6 => Some(Instruction { encoding: Encoding::N, mnemonic: "AND (HL)", cycles: 8, length: 1 }),
        0xA7 => Some(Instruction { encoding: Encoding::N, mnemonic: "AND A", cycles: 4, length: 1 }),
        0xA8 => Some(Instruction { encoding: Encoding::N, mnemonic: "XOR B", cycles: 4, length: 1 }),
        0xA9 => Some(Instruction { encoding: Encoding::N, mnemonic: "XOR C", cycles: 4, length: 1 }),
        0xAA => Some(Instruction { encoding: Encoding::N, mnemonic: "XOR D", cycles: 4, length: 1 }),
        0xAB => Some(Instruction { encoding: Encoding::N, mnemonic: "XOR E", cycles: 4, length: 1 }),
        0xAC => Some(Instruction { encoding: Encoding::N, mnemonic: "XOR H", cycles: 4, length: 1 }),
        0xAD => Some(Instruction { encoding: Encoding::N, mnemonic: "XOR L", cycles: 4, length: 1 }),
        0xAE => Some(Instruction { encoding: Encoding::N, mnemonic: "XOR (HL)", cycles: 8, length: 1 }),
        0xAF => Some(Instruction { encoding: Encoding::N, mnemonic: "XOR A", cycles: 4, length: 1 }),
        0xB0 => Some(Instruction { encoding: Encoding::N, mnemonic: "OR B", cycles: 4, length: 1 }),
        0xB1 => Some(Instruction { encoding: Encoding::N, mnemonic: "OR C", cycles: 4, length: 1 }),
        0xB2 => Some(Instruction { encoding: Encoding::N, mnemonic: "OR D", cycles: 4, length: 1 }),
        0xB3 => Some(Instruction { encoding: Encoding::N, mnemonic: "OR E", cycles: 4, length: 1 }),
        0xB4 => Some(Instruction { encoding: Encoding::N, mnemonic: "OR H", cycles: 4, length: 1 }),
        0xB5 => Some(Instruction { encoding: Encoding::N, mnemonic: "OR L", cycles: 4, length: 1 }),
        0xB6 => Some(Instruction { encoding: Encoding::N, mnemonic: "OR (HL)", cycles: 8, length: 1 }),
        0xB7 => Some(Instruction { encoding: Encoding::N, mnemonic: "OR A", cycles: 4, length: 1 }),
        0xB8 => Some(Instruction { encoding: Encoding::N, mnemonic: "CP B", cycles: 4, length: 1 }),
        0xB9 => Some(Instruction { encoding: Encoding::N, mnemonic: "CP C", cycles: 4, length: 1 }),
        0xBA => Some(Instruction { encoding: Encoding::N, mnemonic: "CP D", cycles: 4, length: 1 }),
        0xBB => Some(Instruction { encoding: Encoding::N, mnemonic: "CP E", cycles: 4, length: 1 }),
        0xBC => Some(Instruction { encoding: Encoding::N, mnemonic: "CP H", cycles: 4, length: 1 }),
        0xBD => Some(Instruction { encoding: Encoding::N, mnemonic: "CP L", cycles: 4, length: 1 }),
        0xBE => Some(Instruction { encoding: Encoding::N, mnemonic: "CP (HL)", cycles: 8, length: 1 }),
        0xBF => Some(Instruction { encoding: Encoding::N, mnemonic: "CP A", cycles: 4, length: 1 }),
        0xC0 => Some(Instruction { encoding: Encoding::N, mnemonic: "RET NZ", cycles: 20, length: 1 }),
        0xC1 => Some(Instruction { encoding: Encoding::N, mnemonic: "POP BC", cycles: 12, length: 1 }),
        0xC2 => Some(Instruction { encoding: Encoding::A16, mnemonic: "JP NZ,a16", cycles: 16, length: 3 }),
        0xC3 => Some(Instruction { encoding: Encoding::A16, mnemonic: "JP a16", cycles: 16, length: 3 }),
        0xC4 => Some(Instruction { encoding: Encoding::A16, mnemonic: "CALL NZ,a16", cycles: 24, length: 3 }),
        0xC5 => Some(Instruction { encoding: Encoding::N, mnemonic: "PUSH BC", cycles: 16, length: 1 }),
        0xC6 => Some(Instruction { encoding: Encoding::D8, mnemonic: "ADD A,d8", cycles: 8, length: 2 }),
        0xC7 => Some(Instruction { encoding: Encoding::N, mnemonic: "RST 00H", cycles: 16, length: 1 }),
        0xC8 => Some(Instruction { encoding: Encoding::N, mnemonic: "RET Z", cycles: 20, length: 1 }),
        0xC9 => Some(Instruction { encoding: Encoding::N, mnemonic: "RET", cycles: 16, length: 1 }),
        0xCA => Some(Instruction { encoding: Encoding::A16, mnemonic: "JP Z,a16", cycles: 16, length: 3 }),
        0xCB => Some(Instruction { encoding: Encoding::CB, mnemonic: "PREFIX CB", cycles: 4, length: 1 }),
        0xCC => Some(Instruction { encoding: Encoding::A16, mnemonic: "CALL Z,a16", cycles: 24, length: 3 }),
        0xCD => Some(Instruction { encoding: Encoding::A16, mnemonic: "CALL a16", cycles: 24, length: 3 }),
        0xCE => Some(Instruction { encoding: Encoding::D8, mnemonic: "ADC A,d8", cycles: 8, length: 2 }),
        0xCF => Some(Instruction { encoding: Encoding::N, mnemonic: "RST 08H", cycles: 16, length: 1 }),
        0xD0 => Some(Instruction { encoding: Encoding::N, mnemonic: "RET NC", cycles: 20, length: 1 }),
        0xD1 => Some(Instruction { encoding: Encoding::N, mnemonic: "POP DE", cycles: 12, length: 1 }),
        0xD2 => Some(Instruction { encoding: Encoding::A16, mnemonic: "JP NC,a16", cycles: 16, length: 3 }),
        0xD3 => None,
        0xD4 => Some(Instruction { encoding: Encoding::A16, mnemonic: "CALL NC,a16", cycles: 24, length: 3 }),
        0xD5 => Some(Instruction { encoding: Encoding::N, mnemonic: "PUSH DE", cycles: 16, length: 1 }),
        0xD6 => Some(Instruction { encoding: Encoding::D8, mnemonic: "SUB d8", cycles: 8, length: 2 }),
        0xD7 => Some(Instruction { encoding: Encoding::N, mnemonic: "RST 10H", cycles: 16, length: 1 }),
        0xD8 => Some(Instruction { encoding: Encoding::N, mnemonic: "RET C", cycles: 20, length: 1 }),
        0xD9 => Some(Instruction { encoding: Encoding::N, mnemonic: "RETI", cycles: 16, length: 1 }),
        0xDA => Some(Instruction { encoding: Encoding::A16, mnemonic: "JP C,a16", cycles: 16, length: 3 }),
        0xDB => None,
        0xDC => Some(Instruction { encoding: Encoding::A16, mnemonic: "CALL C,a16", cycles: 24, length: 3 }),
        0xDD => None,
        0xDE => Some(Instruction { encoding: Encoding::D8, mnemonic: "SBC A,d8", cycles: 8, length: 2 }),
        0xDF => Some(Instruction { encoding: Encoding::N, mnemonic: "RST 18H", cycles: 16, length: 1 }),
        0xE0 => Some(Instruction { encoding: Encoding::A8, mnemonic: "LDH (a8),A", cycles: 12, length: 2 }),
        0xE1 => Some(Instruction { encoding: Encoding::N, mnemonic: "POP HL", cycles: 12, length: 1 }),
        0xE2 => Some(Instruction { encoding: Encoding::N, mnemonic: "LD (C),A", cycles: 8, length: 1 }),
        0xE3 => None,
        0xE4 => None,
        0xE5 => Some(Instruction { encoding: Encoding::N, mnemonic: "PUSH HL", cycles: 16, length: 1 }),
        0xE6 => Some(Instruction { encoding: Encoding::D8, mnemonic: "AND d8", cycles: 8, length: 2 }),
        0xE7 => Some(Instruction { encoding: Encoding::N, mnemonic: "RST 20H", cycles: 16, length: 1 }),
        0xE8 => Some(Instruction { encoding: Encoding::R8, mnemonic: "ADD SP,r8", cycles: 16, length: 2 }),
        0xE9 => Some(Instruction { encoding: Encoding::N, mnemonic: "JP (HL)", cycles: 4, length: 1 }),
        0xEA => Some(Instruction { encoding: Encoding::A16, mnemonic: "LD (a16),A", cycles: 16, length: 3 }),
        0xEB => None,
        0xEC => None,
        0xED => None,
        0xEE => Some(Instruction { encoding: Encoding::D8, mnemonic: "XOR d8", cycles: 8, length: 2 }),
        0xEF => Some(Instruction { encoding: Encoding::N, mnemonic: "RST 28H", cycles: 16, length: 1 }),
        0xF0 => Some(Instruction { encoding: Encoding::A8, mnemonic: "LDH A,(a8)", cycles: 12, length: 2 }),
        0xF1 => Some(Instruction { encoding: Encoding::N, mnemonic: "POP AF", cycles: 12, length: 1 }),
        0xF2 => Some(Instruction { encoding: Encoding::N, mnemonic: "LD A,(C)", cycles: 8, length: 1 }),
        0xF3 => Some(Instruction { encoding: Encoding::N, mnemonic: "DI", cycles: 4, length: 1 }),
        0xF4 => None,
        0xF5 => Some(Instruction { encoding: Encoding::N, mnemonic: "PUSH AF", cycles: 16, length: 1 }),
        0xF6 => Some(Instruction { encoding: Encoding::D8, mnemonic: "OR d8", cycles: 8, length: 2 }),
        0xF7 => Some(Instruction { encoding: Encoding::N, mnemonic: "RST 30H", cycles: 16, length: 1 }),
        0xF8 => Some(Instruction { encoding: Encoding::R8, mnemonic: "LD HL,SP+r8", cycles: 12, length: 2 }),
        0xF9 => Some(Instruction { encoding: Encoding::N, mnemonic: "LD SP,HL", cycles: 8, length: 1 }),
        0xFA => Some(Instruction { encoding: Encoding::A16, mnemonic: "LD A,(a16)", cycles: 16, length: 3 }),
        0xFB => Some(Instruction { encoding: Encoding::N, mnemonic: "EI", cycles: 4, length: 1 }),
        0xFC => None,
        0xFD => None,
        0xFE => Some(Instruction { encoding: Encoding::D8, mnemonic: "CP d8", cycles: 8, length: 2 }),
        0xFF => Some(Instruction { encoding: Encoding::N, mnemonic: "RST 38H", cycles: 16, length: 1 }),
    }
}

/// The mnemonic of the CB-prefixed opcode with low byte `low`.
pub fn cb_mnemonic(low: u8) -> &'static str {
    match low {
        0x00 => "RLC B",
        0x01 => "RLC C",
        0x02 => "RLC D",
        0x03 => "RLC E",
        0x04 => "RLC H",
        0x05 => "RLC L",
        0x06 => "RLC (HL)",
        0x07 => "RLC A",
        0x08 => "RRC B",
        0x09 => "RRC C",
        0x0A => "RRC D",
        0x0B => "RRC E",
        0x0C => "RRC H",
        0x0D => "RRC L",
        0x0E => "RRC (HL)",
        0x0F => "RRC A",
        0x10 => "RL B",
        0x11 => "RL C",
        0x12 => "RL D",
        0x13 => "RL E",
        0x14 => "RL H",
        0x15 => "RL L",
        0x16 => "RL (HL)",
        0x17 => "RL A",
        0x18 => "RR B",
        0x19 => "RR C",
        0x1A => "RR D",
        0x1B => "RR E",
        0x1C => "RR H",
        0x1D => "RR L",
        0x1E => "RR (HL)",
        0x1F => "RR A",
        0x20 => "SLA B",
        0x21 => "SLA C",
        0x22 => "SLA D",
        0x23 => "SLA E",
        0x24 => "SLA H",
        0x25 => "SLA L",
        0x26 => "SLA (HL)",
        0x27 => "SLA A",
        0x28 => "SRA B",
        0x29 => "SRA C",
        0x2A => "SRA D",
        0x2B => "SRA E",
        0x2C => "SRA H",
        0x2D => "SRA L",
        0x2E => "SRA (HL)",
        0x2F => "SRA A",
        0x30 => "SWAP B",
        0x31 => "SWAP C",
        0x32 => "SWAP D",
        0x33 => "SWAP E",
        0x34 => "SWAP H",
        0x35 => "SWAP L",
        0x36 => "SWAP (HL)",
        0x37 => "SWAP A",
        0x38 => "SRL B",
        0x39 => "SRL C",
        0x3A => "SRL D",
        0x3B => "SRL E",
        0x3C => "SRL H",
        0x3D => "SRL L",
        0x3E => "SRL (HL)",
        0x3F => "SRL A",
        0x40 => "BIT 0,B",
        0x41 => "BIT 0,C",
        0x42 => "BIT 0,D",
        0x43 => "BIT 0,E",
        0x44 => "BIT 0,H",
        0x45 => "BIT 0,L",
        0x46 => "BIT 0,(HL)",
        0x47 => "BIT 0,A",
        0x48 => "BIT 1,B",
        0x49 => "BIT 1,C",
        0x4A => "BIT 1,D",
        0x4B => "BIT 1,E",
        0x4C => "BIT 1,H",
        0x4D => "BIT 1,L",
        0x4E => "BIT 1,(HL)",
        0x4F => "BIT 1,A",
        0x50 => "BIT 2,B",
        0x51 => "BIT 2,C",
        0x52 => "BIT 2,D",
        0x53 => "BIT 2,E",
        0x54 => "BIT 2,H",
        0x55 => "BIT 2,L",
        0x56 => "BIT 2,(HL)",
        0x57 => "BIT 2,A",
        0x58 => "BIT 3,B",
        0x59 => "BIT 3,C",
        0x5A => "BIT 3,D",
        0x5B => "BIT 3,E",
        0x5C => "BIT 3,H",
        0x5D => "BIT 3,L",
        0x5E => "BIT 3,(HL)",
        0x5F => "BIT 3,A",
        0x60 => "BIT 4,B",
        0x61 => "BIT 4,C",
        0x62 => "BIT 4,D",
        0x63 => "BIT 4,E",
        0x64 => "BIT 4,H",
        0x65 => "BIT 4,L",
        0x66 => "BIT 4,(HL)",
        0x67 => "BIT 4,A",
        0x68 => "BIT 5,B",
        0x69 => "BIT 5,C",
        0x6A => "BIT 5,D",
        0x6B => "BIT 5,E",
        0x6C => "BIT 5,H",
        0x6D => "BIT 5,L",
        0x6E => "BIT 5,(HL)",
        0x6F => "BIT 5,A",
        0x70 => "BIT 6,B",
        0x71 => "BIT 6,C",
        0x72 => "BIT 6,D",
        0x73 => "BIT 6,E",
        0x74 => "BIT 6,H",
        0x75 => "BIT 6,L",
        0x76 => "BIT 6,(HL)",
        0x77 => "BIT 6,A",
        0x78 => "BIT 7,B",
        0x79 => "BIT 7,C",
        0x7A => "BIT 7,D",
        0x7B => "BIT 7,E",
        0x7C => "BIT 7,H",
        0x7D => "BIT 7,L",
        0x7E => "BIT 7,(HL)",
        0x7F => "BIT 7,A",
        0x80 => "RES 0,B",
        0x81 => "RES 0,C",
        0x82 => "RES 0,D",
        0x83 => "RES 0,E",
        0x84 => "RES 0,H",
        0x85 => "RES 0,L",
        0x86 => "RES 0,(HL)",
        0x87 => "RES 0,A",
        0x88 => "RES 1,B",
        0x89 => "RES 1,C",
        0x8A => "RES 1,D",
        0x8B => "RES 1,E",
        0x8C => "RES 1,H",
        0x8D => "RES 1,L",
        0x8E => "RES 1,(HL)",
        0x8F => "RES 1,A",
        0x90 => "RES 2,B",
        0x91 => "RES 2,C",
        0x92 => "RES 2,D",
        0x93 => "RES 2,E",
        0x94 => "RES 2,H",
        0x95 => "RES 2,L",
        0x96 => "RES 2,(HL)",
        0x97 => "RES 2,A",
        0x98 => "RES 3,B",
        0x99 => "RES 3,C",
        0x9A => "RES 3,D",
        0x9B => "RES 3,E",
        0x9C => "RES 3,H",
        0x9D => "RES 3,L",
        0x9E => "RES 3,(HL)",
        0x9F => "RES 3,A",
        0xA0 => "RES 4,B",
        0xA1 => "RES 4,C",
        0xA2 => "RES 4,D",
        0xA3 => "RES 4,E",
        0xA4 => "RES 4,H",
        0xA5 => "RES 4,L",
        0xA6 => "RES 4,(HL)",
        0xA7 => "RES 4,A",
        0xA8 => "RES 5,B",
        0xA9 => "RES 5,C",
        0xAA => "RES 5,D",
        0xAB => "RES 5,E",
        0xAC => "RES 5,H",
        0xAD => "RES 5,L",
        0xAE => "RES 5,(HL)",
        0xAF => "RES 5,A",
        0xB0 => "RES 6,B",
        0xB1 => "RES 6,C",
        0xB2 => "RES 6,D",
        0xB3 => "RES 6,E",
        0xB4 => "RES 6,H",
        0xB5 => "RES 6,L",
        0xB6 => "RES 6,(HL)",
        0xB7 => "RES 6,A",
        0xB8 => "RES 7,B",
        0xB9 => "RES 7,C",
        0xBA => "RES 7,D",
        0xBB => "RES 7,E",
        0xBC => "RES 7,H",
        0xBD => "RES 7,L",
        0xBE => "RES 7,(HL)",
        0xBF => "RES 7,A",
        0xC0 => "SET 0,B",
        0xC1 => "SET 0,C",
        0xC2 => "SET 0,D",
        0xC3 => "SET 0,E",
        0xC4 => "SET 0,H",
        0xC5 => "SET 0,L",
        0xC6 => "SET 0,(HL)",
        0xC7 => "SET 0,A",
        0xC8 => "SET 1,B",
        0xC9 => "SET 1,C",
        0xCA => "SET 1,D",
        0xCB => "SET 1,E",
        0xCC => "SET 1,H",
        0xCD => "SET 1,L",
        0xCE => "SET 1,(HL)",
        0xCF => "SET 1,A",
        0xD0 => "SET 2,B",
        0xD1 => "SET 2,C",
        0xD2 => "SET 2,D",
        0xD3 => "SET 2,E",
        0xD4 => "SET 2,H",
        0xD5 => "SET 2,L",
        0xD6 => "SET 2,(HL)",
        0xD7 => "SET 2,A",
        0xD8 => "SET 3,B",
        0xD9 => "SET 3,C",
        0xDA => "SET 3,D",
        0xDB => "SET 3,E",
        0xDC => "SET 3,H",
        0xDD => "SET 3,L",
        0xDE => "SET 3,(HL)",
        0xDF => "SET 3,A",
        0xE0 => "SET 4,B",
        0xE1 => "SET 4,C",
        0xE2 => "SET 4,D",
        0xE3 => "SET 4,E",
        0xE4 => "SET 4,H",
        0xE5 => "SET 4,L",
        0xE6 => "SET 4,(HL)",
        0xE7 => "SET 4,A",
        0xE8 => "SET 5,B",
        0xE9 => "SET 5,C",
        0xEA => "SET 5,D",
        0xEB => "SET 5,E",
        0xEC => "SET 5,H",
        0xED => "SET 5,L",
        0xEE => "SET 5,(HL)",
        0xEF => "SET 5,A",
        0xF0 => "SET 6,B",
        0xF1 => "SET 6,C",
        0xF2 => "SET 6,D",
        0xF3 => "SET 6,E",
        0xF4 => "SET 6,H",
        0xF5 => "SET 6,L",
        0xF6 => "SET 6,(HL)",
        0xF7 => "SET 6,A",
        0xF8 => "SET 7,B",
        0xF9 => "SET 7,C",
        0xFA => "SET 7,D",
        0xFB => "SET 7,E",
        0xFC => "SET 7,H",
        0xFD => "SET 7,L",
        0xFE => "SET 7,(HL)",
        0xFF => "SET 7,A",
    }
}

/// The CB table's entry for low byte `low`.
pub fn cb_entry(low: u8) -> (r: Instruction)
    ensures
        r.encoding == Encoding::CB,
        r.cycles == cb_cycles(low),
        r.length == 2,
{
    let cycles: u8 = if low % 8 == 6 {
        16
    } else {
        8
    };
    Instruction { encoding: Encoding::CB, mnemonic: cb_mnemonic(low), cycles, length: 2 }
}

} // verus!
