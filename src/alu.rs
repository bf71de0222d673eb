//! The flag register and the pure arithmetic of the instruction set: the
//! 8-bit ALU group and the CB-prefixed rotate, shift and bit operations.
use vstd::prelude::*;

verus! {

/// The four condition flags.
#[derive(Clone, Copy, Debug, PartialEq, Eq, Structural)]
pub struct Flags {
    /// Zero.
    pub z: bool,
    /// Subtract.
    pub n: bool,
    /// Half carry: carry out of (or borrow into) bit 3.
    pub h: bool,
    /// Carry.
    pub c: bool,
}

/// 1 for a set flag, 0 for a clear one.
pub open spec fn bit_value(b: bool) -> int {
    if b {
        1
    } else {
        0
    }
}

/// The flag register F: Z, N, H, C in bits 7 to 4, bits 3 to 0 zero.
pub open spec fn flag_byte(f: Flags) -> int {
    128 * bit_value(f.z) + 64 * bit_value(f.n) + 32 * bit_value(f.h) + 16 * bit_value(f.c)
}

impl Flags {
    /// All flags clear.
    pub fn new() -> (r: Flags)
        ensures
            !r.z && !r.n && !r.h && !r.c,
    {
        Flags { z: false, n: false, h: false, c: false }
    }

    /// The flag register F as a byte; its low four bits are always zero.
    pub fn to_byte(&self) -> (r: u8)
        ensures
            r == flag_byte(*self),
            r % 16 == 0,
    {
        let mut r: u8 = 0;
        if self.z {
            r = r + 128;
        }
        if self.n {
            r = r + 64;
        }
        if self.h {
            r = r + 32;
        }
        if self.c {
            r = r + 16;
        }
        r
    }
}

/// Bit `n` of `v`.
pub open spec fn bit_of(v: u8, n: u8) -> bool {
    (v >> n) & 1 == 1
}

/// `v` with bit `n` cleared.
pub open spec fn res_spec(v: u8, n: u8) -> u8 {
    v & !(1u8 << n)
}

/// `v` with bit `n` set.
pub open spec fn set_spec(v: u8, n: u8) -> u8 {
    v | (1u8 << n)
}

/// Rotate left; bit 7 comes round to bit 0.
pub open spec fn rlc_spec(v: u8) -> u8 {
    (v << 1u8) | (v >> 7u8)
}

/// Rotate right; bit 0 comes round to bit 7.
pub open spec fn rrc_spec(v: u8) -> u8 {
    (v >> 1u8) | (v << 7u8)
}

/// Rotate left through the carry.
pub open spec fn rl_spec(v: u8, c: bool) -> u8 {
    (v << 1u8) | (if c { 1u8 } else { 0u8 })
}

/// Rotate right through the carry.
pub open spec fn rr_spec(v: u8, c: bool) -> u8 {
    (v >> 1u8) | (if c { 0x80u8 } else { 0u8 })
}

/// Arithmetic shift left; bit 0 becomes 0.
pub open spec fn sla_spec(v: u8) -> u8 {
    v << 1u8
}

/// Arithmetic shift right; bit 7 is kept.
pub open spec fn sra_spec(v: u8) -> u8 {
    (v >> 1u8) | (v & 0x80u8)
}

/// Exchange of the two nibbles.
pub open spec fn swap_spec(v: u8) -> u8 {
    (v << 4u8) | (v >> 4u8)
}

/// Logical shift right; bit 7 becomes 0.
pub open spec fn srl_spec(v: u8) -> u8 {
    v >> 1u8
}

/// The value that rotate/shift operation `kind` (bits 3-5 of a CB opcode
/// below 0x40) makes of `v`, with carry `c` before.
pub open spec fn shift_value(kind: u8, v: u8, c: bool) -> u8 {
    match kind {
        0 => rlc_spec(v),
        1 => rrc_spec(v),
        2 => rl_spec(v, c),
        3 => rr_spec(v, c),
        4 => sla_spec(v),
        5 => sra_spec(v),
        6 => swap_spec(v),
        _ => srl_spec(v),
    }
}

/// The carry that rotate/shift operation `kind` leaves: the bit shifted out,
/// or clear for SWAP.
pub open spec fn shift_carry(kind: u8, v: u8) -> bool {
    match kind {
        0 | 2 | 4 => bit_of(v, 7),
        6 => false,
        _ => bit_of(v, 0),
    }
}

/// Value and flags that the CB-prefixed opcode with low byte `low` makes of
/// operand `v` and flags `f`. BIT leaves the value as it is; RES and SET
/// leave the flags as they are.
pub open spec fn cb_result(low: u8, v: u8, f: Flags) -> (u8, Flags) {
    let group = low / 8;
    let n = group % 8;
    if low < 0x40 {
        let r = shift_value(group, v, f.c);
        (r, Flags { z: r == 0, n: false, h: false, c: shift_carry(group, v) })
    } else if low < 0x80 {
        (v, Flags { z: !bit_of(v, n), n: false, h: true, c: f.c })
    } else if low < 0xC0 {
        (res_spec(v, n), f)
    } else {
        (set_spec(v, n), f)
    }
}

/// Carry-in as a number.
pub open spec fn carry_in(f: Flags) -> int {
    bit_value(f.c)
}

/// An integer in 0..512 taken modulo 256.
pub open spec fn low_byte(x: int) -> u8 {
    if x >= 256 {
        (x - 256) as u8
    } else if x < 0 {
        (x + 256) as u8
    } else {
        x as u8
    }
}

/// Result and flags of ADD (with `cin` 0) or ADC (with `cin` the carry).
pub open spec fn add_result(a: u8, s: u8, cin: int) -> (u8, Flags) {
    let sum = a + s + cin;
    let r = low_byte(sum);
    (r, Flags { z: r == 0, n: false, h: (a % 16) + (s % 16) + cin > 15, c: sum > 255 })
}

/// Result and flags of SUB (with `cin` 0) or SBC (with `cin` the carry).
pub open spec fn sub_result(a: u8, s: u8, cin: int) -> (u8, Flags) {
    let diff = a - s - cin;
    let r = low_byte(diff);
    (r, Flags { z: r == 0, n: true, h: (a % 16) < (s % 16) + cin, c: diff < 0 })
}

/// Result and flags of ALU operation `op` (bits 3-5 of opcodes 0x80-0xBF:
/// ADD, ADC, SUB, SBC, AND, XOR, OR, CP) on accumulator `a` and operand `s`.
/// CP computes SUB's flags and leaves the accumulator as it is.
pub open spec fn alu_result(op: u8, a: u8, s: u8, f: Flags) -> (u8, Flags) {
    match op {
        0 => add_result(a, s, 0),
        1 => add_result(a, s, carry_in(f)),
        2 => sub_result(a, s, 0),
        3 => sub_result(a, s, carry_in(f)),
        4 => {
            let r = a & s;
            (r, Flags { z: r == 0, n: false, h: true, c: false })
        },
        5 => {
            let r = a ^ s;
            (r, Flags { z: r == 0, n: false, h: false, c: false })
        },
        6 => {
            let r = a | s;
            (r, Flags { z: r == 0, n: false, h: false, c: false })
        },
        _ => (a, sub_result(a, s, 0).1),
    }
}

fn add_flags(a: u8, s: u8, cin: u8) -> (r: (u8, Flags))
    requires
        cin <= 1,
    ensures
        r == add_result(a, s, cin as int),
{
    let sum: u16 = a as u16 + s as u16 + cin as u16;
    let r: u8 = if sum >= 256 {
        (sum - 256) as u8
    } else {
        sum as u8
    };
    (r, Flags { z: r == 0, n: false, h: (a % 16) + (s % 16) + cin > 15, c: sum > 255 })
}

fn sub_flags(a: u8, s: u8, cin: u8) -> (r: (u8, Flags))
    requires
        cin <= 1,
    ensures
        r == sub_result(a, s, cin as int),
{
    let sub: u16 = s as u16 + cin as u16;
    let r: u8 = if (a as u16) < sub {
        (a as u16 + 256 - sub) as u8
    } else {
        (a as u16 - sub) as u8
    };
    (r, Flags { z: r == 0, n: true, h: (a % 16) < (s % 16) + cin, c: (a as u16) < sub })
}

/// Runs ALU operation `op` on accumulator `a` and operand `s`.
pub fn alu(op: u8, a: u8, s: u8, f: Flags) -> (r: (u8, Flags))
    requires
        op < 8,
    ensures
        r == alu_result(op, a, s, f),
{
    let cin: u8 = if f.c {
        1
    } else {
        0
    };
    match op {
        0 => add_flags(a, s, 0),
        1 => add_flags(a, s, cin),
        2 => sub_flags(a, s, 0),
        3 => sub_flags(a, s, cin),
        4 => {
            let r = a & s;
            (r, Flags { z: r == 0, n: false, h: true, c: false })
        },
        5 => {
            let r = a ^ s;
            (r, Flags { z: r == 0, n: false, h: false, c: false })
        },
        6 => {
            let r = a | s;
            (r, Flags { z: r == 0, n: false, h: false, c: false })
        },
        _ => (a, sub_flags(a, s, 0).1),
    }
}

/// Runs the CB-prefixed operation with low byte `low` on operand `v`.
pub fn cb_apply(low: u8, v: u8, f: Flags) -> (r: (u8, Flags))
    ensures
        r == cb_result(low, v, f),
{
    let group = low / 8;
    let n = group % 8;
    if low < 0x40 {
        let r: u8 = match group {
            0 => (v << 1u8) | (v >> 7u8),
            1 => (v >> 1u8) | (v << 7u8),
            2 => (v << 1u8) | (if f.c { 1u8 } else { 0u8 }),
            3 => (v >> 1u8) | (if f.c { 0x80u8 } else { 0u8 }),
            4 => v << 1u8,
            5 => (v >> 1u8) | (v & 0x80u8),
            6 => (v << 4u8) | (v >> 4u8),
            _ => v >> 1u8,
        };
        let c = match group {
            0 | 2 | 4 => (v >> 7u8) & 1 == 1,
            6 => false,
            _ => (v >> 0u8) & 1 == 1,
        };
        (r, Flags { z: r == 0, n: false, h: false, c })
    } else if low < 0x80 {
        (v, Flags { z: !((v >> n) & 1 == 1), n: false, h: true, c: f.c })
    } else if low < 0xC0 {
        (v & !(1u8 << n), f)
    } else {
        (v | (1u8 << n), f)
    }
}

/// The result of applying the CB-prefixed operation with low byte `low`
/// `k` times in a row, starting from operand `v` and flags `f`.
pub open spec fn cb_repeat(low: u8, v: u8, f: Flags, k: nat) -> (u8, Flags)
    decreases k,
{
    if k == 0 {
        (v, f)
    } else {
        let (v1, f1) = cb_result(low, v, f);
        cb_repeat(low, v1, f1, (k - 1) as nat)
    }
}

/// SET n then RES n gives back the operand exactly when its bit n was clear;
/// RES n then SET n gives it back exactly when its bit n was set. Neither
/// touches the flags.
pub proof fn lemma_set_res_round_trip(n: u8, sel: u8, v: u8, f: Flags)
    requires
        n < 8,
        sel < 8,
    ensures
        ({
            let (v1, f1) = cb_result((0xC0 + 8 * n + sel) as u8, v, f);
            let (v2, f2) = cb_result((0x80 + 8 * n + sel) as u8, v1, f1);
            (v2 == v <==> !bit_of(v, n)) && f2 == f
        }),
        ({
            let (v1, f1) = cb_result((0x80 + 8 * n + sel) as u8, v, f);
            let (v2, f2) = cb_result((0xC0 + 8 * n + sel) as u8, v1, f1);
            (v2 == v <==> bit_of(v, n)) && f2 == f
        }),
{
    let set_op = (0xC0 + 8 * n + sel) as u8;
    let res_op = (0x80 + 8 * n + sel) as u8;
    assert(set_op / 8 % 8 == n && set_op >= 0xC0);
    assert(res_op / 8 % 8 == n && 0x80 <= res_op < 0xC0);
    assert(res_spec(set_spec(v, n), n) == v <==> !bit_of(v, n)) by (bit_vector)
        requires
            n < 8,
    ;
    assert(set_spec(res_spec(v, n), n) == v <==> bit_of(v, n)) by (bit_vector)
        requires
            n < 8,
    ;
}

/// Eight RLCs give back the operand and leave in the carry its bit 0 (the
/// bit rotated out last); so the carry is back where it started whenever it
/// started as that bit.
pub proof fn lemma_rlc_eight_times(sel: u8, v: u8, f: Flags)
    requires
        sel < 8,
    ensures
        cb_repeat(sel, v, f, 8).0 == v,
        cb_repeat(sel, v, f, 8).1.c == bit_of(v, 0),
        f.c == bit_of(v, 0) ==> cb_repeat(sel, v, f, 8).1.c == f.c,
{
    reveal_with_fuel(cb_repeat, 9);
    let v1 = rlc_spec(v);
    let v2 = rlc_spec(v1);
    let v3 = rlc_spec(v2);
    let v4 = rlc_spec(v3);
    let v5 = rlc_spec(v4);
    let v6 = rlc_spec(v5);
    let v7 = rlc_spec(v6);
    assert(rlc_spec(v7) == v && bit_of(v7, 7) == bit_of(v, 0)) by (bit_vector)
        requires
            v1 == rlc_spec(v),
            v2 == rlc_spec(v1),
            v3 == rlc_spec(v2),
            v4 == rlc_spec(v3),
            v5 == rlc_spec(v4),
            v6 == rlc_spec(v5),
            v7 == rlc_spec(v6),
    ;
}

/// SWAP twice gives back the operand.
pub proof fn lemma_swap_twice(sel: u8, v: u8, f: Flags)
    requires
        sel < 8,
    ensures
        ({
            let (v1, f1) = cb_result((0x30 + sel) as u8, v, f);
            cb_result((0x30 + sel) as u8, v1, f1).0 == v
        }),
{
    assert(swap_spec(swap_spec(v)) == v) by (bit_vector);
}

} // verus!
