//! The 8- and 16-bit arithmetic and logic of the CPU, with its flag rules.

use vstd::prelude::*;

verus! {

/// The four flags of F as plain booleans: zero, subtract, half carry, carry.
#[derive(Clone, Copy, Debug, PartialEq, Eq, Structural)]
pub struct FlagSet {
    pub z: bool,
    pub n: bool,
    pub h: bool,
    pub c: bool,
}

/// Result byte and flags of an 8-bit operation.
#[derive(Clone, Copy, Debug, PartialEq, Eq, Structural)]
pub struct AluOut {
    pub value: u8,
    pub flags: FlagSet,
}

pub open spec fn flag_set(z: bool, n: bool, h: bool, c: bool) -> FlagSet {
    FlagSet { z, n, h, c }
}

/// ADD / ADC: `a + b + carry`, H from bit 3, C from bit 7.
pub open spec fn add_spec(a: u8, b: u8, carry: bool) -> AluOut {
    let ci: int = if carry { 1 } else { 0 };
    let sum = a + b + ci;
    let v = (sum % 256) as u8;
    AluOut { value: v, flags: flag_set(v == 0, false, a % 16 + b % 16 + ci > 15, sum > 255) }
}

/// SUB / SBC / CP: `a - b - carry`, H on a borrow from bit 4, C on a borrow.
pub open spec fn sub_spec(a: u8, b: u8, carry: bool) -> AluOut {
    let ci: int = if carry { 1 } else { 0 };
    let v = ((a - b - ci + 256) % 256) as u8;
    AluOut { value: v, flags: flag_set(v == 0, true, a % 16 < b % 16 + ci, a < b + ci) }
}

pub open spec fn and_spec(a: u8, b: u8) -> AluOut {
    let v = a & b;
    AluOut { value: v, flags: flag_set(v == 0, false, true, false) }
}

pub open spec fn or_spec(a: u8, b: u8) -> AluOut {
    let v = a | b;
    AluOut { value: v, flags: flag_set(v == 0, false, false, false) }
}

pub open spec fn xor_spec(a: u8, b: u8) -> AluOut {
    let v = a ^ b;
    AluOut { value: v, flags: flag_set(v == 0, false, false, false) }
}

/// The ALU operation `op` (0 ADD, 1 ADC, 2 SUB, 3 SBC, 4 AND, 5 XOR, 6 OR,
/// 7 CP) on A and `b`; CP leaves A as it was.
pub open spec fn alu_spec(op: u8, a: u8, b: u8, f: FlagSet) -> AluOut {
    if op == 0 {
        add_spec(a, b, false)
    } else if op == 1 {
        add_spec(a, b, f.c)
    } else if op == 2 {
        sub_spec(a, b, false)
    } else if op == 3 {
        sub_spec(a, b, f.c)
    } else if op == 4 {
        and_spec(a, b)
    } else if op == 5 {
        xor_spec(a, b)
    } else if op == 6 {
        or_spec(a, b)
    } else {
        AluOut { value: a, flags: sub_spec(a, b, false).flags }
    }
}

/// INC: C is kept.
pub open spec fn inc_spec(v: u8, f: FlagSet) -> AluOut {
    let r = ((v + 1) % 256) as u8;
    AluOut { value: r, flags: flag_set(r == 0, false, v % 16 == 15, f.c) }
}

/// DEC: C is kept.
pub open spec fn dec_spec(v: u8, f: FlagSet) -> AluOut {
    let r = ((v + 255) % 256) as u8;
    AluOut { value: r, flags: flag_set(r == 0, true, v % 16 == 0, f.c) }
}

/// The CB-prefixed rotate/shift `op` (0 RLC, 1 RRC, 2 RL, 3 RR, 4 SLA,
/// 5 SRA, 6 SWAP, 7 SRL); Z from the result, C from the bit shifted out.
pub open spec fn shift_spec(op: u8, v: u8, f: FlagSet) -> AluOut {
    let ci: int = if f.c { 1 } else { 0 };
    let w = v as int;
    let top = w / 128;
    let low = w % 2;
    let r: int = if op == 0 {
        (w * 2) % 256 + top
    } else if op == 1 {
        w / 2 + low * 128
    } else if op == 2 {
        (w * 2) % 256 + ci
    } else if op == 3 {
        w / 2 + ci * 128
    } else if op == 4 {
        (w * 2) % 256
    } else if op == 5 {
        w / 2 + top * 128
    } else if op == 6 {
        (w % 16) * 16 + w / 16
    } else {
        w / 2
    };
    let c = if op == 0 || op == 2 || op == 4 {
        top == 1
    } else if op == 6 {
        false
    } else {
        low == 1
    };
    AluOut { value: r as u8, flags: flag_set(r == 0, false, false, c) }
}

/// DAA: decimal adjustment of A after a BCD addition or subtraction.
pub open spec fn daa_spec(a: u8, f: FlagSet) -> AluOut {
    let (v, c) = if !f.n {
        let (v1, c1) = if f.c || a > 0x99 {
            ((a + 0x60) % 256, true)
        } else {
            (a as int, false)
        };
        let v2 = if f.h || v1 % 16 > 9 {
            (v1 + 0x06) % 256
        } else {
            v1
        };
        (v2, c1)
    } else {
        let v1 = if f.c {
            (a + 256 - 0x60) % 256
        } else {
            a as int
        };
        let v2 = if f.h {
            (v1 + 256 - 0x06) % 256
        } else {
            v1
        };
        (v2, f.c)
    };
    AluOut { value: v as u8, flags: flag_set(v == 0, f.n, false, c) }
}

/// ADD HL,rr: H from bit 11, C from bit 15, Z kept.
pub open spec fn add16_spec(hl: u16, v: u16, f: FlagSet) -> (u16, FlagSet) {
    (
        ((hl + v) % 65536) as u16,
        flag_set(f.z, false, hl % 4096 + v % 4096 > 4095, hl + v > 65535),
    )
}

/// The signed value of an offset byte.
pub open spec fn signed(e: u8) -> int {
    if e < 128 {
        e as int
    } else {
        e - 256
    }
}

/// SP plus a signed offset (ADD SP,d and LD HL,SP+d): H and C from the
/// unsigned addition of the low byte, Z and N cleared.
pub open spec fn add_sp_spec(sp: u16, e: u8) -> (u16, FlagSet) {
    (
        ((sp + signed(e) + 65536) % 65536) as u16,
        flag_set(false, false, sp % 16 + e % 16 > 15, sp % 256 + e > 255),
    )
}

pub fn add8(a: u8, b: u8, carry: bool) -> (r: AluOut)
    ensures
        r == add_spec(a, b, carry),
{
    let ci: u16 = if carry {
        1
    } else {
        0
    };
    let sum = a as u16 + b as u16 + ci;
    let v = (sum % 256) as u8;
    AluOut {
        value: v,
        flags: FlagSet { z: v == 0, n: false, h: (a % 16) as u16 + (b % 16) as u16 + ci > 15, c: sum > 255 },
    }
}

pub fn sub8(a: u8, b: u8, carry: bool) -> (r: AluOut)
    ensures
        r == sub_spec(a, b, carry),
{
    let ci: u16 = if carry {
        1
    } else {
        0
    };
    let v = ((a as u16 + 256 - b as u16 - ci) % 256) as u8;
    AluOut {
        value: v,
        flags: FlagSet {
            z: v == 0,
            n: true,
            h: ((a % 16) as u16) < (b % 16) as u16 + ci,
            c: (a as u16) < b as u16 + ci,
        },
    }
}

/// The eight-way ALU of opcodes 80-BF and C6-FE.
pub fn alu(op: u8, a: u8, b: u8, f: FlagSet) -> (r: AluOut)
    requires
        op < 8,
    ensures
        r == alu_spec(op, a, b, f),
{
    if op == 0 {
        add8(a, b, false)
    } else if op == 1 {
        add8(a, b, f.c)
    } else if op == 2 {
        sub8(a, b, false)
    } else if op == 3 {
        sub8(a, b, f.c)
    } else if op == 4 {
        let v = a & b;
        AluOut { value: v, flags: FlagSet { z: v == 0, n: false, h: true, c: false } }
    } else if op == 5 {
        let v = a ^ b;
        AluOut { value: v, flags: FlagSet { z: v == 0, n: false, h: false, c: false } }
    } else if op == 6 {
        let v = a | b;
        AluOut { value: v, flags: FlagSet { z: v == 0, n: false, h: false, c: false } }
    } else {
        AluOut { value: a, flags: sub8(a, b, false).flags }
    }
}

pub fn inc(v: u8, f: FlagSet) -> (r: AluOut)
    ensures
        r == inc_spec(v, f),
{
    let r = ((v as u16 + 1) % 256) as u8;
    AluOut { value: r, flags: FlagSet { z: r == 0, n: false, h: v % 16 == 15, c: f.c } }
}

pub fn dec(v: u8, f: FlagSet) -> (r: AluOut)
    ensures
        r == dec_spec(v, f),
{
    let r = ((v as u16 + 255) % 256) as u8;
    AluOut { value: r, flags: FlagSet { z: r == 0, n: true, h: v % 16 == 0, c: f.c } }
}

pub fn shift(op: u8, v: u8, f: FlagSet) -> (r: AluOut)
    requires
        op < 8,
    ensures
        r == shift_spec(op, v, f),
{
    let ci: u16 = if f.c {
        1
    } else {
        0
    };
    let w = v as u16;
    let top = w / 128;
    let low = w % 2;
    let r: u16 = if op == 0 {
        (w * 2) % 256 + top
    } else if op == 1 {
        w / 2 + low * 128
    } else if op == 2 {
        (w * 2) % 256 + ci
    } else if op == 3 {
        w / 2 + ci * 128
    } else if op == 4 {
        (w * 2) % 256
    } else if op == 5 {
        w / 2 + top * 128
    } else if op == 6 {
        (w % 16) * 16 + w / 16
    } else {
        w / 2
    };
    let c = if op == 0 || op == 2 || op == 4 {
        top == 1
    } else if op == 6 {
        false
    } else {
        low == 1
    };
    AluOut { value: r as u8, flags: FlagSet { z: r == 0, n: false, h: false, c } }
}

pub fn daa(a: u8, f: FlagSet) -> (r: AluOut)
    ensures
        r == daa_spec(a, f),
{
    let w = a as u16;
    let mut v: u16;
    let mut c: bool;
    if !f.n {
        if f.c || a > 0x99 {
            v = (w + 0x60) % 256;
            c = true;
        } else {
            v = w;
            c = false;
        }
        if f.h || v % 16 > 9 {
            v = (v + 0x06) % 256;
        }
    } else {
        v = if f.c {
            (w + 256 - 0x60) % 256
        } else {
            w
        };
        if f.h {
            v = (v + 256 - 0x06) % 256;
        }
        c = f.c;
    }
    AluOut { value: v as u8, flags: FlagSet { z: v == 0, n: f.n, h: false, c } }
}

pub fn add16(hl: u16, v: u16, f: FlagSet) -> (r: (u16, FlagSet))
    ensures
        r == add16_spec(hl, v, f),
{
    let sum = hl as u32 + v as u32;
    (
        (sum % 65536) as u16,
        FlagSet {
            z: f.z,
            n: false,
            h: (hl % 4096) as u32 + (v % 4096) as u32 > 4095,
            c: sum > 65535,
        },
    )
}

pub fn add_sp(sp: u16, e: u8) -> (r: (u16, FlagSet))
    ensures
        r == add_sp_spec(sp, e),
{
    let s = sp as u32 + 65536;
    let t: u32 = if e < 128 {
        s + e as u32
    } else {
        s + e as u32 - 256
    };
    (
        (t % 65536) as u16,
        FlagSet {
            z: false,
            n: false,
            h: (sp % 16) as u16 + (e % 16) as u16 > 15,
            c: (sp % 256) as u16 + e as u16 > 255,
        },
    )
}

} // verus!
