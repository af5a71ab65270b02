//! Decoding and execution of the primary and CB-prefixed opcodes.

use vstd::prelude::*;
use crate::alu::{
    add16,
    add16_spec,
    add_sp,
    add_sp_spec,
    alu,
    alu_spec,
    daa,
    daa_spec,
    dec,
    dec_spec,
    inc,
    inc_spec,
    shift,
    shift_spec,
    FlagSet,
};
use crate::cpu::{lemma_pack_unpack, unpack_flags, Flags, Registers};
use crate::error::EmuError;
use crate::mmu::{is_plain_ram, lemma_word_round_trip, Memory};

verus! {

/// The opcodes that are not defined, and STOP, which is treated as fatal.
pub open spec fn is_invalid(op: u8) -> bool {
    op == 0x10 || op == 0xD3 || op == 0xDB || op == 0xDD || op == 0xE3 || op == 0xE4 || op == 0xEB
        || op == 0xEC || op == 0xED || op == 0xF4 || op == 0xFC || op == 0xFD
}

/// Branch condition `cc` (0 NZ, 1 Z, 2 NC, 3 C).
pub open spec fn cond_spec(f: FlagSet, cc: u8) -> bool {
    if cc == 0 {
        !f.z
    } else if cc == 1 {
        f.z
    } else if cc == 2 {
        !f.c
    } else {
        f.c
    }
}

/// T-cycles of an opcode in 00-3F, given the flags before it.
pub open spec fn low_cycles(op: u8, f: FlagSet) -> u32 {
    let y = op / 8;
    if op % 8 == 4 || op % 8 == 5 {
        if y == 6 {
            12
        } else {
            4
        }
    } else if op % 8 == 6 {
        if y == 6 {
            12
        } else {
            8
        }
    } else if op % 8 == 7 {
        4
    } else if op % 8 == 0 {
        if op == 0x00 {
            4
        } else if op == 0x08 {
            20
        } else if op == 0x18 {
            12
        } else if op == 0x10 {
            4
        } else if cond_spec(f, y % 4) {
            12
        } else {
            8
        }
    } else if op % 16 == 1 {
        12
    } else {
        8
    }
}

/// T-cycles of an opcode in C0-FF (but CB), given the flags before it.
pub open spec fn high_cycles(op: u8, f: FlagSet) -> u32 {
    let taken = cond_spec(f, (op / 8) % 4);
    if op % 8 == 0 {
        if op < 0xE0 {
            if taken {
                20
            } else {
                8
            }
        } else if op == 0xE8 {
            16
        } else {
            12
        }
    } else if op % 8 == 1 {
        if op % 16 == 1 {
            12
        } else if op == 0xE9 {
            4
        } else if op == 0xF9 {
            8
        } else {
            16
        }
    } else if op % 8 == 2 {
        if op < 0xE0 {
            if taken {
                16
            } else {
                12
            }
        } else if op == 0xEA || op == 0xFA {
            16
        } else {
            8
        }
    } else if op % 8 == 3 {
        if op == 0xC3 {
            16
        } else {
            4
        }
    } else if op % 8 == 4 {
        if taken {
            24
        } else {
            12
        }
    } else if op % 8 == 5 {
        if op == 0xCD {
            24
        } else {
            16
        }
    } else if op % 8 == 6 {
        8
    } else {
        16
    }
}

/// T-cycles of a CB-prefixed opcode.
pub open spec fn cb_cycles(cb: u8) -> u32 {
    if cb % 8 == 6 {
        if cb / 64 == 1 {
            12
        } else {
            16
        }
    } else {
        8
    }
}

/// T-cycles of opcode `op`; `next` is the byte after it (the CB opcode).
pub open spec fn op_cycles(op: u8, next: u8, f: FlagSet) -> u32 {
    if op < 0x40 {
        low_cycles(op, f)
    } else if op < 0x80 {
        if op != 0x76 && (op % 8 == 6 || (op / 8) % 8 == 6) {
            8
        } else {
            4
        }
    } else if op < 0xC0 {
        if op % 8 == 6 {
            8
        } else {
            4
        }
    } else if op == 0xCB {
        cb_cycles(next)
    } else {
        high_cycles(op, f)
    }
}

/// The registers with flags `s`.
pub open spec fn with_flags(r: Registers, s: FlagSet) -> Registers {
    Registers { f: Flags::of_set(s), ..r }
}

/// Effect of LD r,r' (opcodes 40-7F but HALT): the source operand copied to
/// the destination operand.
pub open spec fn ld_post(r: Registers, m: Memory, op: u8, r2: Registers, m2: Memory) -> bool {
    let dst = (op / 8) % 8;
    let v = r.r8_spec(m, op % 8);
    if dst == 6 {
        r2 == r && Memory::write_spec(m, r.hl_spec(), v, m2)
    } else {
        r2 == r.with_r8(dst, v) && m2 == m
    }
}

/// Effect of the ALU opcodes 80-BF on A and F.
pub open spec fn alu_post(r: Registers, m: Memory, op: u8, r2: Registers, m2: Memory) -> bool {
    let o = alu_spec((op / 8) % 8, r.a, r.r8_spec(m, op % 8), r.f.view_set());
    r2 == with_flags(Registers { a: o.value, ..r }, o.flags) && m2 == m
}

/// 16-bit register `i` of the 01/03/09/0B columns (0 BC, 1 DE, 2 HL, 3 SP).
pub open spec fn rr_spec(r: Registers, i: u8) -> u16 {
    if i == 0 {
        r.bc_spec()
    } else if i == 1 {
        r.de_spec()
    } else if i == 2 {
        r.hl_spec()
    } else {
        r.sp
    }
}

/// The registers with 16-bit register `i` set to `v`.
pub open spec fn with_rr(r: Registers, i: u8, v: u16) -> Registers {
    if i == 0 {
        Registers { b: (v / 256) as u8, c: (v % 256) as u8, ..r }
    } else if i == 1 {
        Registers { d: (v / 256) as u8, e: (v % 256) as u8, ..r }
    } else if i == 2 {
        r.with_hl(v)
    } else {
        Registers { sp: v, ..r }
    }
}

/// The registers with PUSH/POP pair `i` (0 BC, 1 DE, 2 HL, 3 AF) set to `v`.
pub open spec fn with_stack_pair(r: Registers, i: u8, v: u16) -> Registers {
    if i < 3 {
        with_rr(r, i, v)
    } else {
        Registers { a: (v / 256) as u8, f: Flags::of_set(unpack_flags((v % 256) as u8)), ..r }
    }
}

/// Effect of an opcode in 00-3F (STOP aside); `r` has PC past the opcode.
pub open spec fn low_post(op: u8, r: Registers, m: Memory, r2: Registers, m2: Memory) -> bool {
    let y = op / 8;
    let f = r.f.view_set();
    let n8 = m.read_spec(r.pc);
    let n16 = m.read_u16_spec(r.pc);
    let r_pc1 = Registers { pc: r.pc.wrapping_add(1), ..r };
    let r_pc2 = Registers { pc: r.pc.wrapping_add(2), ..r };
    if op % 8 == 4 || op % 8 == 5 {
        let v = r.r8_spec(m, y);
        let o = if op % 8 == 4 {
            inc_spec(v, f)
        } else {
            dec_spec(v, f)
        };
        if y == 6 {
            r2 == with_flags(r, o.flags) && Memory::write_spec(m, r.hl_spec(), o.value, m2)
        } else {
            r2 == with_flags(r.with_r8(y, o.value), o.flags) && m2 == m
        }
    } else if op % 8 == 6 {
        if y == 6 {
            r2 == r_pc1 && Memory::write_spec(m, r.hl_spec(), n8, m2)
        } else {
            r2 == r_pc1.with_r8(y, n8) && m2 == m
        }
    } else if op % 8 == 7 {
        m2 == m && r2 == if op < 0x20 {
            let o = shift_spec(y, r.a, f);
            with_flags(Registers { a: o.value, ..r }, FlagSet { z: false, ..o.flags })
        } else if op == 0x27 {
            let o = daa_spec(r.a, f);
            with_flags(Registers { a: o.value, ..r }, o.flags)
        } else if op == 0x2F {
            with_flags(Registers { a: !r.a, ..r }, FlagSet { n: true, h: true, ..f })
        } else if op == 0x37 {
            with_flags(r, FlagSet { n: false, h: false, c: true, ..f })
        } else {
            with_flags(r, FlagSet { n: false, h: false, c: !f.c, ..f })
        }
    } else if op % 8 == 0 {
        if op == 0x00 {
            r2 == r && m2 == m
        } else if op == 0x08 {
            r2 == r_pc2 && Memory::word_write_spec(m, n16, r.sp, m2)
        } else if op == 0x18 {
            r2 == (Registers { pc: jr_spec(r.pc.wrapping_add(1), n8), ..r }) && m2 == m
        } else {
            m2 == m && r2 == (Registers {
                pc: if cond_spec(f, y % 4) {
                    jr_spec(r.pc.wrapping_add(1), n8)
                } else {
                    r.pc.wrapping_add(1)
                },
                ..r
            })
        }
    } else if op % 16 == 1 {
        r2 == with_rr(r_pc2, op / 16, n16) && m2 == m
    } else if op % 16 == 2 {
        let addr = if op == 0x02 {
            r.bc_spec()
        } else if op == 0x12 {
            r.de_spec()
        } else {
            r.hl_spec()
        };
        Memory::write_spec(m, addr, r.a, m2) && r2 == if op == 0x22 {
            r.with_hl(r.hl_spec().wrapping_add(1))
        } else if op == 0x32 {
            r.with_hl(r.hl_spec().wrapping_sub(1))
        } else {
            r
        }
    } else if op % 16 == 10 {
        let addr = if op == 0x0A {
            r.bc_spec()
        } else if op == 0x1A {
            r.de_spec()
        } else {
            r.hl_spec()
        };
        let ra = Registers { a: m.read_spec(addr), ..r };
        m2 == m && r2 == if op == 0x2A {
            ra.with_hl(r.hl_spec().wrapping_add(1))
        } else if op == 0x3A {
            ra.with_hl(r.hl_spec().wrapping_sub(1))
        } else {
            ra
        }
    } else if op % 16 == 3 {
        m2 == m && r2 == with_rr(r, op / 16, rr_spec(r, op / 16).wrapping_add(1))
    } else if op % 16 == 11 {
        m2 == m && r2 == with_rr(r, op / 16, rr_spec(r, op / 16).wrapping_sub(1))
    } else {
        let (v, nf) = add16_spec(r.hl_spec(), rr_spec(r, op / 16), f);
        m2 == m && r2 == with_flags(r.with_hl(v), nf)
    }
}

/// Effect of an opcode in C0-FF (CB and the undefined ones aside); `r` has
/// PC past the opcode.
pub open spec fn high_post(op: u8, r: Registers, m: Memory, r2: Registers, m2: Memory) -> bool {
    let f = r.f.view_set();
    let taken = cond_spec(f, (op / 8) % 4);
    let n8 = m.read_spec(r.pc);
    let n16 = m.read_u16_spec(r.pc);
    let pc1 = r.pc.wrapping_add(1);
    let pc2 = r.pc.wrapping_add(2);
    let sp_dn = r.sp.wrapping_sub(2);
    let popped = Registers { pc: m.read_u16_spec(r.sp), sp: r.sp.wrapping_add(2), ..r };
    if op % 8 == 0 {
        if op < 0xE0 {
            m2 == m && r2 == if taken {
                popped
            } else {
                r
            }
        } else if op == 0xE0 {
            r2 == (Registers { pc: pc1, ..r }) && Memory::write_spec(
                m,
                (0xFF00 + n8) as u16,
                r.a,
                m2,
            )
        } else if op == 0xE8 {
            m2 == m && r2 == with_flags(
                Registers { sp: add_sp_spec(r.sp, n8).0, pc: pc1, ..r },
                add_sp_spec(r.sp, n8).1,
            )
        } else if op == 0xF0 {
            m2 == m && r2 == (Registers { a: m.read_spec((0xFF00 + n8) as u16), pc: pc1, ..r })
        } else {
            m2 == m && r2 == with_flags(
                Registers { pc: pc1, ..r }.with_hl(add_sp_spec(r.sp, n8).0),
                add_sp_spec(r.sp, n8).1,
            )
        }
    } else if op % 8 == 1 {
        if op % 16 == 1 {
            m2 == m && r2 == with_stack_pair(
                Registers { sp: r.sp.wrapping_add(2), ..r },
                (op / 16 - 12) as u8,
                m.read_u16_spec(r.sp),
            )
        } else if op == 0xC9 {
            m2 == m && r2 == popped
        } else if op == 0xD9 {
            m2 == m && r2 == (Registers { ime: true, ..popped })
        } else if op == 0xE9 {
            m2 == m && r2 == (Registers { pc: r.hl_spec(), ..r })
        } else {
            m2 == m && r2 == (Registers { sp: r.hl_spec(), ..r })
        }
    } else if op % 8 == 2 {
        if op < 0xE0 {
            m2 == m && r2 == (Registers {
                pc: if taken {
                    n16
                } else {
                    pc2
                },
                ..r
            })
        } else if op == 0xE2 {
            r2 == r && Memory::write_spec(m, (0xFF00 + r.c) as u16, r.a, m2)
        } else if op == 0xEA {
            r2 == (Registers { pc: pc2, ..r }) && Memory::write_spec(m, n16, r.a, m2)
        } else if op == 0xF2 {
            m2 == m && r2 == (Registers { a: m.read_spec((0xFF00 + r.c) as u16), ..r })
        } else {
            m2 == m && r2 == (Registers { a: m.read_spec(n16), pc: pc2, ..r })
        }
    } else if op % 8 == 3 {
        m2 == m && r2 == if op == 0xC3 {
            Registers { pc: n16, ..r }
        } else if op == 0xF3 {
            Registers { ime: false, delay: 0, ..r }
        } else {
            Registers { delay: 2, ..r }
        }
    } else if op % 8 == 4 || op == 0xCD {
        if op == 0xCD || taken {
            r2 == (Registers { pc: n16, sp: sp_dn, ..r }) && Memory::word_write_spec(
                m,
                sp_dn,
                pc2,
                m2,
            )
        } else {
            m2 == m && r2 == (Registers { pc: pc2, ..r })
        }
    } else if op % 8 == 5 {
        r2 == (Registers { sp: sp_dn, ..r }) && Memory::word_write_spec(
            m,
            sp_dn,
            stack_pair(r, (op / 16 - 12) as u8),
            m2,
        )
    } else if op % 8 == 6 {
        let o = alu_spec((op / 8) % 8, r.a, n8, f);
        m2 == m && r2 == with_flags(Registers { a: o.value, pc: pc1, ..r }, o.flags)
    } else {
        r2 == (Registers { pc: (op - 0xC7) as u16, sp: sp_dn, ..r }) && Memory::word_write_spec(
            m,
            sp_dn,
            r.pc,
            m2,
        )
    }
}

/// Effect of a CB-prefixed opcode; `r` has PC at the CB opcode byte.
pub open spec fn cb_post(r: Registers, m: Memory, r2: Registers, m2: Memory) -> bool {
    let cb = m.read_spec(r.pc);
    let r1 = Registers { pc: r.pc.wrapping_add(1), ..r };
    let i = cb % 8;
    let v = r1.r8_spec(m, i);
    let b = (cb / 8) % 8;
    let f = r.f.view_set();
    if cb / 64 == 0 {
        let o = shift_spec(b, v, f);
        if i == 6 {
            r2 == with_flags(r1, o.flags) && Memory::write_spec(m, r1.hl_spec(), o.value, m2)
        } else {
            r2 == with_flags(r1.with_r8(i, o.value), o.flags) && m2 == m
        }
    } else if cb / 64 == 1 {
        r2 == with_flags(r1, FlagSet { z: (v >> b) & 1 == 0, n: false, h: true, c: f.c }) && m2
            == m
    } else {
        let nv = if cb / 64 == 2 {
            v & !(1u8 << b)
        } else {
            v | (1u8 << b)
        };
        if i == 6 {
            r2 == r1 && Memory::write_spec(m, r1.hl_spec(), nv, m2)
        } else {
            r2 == r1.with_r8(i, nv) && m2 == m
        }
    }
}

/// Effect of executing opcode `op` from registers `r` (PC past the opcode)
/// and memory `m`: the result, and the registers and memory after.
pub open spec fn exec_post(
    op: u8,
    r: Registers,
    m: Memory,
    res: Result<u32, EmuError>,
    r2: Registers,
    m2: Memory,
) -> bool {
    &&& res is Err <==> is_invalid(op)
    &&& res is Err ==> res == Err::<u32, EmuError>(EmuError::InvalidOpcode(op)) && r2 == (
    Registers { stop: op == 0x10 || r.stop, ..r }) && m2 == m
    &&& res matches Ok(c) ==> c == op_cycles(op, m.read_spec(r.pc), r.f.view_set())
    &&& op != 0xF3 && op != 0xFB && op != 0xD9 ==> r2.ime == r.ime && r2.delay == r.delay
    &&& op < 0x40 && op != 0x10 ==> low_post(op, r, m, r2, m2)
    &&& op == 0x76 ==> r2 == (Registers { halt: true, ..r }) && m2 == m
    &&& 0x40 <= op < 0x80 && op != 0x76 ==> ld_post(r, m, op, r2, m2)
    &&& 0x80 <= op < 0xC0 ==> alu_post(r, m, op, r2, m2)
    &&& op == 0xCB ==> cb_post(r, m, r2, m2)
    &&& op >= 0xC0 && op != 0xCB && !is_invalid(op) ==> high_post(op, r, m, r2, m2)
}

/// Reads the byte at PC and moves PC past it.
fn fetch8(r: &mut Registers, m: &Memory) -> (v: u8)
    requires
        m.wf(),
    ensures
        v == m.read_spec(old(r).pc),
        *final(r) == (Registers { pc: old(r).pc.wrapping_add(1), ..*old(r) }),
{
    let v = m.rb(r.pc);
    r.pc = r.pc.wrapping_add(1);
    v
}

/// Reads the little-endian word at PC and moves PC past it.
fn fetch16(r: &mut Registers, m: &Memory) -> (v: u16)
    requires
        m.wf(),
    ensures
        v == m.read_u16_spec(old(r).pc),
        *final(r) == (Registers { pc: old(r).pc.wrapping_add(2), ..*old(r) }),
{
    let v = m.rw(r.pc);
    r.pc = r.pc.wrapping_add(2);
    v
}

/// Pushes a word: SP drops by two and the word is stored at the new SP.
pub fn push16(r: &mut Registers, m: &mut Memory, v: u16)
    requires
        old(m).wf(),
    ensures
        final(m).wf(),
        *final(r) == (Registers { sp: old(r).sp.wrapping_sub(2), ..*old(r) }),
        Memory::word_write_spec(*old(m), final(r).sp, v, *final(m)),
{
    r.sp = r.sp.wrapping_sub(2);
    m.ww(r.sp, v);
}

/// Pops a word: reads it at SP, then SP rises by two.
pub fn pop16(r: &mut Registers, m: &Memory) -> (v: u16)
    requires
        m.wf(),
    ensures
        v == m.read_u16_spec(old(r).sp),
        *final(r) == (Registers { sp: old(r).sp.wrapping_add(2), ..*old(r) }),
{
    let v = m.rw(r.sp);
    r.sp = r.sp.wrapping_add(2);
    v
}

fn cond(r: &Registers, cc: u8) -> (b: bool)
    ensures
        b == cond_spec(r.f.view_set(), cc),
{
    if cc == 0 {
        !r.f.z.value
    } else if cc == 1 {
        r.f.z.value
    } else if cc == 2 {
        !r.f.c.value
    } else {
        r.f.c.value
    }
}

/// 16-bit register `i` of the 01/03/09/0B columns (0 BC, 1 DE, 2 HL, 3 SP).
fn get_rr(r: &Registers, i: u8) -> (v: u16)
    ensures
        v == rr_spec(*r, i),
{
    if i == 0 {
        r.bc()
    } else if i == 1 {
        r.de()
    } else if i == 2 {
        r.hl()
    } else {
        r.sp
    }
}

fn set_rr(r: &mut Registers, i: u8, v: u16)
    ensures
        *final(r) == with_rr(*old(r), i, v),
{
    if i == 0 {
        r.bc_set(v);
    } else if i == 1 {
        r.de_set(v);
    } else if i == 2 {
        r.hl_set(v);
    } else {
        r.sp = v;
    }
}

/// The word PUSH/POP column `i` moves (0 BC, 1 DE, 2 HL, 3 AF).
pub open spec fn stack_pair(r: Registers, i: u8) -> u16 {
    if i == 0 {
        r.bc_spec()
    } else if i == 1 {
        r.de_spec()
    } else if i == 2 {
        r.hl_spec()
    } else {
        r.af_spec()
    }
}

fn get_stack_pair(r: &Registers, i: u8) -> (v: u16)
    ensures
        v == stack_pair(*r, i),
{
    if i == 0 {
        r.bc()
    } else if i == 1 {
        r.de()
    } else if i == 2 {
        r.hl()
    } else {
        r.af()
    }
}

fn set_stack_pair(r: &mut Registers, i: u8, v: u16)
    requires
        i <= 3,
    ensures
        *final(r) == with_stack_pair(*old(r), i, v),
{
    if i == 0 {
        r.bc_set(v);
    } else if i == 1 {
        r.de_set(v);
    } else if i == 2 {
        r.hl_set(v);
    } else {
        r.af_set(v);
    }
}

/// LD r,r' and HALT (opcodes 40-7F).
fn exec_ld(op: u8, r: &mut Registers, m: &mut Memory) -> (c: u32)
    requires
        old(m).wf(),
        0x40 <= op < 0x80,
    ensures
        final(m).wf(),
        c == op_cycles(op, 0, old(r).f.view_set()),
        op == 0x76 ==> *final(r) == (Registers { halt: true, ..*old(r) }) && *final(m) == *old(m),
        op != 0x76 ==> ld_post(*old(r), *old(m), op, *final(r), *final(m)),
{
    if op == 0x76 {
        r.halt = true;
        return 4;
    }
    let src = op % 8;
    let dst = (op / 8) % 8;
    let v = r.get_r8(m, src);
    r.set_r8(m, dst, v);
    if src == 6 || dst == 6 {
        8
    } else {
        4
    }
}

/// ADD/ADC/SUB/SBC/AND/XOR/OR/CP A,r (opcodes 80-BF).
fn exec_alu(op: u8, r: &mut Registers, m: &mut Memory) -> (c: u32)
    requires
        old(m).wf(),
        0x80 <= op < 0xC0,
    ensures
        final(m).wf(),
        c == op_cycles(op, 0, old(r).f.view_set()),
        alu_post(*old(r), *old(m), op, *final(r), *final(m)),
{
    let v = r.get_r8(m, op % 8);
    let o = alu((op / 8) % 8, r.a, v, r.f.to_set());
    r.a = o.value;
    r.f = Flags::from_set(o.flags);
    if op % 8 == 6 {
        8
    } else {
        4
    }
}

/// The CB-prefixed rotates, shifts and bit operations.
fn exec_cb(r: &mut Registers, m: &mut Memory) -> (c: u32)
    requires
        old(m).wf(),
    ensures
        final(m).wf(),
        c == cb_cycles(old(m).read_spec(old(r).pc)),
        cb_post(*old(r), *old(m), *final(r), *final(m)),
{
    let cb = fetch8(r, m);
    let i = cb % 8;
    let b = (cb / 8) % 8;
    let v = r.get_r8(m, i);
    let x = cb / 64;
    if x == 0 {
        let o = shift(b, v, r.f.to_set());
        r.set_r8(m, i, o.value);
        r.f = Flags::from_set(o.flags);
    } else if x == 1 {
        let c = r.f.c.value;
        r.f = Flags::from_set(FlagSet { z: (v >> b) & 1 == 0, n: false, h: true, c });
    } else {
        let nv = if x == 2 {
            v & !(1u8 << b)
        } else {
            v | (1u8 << b)
        };
        r.set_r8(m, i, nv);
    }
    if i == 6 {
        if x == 1 {
            12
        } else {
            16
        }
    } else {
        8
    }
}

/// Opcodes 00-3F (STOP excluded).
#[verifier::rlimit(50)]
fn exec_low(op: u8, r: &mut Registers, m: &mut Memory) -> (c: u32)
    requires
        old(m).wf(),
        op < 0x40,
        op != 0x10,
    ensures
        final(m).wf(),
        c == low_cycles(op, old(r).f.view_set()),
        final(r).ime == old(r).ime,
        final(r).delay == old(r).delay,
        low_post(op, *old(r), *old(m), *final(r), *final(m)),
{
    let y = op / 8;
    let f = r.f.to_set();
    if op % 8 == 4 {
        let v = r.get_r8(m, y);
        let o = inc(v, f);
        r.set_r8(m, y, o.value);
        r.f = Flags::from_set(o.flags);
        if y == 6 {
            12
        } else {
            4
        }
    } else if op % 8 == 5 {
        let v = r.get_r8(m, y);
        let o = dec(v, f);
        r.set_r8(m, y, o.value);
        r.f = Flags::from_set(o.flags);
        if y == 6 {
            12
        } else {
            4
        }
    } else if op % 8 == 6 {
        let v = fetch8(r, m);
        r.set_r8(m, y, v);
        if y == 6 {
            12
        } else {
            8
        }
    } else if op % 8 == 7 {
        if op < 0x20 {
            let o = shift(y, r.a, f);
            r.a = o.value;
            r.f = Flags::from_set(FlagSet { z: false, ..o.flags });
        } else if op == 0x27 {
            let o = daa(r.a, f);
            r.a = o.value;
            r.f = Flags::from_set(o.flags);
        } else if op == 0x2F {
            r.a = !r.a;
            r.f = Flags::from_set(FlagSet { n: true, h: true, ..f });
        } else if op == 0x37 {
            r.f = Flags::from_set(FlagSet { n: false, h: false, c: true, ..f });
        } else {
            r.f = Flags::from_set(FlagSet { n: false, h: false, c: !f.c, ..f });
        }
        4
    } else if op % 8 == 0 {
        if op == 0x00 {
            4
        } else if op == 0x08 {
            let nn = fetch16(r, m);
            m.ww(nn, r.sp);
            20
        } else if op == 0x18 {
            let e = fetch8(r, m);
            r.pc = jr_target(r.pc, e);
            12
        } else {
            let e = fetch8(r, m);
            if cond(r, y % 4) {
                r.pc = jr_target(r.pc, e);
                12
            } else {
                8
            }
        }
    } else if op % 16 == 1 {
        let v = fetch16(r, m);
        set_rr(r, op / 16, v);
        12
    } else if op % 16 == 2 {
        let addr = if op == 0x02 {
            r.bc()
        } else if op == 0x12 {
            r.de()
        } else {
            r.hl()
        };
        m.wb(addr, r.a);
        if op == 0x22 {
            r.inc_hl();
        } else if op == 0x32 {
            r.dec_hl();
        }
        8
    } else if op % 16 == 10 {
        let addr = if op == 0x0A {
            r.bc()
        } else if op == 0x1A {
            r.de()
        } else {
            r.hl()
        };
        r.a = m.rb(addr);
        if op == 0x2A {
            r.inc_hl();
        } else if op == 0x3A {
            r.dec_hl();
        }
        8
    } else if op % 16 == 3 {
        let v = get_rr(r, op / 16).wrapping_add(1);
        set_rr(r, op / 16, v);
        8
    } else if op % 16 == 11 {
        let v = get_rr(r, op / 16).wrapping_sub(1);
        set_rr(r, op / 16, v);
        8
    } else {
        let (v, nf) = add16(r.hl(), get_rr(r, op / 16), f);
        r.hl_set(v);
        r.f = Flags::from_set(nf);
        8
    }
}

/// Where a relative jump by `e` (signed) from `pc` lands.
pub open spec fn jr_spec(pc: u16, e: u8) -> u16 {
    ((pc + crate::alu::signed(e) + 65536) % 65536) as u16
}

fn jr_target(pc: u16, e: u8) -> (r: u16)
    ensures
        r == jr_spec(pc, e),
{
    if e < 128 {
        ((pc as u32 + e as u32) % 65536) as u16
    } else {
        ((pc as u32 + 65536 + e as u32 - 256) % 65536) as u16
    }
}

/// RET cc, LDH, ADD SP,d and LD HL,SP+d (column 0 of C0-FF).
fn exec_high_ret_ldh(op: u8, r: &mut Registers, m: &mut Memory) -> (c: u32)
    requires
        old(m).wf(),
        op >= 0xC0,
        op != 0xCB,
        !is_invalid(op),
        op % 8 == 0,
    ensures
        final(m).wf(),
        c == high_cycles(op, old(r).f.view_set()),
        op != 0xF3 && op != 0xFB && op != 0xD9 ==> final(r).ime == old(r).ime && final(r).delay
            == old(r).delay,
        high_post(op, *old(r), *old(m), *final(r), *final(m)),
{
    let cc = (op / 8) % 4;
    if op < 0xE0 {
        if cond(r, cc) {
            r.pc = pop16(r, m);
            20
        } else {
            8
        }
    } else if op == 0xE0 {
        let n = fetch8(r, m);
        m.wb(0xFF00 + n as u16, r.a);
        12
    } else if op == 0xE8 {
        let e = fetch8(r, m);
        let (v, nf) = add_sp(r.sp, e);
        r.sp = v;
        r.f = Flags::from_set(nf);
        16
    } else if op == 0xF0 {
        let n = fetch8(r, m);
        r.a = m.rb(0xFF00 + n as u16);
        12
    } else {
        let e = fetch8(r, m);
        let (v, nf) = add_sp(r.sp, e);
        r.hl_set(v);
        r.f = Flags::from_set(nf);
        12
    }
}

/// POP, RET, RETI, JP HL and LD SP,HL (column 1 of C0-FF).
fn exec_high_pop_ret(op: u8, r: &mut Registers, m: &mut Memory) -> (c: u32)
    requires
        old(m).wf(),
        op >= 0xC0,
        op != 0xCB,
        !is_invalid(op),
        op % 8 == 1,
    ensures
        final(m).wf(),
        c == high_cycles(op, old(r).f.view_set()),
        op != 0xF3 && op != 0xFB && op != 0xD9 ==> final(r).ime == old(r).ime && final(r).delay
            == old(r).delay,
        high_post(op, *old(r), *old(m), *final(r), *final(m)),
{
    if op % 16 == 1 {
        let v = pop16(r, m);
        set_stack_pair(r, op / 16 - 12, v);
        12
    } else if op == 0xC9 {
        r.pc = pop16(r, m);
        16
    } else if op == 0xD9 {
        r.pc = pop16(r, m);
        r.ime = true;
        16
    } else if op == 0xE9 {
        r.pc = r.hl();
        4
    } else {
        r.sp = r.hl();
        8
    }
}

/// JP cc, LD (C)/(nn) with A, JP nn, DI and EI (columns 2 and 3 of C0-FF).
fn exec_high_jp_ld(op: u8, r: &mut Registers, m: &mut Memory) -> (c: u32)
    requires
        old(m).wf(),
        op >= 0xC0,
        op != 0xCB,
        !is_invalid(op),
        op % 8 == 2 || op % 8 == 3,
    ensures
        final(m).wf(),
        c == high_cycles(op, old(r).f.view_set()),
        op != 0xF3 && op != 0xFB && op != 0xD9 ==> final(r).ime == old(r).ime && final(r).delay
            == old(r).delay,
        high_post(op, *old(r), *old(m), *final(r), *final(m)),
{
    let cc = (op / 8) % 4;
    if op % 8 == 2 {
        if op < 0xE0 {
            let nn = fetch16(r, m);
            if cond(r, cc) {
                r.pc = nn;
                16
            } else {
                12
            }
        } else if op == 0xE2 {
            m.wb(0xFF00 + r.c as u16, r.a);
            8
        } else if op == 0xEA {
            let nn = fetch16(r, m);
            m.wb(nn, r.a);
            16
        } else if op == 0xF2 {
            r.a = m.rb(0xFF00 + r.c as u16);
            8
        } else {
            let nn = fetch16(r, m);
            r.a = m.rb(nn);
            16
        }
    } else {
        if op == 0xC3 {
            r.pc = fetch16(r, m);
            16
        } else if op == 0xF3 {
            r.di();
            4
        } else {
            r.ei();
            4
        }
    }
}

/// CALL, PUSH, ALU with an immediate, and RST (columns 4-7 of C0-FF).
fn exec_high_call_push(op: u8, r: &mut Registers, m: &mut Memory) -> (c: u32)
    requires
        old(m).wf(),
        op >= 0xC0,
        op != 0xCB,
        !is_invalid(op),
        op % 8 >= 4,
    ensures
        final(m).wf(),
        c == high_cycles(op, old(r).f.view_set()),
        op != 0xF3 && op != 0xFB && op != 0xD9 ==> final(r).ime == old(r).ime && final(r).delay
            == old(r).delay,
        high_post(op, *old(r), *old(m), *final(r), *final(m)),
{
    let cc = (op / 8) % 4;
    let f = r.f.to_set();
    if op % 8 == 4 {
        let nn = fetch16(r, m);
        if cond(r, cc) {
            let ret = r.pc;
            push16(r, m, ret);
            r.pc = nn;
            24
        } else {
            12
        }
    } else if op % 8 == 5 {
        if op == 0xCD {
            let nn = fetch16(r, m);
            let ret = r.pc;
            push16(r, m, ret);
            r.pc = nn;
            24
        } else {
            let v = get_stack_pair(r, op / 16 - 12);
            push16(r, m, v);
            16
        }
    } else if op % 8 == 6 {
        let n = fetch8(r, m);
        let o = alu((op / 8) % 8, r.a, n, f);
        r.a = o.value;
        r.f = Flags::from_set(o.flags);
        8
    } else {
        let ret = r.pc;
        push16(r, m, ret);
        r.pc = (op - 0xC7) as u16;
        16
    }
}

/// Opcodes C0-FF (CB and the invalid ones excluded).
fn exec_high(op: u8, r: &mut Registers, m: &mut Memory) -> (c: u32)
    requires
        old(m).wf(),
        op >= 0xC0,
        op != 0xCB,
        !is_invalid(op),
    ensures
        final(m).wf(),
        c == high_cycles(op, old(r).f.view_set()),
        op != 0xF3 && op != 0xFB && op != 0xD9 ==> final(r).ime == old(r).ime && final(r).delay
            == old(r).delay,
        high_post(op, *old(r), *old(m), *final(r), *final(m)),
{
    if op % 8 == 0 {
        exec_high_ret_ldh(op, r, m)
    } else if op % 8 == 1 {
        exec_high_pop_ret(op, r, m)
    } else if op % 8 <= 3 {
        exec_high_jp_ld(op, r, m)
    } else {
        exec_high_call_push(op, r, m)
    }
}

/// Executes opcode `op`, whose byte PC has already moved past. Returns the
/// T-cycles it took, or the error for an undefined opcode or STOP.
pub fn exec(op: u8, r: &mut Registers, m: &mut Memory) -> (res: Result<u32, EmuError>)
    requires
        old(m).wf(),
    ensures
        final(m).wf(),
        exec_post(op, *old(r), *old(m), res, *final(r), *final(m)),
{
    if is_invalid_op(op) {
        if op == 0x10 {
            r.stop = true;
        }
        return Err(EmuError::InvalidOpcode(op));
    }
    if op < 0x40 {
        Ok(exec_low(op, r, m))
    } else if op < 0x80 {
        Ok(exec_ld(op, r, m))
    } else if op < 0xC0 {
        Ok(exec_alu(op, r, m))
    } else if op == 0xCB {
        Ok(exec_cb(r, m))
    } else {
        Ok(exec_high(op, r, m))
    }
}

/// PUSH rr followed by POP rr gives the pair back (AF with F's low nibble
/// clear, as it always reads), provided the two stack bytes are plain RAM.
/// `o` and `n` are the memory before and after the push, `r2` the registers
/// after the pop as `high_post` gives them.
pub proof fn lemma_push_pop_round_trip(r: Registers, i: u8, o: Memory, n: Memory, r2: Registers)
    requires
        o.wf(),
        i <= 3,
        is_plain_ram(r.sp.wrapping_sub(2)),
        is_plain_ram(r.sp.wrapping_sub(1)),
        r.sp.wrapping_sub(2) < 0xFFFF,
        Memory::word_write_spec(o, r.sp.wrapping_sub(2), stack_pair(r, i), n),
        r2 == with_stack_pair(r, i, n.read_u16_spec(r.sp.wrapping_sub(2))),
    ensures
        stack_pair(r2, i) == stack_pair(r, i),
{
    let sp2 = r.sp.wrapping_sub(2);
    let v = stack_pair(r, i);
    let mid = choose|mid: Memory|
        #[trigger] Memory::write_spec(o, sp2, (v % 256) as u8, mid) && Memory::write_spec(
            mid,
            sp2.wrapping_add(1),
            (v / 256) as u8,
            n,
        );
    assert(sp2.wrapping_add(1) == r.sp.wrapping_sub(1));
    assert((sp2 + 1) as u16 == sp2.wrapping_add(1));
    lemma_word_round_trip(o, mid, n, sp2, v);
    lemma_stack_pair_set_get(r, i, v);
    crate::cpu::lemma_af_low_nibble_zero(r);
}

/// Reading back a PUSH/POP pair just set gives the value, with F's low
/// nibble dropped for AF.
proof fn lemma_stack_pair_set_get(r: Registers, i: u8, v: u16)
    requires
        i <= 3,
    ensures
        stack_pair(with_stack_pair(r, i, v), i) == if i < 3 {
            v as int
        } else {
            v - v % 16
        },
{
    if i == 3 {
        lemma_pack_unpack((v % 256) as u8);
        let lo = (v % 256) as u8;
        assert(v - v % 16 == (v / 256) * 256 + (lo - lo % 16));
    }
}

fn is_invalid_op(op: u8) -> (b: bool)
    ensures
        b == is_invalid(op),
{
    op == 0x10 || op == 0xD3 || op == 0xDB || op == 0xDD || op == 0xE3 || op == 0xE4 || op == 0xEB
        || op == 0xEC || op == 0xED || op == 0xF4 || op == 0xFC || op == 0xFD
}

} // verus!
