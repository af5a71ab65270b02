//! The register file, the flags, and the CPU step with interrupt servicing.

use vstd::prelude::*;
use crate::alu::FlagSet;
use crate::error::EmuError;
use crate::instructions::{exec, exec_post};
use crate::interrupt::{highest_pending, interrupt_bit, interrupt_vector, Interrupt};
use crate::mmu::Memory;

verus! {

/// A 16-bit register held as its high and low bytes.
#[derive(Clone, Copy, Debug, PartialEq, Eq, Structural)]
pub struct Register {
    pub high: u8,
    pub low: u8,
}

impl Register {
    pub open spec fn value(&self) -> u16 {
        pair(self.high, self.low)
    }

    pub fn get_both(&self) -> (r: u16)
        ensures
            r == self.value(),
    {
        self.high as u16 * 256 + self.low as u16
    }

    pub fn set_both(&mut self, val: u16)
        ensures
            final(self).value() == val,
            final(self).high == val / 256,
            final(self).low == val % 256,
    {
        self.high = (val / 256) as u8;
        self.low = (val % 256) as u8;
    }
}

/// One flag bit of F.
#[derive(Clone, Copy, Debug, PartialEq, Eq, Structural)]
pub struct Flag {
    pub value: bool,
}

impl Flag {
    pub fn get(&self) -> (r: bool)
        ensures
            r == self.value,
    {
        self.value
    }

    pub fn set(&mut self)
        ensures
            final(self).value,
    {
        self.value = true;
    }

    pub fn unset(&mut self)
        ensures
            !final(self).value,
    {
        self.value = false;
    }

    pub fn toggle(&mut self)
        ensures
            final(self).value == !old(self).value,
    {
        self.value = !self.value;
    }

    pub fn set_if(&mut self, cond: bool)
        ensures
            final(self).value == cond,
    {
        self.value = cond;
    }
}

/// The flag register F: zero, subtract, half carry, carry.
#[derive(Clone, Copy, Debug, PartialEq, Eq, Structural)]
pub struct Flags {
    pub z: Flag,
    pub n: Flag,
    pub h: Flag,
    pub c: Flag,
}

impl Flags {
    pub open spec fn view_set(&self) -> FlagSet {
        FlagSet { z: self.z.value, n: self.n.value, h: self.h.value, c: self.c.value }
    }

    pub open spec fn of_set(s: FlagSet) -> Flags {
        Flags {
            z: Flag { value: s.z },
            n: Flag { value: s.n },
            h: Flag { value: s.h },
            c: Flag { value: s.c },
        }
    }

    /// Clears all four flags.
    pub fn reset(&mut self)
        ensures
            final(self).view_set() == (FlagSet { z: false, n: false, h: false, c: false }),
    {
        self.z.unset();
        self.n.unset();
        self.h.unset();
        self.c.unset();
    }

    pub fn to_set(&self) -> (r: FlagSet)
        ensures
            r == self.view_set(),
    {
        FlagSet { z: self.z.value, n: self.n.value, h: self.h.value, c: self.c.value }
    }

    pub fn from_set(s: FlagSet) -> (r: Flags)
        ensures
            r == Flags::of_set(s),
            r.view_set() == s,
    {
        Flags {
            z: Flag { value: s.z },
            n: Flag { value: s.n },
            h: Flag { value: s.h },
            c: Flag { value: s.c },
        }
    }
}

/// The register file, the interrupt master enable with its delay counter,
/// and the HALT and STOP states.
#[derive(Clone, Copy, Debug, PartialEq, Eq, Structural)]
pub struct Registers {
    /// Interrupt master enable.
    pub ime: bool,
    pub halt: bool,
    pub stop: bool,
    pub a: u8,
    pub b: u8,
    pub c: u8,
    pub d: u8,
    pub e: u8,
    pub h: u8,
    pub l: u8,
    pub f: Flags,
    pub sp: u16,
    pub pc: u16,
    /// Steps left before a pending EI takes effect: 2, 1 or 0.
    pub delay: u8,
}

/// F packed as `ZNHC0000`.
pub open spec fn pack_flags(f: FlagSet) -> u8 {
    ((if f.z { 0x80int } else { 0int }) + (if f.n { 0x40int } else { 0int }) + (if f.h {
        0x20int
    } else {
        0int
    }) + (if f.c { 0x10int } else { 0int })) as u8
}

/// The flags that a packed F byte holds; its low four bits are ignored.
pub open spec fn unpack_flags(v: u8) -> FlagSet {
    FlagSet {
        z: (v / 128) % 2 == 1,
        n: (v / 64) % 2 == 1,
        h: (v / 32) % 2 == 1,
        c: (v / 16) % 2 == 1,
    }
}

pub open spec fn pair(hi: u8, lo: u8) -> u16 {
    (hi * 256 + lo) as u16
}

impl Registers {
    pub open spec fn f_spec(&self) -> u8 {
        pack_flags(self.f.view_set())
    }

    pub open spec fn af_spec(&self) -> u16 {
        pair(self.a, self.f_spec())
    }

    pub open spec fn bc_spec(&self) -> u16 {
        pair(self.b, self.c)
    }

    pub open spec fn de_spec(&self) -> u16 {
        pair(self.d, self.e)
    }

    pub open spec fn hl_spec(&self) -> u16 {
        pair(self.h, self.l)
    }

    /// 8-bit operand `i` of the opcode encoding (0 B, 1 C, 2 D, 3 E, 4 H,
    /// 5 L, 6 (HL), 7 A).
    pub open spec fn r8_spec(&self, m: Memory, i: u8) -> u8 {
        if i == 0 {
            self.b
        } else if i == 1 {
            self.c
        } else if i == 2 {
            self.d
        } else if i == 3 {
            self.e
        } else if i == 4 {
            self.h
        } else if i == 5 {
            self.l
        } else if i == 6 {
            m.read_spec(self.hl_spec())
        } else {
            self.a
        }
    }

    /// The registers with register operand `i` (not 6) set to `v`.
    pub open spec fn with_r8(self, i: u8, v: u8) -> Registers {
        if i == 0 {
            Registers { b: v, ..self }
        } else if i == 1 {
            Registers { c: v, ..self }
        } else if i == 2 {
            Registers { d: v, ..self }
        } else if i == 3 {
            Registers { e: v, ..self }
        } else if i == 4 {
            Registers { h: v, ..self }
        } else if i == 5 {
            Registers { l: v, ..self }
        } else {
            Registers { a: v, ..self }
        }
    }

    /// The registers with HL set to `v`.
    pub open spec fn with_hl(self, v: u16) -> Registers {
        Registers { h: (v / 256) as u8, l: (v % 256) as u8, ..self }
    }

    /// The registers after advancing the EI delay counter by one step.
    pub open spec fn int_step_spec(self) -> Registers {
        if self.delay == 1 {
            Registers { delay: 0, ime: true, ..self }
        } else if self.delay == 2 {
            Registers { delay: 1, ..self }
        } else {
            self
        }
    }

    /// F as the packed byte `ZNHC0000`.
    pub fn f(&self) -> (r: u8)
        ensures
            r == self.f_spec(),
    {
        let z: u8 = if self.f.z.value {
            0x80
        } else {
            0
        };
        let n: u8 = if self.f.n.value {
            0x40
        } else {
            0
        };
        let h: u8 = if self.f.h.value {
            0x20
        } else {
            0
        };
        let c: u8 = if self.f.c.value {
            0x10
        } else {
            0
        };
        z + n + h + c
    }

    pub fn af(&self) -> (r: u16)
        ensures
            r == self.af_spec(),
            r % 16 == 0,
    {
        self.a as u16 * 256 + self.f() as u16
    }

    pub fn bc(&self) -> (r: u16)
        ensures
            r == self.bc_spec(),
    {
        self.b as u16 * 256 + self.c as u16
    }

    pub fn de(&self) -> (r: u16)
        ensures
            r == self.de_spec(),
    {
        self.d as u16 * 256 + self.e as u16
    }

    pub fn hl(&self) -> (r: u16)
        ensures
            r == self.hl_spec(),
    {
        self.h as u16 * 256 + self.l as u16
    }

    /// Loads AF; F keeps only its high four bits.
    pub fn af_set(&mut self, new: u16)
        ensures
            *final(self) == (Registers {
                a: (new / 256) as u8,
                f: Flags::of_set(unpack_flags((new % 256) as u8)),
                ..*old(self)
            }),
            final(self).af_spec() == new - new % 16,
    {
        self.a = (new / 256) as u8;
        let lo = (new % 256) as u8;
        self.f = Flags::from_set(
            FlagSet {
                z: (lo / 128) % 2 == 1,
                n: (lo / 64) % 2 == 1,
                h: (lo / 32) % 2 == 1,
                c: (lo / 16) % 2 == 1,
            },
        );
        proof {
            lemma_pack_unpack(lo);
        }
    }

    pub fn bc_set(&mut self, new: u16)
        ensures
            *final(self) == (Registers { b: (new / 256) as u8, c: (new % 256) as u8, ..*old(self) }),
            final(self).bc_spec() == new,
    {
        self.b = (new / 256) as u8;
        self.c = (new % 256) as u8;
    }

    pub fn de_set(&mut self, new: u16)
        ensures
            *final(self) == (Registers { d: (new / 256) as u8, e: (new % 256) as u8, ..*old(self) }),
            final(self).de_spec() == new,
    {
        self.d = (new / 256) as u8;
        self.e = (new % 256) as u8;
    }

    pub fn hl_set(&mut self, new: u16)
        ensures
            *final(self) == (Registers { h: (new / 256) as u8, l: (new % 256) as u8, ..*old(self) }),
            final(self).hl_spec() == new,
    {
        self.h = (new / 256) as u8;
        self.l = (new % 256) as u8;
    }

    pub fn pc(&self) -> (r: u16)
        ensures
            r == self.pc,
    {
        self.pc
    }

    /// Returns PC and moves it to the next byte.
    pub fn bump(&mut self) -> (r: u16)
        ensures
            r == old(self).pc,
            *final(self) == (Registers { pc: old(self).pc.wrapping_add(1), ..*old(self) }),
    {
        let ret = self.pc;
        self.pc = self.pc.wrapping_add(1);
        ret
    }

    /// Advances the EI delay: 2 becomes 1; 1 becomes 0 and enables
    /// interrupts.
    pub fn int_step(&mut self)
        ensures
            *final(self) == old(self).int_step_spec(),
    {
        if self.delay == 1 {
            self.delay = 0;
            self.ime = true;
        } else if self.delay == 2 {
            self.delay = 1;
        }
    }

    /// Schedules interrupts to be enabled after the next instruction.
    pub fn ei(&mut self)
        ensures
            *final(self) == (Registers { delay: 2, ..*old(self) }),
    {
        self.delay = 2;
    }

    /// Disables interrupts at once and drops a pending EI.
    pub fn di(&mut self)
        ensures
            *final(self) == (Registers { ime: false, delay: 0, ..*old(self) }),
    {
        self.ime = false;
        self.delay = 0;
    }

    /// HL + 1, as a 16-bit increment.
    pub fn inc_hl(&mut self)
        ensures
            final(self).hl_spec() == old(self).hl_spec().wrapping_add(1),
            *final(self) == old(self).with_hl(old(self).hl_spec().wrapping_add(1)),
    {
        let v = self.hl().wrapping_add(1);
        self.hl_set(v);
    }

    /// HL - 1, as a 16-bit decrement.
    pub fn dec_hl(&mut self)
        ensures
            final(self).hl_spec() == old(self).hl_spec().wrapping_sub(1),
            *final(self) == old(self).with_hl(old(self).hl_spec().wrapping_sub(1)),
    {
        let v = self.hl().wrapping_sub(1);
        self.hl_set(v);
    }

    /// Register operand `i` (0-7, 6 being the byte at HL).
    pub fn get_r8(&self, m: &Memory, i: u8) -> (r: u8)
        requires
            m.wf(),
        ensures
            r == self.r8_spec(*m, i),
    {
        if i == 0 {
            self.b
        } else if i == 1 {
            self.c
        } else if i == 2 {
            self.d
        } else if i == 3 {
            self.e
        } else if i == 4 {
            self.h
        } else if i == 5 {
            self.l
        } else if i == 6 {
            m.rb(self.hl())
        } else {
            self.a
        }
    }

    /// Stores `v` in register operand `i`; operand 6 writes the byte at HL.
    pub fn set_r8(&mut self, m: &mut Memory, i: u8, v: u8)
        requires
            old(m).wf(),
        ensures
            final(m).wf(),
            i != 6 ==> *final(self) == old(self).with_r8(i, v) && *final(m) == *old(m),
            i == 6 ==> *final(self) == *old(self) && Memory::write_spec(
                *old(m),
                old(self).hl_spec(),
                v,
                *final(m),
            ),
    {
        if i == 0 {
            self.b = v;
        } else if i == 1 {
            self.c = v;
        } else if i == 2 {
            self.d = v;
        } else if i == 3 {
            self.e = v;
        } else if i == 4 {
            self.h = v;
        } else if i == 5 {
            self.l = v;
        } else if i == 6 {
            m.wb(self.hl(), v);
        } else {
            self.a = v;
        }
    }
}

/// Largest cycle count one step can report.
pub const MAX_STEP_CYCLES: u64 = 24;

/// The processor: its registers and the running count of T-cycles.
#[derive(Clone, Copy, Debug)]
pub struct Cpu {
    pub regs: Registers,
    /// Sum of the cycle counts of all steps so far.
    pub total_cycles: u64,
    pub is_running: bool,
}

/// The registers at power-on, once the boot ROM has run.
pub open spec fn power_on_regs(r: Registers) -> bool {
    &&& r.af_spec() == 0x01B0
    &&& r.bc_spec() == 0x0013
    &&& r.de_spec() == 0x00D8
    &&& r.hl_spec() == 0x014D
    &&& r.sp == 0xFFFE
    &&& r.pc == 0x0100
    &&& !r.ime
    &&& !r.halt
    &&& !r.stop
    &&& r.delay == 0
}

/// What one CPU step does, from processor `c` and memory `m` to `c2` and
/// `m2` with result `res`: the EI delay advances; then the highest-priority
/// pending interrupt is serviced, or a halted CPU idles, or one instruction
/// is fetched and executed as `exec_post` says. The cycle count adds to
/// `total_cycles`.
pub open spec fn step_post(
    c: Cpu,
    m: Memory,
    res: Result<u32, EmuError>,
    c2: Cpu,
    m2: Memory,
) -> bool {
    &&& c2.is_running == c.is_running
    &&& res matches Ok(n) ==> 4 <= n <= MAX_STEP_CYCLES && c2.total_cycles == c.total_cycles + n
    &&& res is Err ==> c2.total_cycles == c.total_cycles
    &&& {
        let r0 = c.regs.int_step_spec();
        let pending = m.ie_ & m.if_ & 0x1F;
        let r1 = Registers { halt: false, pc: r0.pc.wrapping_add(1), ..r0 };
        let op = m.read_spec(r0.pc);
        let fr = c2.regs;
        if r0.ime && pending != 0 {
            let i = highest_pending(pending).unwrap();
            &&& res == Ok::<u32, EmuError>(20)
            &&& fr == (Registers {
                ime: false,
                halt: false,
                sp: r0.sp.wrapping_sub(2),
                pc: interrupt_vector(i),
                ..r0
            })
            &&& exists|m1: Memory|
                #[trigger] Memory::with_if(m, m.if_ & !interrupt_bit(i), m1)
                    && Memory::word_write_spec(m1, fr.sp, r0.pc, m2)
        } else if r0.halt && pending == 0 {
            res == Ok::<u32, EmuError>(4) && fr == r0 && m2 == m
        } else {
            exec_post(op, r1, m, res, fr, m2)
        }
    }
}

impl Cpu {
    pub fn new() -> (r: Cpu)
        ensures
            power_on_regs(r.regs),
            r.total_cycles == 0,
            r.is_running,
    {
        let f = Flag { value: false };
        let mut cpu = Cpu {
            regs: Registers {
                ime: false,
                halt: false,
                stop: false,
                a: 0,
                b: 0,
                c: 0,
                d: 0,
                e: 0,
                h: 0,
                l: 0,
                f: Flags { z: f, n: f, h: f, c: f },
                sp: 0,
                pc: 0,
                delay: 0,
            },
            total_cycles: 0,
            is_running: true,
        };
        cpu.reset_state();
        cpu
    }

    /// The power-up register values: A=01, F=ZHC, BC=0013, DE=00D8,
    /// HL=014D, SP=FFFE, PC=0100.
    pub fn reset_state(&mut self)
        ensures
            power_on_regs(final(self).regs),
            final(self).total_cycles == old(self).total_cycles,
            final(self).is_running == old(self).is_running,
    {
        self.regs.a = 0x01;
        self.regs.f = Flags::from_set(FlagSet { z: true, n: false, h: true, c: true });
        self.regs.bc_set(0x0013);
        self.regs.de_set(0x00D8);
        self.regs.hl_set(0x014D);
        self.regs.sp = 0xFFFE;
        self.regs.pc = 0x0100;
        self.regs.ime = false;
        self.regs.halt = false;
        self.regs.stop = false;
        self.regs.delay = 0;
    }

    pub fn get_regs(&self) -> (r: &Registers)
        ensures
            *r == self.regs,
    {
        &self.regs
    }

    pub fn get_regs_mut(&mut self) -> (r: &mut Registers)
        ensures
            *r == old(self).regs,
            *final(self) == (Cpu { regs: *final(r), ..*old(self) }),
    {
        &mut self.regs
    }

    pub fn get_flags_mut(&mut self) -> (r: &mut Flags)
        ensures
            *r == old(self).regs.f,
            *final(self) == (Cpu { regs: Registers { f: *final(r), ..old(self).regs }, ..*old(self) }),
    {
        &mut self.regs.f
    }

    pub fn get_flags(&self) -> (r: &Flags)
        ensures
            *r == self.regs.f,
    {
        &self.regs.f
    }

    /// Runs one step: advances the EI delay, then services the
    /// highest-priority pending interrupt (20 T-cycles), or idles while
    /// halted (4 T-cycles), or fetches and executes one instruction. Returns
    /// the T-cycles consumed, or the error for an undefined opcode or STOP.
    pub fn exec(&mut self, mem: &mut Memory) -> (res: Result<u32, EmuError>)
        requires
            old(mem).wf(),
            old(self).total_cycles <= u64::MAX - MAX_STEP_CYCLES,
        ensures
            final(mem).wf(),
            step_post(*old(self), *old(mem), res, *final(self), *final(mem)),
    {
        self.regs.int_step();
        let pending = mem.ie_ & mem.if_ & 0x1F;
        proof {
            lemma_pending_has_source(mem.ie_ & mem.if_);
        }
        if self.regs.ime && pending != 0 {
            let i = Interrupt::highest(pending).unwrap();
            self.regs.ime = false;
            proof {
                crate::mmu::lemma_if_bits(mem.if_, !interrupt_bit(i));
            }
            mem.if_ = mem.if_ & !i.bit();
            let ghost m1 = *mem;
            self.regs.sp = self.regs.sp.wrapping_sub(2);
            let sp = self.regs.sp;
            let pc = self.regs.pc;
            mem.ww(sp, pc);
            self.regs.pc = i.vector();
            self.regs.halt = false;
            self.total_cycles = self.total_cycles + 20;
            assert(Memory::with_if(*old(mem), old(mem).if_ & !interrupt_bit(i), m1));
            return Ok(20);
        }
        if self.regs.halt {
            if pending == 0 {
                self.total_cycles = self.total_cycles + 4;
                return Ok(4);
            }
            self.regs.halt = false;
        }
        let op = mem.rb(self.regs.pc);
        self.regs.pc = self.regs.pc.wrapping_add(1);
        let res = exec(op, &mut self.regs, mem);
        if let Ok(c) = res {
            self.total_cycles = self.total_cycles + c as u64;
        }
        res
    }
}

/// Sum of a sequence of cycle counts.
pub open spec fn sum_cycles(s: Seq<u32>) -> int
    decreases s.len(),
{
    if s.len() == 0 {
        0
    } else {
        sum_cycles(s.drop_last()) + s.last()
    }
}

/// Over any run of successful steps, `total_cycles` rises at every step and
/// ends as its start plus the sum of the cycle counts returned.
/// `cpus[i]`, `mems[i]` are the states before step `i`, which returned
/// `Ok(cycles[i])`.
pub proof fn lemma_total_cycles_sum(cpus: Seq<Cpu>, mems: Seq<Memory>, cycles: Seq<u32>)
    requires
        cpus.len() == cycles.len() + 1,
        mems.len() == cpus.len(),
        forall|i: int|
            0 <= i < cycles.len() ==> #[trigger] step_post(
                cpus[i],
                mems[i],
                Ok(cycles[i]),
                cpus[i + 1],
                mems[i + 1],
            ),
    ensures
        cpus.last().total_cycles == cpus[0].total_cycles + sum_cycles(cycles),
        forall|i: int|
            0 <= i < cycles.len() ==> cpus[i].total_cycles < #[trigger] cpus[i + 1].total_cycles,
    decreases cycles.len(),
{
    assert forall|i: int| 0 <= i < cycles.len() implies cpus[i].total_cycles
        < #[trigger] cpus[i + 1].total_cycles by {
        lemma_step_adds_cycles(cpus[i], mems[i], cycles[i], cpus[i + 1], mems[i + 1]);
    }
    if cycles.len() > 0 {
        let n = cycles.len() - 1;
        lemma_total_cycles_sum(cpus.drop_last(), mems.drop_last(), cycles.drop_last());
        assert(cpus.drop_last().last() == cpus[n]);
        lemma_step_adds_cycles(cpus[n], mems[n], cycles[n], cpus[n + 1], mems[n + 1]);
    }
}

/// One successful step adds its cycle count, at least 4, to `total_cycles`.
proof fn lemma_step_adds_cycles(c: Cpu, m: Memory, n: u32, c2: Cpu, m2: Memory)
    requires
        step_post(c, m, Ok(n), c2, m2),
    ensures
        c2.total_cycles == c.total_cycles + n,
        n >= 4,
{
}

/// With IF within its five bits, the pending set a step tests is IE & IF.
pub proof fn lemma_pending_is_ie_and_if(ie: u8, if_: u8)
    requires
        if_ < 0x20,
    ensures
        ie & if_ & 0x1F == ie & if_,
{
    assert(ie & if_ & 0x1F == ie & if_) by (bit_vector)
        requires
            if_ < 0x20,
    ;
}

/// The step right after EI (delay 2, IME off) takes no interrupt, and when
/// the instruction it runs is not DI, EI or RETI, IME is still off after it
/// with the delay at 1.
pub proof fn lemma_step_after_ei(c: Cpu, m: Memory, res: Result<u32, EmuError>, c2: Cpu, m2: Memory)
    requires
        c.regs.delay == 2,
        !c.regs.ime,
        step_post(c, m, res, c2, m2),
        m.read_spec(c.regs.pc) != 0xF3,
        m.read_spec(c.regs.pc) != 0xFB,
        m.read_spec(c.regs.pc) != 0xD9,
    ensures
        !c.regs.int_step_spec().ime,
        !c2.regs.ime,
        c2.regs.delay == 1,
{
}

/// The step after that (delay 1) starts with IME on: a pending interrupt
/// (IE & IF) is serviced; otherwise the instruction runs and IME stays on
/// unless it is DI.
pub proof fn lemma_step_with_ime_on(c: Cpu, m: Memory, res: Result<u32, EmuError>, c2: Cpu, m2: Memory)
    requires
        m.wf(),
        c.regs.delay == 1,
        step_post(c, m, res, c2, m2),
    ensures
        m.ie_ & m.if_ != 0 ==> res == Ok::<u32, EmuError>(20) && !c2.regs.ime && c2.regs.pc
            == interrupt_vector(highest_pending(m.ie_ & m.if_).unwrap()),
        m.ie_ & m.if_ == 0 && m.read_spec(c.regs.pc) != 0xF3 ==> c2.regs.ime,
{
    lemma_pending_is_ie_and_if(m.ie_, m.if_);
}

/// A halted CPU with no pending interrupt (IE & IF == 0) and no EI in
/// flight idles: the step takes 4 T-cycles and changes neither registers
/// nor memory.
pub proof fn lemma_halt_idles(c: Cpu, m: Memory, res: Result<u32, EmuError>, c2: Cpu, m2: Memory)
    requires
        m.wf(),
        c.regs.halt,
        c.regs.delay == 0,
        m.ie_ & m.if_ == 0,
        step_post(c, m, res, c2, m2),
    ensures
        res == Ok::<u32, EmuError>(4),
        c2.regs == c.regs,
        m2 == m,
{
    lemma_pending_is_ie_and_if(m.ie_, m.if_);
}

/// A non-empty set of request bits names a source to service.
proof fn lemma_pending_has_source(x: u8)
    ensures
        x & 0x1F != 0 ==> highest_pending(x & 0x1F) is Some,
{
    let p = x & 0x1F;
    assert(p != 0 ==> (p & 0x01 != 0 || p & 0x02 != 0 || p & 0x04 != 0 || p & 0x08 != 0 || p
        & 0x10 != 0)) by (bit_vector)
        requires
            p == x & 0x1F,
    ;
}

/// After EI the delay counter stands at 2. The next step starts with IME
/// still off, so no interrupt is taken before the next instruction. If that
/// instruction is not DI, EI or RETI, the step after it starts with IME on.
pub proof fn lemma_ei_takes_effect_one_instruction_late(r: Registers, r2: Registers)
    requires
        r.delay == 2,
        !r.ime,
        r2.ime == r.int_step_spec().ime,
        r2.delay == r.int_step_spec().delay,
    ensures
        !r.int_step_spec().ime,
        r2.int_step_spec().ime,
{
}

/// Packing the flags that a byte holds gives the byte without its low
/// four bits.
pub proof fn lemma_pack_unpack(v: u8)
    ensures
        pack_flags(unpack_flags(v)) == v - v % 16,
{
    let w = v as int;
    assert(w - w % 16 == 128 * ((w / 128) % 2) + 64 * ((w / 64) % 2) + 32 * ((w / 32) % 2) + 16 * (
    (w / 16) % 2)) by (nonlinear_arith)
        requires
            0 <= w < 256,
    ;
}

/// F's low four bits read back as zero through AF, whatever the flags.
pub proof fn lemma_af_low_nibble_zero(r: Registers)
    ensures
        r.af_spec() % 16 == 0,
        r.f_spec() % 16 == 0,
{
}

} // verus!
