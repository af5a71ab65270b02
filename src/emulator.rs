//! The machine as a whole and its frame loop.

use vstd::prelude::*;
use crate::cartridge::{byte_or_ff, mbc_of, read_header_impl, CartridgeHeader, Mbc};
use crate::cpu::{power_on_regs, step_post, Cpu, MAX_STEP_CYCLES};
use crate::error::EmuError;
use crate::mmu::{power_on_io, Memory};

verus! {

/// One step of the harness from processor `c` and memory `m`: a CPU step as
/// `step_post` says, then, when it succeeds with `k` cycles, `k` cycles of
/// the timer, the PPU and an OAM DMA transfer already under way.
pub open spec fn harness_step(
    c: Cpu,
    m: Memory,
    res: Result<u32, EmuError>,
    c2: Cpu,
    m2: Memory,
) -> bool {
    exists|m1: Memory|
        #[trigger] step_post(c, m, res, c2, m1) && match res {
            Ok(k) => Memory::advance_spec(m1, k, m.dma.active, m2),
            Err(_) => m2 == m1,
        }
}

/// Sum of the cycle counts of the successful steps in `s`.
pub open spec fn ok_cycles(s: Seq<Result<u32, EmuError>>) -> int
    decreases s.len(),
{
    if s.len() == 0 {
        0
    } else {
        ok_cycles(s.drop_last()) + match s.last() {
            Ok(k) => k as int,
            Err(_) => 0,
        }
    }
}

/// The steps of one frame, starting `f0` cycles into it: states `cpus[i]`,
/// `mems[i]` step to `cpus[i + 1]`, `mems[i + 1]` with result `results[i]`.
/// Every step starts before the frame's 70224 cycles are used up; all but
/// the last succeed; and the last either fails or ends the frame.
pub open spec fn frame_trace(
    f0: int,
    cpus: Seq<Cpu>,
    mems: Seq<Memory>,
    results: Seq<Result<u32, EmuError>>,
) -> bool {
    &&& results.len() >= 1
    &&& cpus.len() == results.len() + 1
    &&& mems.len() == results.len() + 1
    &&& forall|i: int|
        0 <= i < results.len() ==> #[trigger] harness_step(
            cpus[i],
            mems[i],
            results[i],
            cpus[i + 1],
            mems[i + 1],
        )
    &&& forall|i: int|
        0 <= i < results.len() ==> f0 + #[trigger] ok_cycles(results.take(i))
            < SCREEN_REFRESH_INTERVAL
    &&& forall|i: int| 0 <= i < results.len() - 1 ==> #[trigger] results[i] is Ok
    &&& results.last() is Ok ==> f0 + ok_cycles(results) >= SCREEN_REFRESH_INTERVAL
}

/// T-cycles in one frame: 154 scanlines of 456 dots.
pub const SCREEN_REFRESH_INTERVAL: u32 = 70224;

/// Ceiling on the cycle counter under which a whole frame can still be run.
pub const MAX_TOTAL_CYCLES: u64 = 0xFFFF_FFFF_FFF0_0000;

/// The machine: CPU, memory map and the frame loop's bookkeeping.
pub struct Emulator {
    pub cpu: Cpu,
    pub mem: Memory,
    /// The cartridge header, when the image is long enough to hold one.
    pub rom_header: Option<CartridgeHeader>,
    pub is_frame_stepping: bool,
    pub is_instr_stepping: bool,
    pub is_debugging: bool,
    /// T-cycles run past the end of the last frame.
    pub frame_cycles: u32,
    pub frame_count: u32,
}

impl Emulator {
    pub open spec fn wf(&self) -> bool {
        self.mem.wf() && self.frame_cycles < SCREEN_REFRESH_INTERVAL
    }

    /// Powers the machine on with a cartridge image. Fails when header byte
    /// 0x0147 (0xFF past the end of the image) names a banking controller
    /// that is not modelled.
    pub fn new(rom: Vec<u8>) -> (r: Result<Emulator, EmuError>)
        ensures
            r is Err <==> mbc_of(byte_or_ff(rom@, 0x147)) is None,
            r is Err ==> r == Err::<Emulator, EmuError>(
                EmuError::UnsupportedMbc(byte_or_ff(rom@, 0x147)),
            ),
            r matches Ok(e) ==> {
                &&& e.wf()
                &&& e.mem.cart.rom@ == rom@
                &&& Some(e.mem.cart.mbc) == mbc_of(byte_or_ff(rom@, 0x147))
                &&& e.mem.cart.banks.rom_bank == 1
                &&& power_on_regs(e.cpu.regs)
                &&& power_on_io(e.mem)
                &&& !e.mem.dma.active
                &&& e.cpu.total_cycles == 0
                &&& e.frame_cycles == 0
                &&& e.rom_header is Some <==> rom@.len() >= 0x150
                &&& e.rom_header matches Some(h) ==> h.bytes() == rom@.subrange(0x100, 0x150)
            },
    {
        let header = read_header_impl(rom.as_slice());
        let cart_type = if rom.len() > 0x147 {
            rom[0x147]
        } else {
            0xFF
        };
        let mut mem = Memory::new();
        mem.set_rom(rom);
        match mem.find_mbc(cart_type) {
            Ok(()) => {},
            Err(e) => {
                return Err(e);
            },
        }
        Ok(
            Emulator {
                cpu: Cpu::new(),
                mem,
                rom_header: header,
                is_frame_stepping: false,
                is_instr_stepping: false,
                is_debugging: true,
                frame_cycles: 0,
                frame_count: 0,
            },
        )
    }

    /// Runs one CPU step, then advances the timer, the PPU and an OAM DMA
    /// transfer already under way (one byte per 4 T-cycles) by the cycles it
    /// reported.
    pub fn step(&mut self) -> (res: Result<u32, EmuError>)
        requires
            old(self).mem.wf(),
            old(self).cpu.total_cycles <= u64::MAX - MAX_STEP_CYCLES,
        ensures
            final(self).mem.wf(),
            harness_step(old(self).cpu, old(self).mem, res, final(self).cpu, final(self).mem),
            res matches Ok(c) ==> 4 <= c <= MAX_STEP_CYCLES && final(self).cpu.total_cycles == old(
                self,
            ).cpu.total_cycles + c,
            res is Err ==> final(self).cpu.total_cycles == old(self).cpu.total_cycles,
            final(self).frame_cycles == old(self).frame_cycles,
            final(self).frame_count == old(self).frame_count,
            final(self).rom_header == old(self).rom_header,
            final(self).is_frame_stepping == old(self).is_frame_stepping,
            final(self).is_instr_stepping == old(self).is_instr_stepping,
            final(self).is_debugging == old(self).is_debugging,
    {
        let dma_running = self.mem.dma.active;
        let res = self.cpu.exec(&mut self.mem);
        let ghost m1 = self.mem;
        if let Ok(c) = res {
            self.mem.advance(c, dma_running);
        }
        assert(step_post(old(self).cpu, old(self).mem, res, self.cpu, m1));
        res
    }

    /// Runs the machine until a frame's worth of T-cycles (70224) has
    /// passed, or until a step fails; the cycles run past the frame's end
    /// count toward the next. The steps it runs are those of a
    /// `frame_trace` from the state it was called in.
    pub fn update(&mut self) -> (res: Result<(), EmuError>)
        requires
            old(self).wf(),
            old(self).cpu.total_cycles <= MAX_TOTAL_CYCLES,
        ensures
            final(self).wf(),
            final(self).cpu.total_cycles >= old(self).cpu.total_cycles,
            exists|cpus: Seq<Cpu>, mems: Seq<Memory>, results: Seq<Result<u32, EmuError>>|
                #[trigger] frame_trace(old(self).frame_cycles as int, cpus, mems, results)
                    && cpus[0] == old(self).cpu && mems[0] == old(self).mem
                    && final(self).mem == mems.last() && final(self).cpu.regs == cpus.last().regs
                    && final(self).cpu.total_cycles == cpus.last().total_cycles
                    && match results.last() {
                    Ok(_) => {
                        &&& res is Ok
                        &&& final(self).frame_cycles == old(self).frame_cycles + ok_cycles(results)
                            - SCREEN_REFRESH_INTERVAL
                        &&& final(self).frame_count == old(self).frame_count.wrapping_add(1)
                        &&& final(self).cpu.is_running == (old(self).cpu.is_running
                            && !old(self).is_frame_stepping && !old(self).is_instr_stepping)
                    },
                    Err(e) => {
                        &&& res == Err::<(), EmuError>(e)
                        &&& final(self).frame_cycles == old(self).frame_cycles
                        &&& final(self).frame_count == old(self).frame_count
                        &&& !final(self).cpu.is_running
                    },
                },
    {
        let ghost start = self.cpu.total_cycles;
        let ghost mut cpus: Seq<Cpu> = seq![self.cpu];
        let ghost mut mems: Seq<Memory> = seq![self.mem];
        let ghost mut results: Seq<Result<u32, EmuError>> = Seq::empty();
        let mut frame: u32 = self.frame_cycles;
        let mut failed: Option<EmuError> = None;
        while frame < SCREEN_REFRESH_INTERVAL && failed.is_none()
            invariant
                self.mem.wf(),
                old(self).wf(),
                old(self).frame_cycles <= frame <= SCREEN_REFRESH_INTERVAL + MAX_STEP_CYCLES,
                self.cpu.total_cycles + old(self).frame_cycles == start + frame,
                start == old(self).cpu.total_cycles,
                start <= MAX_TOTAL_CYCLES,
                self.frame_cycles == old(self).frame_cycles,
                self.frame_count == old(self).frame_count,
                self.is_frame_stepping == old(self).is_frame_stepping,
                self.is_instr_stepping == old(self).is_instr_stepping,
                self.cpu.is_running == old(self).cpu.is_running,
                cpus.len() == results.len() + 1,
                mems.len() == results.len() + 1,
                cpus[0] == old(self).cpu,
                mems[0] == old(self).mem,
                cpus.last() == self.cpu,
                mems.last() == self.mem,
                frame == old(self).frame_cycles + ok_cycles(results),
                forall|i: int|
                    0 <= i < results.len() ==> #[trigger] harness_step(
                        cpus[i],
                        mems[i],
                        results[i],
                        cpus[i + 1],
                        mems[i + 1],
                    ),
                forall|i: int|
                    0 <= i < results.len() ==> old(self).frame_cycles + #[trigger] ok_cycles(
                        results.take(i),
                    ) < SCREEN_REFRESH_INTERVAL,
                failed is None ==> forall|i: int| 0 <= i < results.len() ==> #[trigger] results[i] is Ok,
                failed matches Some(e) ==> results.len() >= 1 && results.last() == Err::<u32, EmuError>(e)
                    && forall|i: int| 0 <= i < results.len() - 1 ==> #[trigger] results[i] is Ok,
            decreases 2 * (SCREEN_REFRESH_INTERVAL + MAX_STEP_CYCLES - frame) + if failed is None {
                1int
            } else {
                0int
            },
        {
            let ghost before = results;
            let res = self.step();
            proof {
                results = results.push(res);
                cpus = cpus.push(self.cpu);
                mems = mems.push(self.mem);
                assert(results.drop_last() =~= before);
                assert forall|i: int| 0 <= i < results.len() implies #[trigger] results.take(i)
                    =~= before.take(i) || i == before.len() by {
                    if i < before.len() {
                        assert(results.take(i) =~= before.take(i));
                    }
                }
                assert(results.take(before.len() as int) =~= before);
            }
            match res {
                Ok(c) => {
                    frame = frame + c;
                },
                Err(e) => {
                    failed = Some(e);
                },
            }
        }
        proof {
            assert(frame_trace(old(self).frame_cycles as int, cpus, mems, results));
        }
        match failed {
            Some(e) => {
                self.cpu.is_running = false;
                Err(e)
            },
            None => {
                self.frame_cycles = frame - SCREEN_REFRESH_INTERVAL;
                self.frame_count = self.frame_count.wrapping_add(1);
                if self.is_frame_stepping || self.is_instr_stepping {
                    self.cpu.is_running = false;
                }
                Ok(())
            },
        }
    }

    pub fn get_header(&self) -> (r: Option<CartridgeHeader>)
        ensures
            r == self.rom_header,
    {
        self.rom_header
    }

    pub fn is_debugging(&self) -> (r: bool)
        ensures
            r == self.is_debugging,
    {
        self.is_debugging
    }

    pub fn is_running(&self) -> (r: bool)
        ensures
            r == self.cpu.is_running,
    {
        self.cpu.is_running
    }

    pub fn set_running(&mut self, state: bool)
        ensures
            final(self).cpu.is_running == state,
            final(self).cpu.regs == old(self).cpu.regs,
            final(self).cpu.total_cycles == old(self).cpu.total_cycles,
            final(self).mem == old(self).mem,
    {
        self.cpu.is_running = state;
    }

    pub fn toggle_running(&mut self)
        ensures
            final(self).cpu.is_running == !old(self).cpu.is_running,
            final(self).cpu.regs == old(self).cpu.regs,
            final(self).cpu.total_cycles == old(self).cpu.total_cycles,
            final(self).mem == old(self).mem,
    {
        self.cpu.is_running = !self.cpu.is_running;
    }

    pub fn toggle_debugging(&mut self)
        ensures
            final(self).is_debugging == !old(self).is_debugging,
            final(self).cpu.is_running == old(self).cpu.is_running,
            final(self).mem == old(self).mem,
    {
        self.is_debugging = !self.is_debugging;
    }
}

} // verus!
