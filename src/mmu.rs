//! The memory map: address decoding, I/O registers and OAM DMA.

use vstd::prelude::*;
use crate::cartridge::{Banks, Cartridge, Mbc, mbc1_control};
use crate::error::EmuError;
use crate::gpu::{Gpu, LcdClock, LcdRegs, bit, clock_run, image_run, zeroes, OAM_SIZE};
use crate::input::Input;
use crate::timer::{Timer, input_mask_of, lemma_div_counts_from_zero, DIV_AFTER_BIOS};

verus! {

/// Size of work RAM (C000-DFFF).
pub const WRAM_SIZE: usize = 0x2000;
/// Size of high RAM (FF80-FFFE).
pub const HRAM_SIZE: usize = 0x7F;

/// State of the OAM DMA engine.
#[derive(Clone, Copy, Debug, PartialEq, Eq, Structural)]
pub struct Dma {
    pub active: bool,
    /// High byte of the source address.
    pub source_high: u8,
    /// Bytes still to copy, 0..=160.
    pub bytes_left: u8,
}

/// The memory map: cartridge, work and high RAM, the PPU, timer and joypad,
/// the interrupt registers, the DMA engine and the serial port.
pub struct Memory {
    /// Interrupt requests (IF, FF0F), low five bits.
    pub if_: u8,
    /// Interrupt enable (IE, FFFF).
    pub ie_: u8,
    pub cart: Cartridge,
    pub wram: Vec<u8>,
    pub hram: Vec<u8>,
    pub timer: Timer,
    pub gpu: Gpu,
    pub input: Input,
    pub dma: Dma,
    /// Serial transfer data (SB, FF01).
    pub serial_data: u8,
    /// Bytes sent through the serial port.
    pub serial_out: Vec<u8>,
    /// The last condition that was recorded rather than raised.
    pub warning: Option<EmuError>,
}

/// The LCD registers at power-on: LCDC 0x91, BGP 0xFC, OBP0 and OBP1 0xFF,
/// the others zero.
pub open spec fn power_on_lcd() -> LcdRegs {
    LcdRegs {
        lcdc: 0x91,
        stat: 0,
        scy: 0,
        scx: 0,
        lyc: 0,
        bgp: 0xFC,
        obp0: 0xFF,
        obp1: 0xFF,
        wy: 0,
        wx: 0,
    }
}

/// The I/O state right after power-on: TIMA, TMA, TAC and IE zero, the LCD
/// registers as `power_on_lcd`, the PPU at line 0, dot 0, and the divider as
/// the boot ROM leaves it.
pub open spec fn power_on_io(m: Memory) -> bool {
    &&& m.timer.div == DIV_AFTER_BIOS
    &&& m.timer.tima == 0
    &&& m.timer.tma == 0
    &&& m.timer.tac == 0
    &&& m.gpu.regs == power_on_lcd()
    &&& m.gpu.clock == (LcdClock { ly: 0, dot: 0, window_line: 0 })
    &&& m.ie_ == 0
}

/// Whether `addr` is a cartridge address (ROM and bank controls, or
/// external RAM).
pub open spec fn is_cart_addr(addr: u16) -> bool {
    addr < 0x8000 || 0xA000 <= addr < 0xC000
}

/// Index into work RAM of an address in C000-FDFF (echo included).
pub open spec fn wram_index(addr: u16) -> int {
    if addr < 0xE000 {
        addr - 0xC000
    } else {
        addr - 0xE000
    }
}

/// Whether `addr` is one of the LCD registers the PPU owns.
pub open spec fn is_lcd_reg(addr: u16) -> bool {
    0xFF40 <= addr <= 0xFF4B && addr != 0xFF46
}

impl Memory {
    pub open spec fn wf(&self) -> bool {
        &&& self.cart.wf()
        &&& self.wram@.len() == WRAM_SIZE
        &&& self.hram@.len() == HRAM_SIZE
        &&& self.timer.wf()
        &&& self.gpu.wf()
        &&& self.input.wf()
        &&& self.if_ < 0x20
        &&& self.dma.bytes_left <= 160
        &&& self.dma.active <==> self.dma.bytes_left > 0
        &&& self.dma.source_high <= 0xF1
    }

    /// What a read of an I/O register (FF00-FF7F) returns.
    pub open spec fn io_read_spec(&self, addr: u16) -> u8 {
        if addr == 0xFF00 {
            0xC0 | self.input.column | self.input.read_spec()
        } else if addr == 0xFF01 {
            self.serial_data
        } else if addr == 0xFF02 {
            0x7E
        } else if addr == 0xFF04 {
            self.timer.div_reg()
        } else if addr == 0xFF05 {
            self.timer.tima
        } else if addr == 0xFF06 {
            self.timer.tma
        } else if addr == 0xFF07 {
            0xF8 | self.timer.tac
        } else if addr == 0xFF0F {
            0xE0 | self.if_
        } else if is_lcd_reg(addr) {
            self.gpu.reg_spec(addr)
        } else {
            0xFF
        }
    }

    /// What a read of `addr` returns.
    pub open spec fn read_spec(&self, addr: u16) -> u8 {
        if is_cart_addr(addr) {
            self.cart.read_spec(addr)
        } else if addr < 0xA000 {
            self.gpu.vram@[addr - 0x8000]
        } else if addr < 0xFE00 {
            self.wram@[wram_index(addr)]
        } else if addr < 0xFEA0 {
            self.gpu.oam@[addr - 0xFE00]
        } else if addr < 0xFF00 {
            0xFF
        } else if addr < 0xFF80 {
            self.io_read_spec(addr)
        } else if addr < 0xFFFF {
            self.hram@[addr - 0xFF80]
        } else {
            self.ie_
        }
    }

    /// The little-endian word at `addr` and `addr + 1` (wrapping).
    pub open spec fn read_u16_spec(&self, addr: u16) -> u16 {
        (self.read_spec(addr) + 256 * self.read_spec(addr.wrapping_add(1))) as u16
    }

    /// `n` is the memory after writing `val` to `addr` in `o`.
    pub open spec fn write_spec(o: Memory, addr: u16, val: u8, n: Memory) -> bool {
        &&& n.cart.rom == o.cart.rom
        &&& n.cart.mbc == o.cart.mbc
        &&& n.cart.banks == if addr < 0x8000 && o.cart.mbc == Mbc::Mbc1 {
            mbc1_control(o.cart.banks, addr, val)
        } else {
            o.cart.banks
        }
        &&& n.cart.ram@ == if 0xA000 <= addr < 0xC000 && o.cart.banks.ram_enabled {
            o.cart.ram@.update(o.cart.banks.ram_offset() + (addr - 0xA000), val)
        } else {
            o.cart.ram@
        }
        &&& n.gpu.vram@ == if 0x8000 <= addr < 0xA000 {
            o.gpu.vram@.update(addr - 0x8000, val)
        } else {
            o.gpu.vram@
        }
        &&& n.gpu.oam@ == if 0xFE00 <= addr < 0xFEA0 {
            o.gpu.oam@.update(addr - 0xFE00, val)
        } else {
            o.gpu.oam@
        }
        &&& n.gpu.image_data == o.gpu.image_data
        &&& n.gpu.regs == if is_lcd_reg(addr) {
            Gpu::reg_write_spec(o.gpu.regs, addr, val)
        } else {
            o.gpu.regs
        }
        &&& n.gpu.clock == if addr == 0xFF40 && bit(val, 7) != bit(o.gpu.regs.lcdc, 7) {
            LcdClock { ly: 0, dot: 0, window_line: 0 }
        } else {
            o.gpu.clock
        }
        &&& n.wram@ == if 0xC000 <= addr < 0xFE00 {
            o.wram@.update(wram_index(addr), val)
        } else {
            o.wram@
        }
        &&& n.hram@ == if 0xFF80 <= addr < 0xFFFF {
            o.hram@.update(addr - 0xFF80, val)
        } else {
            o.hram@
        }
        &&& n.timer == if addr == 0xFF04 {
            Timer { div: 0, ..o.timer }
        } else if addr == 0xFF05 {
            Timer { tima: val, ..o.timer }
        } else if addr == 0xFF06 {
            Timer { tma: val, ..o.timer }
        } else if addr == 0xFF07 {
            Timer { tac: val % 8, input_mask: input_mask_of(val % 8), ..o.timer }
        } else {
            o.timer
        }
        &&& n.input == if addr == 0xFF00 {
            Input { column: val & 0x30, ..o.input }
        } else {
            o.input
        }
        &&& n.if_ == if addr == 0xFF0F {
            val & 0x1F
        } else {
            o.if_
        }
        &&& n.ie_ == if addr == 0xFFFF {
            val
        } else {
            o.ie_
        }
        &&& n.dma == if addr == 0xFF46 && val <= 0xF1 {
            Dma { active: true, source_high: val, bytes_left: 160 }
        } else {
            o.dma
        }
        &&& n.warning == if addr == 0xFF46 && val > 0xF1 {
            Some(EmuError::InvalidDmaSource(val))
        } else {
            o.warning
        }
        &&& n.serial_data == if addr == 0xFF01 {
            val
        } else {
            o.serial_data
        }
        &&& n.serial_out@ == if addr == 0xFF02 && val == 0x81 {
            o.serial_out@.push(o.serial_data)
        } else {
            o.serial_out@
        }
    }

    /// `n` is the memory after writing the word `v` to `addr` in `o`: the low
    /// byte at `addr`, then the high byte at `addr + 1` (wrapping).
    pub open spec fn word_write_spec(o: Memory, addr: u16, v: u16, n: Memory) -> bool {
        exists|mid: Memory|
            #[trigger] Memory::write_spec(o, addr, (v % 256) as u8, mid) && Memory::write_spec(
                mid,
                addr.wrapping_add(1),
                (v / 256) as u8,
                n,
            )
    }

    /// `n` is `o` with IF set to `v` and nothing else changed.
    pub open spec fn with_if(o: Memory, v: u8, n: Memory) -> bool {
        &&& n.if_ == v
        &&& n.ie_ == o.ie_
        &&& n.cart == o.cart
        &&& n.wram == o.wram
        &&& n.hram == o.hram
        &&& n.timer == o.timer
        &&& n.gpu == o.gpu
        &&& n.input == o.input
        &&& n.dma == o.dma
        &&& n.serial_data == o.serial_data
        &&& n.serial_out == o.serial_out
        &&& n.warning == o.warning
    }

    /// An empty plain-ROM cartridge at power-on.
    pub fn new() -> (r: Memory)
        ensures
            r.wf(),
            r.cart.rom@.len() == 0,
            r.cart.mbc == Mbc::RomOnly,
            power_on_io(r),
            r.if_ == 0x01,
            !r.dma.active,
            r.serial_out@.len() == 0,
            r.warning is None,
    {
        let mut m = Memory {
            if_: 0x01,
            ie_: 0,
            cart: Cartridge::new(Vec::new(), Mbc::RomOnly),
            wram: zeroes(WRAM_SIZE),
            hram: zeroes(HRAM_SIZE),
            timer: Timer::new(),
            gpu: Gpu::new(),
            input: Input::new(),
            dma: Dma { active: false, source_high: 0, bytes_left: 0 },
            serial_data: 0,
            serial_out: Vec::new(),
            warning: None,
        };
        m.power_on();
        m.timer.reset_bios_skip();
        m
    }

    /// Loads a ROM image; the banking controller stays as it was.
    pub fn set_rom(&mut self, rom: Vec<u8>)
        requires
            old(self).wf(),
        ensures
            final(self).wf(),
            final(self).cart.rom@ == rom@,
            final(self).cart.mbc == old(self).cart.mbc,
            final(self).cart.banks == (Banks {
                ram_enabled: false,
                ram_mode: false,
                rom_bank: 1,
                ram_bank: 0,
            }),
            final(self).timer == old(self).timer,
            final(self).gpu.regs == old(self).gpu.regs,
            final(self).gpu.clock == old(self).gpu.clock,
            final(self).ie_ == old(self).ie_,
            final(self).if_ == old(self).if_,
            final(self).dma == old(self).dma,
    {
        let mbc = self.cart.mbc;
        self.cart = Cartridge::new(rom, mbc);
    }

    /// Selects the banking controller that header byte 0x0147 names.
    pub fn find_mbc(&mut self, cartridge_type: u8) -> (r: Result<(), EmuError>)
        requires
            old(self).wf(),
        ensures
            final(self).wf(),
            r is Err <==> crate::cartridge::mbc_of(cartridge_type) is None,
            r is Err ==> r == Err::<(), EmuError>(EmuError::UnsupportedMbc(cartridge_type)),
            r is Ok ==> Some(final(self).cart.mbc) == crate::cartridge::mbc_of(cartridge_type),
            final(self).cart.rom == old(self).cart.rom,
            final(self).cart.banks == old(self).cart.banks,
            final(self).timer == old(self).timer,
            final(self).gpu.regs == old(self).gpu.regs,
            final(self).gpu.clock == old(self).gpu.clock,
            final(self).ie_ == old(self).ie_,
            final(self).if_ == old(self).if_,
            final(self).dma == old(self).dma,
    {
        match Mbc::from_cartridge_type(cartridge_type) {
            Ok(m) => {
                self.cart.mbc = m;
                Ok(())
            },
            Err(e) => Err(e),
        }
    }

    /// Puts the I/O registers at their power-on values: TIMA, TMA, TAC and
    /// IE zero, LCDC 0x91, BGP 0xFC, OBP0 and OBP1 0xFF, the scroll, compare
    /// and window registers zero. Sound registers are not modelled.
    pub fn power_on(&mut self)
        requires
            old(self).wf(),
        ensures
            final(self).wf(),
            final(self).timer.tima == 0,
            final(self).timer.tma == 0,
            final(self).timer.tac == 0,
            final(self).timer.div == old(self).timer.div,
            final(self).gpu.regs == power_on_lcd(),
            final(self).gpu.clock == (LcdClock { ly: 0, dot: 0, window_line: 0 }),
            final(self).ie_ == 0,
            final(self).if_ == old(self).if_,
            final(self).cart == old(self).cart,
            final(self).dma == old(self).dma,
            final(self).serial_out == old(self).serial_out,
            final(self).warning == old(self).warning,
    {
        self.timer.tima = 0;
        self.timer.tma = 0;
        self.timer.write_tac(0);
        self.gpu.regs = LcdRegs {
            lcdc: 0x91,
            stat: 0,
            scy: 0,
            scx: 0,
            lyc: 0,
            bgp: 0xFC,
            obp0: 0xFF,
            obp1: 0xFF,
            wy: 0,
            wx: 0,
        };
        self.gpu.clock = LcdClock { ly: 0, dot: 0, window_line: 0 };
        self.ie_ = 0;
    }

    pub fn get_timers(&self) -> (r: &Timer)
        ensures
            *r == self.timer,
    {
        &self.timer
    }

    fn ioreg_rb(&self, addr: u16) -> (r: u8)
        requires
            self.wf(),
            0xFF00 <= addr < 0xFF80,
        ensures
            r == self.io_read_spec(addr),
    {
        if addr == 0xFF00 {
            0xC0 | self.input.column | self.input.rb()
        } else if addr == 0xFF01 {
            self.serial_data
        } else if addr == 0xFF02 {
            0x7E
        } else if addr == 0xFF04 {
            self.timer.read_div()
        } else if addr == 0xFF05 {
            self.timer.tima
        } else if addr == 0xFF06 {
            self.timer.tma
        } else if addr == 0xFF07 {
            0xF8 | self.timer.tac
        } else if addr == 0xFF0F {
            0xE0 | self.if_
        } else if 0xFF40 <= addr && addr <= 0xFF4B && addr != 0xFF46 {
            self.gpu.rb(addr)
        } else {
            0xFF
        }
    }

    /// Reads a byte.
    pub fn rb(&self, addr: u16) -> (r: u8)
        requires
            self.wf(),
        ensures
            r == self.read_spec(addr),
    {
        if addr < 0x8000 || (0xA000 <= addr && addr < 0xC000) {
            self.cart.read(addr)
        } else if addr < 0xA000 {
            self.gpu.rb_vram(addr)
        } else if addr < 0xE000 {
            self.wram[(addr - 0xC000) as usize]
        } else if addr < 0xFE00 {
            self.wram[(addr - 0xE000) as usize]
        } else if addr < 0xFEA0 {
            self.gpu.rb_oam(addr)
        } else if addr < 0xFF00 {
            0xFF
        } else if addr < 0xFF80 {
            self.ioreg_rb(addr)
        } else if addr < 0xFFFF {
            self.hram[(addr - 0xFF80) as usize]
        } else {
            self.ie_
        }
    }

    /// Reads a little-endian word: the low byte at `addr`, the high byte at
    /// `addr + 1` (wrapping).
    pub fn rw(&self, addr: u16) -> (r: u16)
        requires
            self.wf(),
        ensures
            r == self.read_u16_spec(addr),
    {
        let lo = self.rb(addr) as u16;
        let hi = self.rb(addr.wrapping_add(1)) as u16;
        lo + 256 * hi
    }

    fn ioreg_wb(&mut self, addr: u16, data: u8)
        requires
            old(self).wf(),
            0xFF00 <= addr < 0xFF80,
        ensures
            final(self).wf(),
            Memory::write_spec(*old(self), addr, data, *final(self)),
    {
        if addr == 0xFF00 {
            self.input.wb(data);
        } else if addr == 0xFF01 {
            self.serial_data = data;
        } else if addr == 0xFF02 {
            if data == 0x81 {
                self.serial_out.push(self.serial_data);
            }
        } else if addr == 0xFF04 {
            self.timer.reset_div();
        } else if addr == 0xFF05 {
            self.timer.tima = data;
        } else if addr == 0xFF06 {
            self.timer.tma = data;
        } else if addr == 0xFF07 {
            self.timer.write_tac(data);
        } else if addr == 0xFF0F {
            proof {
                lemma_if_bits(data, 0);
            }
            self.if_ = data & 0x1F;
        } else if addr == 0xFF46 {
            self.start_dma_transfer(data);
        } else if 0xFF40 <= addr && addr <= 0xFF4B {
            assert(0xFF40 <= addr <= 0xFF4B ==> (addr & 0xFF == 0x40 <==> addr == 0xFF40))
                by (bit_vector);
            self.gpu.wb(addr, data);
        }
    }

    /// Writes a byte.
    pub fn wb(&mut self, addr: u16, data: u8)
        requires
            old(self).wf(),
        ensures
            final(self).wf(),
            Memory::write_spec(*old(self), addr, data, *final(self)),
    {
        if addr < 0x8000 || (0xA000 <= addr && addr < 0xC000) {
            self.cart.write(addr, data);
        } else if addr < 0xA000 {
            self.gpu.wb_vram(addr, data);
        } else if addr < 0xE000 {
            self.wram.set((addr - 0xC000) as usize, data);
        } else if addr < 0xFE00 {
            self.wram.set((addr - 0xE000) as usize, data);
        } else if addr < 0xFEA0 {
            self.gpu.wb_oam(addr, data);
        } else if addr < 0xFF00 {
        } else if addr < 0xFF80 {
            self.ioreg_wb(addr, data);
        } else if addr < 0xFFFF {
            self.hram.set((addr - 0xFF80) as usize, data);
        } else {
            self.ie_ = data;
        }
    }

    /// Writes a little-endian word: the low byte to `addr`, then the high
    /// byte to `addr + 1` (wrapping).
    pub fn ww(&mut self, addr: u16, data: u16)
        requires
            old(self).wf(),
        ensures
            final(self).wf(),
            Memory::word_write_spec(*old(self), addr, data, *final(self)),
    {
        self.wb(addr, (data % 256) as u8);
        self.wb(addr.wrapping_add(1), (data / 256) as u8);
    }

    /// Starts an OAM DMA transfer from `val << 8`; a source above 0xF1 is
    /// ignored and recorded as a warning.
    pub fn start_dma_transfer(&mut self, val: u8)
        requires
            old(self).wf(),
        ensures
            final(self).wf(),
            Memory::write_spec(*old(self), 0xFF46, val, *final(self)),
    {
        if val > 0xF1 {
            self.warning = Some(EmuError::InvalidDmaSource(val));
            return ;
        }
        self.dma = Dma { active: true, source_high: val, bytes_left: 160 };
    }

    /// Copies the next byte of an active OAM DMA transfer.
    pub fn handle_dma_transfer(&mut self)
        requires
            old(self).wf(),
            old(self).dma.active,
        ensures
            final(self).wf(),
            ({
                let i = 160 - old(self).dma.bytes_left;
                final(self).gpu.oam@ == old(self).gpu.oam@.update(
                    i,
                    old(self).read_spec((old(self).dma.source_high * 256 + i) as u16),
                )
            }),
            final(self).dma == (Dma {
                active: old(self).dma.bytes_left > 1,
                bytes_left: (old(self).dma.bytes_left - 1) as u8,
                ..old(self).dma
            }),
            final(self).gpu.vram == old(self).gpu.vram,
            final(self).gpu.regs == old(self).gpu.regs,
            final(self).gpu.clock == old(self).gpu.clock,
            final(self).gpu.image_data == old(self).gpu.image_data,
            final(self).cart == old(self).cart,
            final(self).wram == old(self).wram,
            final(self).hram == old(self).hram,
            final(self).timer == old(self).timer,
            final(self).if_ == old(self).if_,
            final(self).ie_ == old(self).ie_,
            final(self).input == old(self).input,
            final(self).serial_data == old(self).serial_data,
            final(self).serial_out == old(self).serial_out,
            final(self).warning == old(self).warning,
    {
        let i = 160 - self.dma.bytes_left as u16;
        let v = self.rb(self.dma.source_high as u16 * 256 + i);
        self.gpu.wb_oam(0xFE00 + i, v);
        self.dma.bytes_left = self.dma.bytes_left - 1;
        self.dma.active = self.dma.bytes_left > 0;
    }
}

impl Memory {
    /// Bytes an OAM DMA transfer copies while `cycles` T-cycles pass.
    pub open spec fn dma_bytes(&self, cycles: u32, dma_running: bool) -> int {
        if !dma_running {
            0
        } else if cycles / 4 < self.dma.bytes_left {
            (cycles / 4) as int
        } else {
            self.dma.bytes_left as int
        }
    }

    /// `n` is `o` after `cycles` T-cycles of the timer, the PPU and, when
    /// `dma_running`, the OAM DMA engine (one byte per 4 T-cycles).
    pub open spec fn advance_spec(o: Memory, cycles: u32, dma_running: bool, n: Memory) -> bool {
        let (t, f1) = o.timer.run(o.if_, cycles as nat);
        let (clk, f2) = clock_run(o.gpu.regs, o.gpu.clock, f1, cycles as nat);
        let k = o.dma_bytes(cycles, dma_running);
        let first = 160 - o.dma.bytes_left;
        &&& n.timer == t
        &&& n.gpu.clock == clk
        &&& n.gpu.image_data@ == image_run(
            o.gpu.vram@,
            o.gpu.oam@,
            o.gpu.regs,
            o.gpu.clock,
            f1,
            o.gpu.image_data@,
            cycles as nat,
        )
        &&& n.if_ == f2 & 0x1F
        &&& n.gpu.regs == o.gpu.regs
        &&& n.gpu.vram == o.gpu.vram
        &&& n.gpu.oam@.len() == OAM_SIZE
        &&& forall|i: int|
            0 <= i < OAM_SIZE && !(first <= i < first + k) ==> n.gpu.oam@[i] == o.gpu.oam@[i]
        &&& forall|i: int|
            first <= i < first + k ==> n.gpu.oam@[i] == o.read_spec(
                (o.dma.source_high * 256 + i) as u16,
            )
        &&& n.dma.bytes_left == o.dma.bytes_left - k
        &&& n.dma.source_high == o.dma.source_high
        &&& n.cart == o.cart
        &&& n.wram == o.wram
        &&& n.hram == o.hram
        &&& n.input == o.input
        &&& n.ie_ == o.ie_
        &&& n.serial_data == o.serial_data
        &&& n.serial_out == o.serial_out
        &&& n.warning == o.warning
    }

    /// Advances the timer, then the PPU, then an OAM DMA transfer that was
    /// already running, by `cycles` T-cycles; their interrupt requests are
    /// raised in IF.
    pub fn advance(&mut self, cycles: u32, dma_running: bool)
        requires
            old(self).wf(),
        ensures
            final(self).wf(),
            Memory::advance_spec(*old(self), cycles, dma_running, *final(self)),
    {
        let mut f = self.if_;
        self.timer.step(cycles, &mut f);
        self.gpu.step(cycles, &mut f);
        proof {
            lemma_if_bits(f, 0);
        }
        self.if_ = f & 0x1F;
        let ghost o = *old(self);
        let ghost k = o.dma_bytes(cycles, dma_running);
        let ghost first = 160 - o.dma.bytes_left;
        let mut n: u32 = if dma_running {
            cycles / 4
        } else {
            0
        };
        let mut j: u32 = 0;
        while n > 0 && self.dma.active
            invariant
                self.wf(),
                o.wf(),
                o == *old(self),
                k == o.dma_bytes(cycles, dma_running),
                first == 160 - o.dma.bytes_left,
                n + j == (if dma_running {
                    cycles / 4
                } else {
                    0
                }),
                j <= k,
                self.dma.bytes_left == o.dma.bytes_left - j,
                self.dma.source_high == o.dma.source_high,
                self.cart == o.cart,
                self.wram == o.wram,
                self.hram == o.hram,
                self.input == o.input,
                self.ie_ == o.ie_,
                self.serial_data == o.serial_data,
                self.serial_out == o.serial_out,
                self.warning == o.warning,
                self.gpu.vram == o.gpu.vram,
                self.gpu.regs == o.gpu.regs,
                self.gpu.image_data@ == image_run(
                    o.gpu.vram@,
                    o.gpu.oam@,
                    o.gpu.regs,
                    o.gpu.clock,
                    o.timer.run(o.if_, cycles as nat).1,
                    o.gpu.image_data@,
                    cycles as nat,
                ),
                self.timer == o.timer.run(o.if_, cycles as nat).0,
                self.gpu.clock == clock_run(
                    o.gpu.regs,
                    o.gpu.clock,
                    o.timer.run(o.if_, cycles as nat).1,
                    cycles as nat,
                ).0,
                self.if_ == clock_run(
                    o.gpu.regs,
                    o.gpu.clock,
                    o.timer.run(o.if_, cycles as nat).1,
                    cycles as nat,
                ).1 & 0x1F,
                forall|i: int|
                    0 <= i < OAM_SIZE && !(first <= i < first + j) ==> self.gpu.oam@[i]
                        == o.gpu.oam@[i],
                forall|i: int|
                    first <= i < first + j ==> self.gpu.oam@[i] == o.read_spec(
                        (o.dma.source_high * 256 + i) as u16,
                    ),
            decreases n,
        {
            let ghost before = *self;
            let ghost idx = 160 - self.dma.bytes_left;
            proof {
                lemma_low_reads_agree(o, before, (o.dma.source_high * 256 + idx) as u16);
            }
            self.handle_dma_transfer();
            n = n - 1;
            j = j + 1;
        }
    }
}

/// An OAM DMA transfer just started is complete 640 T-cycles later: each of
/// the 160 OAM bytes holds the byte of the source page at its offset, and
/// the transfer is over.
pub proof fn lemma_dma_completes_in_640_cycles(o: Memory, n: Memory)
    requires
        o.wf(),
        n.wf(),
        o.dma.active,
        o.dma.bytes_left == 160,
        Memory::advance_spec(o, 640, true, n),
    ensures
        forall|i: int|
            0 <= i < 160 ==> n.gpu.oam@[i] == o.read_spec((o.dma.source_high * 256 + i) as u16),
        !n.dma.active,
{
}

/// Masking with 0x1F, or clearing bits of a value below 0x20, keeps IF
/// within its five bits.
pub proof fn lemma_if_bits(x: u8, y: u8)
    ensures
        x & 0x1F < 0x20,
        x < 0x20 ==> x & y < 0x20,
{
    assert(x & 0x1F < 0x20 && (x < 0x20 ==> x & y < 0x20)) by (bit_vector);
}

/// Below the OAM, what a read returns depends on the cartridge, VRAM and
/// work RAM alone.
proof fn lemma_low_reads_agree(a: Memory, b: Memory, addr: u16)
    requires
        a.cart == b.cart,
        a.gpu.vram == b.gpu.vram,
        a.wram == b.wram,
        addr < 0xFE00,
    ensures
        a.read_spec(addr) == b.read_spec(addr),
{
}

/// Reading back a work-RAM address (echo included) returns the byte just
/// written there.
pub proof fn lemma_wram_read_after_write(o: Memory, n: Memory, addr: u16, v: u8)
    requires
        o.wf(),
        0xC000 <= addr < 0xFE00,
        Memory::write_spec(o, addr, v, n),
    ensures
        n.read_spec(addr) == v,
{
}

/// Every address of E000-FDFF reads the same byte as the address 0x2000
/// below it.
pub proof fn lemma_echo_mirror(m: Memory, addr: u16)
    requires
        m.wf(),
        0xE000 <= addr < 0xFE00,
    ensures
        m.read_spec(addr) == m.read_spec((addr - 0x2000) as u16),
{
}

/// Any write to DIV (FF04) restarts it: it reads 0 at once, and after `k`
/// T-cycles of the timer (fewer than 65536) it reads `k / 256`.
pub proof fn lemma_div_write_restarts(o: Memory, v: u8, n: Memory, if_: u8, k: nat)
    requires
        o.wf(),
        Memory::write_spec(o, 0xFF04, v, n),
        k < 0x10000,
    ensures
        n.read_spec(0xFF04) == 0,
        n.timer.run(if_, k).0.div_reg() == k / 256,
{
    lemma_div_counts_from_zero(o.timer, if_, k);
}

/// Whether `addr` lies in RAM that reads back what is written: work RAM and
/// its echo, or high RAM.
pub open spec fn is_plain_ram(addr: u16) -> bool {
    0xC000 <= addr < 0xFE00 || 0xFF80 <= addr < 0xFFFF
}

/// A word written to plain RAM reads back unchanged.
pub proof fn lemma_word_round_trip(o: Memory, mid: Memory, n: Memory, addr: u16, v: u16)
    requires
        o.wf(),
        is_plain_ram(addr),
        is_plain_ram((addr + 1) as u16),
        addr < 0xFFFF,
        Memory::write_spec(o, addr, (v % 256) as u8, mid),
        Memory::write_spec(mid, addr.wrapping_add(1), (v / 256) as u8, n),
    ensures
        n.read_u16_spec(addr) == v,
{
    let a1 = addr.wrapping_add(1);
    assert(a1 == addr + 1);
    if 0xC000 <= addr < 0xFE00 && 0xC000 <= a1 < 0xFE00 {
        assert(wram_index(addr) != wram_index(a1));
    }
    assert(n.read_spec(addr) == (v % 256) as u8);
    assert(n.read_spec(a1) == (v / 256) as u8);
}

} // verus!
