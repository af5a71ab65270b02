//! The pixel-processing unit: scanline timing and rendering.

use vstd::prelude::*;

verus! {

pub const VRAM_SIZE: usize = 0x2000;
pub const OAM_SIZE: usize = 0xA0;
pub const WIDTH: usize = 160;
pub const HEIGHT: usize = 144;
/// Bytes in the RGBA framebuffer.
pub const FRAME_BYTES: usize = 92160;
/// Dots (T-cycles) in one scanline.
pub const DOTS_PER_LINE: u16 = 456;
/// Scanlines in one frame, including the ten V-Blank lines.
pub const LINES_PER_FRAME: u8 = 154;

/// The LCD registers that programs write.
#[derive(Clone, Copy, Debug, PartialEq, Eq, Structural)]
pub struct LcdRegs {
    /// LCDC (FF40).
    pub lcdc: u8,
    /// The writable STAT bits (3-6): the four interrupt enables.
    pub stat: u8,
    pub scy: u8,
    pub scx: u8,
    pub lyc: u8,
    pub bgp: u8,
    pub obp0: u8,
    pub obp1: u8,
    pub wy: u8,
    pub wx: u8,
}

/// Where the PPU stands in the frame.
#[derive(Clone, Copy, Debug, PartialEq, Eq, Structural)]
pub struct LcdClock {
    /// Current scanline, 0..=153 (LY).
    pub ly: u8,
    /// Dot within the scanline, 0..=455.
    pub dot: u16,
    /// Internal window line counter.
    pub window_line: u8,
}

/// Bit `i` of `v`.
pub open spec fn bit(v: u8, i: u8) -> bool {
    (v >> i) & 1 == 1
}

impl LcdClock {
    pub open spec fn wf(&self) -> bool {
        self.ly < LINES_PER_FRAME && self.dot < DOTS_PER_LINE
    }
}

/// PPU mode at a point of the frame: 2 OAM scan, 3 pixel transfer,
/// 0 H-Blank, 1 V-Blank.
pub open spec fn mode_at(ly: u8, dot: u16) -> u8 {
    if ly >= 144 {
        1
    } else if dot < 80 {
        2
    } else if dot < 252 {
        3
    } else {
        0
    }
}

/// Whether the window shows on scanline `ly`.
pub open spec fn window_on_line(r: LcdRegs, ly: u8) -> bool {
    bit(r.lcdc, 5) && ly >= r.wy && r.wx <= 166
}

/// The requests raised in IF when the PPU enters `mode` (bit 0 V-Blank,
/// bit 1 LCD STAT).
pub open spec fn mode_irq(r: LcdRegs, mode: u8) -> u8 {
    let stat = if mode == 0 && bit(r.stat, 3) || mode == 1 && bit(r.stat, 4) || mode == 2
        && bit(r.stat, 5) {
        0x02u8
    } else {
        0x00u8
    };
    if mode == 1 {
        stat | 0x01
    } else {
        stat
    }
}

/// The clock and IF after one dot with the LCD on.
pub open spec fn clock_tick(r: LcdRegs, c: LcdClock, if_: u8) -> (LcdClock, u8) {
    let (ly, dot) = if c.dot + 1 == DOTS_PER_LINE {
        (((c.ly + 1) % 154) as u8, 0u16)
    } else {
        (c.ly, (c.dot + 1) as u16)
    };
    let old_mode = mode_at(c.ly, c.dot);
    let mode = mode_at(ly, dot);
    let wl = if mode != old_mode && mode == 0 && window_on_line(r, c.ly) {
        ((c.window_line + 1) % 256) as u8
    } else if mode != old_mode && mode == 1 {
        0u8
    } else {
        c.window_line
    };
    let f1 = if mode != old_mode {
        if_ | mode_irq(r, mode)
    } else {
        if_
    };
    let f2 = if ly != c.ly && ly == r.lyc && bit(r.stat, 6) {
        f1 | 0x02
    } else {
        f1
    };
    (LcdClock { ly, dot, window_line: wl }, f2)
}

/// The clock and IF after `n` dots.
pub open spec fn clock_run(r: LcdRegs, c: LcdClock, if_: u8, n: nat) -> (LcdClock, u8)
    decreases n,
{
    if n == 0 {
        (c, if_)
    } else {
        let (c1, f1) = clock_run(r, c, if_, (n - 1) as nat);
        if bit(r.lcdc, 7) {
            clock_tick(r, c1, f1)
        } else {
            (c1, f1)
        }
    }
}

/// VRAM offset of background/window tile `t`: unsigned from 0x8000 when
/// LCDC bit 4 is set, else signed around 0x9000.
pub open spec fn bg_tile_addr(lcdc: u8, t: u8) -> int {
    if bit(lcdc, 4) {
        t * 16
    } else if t < 128 {
        0x1000 + t * 16
    } else {
        t * 16
    }
}

/// Colour index (0-3) of pixel (`row`, `col`) of the tile at VRAM offset `addr`.
pub open spec fn tile_pixel(vram: Seq<u8>, addr: int, row: int, col: int) -> u8 {
    let lo = vram[addr + row * 2];
    let hi = vram[addr + row * 2 + 1];
    let sh = (7 - col) as u8;
    ((if (hi >> sh) & 1 == 1 {
        2int
    } else {
        0int
    }) + (if (lo >> sh) & 1 == 1 {
        1int
    } else {
        0int
    })) as u8
}

/// Background colour index at screen column `x` of line `ly`.
pub open spec fn bg_index(vram: Seq<u8>, r: LcdRegs, ly: u8, x: int) -> u8 {
    let bx = (r.scx + x) % 256;
    let by = (r.scy + ly) % 256;
    let map = if bit(r.lcdc, 3) {
        0x1C00int
    } else {
        0x1800int
    };
    let t = vram[map + (by / 8) * 32 + bx / 8];
    tile_pixel(vram, bg_tile_addr(r.lcdc, t), by % 8, bx % 8)
}

/// Window colour index at screen column `x`, on window line `wl`.
pub open spec fn window_index(vram: Seq<u8>, r: LcdRegs, wl: u8, x: int) -> u8 {
    let wx = x + 7 - r.wx;
    let map = if bit(r.lcdc, 6) {
        0x1C00int
    } else {
        0x1800int
    };
    let t = vram[map + (wl / 8) * 32 + wx / 8];
    tile_pixel(vram, bg_tile_addr(r.lcdc, t), (wl % 8) as int, wx % 8)
}

/// Colour index of the background layer (window over background) at `x`;
/// 0 when LCDC bit 0 blanks both.
pub open spec fn background_index(vram: Seq<u8>, r: LcdRegs, ly: u8, wl: u8, x: int) -> u8 {
    if !bit(r.lcdc, 0) {
        0
    } else if window_on_line(r, ly) && x + 7 >= r.wx {
        window_index(vram, r, wl, x)
    } else {
        bg_index(vram, r, ly, x)
    }
}

/// Shade (0 white .. 3 black) that palette `pal` gives colour index `ci`.
pub open spec fn shade(pal: u8, ci: u8) -> u8 {
    (pal >> (2 * ci) as u8) & 3
}

/// Grey level of a shade in the framebuffer.
pub open spec fn shade_level(s: u8) -> u8 {
    if s == 0 {
        255
    } else if s == 1 {
        192
    } else if s == 2 {
        96
    } else {
        0
    }
}

/// Sprite height in lines: 16 when LCDC bit 2 is set, else 8.
pub open spec fn sprite_height(lcdc: u8) -> int {
    if bit(lcdc, 2) {
        16
    } else {
        8
    }
}

/// Whether sprite `i` of OAM intersects scanline `ly`.
pub open spec fn on_line(oam: Seq<u8>, i: int, ly: u8, h: int) -> bool {
    oam[4 * i] <= ly + 16 < oam[4 * i] + h
}

/// The first ten sprites among OAM entries `0..n` that intersect `ly`, in
/// OAM order.
pub open spec fn line_sprites(oam: Seq<u8>, ly: u8, h: int, n: nat) -> Seq<u8>
    decreases n,
{
    if n == 0 {
        Seq::empty()
    } else {
        let prev = line_sprites(oam, ly, h, (n - 1) as nat);
        if prev.len() < 10 && on_line(oam, n - 1, ly, h) {
            prev.push((n - 1) as u8)
        } else {
            prev
        }
    }
}

/// Colour index of sprite `s` at screen column `x` of line `ly`; 0 (clear)
/// where the sprite does not cover `x`.
pub open spec fn sprite_index(vram: Seq<u8>, oam: Seq<u8>, lcdc: u8, ly: u8, s: u8, x: int) -> u8 {
    let sy = oam[4 * s];
    let sx = oam[4 * s + 1];
    let attr = oam[4 * s + 3];
    if !(sx <= x + 8 < sx + 8) {
        0
    } else {
        let h = sprite_height(lcdc);
        let row0 = ly + 16 - sy;
        let row = if bit(attr, 6) {
            h - 1 - row0
        } else {
            row0
        };
        let col0 = x + 8 - sx;
        let col = if bit(attr, 5) {
            7 - col0
        } else {
            col0
        };
        let tile = if h == 16 {
            oam[4 * s + 2] & 0xFE
        } else {
            oam[4 * s + 2]
        };
        tile_pixel(vram, tile * 16, row, col)
    }
}

/// Among the first `n` sprites of `list`, the one drawn at `x`: the opaque
/// one with the lowest X, the lower OAM index on a tie.
pub open spec fn best_sprite(
    vram: Seq<u8>,
    oam: Seq<u8>,
    lcdc: u8,
    ly: u8,
    list: Seq<u8>,
    x: int,
    n: nat,
) -> Option<u8>
    decreases n,
{
    if n == 0 {
        None
    } else {
        let b = best_sprite(vram, oam, lcdc, ly, list, x, (n - 1) as nat);
        let s = list[n - 1];
        if sprite_index(vram, oam, lcdc, ly, s, x) != 0 && match b {
            None => true,
            Some(t) => oam[4 * s + 1] < oam[4 * t + 1],
        } {
            Some(s)
        } else {
            b
        }
    }
}

/// Shade of pixel `x` of line `ly`, sprites composited over the background.
pub open spec fn pixel_shade(
    vram: Seq<u8>,
    oam: Seq<u8>,
    r: LcdRegs,
    ly: u8,
    wl: u8,
    x: int,
) -> u8 {
    let ci = background_index(vram, r, ly, wl, x);
    let bgs = if bit(r.lcdc, 0) {
        shade(r.bgp, ci)
    } else {
        0
    };
    let list = line_sprites(oam, ly, sprite_height(r.lcdc), 40);
    if bit(r.lcdc, 1) {
        match best_sprite(vram, oam, r.lcdc, ly, list, x, list.len()) {
            Some(s) => {
                let attr = oam[4 * s + 3];
                if bit(attr, 7) && ci != 0 {
                    bgs
                } else {
                    shade(
                        if bit(attr, 4) {
                            r.obp1
                        } else {
                            r.obp0
                        },
                        sprite_index(vram, oam, r.lcdc, ly, s, x),
                    )
                }
            },
            None => bgs,
        }
    } else {
        bgs
    }
}

/// Byte `k` (R, G, B, A) of pixel `x` of scanline `ly`.
pub open spec fn pixel_byte(
    vram: Seq<u8>,
    oam: Seq<u8>,
    r: LcdRegs,
    ly: u8,
    wl: u8,
    x: int,
    k: int,
) -> u8 {
    if k == 3 {
        255
    } else {
        shade_level(pixel_shade(vram, oam, r, ly, wl, x))
    }
}

/// The framebuffer `img` with scanline `ly` composited from the given video
/// memory, registers and window line.
pub open spec fn rendered(
    img: Seq<u8>,
    vram: Seq<u8>,
    oam: Seq<u8>,
    r: LcdRegs,
    ly: u8,
    wl: u8,
) -> Seq<u8> {
    Seq::new(
        img.len(),
        |i: int|
            if ly * 640 <= i < ly * 640 + 640 {
                pixel_byte(vram, oam, r, ly, wl, (i - ly * 640) / 4, (i - ly * 640) % 4)
            } else {
                img[i]
            },
    )
}

/// The framebuffer after one dot from clock `c`: the scanline is rendered
/// when H-Blank starts.
pub open spec fn image_tick(
    vram: Seq<u8>,
    oam: Seq<u8>,
    r: LcdRegs,
    c: LcdClock,
    img: Seq<u8>,
) -> Seq<u8> {
    let (ly, dot) = if c.dot + 1 == DOTS_PER_LINE {
        (((c.ly + 1) % 154) as u8, 0u16)
    } else {
        (c.ly, (c.dot + 1) as u16)
    };
    if mode_at(ly, dot) != mode_at(c.ly, c.dot) && mode_at(ly, dot) == 0 {
        rendered(img, vram, oam, r, c.ly, c.window_line)
    } else {
        img
    }
}

/// The framebuffer after `n` dots.
pub open spec fn image_run(
    vram: Seq<u8>,
    oam: Seq<u8>,
    r: LcdRegs,
    c: LcdClock,
    if_: u8,
    img: Seq<u8>,
    n: nat,
) -> Seq<u8>
    decreases n,
{
    if n == 0 {
        img
    } else {
        let img1 = image_run(vram, oam, r, c, if_, img, (n - 1) as nat);
        if bit(r.lcdc, 7) {
            image_tick(vram, oam, r, clock_run(r, c, if_, (n - 1) as nat).0, img1)
        } else {
            img1
        }
    }
}

/// The pixel-processing unit: video memory, sprite attributes, LCD registers,
/// scanline state machine and the RGBA framebuffer.
pub struct Gpu {
    pub vram: Vec<u8>,
    pub oam: Vec<u8>,
    /// 160x144 RGBA pixels, row by row.
    pub image_data: Vec<u8>,
    pub regs: LcdRegs,
    pub clock: LcdClock,
}

impl Gpu {
    pub open spec fn wf(&self) -> bool {
        &&& self.vram@.len() == VRAM_SIZE
        &&& self.oam@.len() == OAM_SIZE
        &&& self.image_data@.len() == FRAME_BYTES
        &&& self.clock.wf()
        &&& !bit(self.regs.lcdc, 7) ==> self.clock.ly == 0 && self.clock.dot == 0
    }

    /// The mode STAT reports: the scanline mode with the LCD on, else 0.
    pub open spec fn mode_spec(&self) -> u8 {
        if bit(self.regs.lcdc, 7) {
            mode_at(self.clock.ly, self.clock.dot)
        } else {
            0
        }
    }

    /// STAT as the program reads it: bit 7 always set, the enables, the
    /// LY=LYC coincidence flag in bit 2 and the mode in bits 0-1.
    pub open spec fn stat_spec(&self) -> u8 {
        0x80 | (self.regs.stat & 0x78) | (if self.clock.ly == self.regs.lyc {
            0x04u8
        } else {
            0x00u8
        }) | self.mode_spec()
    }

    /// What a read of the LCD register at FF00 + `addr & 0xFF` returns.
    pub open spec fn reg_spec(&self, addr: u16) -> u8 {
        let a = addr & 0xFF;
        if a == 0x40 {
            self.regs.lcdc
        } else if a == 0x41 {
            self.stat_spec()
        } else if a == 0x42 {
            self.regs.scy
        } else if a == 0x43 {
            self.regs.scx
        } else if a == 0x44 {
            self.clock.ly
        } else if a == 0x45 {
            self.regs.lyc
        } else if a == 0x47 {
            self.regs.bgp
        } else if a == 0x48 {
            self.regs.obp0
        } else if a == 0x49 {
            self.regs.obp1
        } else if a == 0x4A {
            self.regs.wy
        } else if a == 0x4B {
            self.regs.wx
        } else {
            0xFF
        }
    }

    /// The registers after a write of `val` to FF00 + `addr & 0xFF`.
    pub open spec fn reg_write_spec(r: LcdRegs, addr: u16, val: u8) -> LcdRegs {
        let a = addr & 0xFF;
        if a == 0x40 {
            LcdRegs { lcdc: val, ..r }
        } else if a == 0x41 {
            LcdRegs { stat: val & 0x78, ..r }
        } else if a == 0x42 {
            LcdRegs { scy: val, ..r }
        } else if a == 0x43 {
            LcdRegs { scx: val, ..r }
        } else if a == 0x45 {
            LcdRegs { lyc: val, ..r }
        } else if a == 0x47 {
            LcdRegs { bgp: val, ..r }
        } else if a == 0x48 {
            LcdRegs { obp0: val, ..r }
        } else if a == 0x49 {
            LcdRegs { obp1: val, ..r }
        } else if a == 0x4A {
            LcdRegs { wy: val, ..r }
        } else if a == 0x4B {
            LcdRegs { wx: val, ..r }
        } else {
            r
        }
    }

    /// Power-on state: LCD on (LCDC 0x91) at line 0, dot 0, blank screen.
    pub fn new() -> (r: Gpu)
        ensures
            r.wf(),
            r.vram@ == Seq::new(VRAM_SIZE as nat, |i: int| 0u8),
            r.oam@ == Seq::new(OAM_SIZE as nat, |i: int| 0u8),
            r.image_data@ == Seq::new(FRAME_BYTES as nat, |i: int| 0u8),
            r.regs == (LcdRegs {
                lcdc: 0x91,
                stat: 0,
                scy: 0,
                scx: 0,
                lyc: 0,
                bgp: 0xFC,
                obp0: 0xFF,
                obp1: 0xFF,
                wy: 0,
                wx: 0,
            }),
            r.clock == (LcdClock { ly: 0, dot: 0, window_line: 0 }),
    {
        Gpu {
            vram: zeroes(VRAM_SIZE),
            oam: zeroes(OAM_SIZE),
            image_data: zeroes(FRAME_BYTES),
            regs: LcdRegs {
                lcdc: 0x91,
                stat: 0,
                scy: 0,
                scx: 0,
                lyc: 0,
                bgp: 0xFC,
                obp0: 0xFF,
                obp1: 0xFF,
                wy: 0,
                wx: 0,
            },
            clock: LcdClock { ly: 0, dot: 0, window_line: 0 },
        }
    }

    /// The current mode (0-3) as STAT reports it.
    pub fn mode(&self) -> (r: u8)
        requires
            self.wf(),
        ensures
            r == self.mode_spec(),
            r <= 3,
    {
        if (self.regs.lcdc >> 7) & 1 == 1 {
            if self.clock.ly >= 144 {
                1
            } else if self.clock.dot < 80 {
                2
            } else if self.clock.dot < 252 {
                3
            } else {
                0
            }
        } else {
            0
        }
    }

    /// Reads an LCD register (FF40-FF4B but FF46).
    pub fn rb(&self, addr: u16) -> (r: u8)
        requires
            self.wf(),
        ensures
            r == self.reg_spec(addr),
    {
        let a = addr & 0xFF;
        if a == 0x40 {
            self.regs.lcdc
        } else if a == 0x41 {
            let coincidence: u8 = if self.clock.ly == self.regs.lyc {
                0x04
            } else {
                0x00
            };
            0x80 | (self.regs.stat & 0x78) | coincidence | self.mode()
        } else if a == 0x42 {
            self.regs.scy
        } else if a == 0x43 {
            self.regs.scx
        } else if a == 0x44 {
            self.clock.ly
        } else if a == 0x45 {
            self.regs.lyc
        } else if a == 0x47 {
            self.regs.bgp
        } else if a == 0x48 {
            self.regs.obp0
        } else if a == 0x49 {
            self.regs.obp1
        } else if a == 0x4A {
            self.regs.wy
        } else if a == 0x4B {
            self.regs.wx
        } else {
            0xFF
        }
    }

    /// Writes an LCD register. LY is read-only; switching the LCD on or off
    /// puts the scanline machine back at line 0, dot 0.
    pub fn wb(&mut self, addr: u16, val: u8)
        requires
            old(self).wf(),
        ensures
            final(self).wf(),
            final(self).regs == Gpu::reg_write_spec(old(self).regs, addr, val),
            final(self).clock == if addr & 0xFF == 0x40 && bit(val, 7) != bit(
                old(self).regs.lcdc,
                7,
            ) {
                LcdClock { ly: 0, dot: 0, window_line: 0 }
            } else {
                old(self).clock
            },
            final(self).vram == old(self).vram,
            final(self).oam == old(self).oam,
            final(self).image_data == old(self).image_data,
    {
        let a = addr & 0xFF;
        if a == 0x40 {
            let was_on = (self.regs.lcdc >> 7) & 1 == 1;
            let now_on = (val >> 7) & 1 == 1;
            if was_on != now_on {
                self.clock = LcdClock { ly: 0, dot: 0, window_line: 0 };
            }
            self.regs.lcdc = val;
        } else if a == 0x41 {
            self.regs.stat = val & 0x78;
        } else if a == 0x42 {
            self.regs.scy = val;
        } else if a == 0x43 {
            self.regs.scx = val;
        } else if a == 0x45 {
            self.regs.lyc = val;
        } else if a == 0x47 {
            self.regs.bgp = val;
        } else if a == 0x48 {
            self.regs.obp0 = val;
        } else if a == 0x49 {
            self.regs.obp1 = val;
        } else if a == 0x4A {
            self.regs.wy = val;
        } else if a == 0x4B {
            self.regs.wx = val;
        }
    }

    pub fn rb_vram(&self, addr: u16) -> (r: u8)
        requires
            self.wf(),
            0x8000 <= addr < 0xA000,
        ensures
            r == self.vram@[addr - 0x8000],
    {
        self.vram[(addr - 0x8000) as usize]
    }

    pub fn wb_vram(&mut self, addr: u16, val: u8)
        requires
            old(self).wf(),
            0x8000 <= addr < 0xA000,
        ensures
            final(self).wf(),
            final(self).vram@ == old(self).vram@.update(addr - 0x8000, val),
            final(self).oam == old(self).oam,
            final(self).regs == old(self).regs,
            final(self).clock == old(self).clock,
            final(self).image_data == old(self).image_data,
    {
        self.vram.set((addr - 0x8000) as usize, val);
    }

    pub fn rb_oam(&self, addr: u16) -> (r: u8)
        requires
            self.wf(),
            0xFE00 <= addr < 0xFEA0,
        ensures
            r == self.oam@[addr - 0xFE00],
    {
        self.oam[(addr - 0xFE00) as usize]
    }

    pub fn wb_oam(&mut self, addr: u16, val: u8)
        requires
            old(self).wf(),
            0xFE00 <= addr < 0xFEA0,
        ensures
            final(self).wf(),
            final(self).oam@ == old(self).oam@.update(addr - 0xFE00, val),
            final(self).vram == old(self).vram,
            final(self).regs == old(self).regs,
            final(self).clock == old(self).clock,
            final(self).image_data == old(self).image_data,
    {
        self.oam.set((addr - 0xFE00) as usize, val);
    }

    /// Advances the PPU by one dot, rendering the scanline when H-Blank starts.
    fn tick(&mut self, if_: &mut u8)
        requires
            old(self).wf(),
            bit(old(self).regs.lcdc, 7),
        ensures
            final(self).wf(),
            (final(self).clock, *final(if_)) == clock_tick(old(self).regs, old(self).clock, *old(if_)),
            final(self).image_data@ == image_tick(
                old(self).vram@,
                old(self).oam@,
                old(self).regs,
                old(self).clock,
                old(self).image_data@,
            ),
            final(self).regs == old(self).regs,
            final(self).vram == old(self).vram,
            final(self).oam == old(self).oam,
    {
        let c = self.clock;
        let old_mode = self.mode();
        if c.dot + 1 == DOTS_PER_LINE {
            self.clock.dot = 0;
            self.clock.ly = (c.ly + 1) % 154;
        } else {
            self.clock.dot = c.dot + 1;
        }
        let mode = self.mode();
        if mode != old_mode {
            if mode == 0 {
                self.render_line();
                if self.window_on_line(c.ly) {
                    self.clock.window_line = ((c.window_line as u16 + 1) % 256) as u8;
                }
            } else if mode == 1 {
                self.clock.window_line = 0;
            }
            *if_ = *if_ | self.mode_irq(mode);
        }
        if self.clock.ly != c.ly && self.clock.ly == self.regs.lyc && (self.regs.stat >> 6) & 1
            == 1 {
            *if_ = *if_ | 0x02;
        }
    }

    fn window_on_line(&self, ly: u8) -> (r: bool)
        ensures
            r == window_on_line(self.regs, ly),
    {
        (self.regs.lcdc >> 5) & 1 == 1 && ly >= self.regs.wy && self.regs.wx <= 166
    }

    fn mode_irq(&self, mode: u8) -> (r: u8)
        ensures
            r == mode_irq(self.regs, mode),
    {
        let s = self.regs.stat;
        let stat: u8 = if mode == 0 && (s >> 3) & 1 == 1 || mode == 1 && (s >> 4) & 1 == 1 || mode
            == 2 && (s >> 5) & 1 == 1 {
            0x02
        } else {
            0x00
        };
        if mode == 1 {
            stat | 0x01
        } else {
            stat
        }
    }

    /// Advances the PPU by `clocks` dots (T-cycles), raising V-Blank and
    /// LCD STAT requests in `if_`. Nothing moves while the LCD is off.
    pub fn step(&mut self, clocks: u32, if_: &mut u8)
        requires
            old(self).wf(),
        ensures
            final(self).wf(),
            (final(self).clock, *final(if_)) == clock_run(
                old(self).regs,
                old(self).clock,
                *old(if_),
                clocks as nat,
            ),
            final(self).image_data@ == image_run(
                old(self).vram@,
                old(self).oam@,
                old(self).regs,
                old(self).clock,
                *old(if_),
                old(self).image_data@,
                clocks as nat,
            ),
            final(self).regs == old(self).regs,
            final(self).vram == old(self).vram,
            final(self).oam == old(self).oam,
    {
        let mut i: u32 = 0;
        while i < clocks
            invariant
                i <= clocks,
                self.wf(),
                self.regs == old(self).regs,
                self.vram == old(self).vram,
                self.oam == old(self).oam,
                (self.clock, *if_) == clock_run(old(self).regs, old(self).clock, *old(if_), i as nat),
                self.image_data@ == image_run(
                    old(self).vram@,
                    old(self).oam@,
                    old(self).regs,
                    old(self).clock,
                    *old(if_),
                    old(self).image_data@,
                    i as nat,
                ),
            decreases clocks - i,
        {
            if (self.regs.lcdc >> 7) & 1 == 1 {
                self.tick(if_);
            }
            i = i + 1;
        }
    }

    /// Composites scanline LY into the framebuffer: each pixel's shade, as
    /// `pixel_shade` gives it, in grey levels with full alpha.
    pub fn render_line(&mut self)
        requires
            old(self).wf(),
            old(self).clock.ly < 144,
        ensures
            final(self).wf(),
            final(self).regs == old(self).regs,
            final(self).clock == old(self).clock,
            final(self).vram == old(self).vram,
            final(self).oam == old(self).oam,
            forall|i: int|
                0 <= i < FRAME_BYTES && !(old(self).clock.ly * 640 <= i < old(self).clock.ly * 640
                    + 640) ==> final(self).image_data@[i] == old(self).image_data@[i],
            forall|x: int, k: int|
                0 <= x < 160 && 0 <= k < 4 ==> final(self).image_data@[old(self).clock.ly * 640 + 4
                    * x + k] == pixel_byte(
                    old(self).vram@,
                    old(self).oam@,
                    old(self).regs,
                    old(self).clock.ly,
                    old(self).clock.window_line,
                    x,
                    k,
                ),
            final(self).image_data@ == rendered(
                old(self).image_data@,
                old(self).vram@,
                old(self).oam@,
                old(self).regs,
                old(self).clock.ly,
                old(self).clock.window_line,
            ),
    {
        let ly = self.clock.ly;
        let list = self.select_sprites(ly);
        let base: usize = ly as usize * 640;
        let mut x: usize = 0;
        while x < 160
            invariant
                x <= 160,
                ly == old(self).clock.ly,
                ly < 144,
                base == ly * 640,
                self.wf(),
                self.regs == old(self).regs,
                self.clock == old(self).clock,
                self.vram == old(self).vram,
                self.oam == old(self).oam,
                list@ == line_sprites(self.oam@, ly, sprite_height(self.regs.lcdc), 40),
                forall|i: int| 0 <= i < list@.len() ==> list@[i] < 40,
                forall|i: int|
                    0 <= i < FRAME_BYTES && !(base <= i < base + 4 * x) ==> self.image_data@[i]
                        == old(self).image_data@[i],
                forall|x2: int, k: int|
                    0 <= x2 < x && 0 <= k < 4 ==> self.image_data@[base + 4 * x2 + k] == pixel_byte(
                        old(self).vram@,
                        old(self).oam@,
                        old(self).regs,
                        ly,
                        old(self).clock.window_line,
                        x2,
                        k,
                    ),
            decreases 160 - x,
        {
            let s = self.pixel_shade_at(ly, &list, x as u8);
            let level: u8 = if s == 0 {
                255
            } else if s == 1 {
                192
            } else if s == 2 {
                96
            } else {
                0
            };
            let p = base + 4 * x;
            self.image_data.set(p, level);
            self.image_data.set(p + 1, level);
            self.image_data.set(p + 2, level);
            self.image_data.set(p + 3, 255);
            x = x + 1;
        }
        let ghost want = rendered(
            old(self).image_data@,
            old(self).vram@,
            old(self).oam@,
            old(self).regs,
            ly,
            old(self).clock.window_line,
        );
        assert forall|i: int| 0 <= i < FRAME_BYTES implies self.image_data@[i] == want[i] by {
            if base <= i < base + 640 {
                let x2 = (i - base) / 4;
                let k = (i - base) % 4;
                assert(i == base + 4 * x2 + k);
            }
        }
        assert(self.image_data@ =~= want);
    }

    /// Base of the background tile map in VRAM (LCDC bit 3).
    pub fn bgbase(&self) -> (r: usize)
        ensures
            r == if bit(self.regs.lcdc, 3) {
                0x1C00usize
            } else {
                0x1800usize
            },
    {
        if (self.regs.lcdc >> 3) & 1 == 1 {
            0x1C00
        } else {
            0x1800
        }
    }

    /// Tile number of map entry `tilei` counted from `base`: unsigned when
    /// LCDC bit 4 is set, else a signed offset.
    pub fn add_tilei(&self, base: usize, tilei: u8) -> (r: usize)
        requires
            base >= 128,
            base + 256 <= usize::MAX,
        ensures
            r == if bit(self.regs.lcdc, 4) || tilei < 128 {
                base + tilei
            } else {
                base + tilei - 256
            },
    {
        if (self.regs.lcdc >> 4) & 1 == 1 || tilei < 128 {
            base + tilei as usize
        } else {
            base + tilei as usize - 256
        }
    }

    fn tile_pixel_at(&self, addr: usize, row: usize, col: usize) -> (r: u8)
        requires
            self.wf(),
            addr + 32 <= VRAM_SIZE,
            row < 16,
            col < 8,
        ensures
            r == tile_pixel(self.vram@, addr as int, row as int, col as int),
            r <= 3,
    {
        let lo = self.vram[addr + row * 2];
        let hi = self.vram[addr + row * 2 + 1];
        let sh = (7 - col) as u8;
        let b1: u8 = if (hi >> sh) & 1 == 1 {
            2
        } else {
            0
        };
        let b0: u8 = if (lo >> sh) & 1 == 1 {
            1
        } else {
            0
        };
        b1 + b0
    }

    /// VRAM offset of background/window tile `t`.
    fn bg_tile_at(&self, t: u8) -> (r: usize)
        ensures
            r == bg_tile_addr(self.regs.lcdc, t),
            r + 32 <= VRAM_SIZE,
    {
        let tilebase: usize = if (self.regs.lcdc >> 4) & 1 == 1 {
            0
        } else {
            256
        };
        if tilebase == 0 {
            t as usize * 16
        } else {
            self.add_tilei(tilebase, t) * 16
        }
    }

    fn background_index_at(&self, ly: u8, x: u8) -> (r: u8)
        requires
            self.wf(),
            x < 160,
        ensures
            r == background_index(self.vram@, self.regs, ly, self.clock.window_line, x as int),
            r <= 3,
    {
        if (self.regs.lcdc >> 0) & 1 != 1 {
            return 0;
        }
        if self.window_on_line(ly) && x as u16 + 7 >= self.regs.wx as u16 {
            let wx = (x as u16 + 7 - self.regs.wx as u16) as usize;
            let wl = self.clock.window_line as usize;
            let map: usize = if (self.regs.lcdc >> 6) & 1 == 1 {
                0x1C00
            } else {
                0x1800
            };
            let t = self.vram[map + (wl / 8) * 32 + wx / 8];
            let addr = self.bg_tile_at(t);
            self.tile_pixel_at(addr, wl % 8, wx % 8)
        } else {
            let bx = (self.regs.scx as usize + x as usize) % 256;
            let by = (self.regs.scy as usize + ly as usize) % 256;
            let map = self.bgbase();
            let t = self.vram[map + (by / 8) * 32 + bx / 8];
            let addr = self.bg_tile_at(t);
            self.tile_pixel_at(addr, by % 8, bx % 8)
        }
    }

    /// The sprites that scanline `ly` shows, as `line_sprites` picks them.
    fn select_sprites(&self, ly: u8) -> (r: Vec<u8>)
        requires
            self.wf(),
        ensures
            r@ == line_sprites(self.oam@, ly, sprite_height(self.regs.lcdc), 40),
            forall|i: int| 0 <= i < r@.len() ==> r@[i] < 40,
    {
        let h: u16 = if (self.regs.lcdc >> 2) & 1 == 1 {
            16
        } else {
            8
        };
        let mut r: Vec<u8> = Vec::new();
        let mut i: usize = 0;
        while i < 40
            invariant
                i <= 40,
                self.wf(),
                h == sprite_height(self.regs.lcdc),
                r@ == line_sprites(self.oam@, ly, h as int, i as nat),
                r@.len() <= 10,
                forall|j: int| 0 <= j < r@.len() ==> r@[j] < i,
            decreases 40 - i,
        {
            let y = self.oam[4 * i] as u16;
            if r.len() < 10 && y <= ly as u16 + 16 && (ly as u16 + 16) < y + h {
                r.push(i as u8);
            }
            i = i + 1;
        }
        r
    }

    fn sprite_index_at(&self, ly: u8, s: u8, x: u8) -> (r: u8)
        requires
            self.wf(),
            s < 40,
            x < 160,
            on_line(self.oam@, s as int, ly, sprite_height(self.regs.lcdc)),
        ensures
            r == sprite_index(self.vram@, self.oam@, self.regs.lcdc, ly, s, x as int),
            r <= 3,
    {
        let i = 4 * s as usize;
        let sy = self.oam[i] as u16;
        let sx = self.oam[i + 1] as u16;
        let attr = self.oam[i + 3];
        let px = x as u16 + 8;
        if !(sx <= px && px < sx + 8) {
            return 0;
        }
        let tall = (self.regs.lcdc >> 2) & 1 == 1;
        let h: u16 = if tall {
            16
        } else {
            8
        };
        let row0 = ly as u16 + 16 - sy;
        let row = if (attr >> 6) & 1 == 1 {
            h - 1 - row0
        } else {
            row0
        };
        let col0 = px - sx;
        let col = if (attr >> 5) & 1 == 1 {
            7 - col0
        } else {
            col0
        };
        let tile = if tall {
            self.oam[i + 2] & 0xFE
        } else {
            self.oam[i + 2]
        };
        self.tile_pixel_at(tile as usize * 16, row as usize, col as usize)
    }

    fn best_sprite_at(&self, ly: u8, list: &Vec<u8>, x: u8) -> (r: Option<u8>)
        requires
            self.wf(),
            x < 160,
            list@ == line_sprites(self.oam@, ly, sprite_height(self.regs.lcdc), 40),
            forall|i: int| 0 <= i < list@.len() ==> list@[i] < 40,
        ensures
            r == best_sprite(
                self.vram@,
                self.oam@,
                self.regs.lcdc,
                ly,
                list@,
                x as int,
                list@.len(),
            ),
            r matches Some(s) ==> s < 40 && on_line(
                self.oam@,
                s as int,
                ly,
                sprite_height(self.regs.lcdc),
            ) && sprite_index(self.vram@, self.oam@, self.regs.lcdc, ly, s, x as int) != 0,
    {
        proof {
            lemma_line_sprites_on_line(self.oam@, ly, sprite_height(self.regs.lcdc), 40);
        }
        let mut best: Option<u8> = None;
        let mut i: usize = 0;
        while i < list.len()
            invariant
                i <= list@.len(),
                self.wf(),
                x < 160,
                forall|j: int| 0 <= j < list@.len() ==> list@[j] < 40,
                forall|j: int|
                    0 <= j < list@.len() ==> on_line(
                        self.oam@,
                        list@[j] as int,
                        ly,
                        sprite_height(self.regs.lcdc),
                    ),
                best == best_sprite(
                    self.vram@,
                    self.oam@,
                    self.regs.lcdc,
                    ly,
                    list@,
                    x as int,
                    i as nat,
                ),
                best matches Some(s) ==> s < 40 && on_line(
                    self.oam@,
                    s as int,
                    ly,
                    sprite_height(self.regs.lcdc),
                ) && sprite_index(self.vram@, self.oam@, self.regs.lcdc, ly, s, x as int) != 0,
            decreases list@.len() - i,
        {
            let s = list[i];
            let ci = self.sprite_index_at(ly, s, x);
            if ci != 0 {
                let better = match best {
                    None => true,
                    Some(t) => self.oam[4 * s as usize + 1] < self.oam[4 * t as usize + 1],
                };
                if better {
                    best = Some(s);
                }
            }
            i = i + 1;
        }
        best
    }

    /// Shade of pixel `x` of scanline `ly`.
    fn pixel_shade_at(&self, ly: u8, list: &Vec<u8>, x: u8) -> (r: u8)
        requires
            self.wf(),
            x < 160,
            list@ == line_sprites(self.oam@, ly, sprite_height(self.regs.lcdc), 40),
            forall|i: int| 0 <= i < list@.len() ==> list@[i] < 40,
        ensures
            r == pixel_shade(
                self.vram@,
                self.oam@,
                self.regs,
                ly,
                self.clock.window_line,
                x as int,
            ),
    {
        let ci = self.background_index_at(ly, x);
        let bgs = if (self.regs.lcdc >> 0) & 1 == 1 {
            (self.regs.bgp >> (2 * ci)) & 3
        } else {
            0
        };
        if (self.regs.lcdc >> 1) & 1 == 1 {
            match self.best_sprite_at(ly, list, x) {
                Some(s) => {
                    proof {
                        lemma_line_sprites_on_line(
                            self.oam@,
                            ly,
                            sprite_height(self.regs.lcdc),
                            40,
                        );
                    }
                    let attr = self.oam[4 * s as usize + 3];
                    if (attr >> 7) & 1 == 1 && ci != 0 {
                        bgs
                    } else {
                        let pal = if (attr >> 4) & 1 == 1 {
                            self.regs.obp1
                        } else {
                            self.regs.obp0
                        };
                        let sci = self.sprite_index_at(ly, s, x);
                        (pal >> (2 * sci)) & 3
                    }
                },
                None => bgs,
            }
        } else {
            bgs
        }
    }
}

/// With the LCD on, STAT's two mode bits hold exactly one mode, 0 to 3: the
/// mode of the current point of the frame.
pub proof fn lemma_stat_reports_mode(g: Gpu)
    requires
        g.wf(),
        bit(g.regs.lcdc, 7),
    ensures
        g.stat_spec() & 3 == mode_at(g.clock.ly, g.clock.dot),
        mode_at(g.clock.ly, g.clock.dot) <= 3,
{
    let m = mode_at(g.clock.ly, g.clock.dot);
    let s = g.regs.stat;
    let c: u8 = if g.clock.ly == g.regs.lyc {
        0x04u8
    } else {
        0x00u8
    };
    assert((0x80 | (s & 0x78) | c | m) & 3 == m) by (bit_vector)
        requires
            m <= 3,
            c == 4 || c == 0,
    ;
}

/// Dots in one frame.
pub const DOTS_PER_FRAME: u32 = 70224;

/// Position of the clock in the frame, in dots from line 0, dot 0.
pub open spec fn frame_pos(c: LcdClock) -> int {
    c.ly * 456 + c.dot
}

/// Whether the dot after `c` enters V-Blank (line 143, dot 455 to line 144).
pub open spec fn enters_vblank(c: LcdClock) -> bool {
    c.ly == 143 && c.dot == 455
}

/// How many of the first `n` dots from `c` enter V-Blank.
pub open spec fn vblank_entries(r: LcdRegs, c: LcdClock, if_: u8, n: nat) -> nat
    decreases n,
{
    if n == 0 {
        0
    } else {
        vblank_entries(r, c, if_, (n - 1) as nat) + if enters_vblank(
            clock_run(r, c, if_, (n - 1) as nat).0,
        ) {
            1nat
        } else {
            0nat
        }
    }
}

/// One dot with the LCD on sets IF bit 0 (V-Blank) exactly when it enters
/// V-Blank or the bit was already set.
pub proof fn lemma_tick_vblank_bit(r: LcdRegs, c: LcdClock, if_: u8)
    requires
        c.wf(),
    ensures
        (clock_tick(r, c, if_).1 & 1 == 1) == (if_ & 1 == 1 || enters_vblank(c)),
{
    let (c2, f2) = clock_tick(r, c, if_);
    let old_mode = mode_at(c.ly, c.dot);
    let mode = mode_at(c2.ly, c2.dot);
    let irq = mode_irq(r, mode);
    assert(mode != old_mode && mode == 1 <==> enters_vblank(c));
    let f1 = if mode != old_mode {
        if_ | irq
    } else {
        if_
    };
    if mode == 1 {
        let st: u8 = if bit(r.stat, 4) {
            2
        } else {
            0
        };
        assert(irq == st | 1);
        assert((if_ | (st | 1)) & 1 == 1) by (bit_vector);
    } else {
        assert(irq == 0 || irq == 2);
        assert(irq == 0 || irq == 2 ==> ((if_ | irq) & 1 == 1) == (if_ & 1 == 1)) by (bit_vector);
    }
    assert(((f1 | 2) & 1 == 1) == (f1 & 1 == 1)) by (bit_vector);
}

/// One dot moves the frame position on by one, wrapping after the frame.
proof fn lemma_tick_pos(r: LcdRegs, c: LcdClock, if_: u8)
    requires
        c.wf(),
    ensures
        clock_tick(r, c, if_).0.wf(),
        frame_pos(clock_tick(r, c, if_).0) == (frame_pos(c) + 1) % (DOTS_PER_FRAME as int),
{
}

/// With the LCD on, `n` dots move the frame position on by `n`, wrapping.
pub proof fn lemma_run_pos(r: LcdRegs, c: LcdClock, if_: u8, n: nat)
    requires
        c.wf(),
        bit(r.lcdc, 7),
    ensures
        clock_run(r, c, if_, n).0.wf(),
        frame_pos(clock_run(r, c, if_, n).0) == (frame_pos(c) + n) % (DOTS_PER_FRAME as int),
    decreases n,
{
    if n > 0 {
        lemma_run_pos(r, c, if_, (n - 1) as nat);
        let (c1, f1) = clock_run(r, c, if_, (n - 1) as nat);
        lemma_tick_pos(r, c1, f1);
        vstd::arithmetic::div_mod::lemma_add_mod_noop(
            frame_pos(c) + n - 1,
            1,
            DOTS_PER_FRAME as int,
        );
    }
}

/// No dot enters V-Blank while the position stays clear of line 143, dot 455.
proof fn lemma_no_vblank_between(r: LcdRegs, c: LcdClock, if_: u8, n: nat)
    requires
        c.wf(),
        bit(r.lcdc, 7),
        frame_pos(c) + n <= 65663 || (frame_pos(c) >= 65664 && frame_pos(c) + n <= DOTS_PER_FRAME),
    ensures
        vblank_entries(r, c, if_, n) == 0,
    decreases n,
{
    if n > 0 {
        lemma_no_vblank_between(r, c, if_, (n - 1) as nat);
        lemma_run_pos(r, c, if_, (n - 1) as nat);
    }
}

/// Running the PPU `a` then `b` dots is running it `a + b` dots, and the
/// V-Blank entries of the two runs add up.
pub proof fn lemma_vblank_split(r: LcdRegs, c: LcdClock, if_: u8, a: nat, b: nat)
    ensures
        clock_run(r, c, if_, a + b) == ({
            let (c1, f1) = clock_run(r, c, if_, a);
            clock_run(r, c1, f1, b)
        }),
        vblank_entries(r, c, if_, a + b) == vblank_entries(r, c, if_, a) + vblank_entries(
            r,
            clock_run(r, c, if_, a).0,
            clock_run(r, c, if_, a).1,
            b,
        ),
    decreases b,
{
    if b > 0 {
        lemma_vblank_split(r, c, if_, a, (b - 1) as nat);
        assert((a + b - 1) as nat == a + (b - 1) as nat);
    }
}

/// With the LCD on, a whole frame of 70224 dots from line 0, dot 0 (mode 2)
/// enters V-Blank exactly once and ends at line 0, dot 0, mode 2 again.
pub proof fn lemma_frame_has_one_vblank(r: LcdRegs, c: LcdClock, if_: u8)
    requires
        bit(r.lcdc, 7),
        c.ly == 0,
        c.dot == 0,
    ensures
        mode_at(c.ly, c.dot) == 2,
        vblank_entries(r, c, if_, 70224) == 1,
        clock_run(r, c, if_, 70224).0.ly == 0,
        clock_run(r, c, if_, 70224).0.dot == 0,
        mode_at(clock_run(r, c, if_, 70224).0.ly, clock_run(r, c, if_, 70224).0.dot) == 2,
{
    lemma_run_pos(r, c, if_, 70224);
    lemma_vblank_split(r, c, if_, 65663, 4561);
    lemma_no_vblank_between(r, c, if_, 65663);
    let (c1, f1) = clock_run(r, c, if_, 65663);
    lemma_run_pos(r, c, if_, 65663);
    assert(c1.ly == 143 && c1.dot == 455);
    lemma_vblank_split(r, c1, f1, 1, 4560);
    let (c2, f2) = clock_run(r, c1, f1, 1);
    assert(clock_run(r, c1, f1, 0) == (c1, f1));
    assert(vblank_entries(r, c1, f1, 0) == 0);
    assert(enters_vblank(c1));
    assert(vblank_entries(r, c1, f1, 1) == vblank_entries(r, c1, f1, 0) + 1);
    lemma_run_pos(r, c1, f1, 1);
    lemma_no_vblank_between(r, c2, f2, 4560);
}

/// Every sprite that `line_sprites` picks intersects the line.
proof fn lemma_line_sprites_on_line(oam: Seq<u8>, ly: u8, h: int, n: nat)
    requires
        n <= 40,
    ensures
        forall|j: int|
            0 <= j < line_sprites(oam, ly, h, n).len() ==> on_line(
                oam,
                line_sprites(oam, ly, h, n)[j] as int,
                ly,
                h,
            ),
    decreases n,
{
    if n > 0 {
        lemma_line_sprites_on_line(oam, ly, h, (n - 1) as nat);
        let prev = line_sprites(oam, ly, h, (n - 1) as nat);
        if prev.len() < 10 && on_line(oam, n - 1, ly, h) {
            let cur = prev.push((n - 1) as u8);
            assert forall|j: int| 0 <= j < cur.len() implies on_line(oam, cur[j] as int, ly, h) by {
                if j < prev.len() {
                    assert(cur[j] == prev[j]);
                }
            }
        }
    }
}

/// `n` zero bytes.
pub fn zeroes(n: usize) -> (r: Vec<u8>)
    ensures
        r@ == Seq::new(n as nat, |i: int| 0u8),
{
    let mut v: Vec<u8> = Vec::new();
    let mut i: usize = 0;
    while i < n
        invariant
            i <= n,
            v@ == Seq::new(i as nat, |j: int| 0u8),
        decreases n - i,
    {
        v.push(0);
        i = i + 1;
        assert(v@ =~= Seq::new(i as nat, |j: int| 0u8));
    }
    v
}

} // verus!
