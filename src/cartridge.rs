//! Cartridge images: the header, and MBC1 ROM/RAM banking.

use vstd::prelude::*;
use crate::error::EmuError;

verus! {

/// Offset of the cartridge header in the ROM image.
pub const HEADER_OFFSET: usize = 0x100;

/// Size of the cartridge header in bytes.
pub const HEADER_SIZE: usize = 0x50;

/// Size of the external RAM that is modelled: four banks of 8 KiB.
pub const EXT_RAM_SIZE: usize = 0x8000;

/// The header at 0x0100-0x014F of a cartridge image.
#[derive(Clone, Copy, Debug)]
pub struct CartridgeHeader {
    /// Usually a NOP and a jump to 0x0150.
    pub entry_point: [u8; 4],
    /// Bitmap of the boot logo.
    pub nintendo_logo: [u8; 48],
    /// Game title in upper-case ASCII, padded with NUL bytes.
    pub game_title: [u8; 16],
    pub new_licence_code: [u8; 2],
    pub sgb_flag: u8,
    /// Selects the memory bank controller.
    pub cartridge_type: u8,
    /// ROM size, encoded as `32 KiB << n`.
    pub rom_size: u8,
    pub ram_size: u8,
    pub dest_code: u8,
    pub old_licence_code: u8,
    pub rom_version_number: u8,
    pub header_checksum: u8,
    pub global_checksum: [u8; 2],
}

/// The title bytes that precede the first NUL.
pub open spec fn title_prefix(t: Seq<u8>) -> Seq<u8>
    decreases t.len(),
{
    if t.len() == 0 || t[0] == 0 {
        Seq::empty()
    } else {
        seq![t[0]].add(title_prefix(t.drop_first()))
    }
}

impl CartridgeHeader {
    /// The header fields laid out as they stand in the ROM image.
    pub open spec fn bytes(&self) -> Seq<u8> {
        self.entry_point@ + self.nintendo_logo@ + self.game_title@ + self.new_licence_code@
            + seq![
            self.sgb_flag,
            self.cartridge_type,
            self.rom_size,
            self.ram_size,
            self.dest_code,
            self.old_licence_code,
            self.rom_version_number,
            self.header_checksum,
        ] + self.global_checksum@
    }

    /// The game title, up to its first NUL byte.
    pub fn get_game_title(&self) -> (r: Vec<u8>)
        ensures
            r@ == title_prefix(self.game_title@),
    {
        let mut r: Vec<u8> = Vec::new();
        let mut i: usize = 0;
        assert(self.game_title@.subrange(0, 16) =~= self.game_title@);
        assert(r@ + title_prefix(self.game_title@) =~= title_prefix(self.game_title@));
        while i < 16 && self.game_title[i] != 0
            invariant
                i <= 16,
                forall|j: int| 0 <= j < i ==> self.game_title@[j] != 0,
                title_prefix(self.game_title@) == r@ + title_prefix(
                    self.game_title@.subrange(i as int, 16),
                ),
            decreases 16 - i,
        {
            let ghost rest = self.game_title@.subrange(i as int, 16);
            assert(rest.drop_first() =~= self.game_title@.subrange(i + 1, 16));
            r.push(self.game_title[i]);
            i = i + 1;
        }
        assert(title_prefix(self.game_title@.subrange(i as int, 16)) =~= Seq::empty());
        assert(r@ + Seq::<u8>::empty() =~= r@);
        r
    }
}

/// Copies `N` bytes of `src` from `start` into an array.
fn take_array<const N: usize>(src: &[u8], start: usize) -> (r: [u8; N])
    requires
        start + N <= src@.len(),
    ensures
        r@ == src@.subrange(start as int, start + N),
{
    let mut a: [u8; N] = [0u8; N];
    let mut i: usize = 0;
    while i < N
        invariant
            i <= N,
            start + N <= src@.len(),
            a@.len() == N,
            src@.len() == src.len(),
            forall|j: int| 0 <= j < i ==> a@[j] == src@[start + j],
        decreases N - i,
    {
        a[i] = src[start + i];
        i = i + 1;
    }
    assert(a@ =~= src@.subrange(start as int, start + N));
    a
}

/// Reads the cartridge header out of a ROM image; `None` when the image is
/// too short to hold one.
pub fn read_header_impl(rom: &[u8]) -> (r: Option<CartridgeHeader>)
    ensures
        r is Some <==> rom@.len() >= HEADER_OFFSET + HEADER_SIZE,
        r matches Some(h) ==> h.bytes() == rom@.subrange(
            HEADER_OFFSET as int,
            HEADER_OFFSET + HEADER_SIZE,
        ),
{
    if rom.len() < HEADER_OFFSET + HEADER_SIZE {
        return None;
    }
    let h = CartridgeHeader {
        entry_point: take_array(rom, 0x100),
        nintendo_logo: take_array(rom, 0x104),
        game_title: take_array(rom, 0x134),
        new_licence_code: take_array(rom, 0x144),
        sgb_flag: rom[0x146],
        cartridge_type: rom[0x147],
        rom_size: rom[0x148],
        ram_size: rom[0x149],
        dest_code: rom[0x14A],
        old_licence_code: rom[0x14B],
        rom_version_number: rom[0x14C],
        header_checksum: rom[0x14D],
        global_checksum: take_array(rom, 0x14E),
    };
    assert(h.bytes() =~= rom@.subrange(0x100, 0x150));
    Some(h)
}

/// The banking controllers that are modelled.
#[derive(Clone, Copy, Debug, PartialEq, Eq, Structural)]
pub enum Mbc {
    RomOnly,
    Mbc1,
}

/// The controller that header byte 0x0147 selects, if it is modelled.
pub open spec fn mbc_of(cartridge_type: u8) -> Option<Mbc> {
    if cartridge_type == 0 {
        Some(Mbc::RomOnly)
    } else if 1 <= cartridge_type <= 3 {
        Some(Mbc::Mbc1)
    } else {
        None
    }
}

impl Mbc {
    pub fn from_cartridge_type(cartridge_type: u8) -> (r: Result<Mbc, EmuError>)
        ensures
            r matches Ok(m) ==> mbc_of(cartridge_type) == Some(m),
            r is Err <==> mbc_of(cartridge_type) is None,
            r is Err ==> r == Err::<Mbc, EmuError>(EmuError::UnsupportedMbc(cartridge_type)),
    {
        if cartridge_type == 0 {
            Ok(Mbc::RomOnly)
        } else if 1 <= cartridge_type && cartridge_type <= 3 {
            Ok(Mbc::Mbc1)
        } else {
            Err(EmuError::UnsupportedMbc(cartridge_type))
        }
    }
}

/// The MBC1 latches.
#[derive(Clone, Copy, Debug, PartialEq, Eq, Structural)]
pub struct Banks {
    /// External RAM enable latch.
    pub ram_enabled: bool,
    /// Banking mode: false for ROM mode, true for RAM mode.
    pub ram_mode: bool,
    /// Selected ROM bank for 4000-7FFF, 1..=127 and never a multiple of 32.
    pub rom_bank: u8,
    /// Selected external RAM bank, 0..=3.
    pub ram_bank: u8,
}

impl Banks {
    pub open spec fn wf(&self) -> bool {
        1 <= self.rom_bank <= 127 && self.rom_bank % 32 != 0 && self.ram_bank <= 3
    }

    /// Byte offset of the switched ROM bank in the image.
    pub open spec fn rom_offset(&self) -> int {
        self.rom_bank * 0x4000
    }

    /// Byte offset of the selected RAM bank in external RAM.
    pub open spec fn ram_offset(&self) -> int {
        self.ram_bank * 0x2000
    }
}

/// The MBC1 latches after a write of `val` to `addr` in 0000-7FFF.
pub open spec fn mbc1_control(b: Banks, addr: u16, val: u8) -> Banks {
    if addr < 0x2000 {
        Banks { ram_enabled: val % 16 == 0x0A, ..b }
    } else if addr < 0x4000 {
        let low = if val % 32 == 0 { 1 } else { val % 32 };
        Banks { rom_bank: ((b.rom_bank / 32) * 32 + low) as u8, ..b }
    } else if addr < 0x6000 {
        if b.ram_mode {
            Banks { ram_bank: val % 4, ..b }
        } else {
            Banks { rom_bank: ((val % 4) * 32 + b.rom_bank % 32) as u8, ..b }
        }
    } else if addr < 0x8000 {
        Banks { ram_mode: val % 2 == 1, ..b }
    } else {
        b
    }
}

/// `s[i]`, or 0xFF past the end of `s`.
pub open spec fn byte_or_ff(s: Seq<u8>, i: int) -> u8 {
    if 0 <= i < s.len() {
        s[i]
    } else {
        0xFF
    }
}

/// A cartridge: its ROM image, external RAM and banking latches.
pub struct Cartridge {
    pub rom: Vec<u8>,
    pub ram: Vec<u8>,
    pub mbc: Mbc,
    pub banks: Banks,
}

impl Cartridge {
    pub open spec fn wf(&self) -> bool {
        self.ram@.len() == EXT_RAM_SIZE && self.banks.wf()
    }

    /// What a read of `addr` (in 0000-7FFF or A000-BFFF) returns.
    pub open spec fn read_spec(&self, addr: u16) -> u8 {
        if addr < 0x4000 {
            byte_or_ff(self.rom@, addr as int)
        } else if addr < 0x8000 {
            byte_or_ff(self.rom@, self.banks.rom_offset() + (addr - 0x4000))
        } else if 0xA000 <= addr < 0xC000 && self.banks.ram_enabled {
            self.ram@[self.banks.ram_offset() + (addr - 0xA000)]
        } else {
            0xFF
        }
    }

    /// A cartridge with bank 1 switched in and external RAM disabled.
    pub fn new(rom: Vec<u8>, mbc: Mbc) -> (r: Cartridge)
        ensures
            r.wf(),
            r.rom@ == rom@,
            r.mbc == mbc,
            r.ram@ == Seq::new(EXT_RAM_SIZE as nat, |i: int| 0u8),
            r.banks == (Banks { ram_enabled: false, ram_mode: false, rom_bank: 1, ram_bank: 0 }),
    {
        let mut ram: Vec<u8> = Vec::new();
        let mut i: usize = 0;
        while i < EXT_RAM_SIZE
            invariant
                i <= EXT_RAM_SIZE,
                ram@ == Seq::new(i as nat, |j: int| 0u8),
            decreases EXT_RAM_SIZE - i,
        {
            ram.push(0);
            i = i + 1;
            assert(ram@ =~= Seq::new(i as nat, |j: int| 0u8));
        }
        Cartridge {
            rom,
            ram,
            mbc,
            banks: Banks { ram_enabled: false, ram_mode: false, rom_bank: 1, ram_bank: 0 },
        }
    }

    /// Reads a byte of ROM (0000-7FFF) or external RAM (A000-BFFF).
    pub fn read(&self, addr: u16) -> (r: u8)
        requires
            self.wf(),
        ensures
            r == self.read_spec(addr),
    {
        if addr < 0x4000 {
            let i = addr as usize;
            if i < self.rom.len() {
                self.rom[i]
            } else {
                0xFF
            }
        } else if addr < 0x8000 {
            let i = self.banks.rom_bank as usize * 0x4000 + (addr - 0x4000) as usize;
            if i < self.rom.len() {
                self.rom[i]
            } else {
                0xFF
            }
        } else if 0xA000 <= addr && addr < 0xC000 && self.banks.ram_enabled {
            self.ram[self.banks.ram_bank as usize * 0x2000 + (addr - 0xA000) as usize]
        } else {
            0xFF
        }
    }

    /// Writes to the banking controls (0000-7FFF) or external RAM (A000-BFFF).
    pub fn write(&mut self, addr: u16, val: u8)
        requires
            old(self).wf(),
        ensures
            final(self).wf(),
            final(self).rom == old(self).rom,
            final(self).mbc == old(self).mbc,
            final(self).banks == if old(self).mbc == Mbc::Mbc1 {
                mbc1_control(old(self).banks, addr, val)
            } else {
                old(self).banks
            },
            final(self).ram@ == if 0xA000 <= addr < 0xC000 && old(self).banks.ram_enabled {
                old(self).ram@.update(old(self).banks.ram_offset() + (addr - 0xA000), val)
            } else {
                old(self).ram@
            },
    {
        if addr < 0x8000 {
            if self.mbc == Mbc::Mbc1 {
                if addr < 0x2000 {
                    self.banks.ram_enabled = val % 16 == 0x0A;
                } else if addr < 0x4000 {
                    let low = if val % 32 == 0 { 1 } else { val % 32 };
                    self.banks.rom_bank = (self.banks.rom_bank / 32) * 32 + low;
                } else if addr < 0x6000 {
                    if self.banks.ram_mode {
                        self.banks.ram_bank = val % 4;
                    } else {
                        self.banks.rom_bank = (val % 4) * 32 + self.banks.rom_bank % 32;
                    }
                } else {
                    self.banks.ram_mode = val % 2 == 1;
                }
            }
        } else if 0xA000 <= addr && addr < 0xC000 && self.banks.ram_enabled {
            let i = self.banks.ram_bank as usize * 0x2000 + (addr - 0xA000) as usize;
            self.ram.set(i, val);
        }
    }
}

/// Writing a value whose low five bits are zero to 2000-3FFF never selects
/// bank 0x00, 0x20, 0x40 or 0x60: the bank becomes 0x01, 0x21, 0x41 or 0x61,
/// according to the two high bits already latched.
pub proof fn lemma_mbc1_zero_bank_quirk(b: Banks, addr: u16, val: u8)
    requires
        b.wf(),
        0x2000 <= addr < 0x4000,
        val % 32 == 0,
    ensures
        mbc1_control(b, addr, val).rom_bank == (b.rom_bank / 32) * 32 + 1,
        mbc1_control(b, addr, val).rom_bank % 32 == 1,
{
}

} // verus!
