use gameboy::cartridge::{read_header_impl, CartridgeHeader, Mbc};
use gameboy::emulator::Emulator;
use gameboy::error::EmuError;
use gameboy::mmu::Memory;

fn rom_of(size: usize, cart_type: u8) -> Vec<u8> {
    let mut rom = vec![0u8; size];
    rom[0x147] = cart_type;
    rom
}

#[test]
fn header_size() {
    assert_eq!(0x50, std::mem::size_of::<CartridgeHeader>());
}

#[test]
fn header_fields_come_from_rom() {
    let mut rom = rom_of(0x8000, 0x01);
    rom[0x134..0x13A].copy_from_slice(b"TETRIS");
    rom[0x148] = 0x02;
    rom[0x14E] = 0xAB;
    rom[0x14F] = 0xCD;
    let h = read_header_impl(&rom).unwrap();
    assert_eq!(h.cartridge_type, 0x01);
    assert_eq!(h.rom_size, 0x02);
    assert_eq!(h.global_checksum, [0xAB, 0xCD]);
    assert_eq!(h.get_game_title(), b"TETRIS".to_vec());
}

#[test]
fn header_needs_full_image() {
    assert!(read_header_impl(&vec![0u8; 0x14F]).is_none());
    assert!(read_header_impl(&vec![0u8; 0x150]).is_some());
}

#[test]
fn unsupported_mbc_is_rejected() {
    // 0x13 is MBC3, which is not modelled.
    match Emulator::new(rom_of(0x8000, 0x13)) {
        Err(e) => assert_eq!(e, EmuError::UnsupportedMbc(0x13)),
        Ok(_) => panic!("MBC3 accepted"),
    }
    assert_eq!(Mbc::from_cartridge_type(0x05), Err(EmuError::UnsupportedMbc(0x05)));
    assert_eq!(Mbc::from_cartridge_type(0x00), Ok(Mbc::RomOnly));
    assert_eq!(Mbc::from_cartridge_type(0x03), Ok(Mbc::Mbc1));
}

#[test]
fn mbc1_bank_switch_reads_raw_offset() {
    let mut rom = rom_of(128 * 1024, 0x01);
    for (i, b) in rom.iter_mut().enumerate().skip(0x150) {
        *b = (i % 251) as u8;
    }
    rom[0x14000] = 0x5A;
    rom[0x14001] = 0xA5;
    let mut emu = Emulator::new(rom.clone()).unwrap();
    emu.mem.wb(0x2000, 0x05);
    assert_eq!(emu.mem.rb(0x4000), 0x5A);
    assert_eq!(emu.mem.rb(0x4001), 0xA5);
    assert_eq!(emu.mem.rb(0x4123), rom[0x14123]);
    // Bank 0 stays fixed.
    assert_eq!(emu.mem.rb(0x0200), rom[0x0200]);
}

fn mbc1_memory() -> Memory {
    let mut m = Memory::new();
    m.set_rom(rom_of(2 * 1024 * 1024, 0x01));
    m.find_mbc(0x01).unwrap();
    m
}

#[test]
fn mbc1_zero_low_bits_select_next_bank() {
    for (high, expect) in [(0u8, 0x01u8), (1, 0x21), (2, 0x41), (3, 0x61)] {
        let mut m = mbc1_memory();
        m.wb(0x4000, high);
        m.wb(0x2000, high << 5);
        assert_eq!(m.cart.banks.rom_bank, expect);
    }
    let mut m = mbc1_memory();
    m.wb(0x2000, 0x00);
    assert_eq!(m.cart.banks.rom_bank, 0x01);
}

#[test]
fn mbc1_ram_enable_and_banks() {
    let mut m = mbc1_memory();
    assert_eq!(m.rb(0xA000), 0xFF);
    m.wb(0xA000, 0x12);
    assert_eq!(m.rb(0xA000), 0xFF);
    m.wb(0x0000, 0x0A);
    m.wb(0xA000, 0x12);
    assert_eq!(m.rb(0xA000), 0x12);
    // RAM mode: the 4000-5FFF latch selects the RAM bank.
    m.wb(0x6000, 0x01);
    m.wb(0x4000, 0x02);
    assert_eq!(m.cart.banks.ram_bank, 2);
    assert_eq!(m.rb(0xA000), 0x00);
    m.wb(0xA000, 0x34);
    assert_eq!(m.cart.ram[2 * 0x2000], 0x34);
    m.wb(0x1000, 0x00);
    assert_eq!(m.rb(0xA000), 0xFF);
}

#[test]
fn reads_past_rom_end_give_ff() {
    let mut rom = rom_of(0x8000, 0x01);
    rom[0x7FFF] = 0x42;
    let mut emu = Emulator::new(rom).unwrap();
    assert_eq!(emu.mem.rb(0x7FFF), 0x42);
    // Bank 4 lies beyond a 32 KiB image.
    emu.mem.wb(0x2000, 0x04);
    assert_eq!(emu.mem.rb(0x4000), 0xFF);
}

#[test]
fn image_without_type_byte_is_rejected() {
    match Emulator::new(vec![0u8; 0x100]) {
        Err(e) => assert_eq!(e, EmuError::UnsupportedMbc(0xFF)),
        Ok(_) => panic!("short image accepted"),
    }
    let emu = Emulator::new(vec![0u8; 0x148]).unwrap();
    assert!(emu.get_header().is_none());
}
