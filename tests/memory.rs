use gameboy::emulator::Emulator;
use gameboy::error::EmuError;
use gameboy::input::{Button, Input};
use gameboy::mmu::Memory;
use gameboy::timer::Timer;

#[test]
fn mem_read_and_write_raw() {
    let mut mem: Memory = Memory::new();
    mem.wb(0x8004, 0x12);
    mem.wb(0x8005, 0x34);
    assert_eq!((mem.rb(0x8004) as u16) << 8 | mem.rb(0x8005) as u16, 0x1234);
    mem.wb(0x8006, 0x56);
    mem.wb(0x8007, 0x78);
    assert_eq!(mem.rb(0x8006), 0x56);
    assert_eq!(mem.rb(0x8007), 0x78);
}

#[test]
fn wram_reads_back_what_was_written() {
    let mut m = Memory::new();
    for (a, v) in [(0xC000u16, 0x01u8), (0xCFFF, 0x7F), (0xD000, 0x80), (0xDFFF, 0xFF)] {
        m.wb(a, v);
        assert_eq!(m.rb(a), v);
    }
}

#[test]
fn echo_mirrors_work_ram() {
    let mut m = Memory::new();
    m.wb(0xC123, 0xAB);
    assert_eq!(m.rb(0xE123), 0xAB);
    m.wb(0xFDFF, 0xCD);
    assert_eq!(m.rb(0xDDFF), 0xCD);
    for a in (0xE000u16..0xFE00).step_by(0x101) {
        assert_eq!(m.rb(a), m.rb(a - 0x2000));
    }
}

#[test]
fn words_round_trip_little_endian() {
    let mut m = Memory::new();
    m.ww(0xC000, 0xBEEF);
    assert_eq!(m.rw(0xC000), 0xBEEF);
    assert_eq!(m.rb(0xC000), 0xEF);
    assert_eq!(m.rb(0xC001), 0xBE);
    m.ww(0xFF80, 0x1234);
    assert_eq!(m.rw(0xFF80), 0x1234);
    m.ww(0xFFFD, 0xA55A);
    assert_eq!(m.rw(0xFFFD), 0xA55A);
}

#[test]
fn unusable_and_unmodelled_read_ff() {
    let mut m = Memory::new();
    assert_eq!(m.rb(0xFEA0), 0xFF);
    m.wb(0xFEB0, 0x12);
    assert_eq!(m.rb(0xFEB0), 0xFF);
    // Sound registers are accepted and discarded.
    m.wb(0xFF10, 0x80);
    assert_eq!(m.rb(0xFF10), 0xFF);
}

#[test]
fn interrupt_registers() {
    let mut m = Memory::new();
    m.wb(0xFFFF, 0x1F);
    assert_eq!(m.rb(0xFFFF), 0x1F);
    assert_eq!(m.ie_, 0x1F);
    m.wb(0xFF0F, 0xFF);
    assert_eq!(m.if_, 0x1F);
    assert_eq!(m.rb(0xFF0F), 0xFF);
    m.wb(0xFF0F, 0x00);
    assert_eq!(m.rb(0xFF0F), 0xE0);
}

#[test]
fn power_on_io_defaults() {
    let m = Memory::new();
    assert_eq!(m.rb(0xFF05), 0x00);
    assert_eq!(m.rb(0xFF06), 0x00);
    assert_eq!(m.rb(0xFF07), 0xF8);
    assert_eq!(m.rb(0xFF40), 0x91);
    assert_eq!(m.rb(0xFF42), 0x00);
    assert_eq!(m.rb(0xFF43), 0x00);
    assert_eq!(m.rb(0xFF44), 0x00);
    assert_eq!(m.rb(0xFF45), 0x00);
    assert_eq!(m.rb(0xFF47), 0xFC);
    assert_eq!(m.rb(0xFF48), 0xFF);
    assert_eq!(m.rb(0xFF49), 0xFF);
    assert_eq!(m.rb(0xFF4A), 0x00);
    assert_eq!(m.rb(0xFF4B), 0x00);
    assert_eq!(m.rb(0xFFFF), 0x00);
    assert_eq!(m.rb(0xFF04), 0xAB);
    assert_eq!(m.get_timers().div, 0xABCC);
}

#[test]
fn oam_dma_copies_160_bytes() {
    let mut m = Memory::new();
    for i in 0..160u16 {
        m.wb(0xC000 + i, (i as u8).wrapping_mul(3).wrapping_add(1));
    }
    m.wb(0xFF46, 0xC0);
    assert!(m.dma.active);
    let mut steps = 0;
    while m.dma.active {
        let i = (160 - m.dma.bytes_left) as u16;
        m.handle_dma_transfer();
        assert_eq!(m.gpu.oam[i as usize], m.rb(0xC000 + i));
        steps += 1;
    }
    assert_eq!(steps, 160);
    for i in 0..160u16 {
        assert_eq!(m.rb(0xFE00 + i), m.rb(0xC000 + i));
    }
}

#[test]
fn oam_dma_runs_over_640_cycles() {
    let mut rom = vec![0u8; 0x8000];
    // LD A,C0; LDH (46),A; then NOPs.
    rom[0x100..0x104].copy_from_slice(&[0x3E, 0xC0, 0xE0, 0x46]);
    let mut emu = Emulator::new(rom).unwrap();
    for i in 0..160u16 {
        emu.mem.wb(0xC000 + i, 0xFF - i as u8);
    }
    emu.step().unwrap();
    emu.step().unwrap();
    let mut cycles = 0;
    while emu.mem.dma.active {
        cycles += emu.step().unwrap();
    }
    assert_eq!(cycles, 640);
    for i in 0..160u16 {
        assert_eq!(emu.mem.gpu.oam[i as usize], 0xFF - i as u8);
    }
}

#[test]
fn invalid_dma_source_is_ignored() {
    let mut m = Memory::new();
    m.wb(0xFF46, 0xF2);
    assert!(!m.dma.active);
    assert_eq!(m.warning, Some(EmuError::InvalidDmaSource(0xF2)));
}

#[test]
fn serial_bytes_are_emitted() {
    let mut m = Memory::new();
    m.wb(0xFF01, b'O');
    m.wb(0xFF02, 0x81);
    m.wb(0xFF01, b'K');
    m.wb(0xFF02, 0x80);
    m.wb(0xFF02, 0x81);
    assert_eq!(m.serial_out, b"OK".to_vec());
    assert_eq!(m.rb(0xFF01), b'K');
}

#[test]
fn joypad_columns() {
    let mut m = Memory::new();
    m.input.key_press(Button::Start);
    m.input.key_press(Button::Left);
    m.wb(0xFF00, 0x10);
    assert_eq!(m.rb(0xFF00), 0xD7);
    m.wb(0xFF00, 0x20);
    assert_eq!(m.rb(0xFF00), 0xED);
    m.input.key_release(Button::Left);
    assert_eq!(m.rb(0xFF00), 0xEF);
    m.wb(0xFF00, 0x30);
    assert_eq!(m.rb(0xFF00), 0xFF);
    let mut i = Input::new();
    i.key_press(Button::A);
    i.wb(0x10);
    assert_eq!(i.rb(), 0x0E);
    i.reset();
    i.wb(0x10);
    assert_eq!(i.rb(), 0x0F);
}

#[test]
fn div_write_restarts_from_zero() {
    let mut m = Memory::new();
    assert_eq!(m.rb(0xFF04), 0xAB);
    m.wb(0xFF04, 0x77);
    assert_eq!(m.rb(0xFF04), 0x00);
    let mut f = 0u8;
    m.timer.step(255, &mut f);
    assert_eq!(m.rb(0xFF04), 0x00);
    m.timer.step(1, &mut f);
    assert_eq!(m.rb(0xFF04), 0x01);
    m.timer.step(256 * 5, &mut f);
    assert_eq!(m.rb(0xFF04), 0x06);
}

#[test]
fn timer_overflow_raises_interrupt_at_rate() {
    let mut t = Timer::new();
    t.div = 0;
    t.write_tac(0x05); // enabled, 262144 Hz: one tick per 16 T-cycles
    t.tima = 0xFE;
    t.tma = 0x10;
    let mut f = 0u8;
    t.step(16, &mut f);
    assert_eq!(t.tima, 0xFF);
    assert_eq!(f, 0);
    t.step(16, &mut f);
    assert_eq!(t.tima, 0x10);
    assert_eq!(f, 0x04);
    // 4096 Hz: one tick per 1024 T-cycles.
    let mut t = Timer::new();
    t.div = 0;
    t.write_tac(0x04);
    let mut f = 0u8;
    t.step(1023, &mut f);
    assert_eq!(t.tima, 0);
    t.step(1, &mut f);
    assert_eq!(t.tima, 1);
    // Disabled: no ticks.
    let mut t = Timer::new();
    t.write_tac(0x01);
    t.step(4096, &mut f);
    assert_eq!(t.tima, 0);
    t.reset_bios_skip();
    assert_eq!(t.div, 0xABCC);
}

#[test]
fn joypad_rows_stay_in_low_nibble() {
    let mut i = Input::new();
    for b in [Button::Start, Button::Select, Button::B, Button::A, Button::Down, Button::Up, Button::Left, Button::Right] {
        i.key_press(b);
        i.key_release(b);
        i.key_press(b);
    }
    for col in [0x00u8, 0x10, 0x20, 0x30] {
        i.wb(col);
        assert_eq!(i.rb() & 0xF0, 0);
    }
    i.wb(0x10);
    assert_eq!(i.rb(), 0x00);
}
