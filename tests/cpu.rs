use gameboy::alu::{add8, alu, daa, inc, FlagSet};
use gameboy::cpu::{Cpu, Flag, Flags, Register, Registers};
use gameboy::emulator::Emulator;
use gameboy::error::EmuError;
use gameboy::mmu::Memory;

/// A plain 32 KiB ROM with `program` at the entry point 0x0100.
fn rom_with(program: &[u8]) -> Vec<u8> {
    let mut rom = vec![0u8; 0x8000];
    rom[0x147] = 0x00;
    rom[0x100..0x100 + program.len()].copy_from_slice(program);
    rom
}

fn run(emu: &mut Emulator, steps: usize) {
    for _ in 0..steps {
        emu.cpu.exec(&mut emu.mem).unwrap();
    }
}

fn no_flags() -> FlagSet {
    FlagSet { z: false, n: false, h: false, c: false }
}

#[test]
fn cpu_reg_get_and_set() {
    let pc = Register { high: 0, low: 0 };
    assert_eq!(pc.get_both(), 0);
    let mut sp = Register { high: 0, low: 0 };
    sp.set_both(123);
    assert_eq!(sp.get_both(), 123);
    let mut hl = Register { high: 0, low: 0 };
    hl.high = 3;
    assert_eq!(hl.high, 3);
    assert_eq!(hl.get_both(), 0b00000011_00000000);
}

#[test]
fn cpu_flag_get_and_set() {
    let mut flags = Flags::from_set(no_flags());
    flags.z.set();
    flags.h.set();
    assert_eq!(flags.z.get(), true);
    assert_eq!(flags.n.get(), false);
    assert_eq!(flags.h.get(), true);
    assert_eq!(flags.c.get(), false);
}

#[test]
fn mod_reg_get_and_set() {
    let mut cpu = Cpu::new();
    let regs: &mut Registers = cpu.get_regs_mut();
    assert_eq!(regs.pc, 0x0100);
    regs.sp = 123;
    assert_eq!(regs.sp, 123);
    regs.h = 3;
    regs.l = 0;
    assert_eq!(regs.h, 3);
    assert_eq!(regs.hl(), 0b00000011_00000000);
}

#[test]
fn mod_flag_get_and_set() {
    let mut cpu = Cpu::new();
    let flags: &mut Flags = cpu.get_flags_mut();
    flags.z.set();
    flags.n.unset();
    flags.h.set();
    flags.c.unset();
    assert_eq!(flags.z.get(), true);
    assert_eq!(flags.n.get(), false);
    assert_eq!(flags.h.get(), true);
    assert_eq!(flags.c.get(), false);
}

#[test]
fn flag_toggle_and_set_if() {
    let mut f = Flag { value: false };
    f.toggle();
    assert!(f.get());
    f.set_if(false);
    assert!(!f.get());
    let mut flags = Cpu::new().regs.f;
    flags.reset();
    assert!(!flags.z.get() && !flags.n.get() && !flags.h.get() && !flags.c.get());
}

#[test]
fn power_on_registers() {
    let cpu = Cpu::new();
    let r = cpu.get_regs();
    assert_eq!(r.af(), 0x01B0);
    assert_eq!(r.bc(), 0x0013);
    assert_eq!(r.de(), 0x00D8);
    assert_eq!(r.hl(), 0x014D);
    assert_eq!(r.sp, 0xFFFE);
    assert_eq!(r.pc, 0x0100);
    let emu = Emulator::new(rom_with(&[])).unwrap();
    assert_eq!(emu.cpu.regs.af(), 0x01B0);
    assert_eq!(emu.mem.timer.div, 0xABCC);
}

#[test]
fn af_low_nibble_reads_zero() {
    let mut r = Cpu::new().regs;
    r.af_set(0x12FF);
    assert_eq!(r.af(), 0x12F0);
    assert_eq!(r.f() & 0x0F, 0);
    r.af_set(0xABCD);
    assert_eq!(r.af(), 0xABC0);
    assert!(r.f.z.get() && r.f.n.get() && !r.f.h.get() && !r.f.c.get());
}

#[test]
fn add_then_halt_program() {
    let mut emu = Emulator::new(rom_with(&[0x3E, 0x42, 0x06, 0x00, 0x80, 0x76])).unwrap();
    assert_eq!(emu.cpu.exec(&mut emu.mem), Ok(8));
    assert_eq!(emu.cpu.exec(&mut emu.mem), Ok(8));
    assert_eq!(emu.cpu.exec(&mut emu.mem), Ok(4));
    assert_eq!(emu.cpu.exec(&mut emu.mem), Ok(4));
    let r = emu.cpu.regs;
    assert_eq!(r.a, 0x42);
    assert!(!r.f.z.get() && !r.f.n.get() && !r.f.h.get() && !r.f.c.get());
    assert!(r.halt);
    // Halted with nothing pending: the CPU idles one M-cycle per step.
    emu.mem.ie_ = 0x00;
    assert_eq!(emu.cpu.exec(&mut emu.mem), Ok(4));
    assert_eq!(emu.cpu.regs.pc, 0x0106);
    assert!(emu.cpu.regs.halt);
    // A pending interrupt with IME off wakes the CPU without servicing.
    emu.mem.ie_ = 0x04;
    emu.mem.if_ = 0x04;
    emu.cpu.exec(&mut emu.mem).unwrap();
    assert!(!emu.cpu.regs.halt);
    assert_eq!(emu.cpu.regs.pc, 0x0107);
}

#[test]
fn ei_takes_effect_after_next_instruction() {
    let mut emu = Emulator::new(rom_with(&[0x31, 0xFE, 0xFF, 0xF3, 0xFB, 0x00, 0x00])).unwrap();
    run(&mut emu, 3);
    // EI has run; the first NOP is next.
    assert!(!emu.cpu.regs.ime);
    run(&mut emu, 1);
    // The first NOP ran with IME off.
    assert!(!emu.cpu.regs.ime);
    assert_eq!(emu.cpu.regs.pc, 0x0106);
    run(&mut emu, 1);
    // IME was switched on before the second NOP.
    assert!(emu.cpu.regs.ime);
    assert_eq!(emu.cpu.regs.pc, 0x0107);
}

#[test]
fn interrupt_is_serviced_by_priority() {
    let mut emu = Emulator::new(rom_with(&[0xFB, 0x00, 0x00, 0x00])).unwrap();
    run(&mut emu, 2);
    emu.mem.ie_ = 0x1F;
    emu.mem.if_ = 0x06;
    let sp = emu.cpu.regs.sp;
    assert_eq!(emu.cpu.exec(&mut emu.mem), Ok(20));
    assert_eq!(emu.cpu.regs.pc, 0x48);
    assert!(!emu.cpu.regs.ime);
    assert_eq!(emu.mem.if_, 0x04);
    assert_eq!(emu.cpu.regs.sp, sp - 2);
    assert_eq!(emu.mem.rw(sp - 2), 0x0102);
}

#[test]
fn inc_hl_memory_wraps_to_zero() {
    // LD HL,C000; LD (HL),FF; INC (HL)
    let mut emu = Emulator::new(rom_with(&[0x21, 0x00, 0xC0, 0x36, 0xFF, 0x34])).unwrap();
    run(&mut emu, 2);
    assert_eq!(emu.cpu.exec(&mut emu.mem), Ok(12));
    assert_eq!(emu.mem.rb(0xC000), 0x00);
    let f = emu.cpu.regs.f;
    assert!(f.z.get() && f.h.get() && !f.n.get());
    let o = inc(0xFF, no_flags());
    assert_eq!(o.value, 0);
    assert!(o.flags.z && o.flags.h && !o.flags.n);
}

#[test]
fn add_a_a_overflows_to_zero() {
    // LD A,80; ADD A,A
    let mut emu = Emulator::new(rom_with(&[0x3E, 0x80, 0x87])).unwrap();
    run(&mut emu, 2);
    let r = emu.cpu.regs;
    assert_eq!(r.a, 0x00);
    assert!(r.f.z.get() && r.f.c.get() && !r.f.h.get() && !r.f.n.get());
    let o = add8(0x80, 0x80, false);
    assert_eq!(o.value, 0);
    assert!(o.flags.z && o.flags.c && !o.flags.h);
}

#[test]
fn alu_operations() {
    let f = no_flags();
    // SUB 0x10 - 0x01: half borrow.
    let o = alu(2, 0x10, 0x01, f);
    assert_eq!(o.value, 0x0F);
    assert!(o.flags.n && o.flags.h && !o.flags.c && !o.flags.z);
    // CP leaves A alone.
    let o = alu(7, 0x05, 0x05, f);
    assert_eq!(o.value, 0x05);
    assert!(o.flags.z && o.flags.n);
    // AND sets H.
    let o = alu(4, 0xF0, 0x0F, f);
    assert_eq!(o.value, 0);
    assert!(o.flags.z && o.flags.h);
    // ADC with carry in.
    let o = alu(1, 0x0F, 0x00, FlagSet { c: true, ..f });
    assert_eq!(o.value, 0x10);
    assert!(o.flags.h && !o.flags.c);
    // SBC with carry in borrows.
    let o = alu(3, 0x00, 0x00, FlagSet { c: true, ..f });
    assert_eq!(o.value, 0xFF);
    assert!(o.flags.c && o.flags.h);
    // DAA after 0x15 + 0x27 = 0x3C gives 0x42.
    let s = add8(0x15, 0x27, false);
    let d = daa(s.value, s.flags);
    assert_eq!(d.value, 0x42);
}

#[test]
fn push_pop_restores_pairs() {
    // LD SP,FFFE; LD BC,1234; PUSH BC; POP DE; PUSH AF; POP BC
    let mut emu = Emulator::new(rom_with(&[
        0x31, 0xFE, 0xFF, 0x01, 0x34, 0x12, 0xC5, 0xD1, 0xF5, 0xC1,
    ])).unwrap();
    run(&mut emu, 4);
    assert_eq!(emu.cpu.regs.de(), 0x1234);
    assert_eq!(emu.cpu.regs.sp, 0xFFFE);
    run(&mut emu, 2);
    assert_eq!(emu.cpu.regs.bc(), 0x01B0);
    // POP AF drops F's low nibble.
    let mut emu = Emulator::new(rom_with(&[0x31, 0xFE, 0xFF, 0x01, 0xFF, 0x12, 0xC5, 0xF1])).unwrap();
    run(&mut emu, 4);
    assert_eq!(emu.cpu.regs.af(), 0x12F0);
}

#[test]
fn call_ret_and_jumps() {
    // 0100: CALL 0110; 0103: JR +2; 0105: NOP NOP; 0107: HALT
    // 0110: RET
    let mut program = vec![0xCD, 0x10, 0x01, 0x18, 0x02, 0x00, 0x00, 0x76];
    program.resize(0x10, 0x00);
    program.push(0xC9);
    let mut emu = Emulator::new(rom_with(&program)).unwrap();
    assert_eq!(emu.cpu.exec(&mut emu.mem), Ok(24));
    assert_eq!(emu.cpu.regs.pc, 0x0110);
    assert_eq!(emu.cpu.exec(&mut emu.mem), Ok(16));
    assert_eq!(emu.cpu.regs.pc, 0x0103);
    assert_eq!(emu.cpu.exec(&mut emu.mem), Ok(12));
    assert_eq!(emu.cpu.regs.pc, 0x0107);
    // JR NZ not taken after a zero result costs 8.
    let mut emu = Emulator::new(rom_with(&[0xAF, 0x20, 0x05])).unwrap();
    run(&mut emu, 1);
    assert_eq!(emu.cpu.exec(&mut emu.mem), Ok(8));
    assert_eq!(emu.cpu.regs.pc, 0x0103);
}

#[test]
fn cb_prefixed_operations() {
    // LD A,81; RLC A (CB 07); BIT 7,A (CB 7F); SWAP A (CB 37); SET 0,B (CB C0)
    let mut emu = Emulator::new(rom_with(&[0x3E, 0x81, 0xCB, 0x07, 0xCB, 0x7F, 0xCB, 0x37, 0xCB, 0xC0])).unwrap();
    run(&mut emu, 1);
    assert_eq!(emu.cpu.exec(&mut emu.mem), Ok(8));
    assert_eq!(emu.cpu.regs.a, 0x03);
    assert!(emu.cpu.regs.f.c.get());
    run(&mut emu, 1);
    assert!(emu.cpu.regs.f.z.get());
    assert!(emu.cpu.regs.f.h.get());
    run(&mut emu, 1);
    assert_eq!(emu.cpu.regs.a, 0x30);
    assert!(!emu.cpu.regs.f.c.get());
    run(&mut emu, 1);
    assert_eq!(emu.cpu.regs.b, 0x01);
}

#[test]
fn ldi_ldd_move_hl() {
    // LD HL,C0FF; LD A,7; LD (HL+),A; LD (HL-),A
    let mut emu = Emulator::new(rom_with(&[0x21, 0xFF, 0xC0, 0x3E, 0x07, 0x22, 0x32])).unwrap();
    run(&mut emu, 3);
    assert_eq!(emu.mem.rb(0xC0FF), 0x07);
    assert_eq!(emu.cpu.regs.hl(), 0xC100);
    run(&mut emu, 1);
    assert_eq!(emu.cpu.regs.hl(), 0xC0FF);
}

#[test]
fn add_hl_and_sp_offsets() {
    // LD HL,0FFF; LD BC,0001; ADD HL,BC
    let mut emu = Emulator::new(rom_with(&[0x21, 0xFF, 0x0F, 0x01, 0x01, 0x00, 0x09])).unwrap();
    run(&mut emu, 3);
    assert_eq!(emu.cpu.regs.hl(), 0x1000);
    assert!(emu.cpu.regs.f.h.get() && !emu.cpu.regs.f.c.get());
    // LD SP,FFF8; LD HL,SP+2
    let mut emu = Emulator::new(rom_with(&[0x31, 0xF8, 0xFF, 0xF8, 0x02])).unwrap();
    run(&mut emu, 2);
    assert_eq!(emu.cpu.regs.hl(), 0xFFFA);
    assert!(!emu.cpu.regs.f.z.get() && !emu.cpu.regs.f.n.get());
}

#[test]
fn invalid_opcodes_and_stop_fail() {
    for op in [0xD3u8, 0xDB, 0xDD, 0xE3, 0xE4, 0xEB, 0xEC, 0xED, 0xF4, 0xFC, 0xFD, 0x10] {
        let mut emu = Emulator::new(rom_with(&[op])).unwrap();
        let before = emu.cpu.total_cycles;
        assert_eq!(emu.cpu.exec(&mut emu.mem), Err(EmuError::InvalidOpcode(op)));
        assert_eq!(emu.cpu.total_cycles, before);
    }
    let mut emu = Emulator::new(rom_with(&[0x10])).unwrap();
    assert!(emu.update().is_err());
    assert!(!emu.is_running());
    assert!(emu.cpu.regs.stop);
}

#[test]
fn total_cycles_sum_the_steps() {
    let mut emu = Emulator::new(rom_with(&[0x00, 0x3E, 0x01, 0xC3, 0x00, 0x01])).unwrap();
    let mut sum: u64 = 0;
    let mut last = emu.cpu.total_cycles;
    for _ in 0..50 {
        let c = emu.step().unwrap();
        sum += c as u64;
        assert!(emu.cpu.total_cycles > last);
        last = emu.cpu.total_cycles;
    }
    assert_eq!(emu.cpu.total_cycles, sum);
}

#[test]
fn memory_register_operands() {
    let mut m = Memory::new();
    let mut r = Cpu::new().regs;
    r.hl_set(0xC010);
    r.set_r8(&mut m, 6, 0x99);
    assert_eq!(m.rb(0xC010), 0x99);
    assert_eq!(r.get_r8(&m, 6), 0x99);
    r.set_r8(&mut m, 7, 0x11);
    assert_eq!(r.a, 0x11);
    r.ei();
    assert_eq!(r.delay, 2);
    r.int_step();
    assert!(!r.ime);
    r.int_step();
    assert!(r.ime);
    r.di();
    assert!(!r.ime);
    assert_eq!(r.bump(), 0x0100);
    assert_eq!(r.pc, 0x0101);
}

#[test]
fn counted_loop_sums() {
    // LD A,0; LD B,10; loop: ADD A,B; DEC B; JR NZ,loop; HALT
    let mut emu = Emulator::new(rom_with(&[0x3E, 0x00, 0x06, 0x0A, 0x80, 0x05, 0x20, 0xFC, 0x76])).unwrap();
    let mut steps = 0;
    while !emu.cpu.regs.halt {
        emu.step().unwrap();
        steps += 1;
        assert!(steps < 100);
    }
    assert_eq!(emu.cpu.regs.a, 55);
    assert_eq!(emu.cpu.regs.b, 0);
    assert!(emu.cpu.regs.f.z.get());
}

#[test]
fn timer_interrupt_reaches_its_vector() {
    // LD A,05; LDH (07),A  -- timer on, 16 T-cycles per tick
    // LD A,FF; LDH (05),A  -- TIMA about to overflow
    // LD A,04; LDH (FF),A  -- enable the timer interrupt
    // EI; loop: JR loop
    let mut emu = Emulator::new(rom_with(&[
        0x3E, 0x05, 0xE0, 0x07, 0x3E, 0xFF, 0xE0, 0x05, 0x3E, 0x04, 0xE0, 0xFF, 0xFB, 0x18, 0xFE,
    ])).unwrap();
    let mut steps = 0;
    while emu.cpu.regs.pc != 0x50 {
        emu.step().unwrap();
        steps += 1;
        assert!(steps < 200);
    }
    assert!(!emu.cpu.regs.ime);
    assert_eq!(emu.mem.if_ & 0x04, 0);
    // TIMA was reloaded from TMA (0) and has counted on since.
    assert!(emu.mem.timer.tima < 0x10);
}

#[test]
fn update_runs_one_frame() {
    // loop: JP 0100
    let mut emu = Emulator::new(rom_with(&[0xC3, 0x00, 0x01])).unwrap();
    assert_eq!(emu.update(), Ok(()));
    assert_eq!(emu.frame_count, 1);
    // 70224 / 16 = 4389 jumps exactly, so nothing runs past the frame.
    assert_eq!(emu.frame_cycles, 0);
    assert_eq!(emu.cpu.total_cycles, 70224);
    assert_eq!(emu.mem.gpu.clock.ly, 0);
    assert_eq!(emu.mem.gpu.clock.dot, 0);
    assert!(emu.is_running());
    emu.is_frame_stepping = true;
    assert_eq!(emu.update(), Ok(()));
    assert_eq!(emu.frame_count, 2);
    assert!(!emu.is_running());
}
