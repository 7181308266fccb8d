use sastaboy::cpu::CPU;
use sastaboy::interrupt::InterruptHandlerThing;
use sastaboy::memory::{Mem, MemBus};
use sastaboy::sastaboy::SastaBoy;
use sastaboy::timer::Timer;

#[test]
fn power_on_state_is_zero() {
    let cpu = CPU::new();
    assert_eq!(cpu.get_af(), 0);
    assert_eq!(cpu.get_bc(), 0);
    assert_eq!(cpu.get_de(), 0);
    assert_eq!(cpu.get_hl(), 0);
    assert_eq!(cpu.get_sp(), 0);
    assert_eq!(cpu.get_pc(), 0);
    assert!(!cpu.is_halted());
    let mem = Mem::new();
    assert_eq!(mem.read(0x0000), 0);
    assert_eq!(mem.read(0xC000), 0);
    assert_eq!(mem.read(0xFFFF), 0);
    assert!(!mem.interrupts().ime);
}

#[test]
fn flat_backing_store() {
    let mut ram = MemBus::new();
    assert_eq!(ram.read(0xFFFF), 0);
    ram.write(0xFFFF, 7);
    ram.write(0x0000, 9);
    assert_eq!(ram.read(0xFFFF), 7);
    assert_eq!(ram.read(0x0000), 9);
}

#[test]
fn ly_is_stubbed() {
    let mut mem = Mem::new();
    assert_eq!(mem.read(0xFF44), 0x90);
    mem.write(0xFF44, 0x12);
    assert_eq!(mem.read(0xFF44), 0x90);
}

#[test]
fn if_unused_bits_read_as_set() {
    let mut mem = Mem::new();
    mem.write(0xFF0F, 0x04);
    assert_eq!(mem.read(0xFF0F), 0xE4);
    assert_eq!(mem.interrupts().if_, 0x04);
    mem.write(0xFFFF, 0x1F);
    assert_eq!(mem.read(0xFFFF), 0x1F);
}

#[test]
fn timer_registers_through_the_bus() {
    let mut mem = Mem::new();
    mem.write(0xFF06, 0x33);
    mem.write(0xFF07, 0x06);
    mem.write(0xFF05, 0x10);
    assert_eq!(mem.read(0xFF06), 0x33);
    assert_eq!(mem.read(0xFF07), 0x06);
    assert_eq!(mem.read(0xFF05), 0x10);
}

#[test]
fn div_write_on_high_bit_counts_an_edge() {
    let mut timer = Timer::new();
    timer.tac = 0x05;
    timer.div_ctr = 0x0008;
    timer.tima = 0x20;
    timer.write_div();
    assert_eq!(timer.div_ctr, 0);
    assert_eq!(timer.tima, 0x21);
    timer.div_ctr = 0x0004;
    timer.write_div();
    assert_eq!(timer.tima, 0x21);
}

#[test]
fn tac_write_can_count_an_edge() {
    let mut timer = Timer::new();
    timer.tac = 0x05;
    timer.div_ctr = 0x0008;
    timer.tima = 0x20;
    timer.write_tac(0x00);
    assert_eq!(timer.tac, 0x00);
    assert_eq!(timer.tima, 0x21);
    timer.write_tac(0x04);
    assert_eq!(timer.tima, 0x21);
}

#[test]
fn tima_write_cancels_a_pending_reload() {
    let mut timer = Timer::new();
    let mut irq = InterruptHandlerThing::new();
    timer.tac = 0x05;
    timer.tima = 0xFF;
    timer.tma = 0x42;
    timer.tick(4, &mut irq);
    assert!(timer.tima_overflow_pending);
    timer.write_tima(0x10);
    assert!(!timer.tima_overflow_pending);
    timer.tick(1, &mut irq);
    assert_eq!(timer.tima, 0x10);
    assert_eq!(irq.if_, 0);
}

#[test]
fn timer_disabled_does_not_count() {
    let mut timer = Timer::new();
    let mut irq = InterruptHandlerThing::new();
    timer.tac = 0x01;
    timer.tick(255, &mut irq);
    assert_eq!(timer.tima, 0);
    assert_eq!(timer.div_ctr, 1020);
    assert_eq!(timer.get_div(), 3);
}

#[test]
fn timer_counts_at_the_selected_rate() {
    let mut timer = Timer::new();
    let mut irq = InterruptHandlerThing::new();
    timer.tac = 0x04;
    timer.tick(255, &mut irq);
    assert_eq!(timer.tima, 0);
    timer.tick(1, &mut irq);
    assert_eq!(timer.tima, 1);
    timer.tac = 0x06;
    timer.tima = 0;
    timer.div_ctr = 0;
    timer.tick(64, &mut irq);
    assert_eq!(timer.tima, 4);
}

#[test]
fn divider_wraps_around() {
    let mut timer = Timer::new();
    let mut irq = InterruptHandlerThing::new();
    timer.div_ctr = 0xFFFE;
    timer.tick(1, &mut irq);
    assert_eq!(timer.div_ctr, 0x0002);
}

#[test]
fn interrupt_requests_and_priority() {
    let mut irq = InterruptHandlerThing::new();
    irq.req_joypad();
    irq.req_serial_link();
    irq.req_timer();
    irq.req_lcd();
    irq.req_vblank();
    assert_eq!(irq.if_, 0x1F);
    assert!(!irq.interrupt_requested());
    assert_eq!(irq.check_interrupt(), 0);
    irq.ie = 0x1E;
    assert!(irq.interrupt_requested());
    assert_eq!(irq.check_interrupt(), 0);
    irq.set_ime(true);
    assert_eq!(irq.check_interrupt(), 0x48);
    assert_eq!(irq.if_, 0x1D);
    assert!(!irq.ime);
    irq.set_ime(true);
    assert_eq!(irq.check_interrupt(), 0x50);
    irq.set_ime(true);
    assert_eq!(irq.check_interrupt(), 0x58);
    irq.set_ime(true);
    assert_eq!(irq.check_interrupt(), 0x60);
    irq.set_ime(true);
    assert_eq!(irq.check_interrupt(), 0);
    assert!(irq.ime);
    assert_eq!(irq.if_, 0x01);
}

#[test]
fn halt_waits_for_an_enabled_request() {
    let mut cpu = CPU::new();
    let mut mem = Mem::new();
    mem.write(0x0100, 0x76);
    mem.write(0x0101, 0x3C);
    cpu.set_pc(0x0100);
    assert_eq!(cpu.step(&mut mem), 1);
    assert!(cpu.is_halted());
    assert_eq!(cpu.step(&mut mem), 1);
    assert_eq!(cpu.get_pc(), 0x0101);
    mem.write(0xFF0F, 0x04);
    assert_eq!(cpu.step(&mut mem), 1);
    assert_eq!(cpu.get_pc(), 0x0101);
    mem.write(0xFFFF, 0x04);
    assert_eq!(cpu.step(&mut mem), 1);
    assert!(!cpu.is_halted());
    assert_eq!(cpu.get_pc(), 0x0102);
    assert_eq!(cpu.get_af() >> 8, 1);
}

#[test]
fn halt_with_ime_dispatches() {
    let mut cpu = CPU::new();
    let mut mem = Mem::new();
    mem.write(0x0100, 0x76);
    cpu.set_pc(0x0100);
    cpu.set_sp(0xD000);
    mem.set_ime(true);
    mem.write(0xFFFF, 0x01);
    cpu.step(&mut mem);
    assert!(cpu.is_halted());
    mem.write(0xFF0F, 0x01);
    assert_eq!(cpu.step(&mut mem), 5);
    assert_eq!(cpu.get_pc(), 0x0040);
    assert_eq!(mem.read(0xCFFE), 0x01);
    assert_eq!(mem.read(0xCFFF), 0x01);
}

#[test]
fn ei_takes_effect_after_the_next_instruction() {
    let mut cpu = CPU::new();
    let mut mem = Mem::new();
    mem.write(0x0100, 0xFB);
    mem.write(0x0101, 0x00);
    mem.write(0x0102, 0x00);
    mem.write(0xFFFF, 0x04);
    mem.write(0xFF0F, 0x04);
    cpu.set_pc(0x0100);
    cpu.set_sp(0xD000);
    assert_eq!(cpu.step(&mut mem), 1);
    assert!(!mem.interrupts().ime);
    assert_eq!(cpu.step(&mut mem), 1);
    assert_eq!(cpu.get_pc(), 0x0102);
    assert!(mem.interrupts().ime);
    assert_eq!(cpu.step(&mut mem), 5);
    assert_eq!(cpu.get_pc(), 0x0050);
}

#[test]
fn di_right_after_ei_keeps_interrupts_off() {
    let mut cpu = CPU::new();
    let mut mem = Mem::new();
    mem.write(0x0100, 0xFB);
    mem.write(0x0101, 0xF3);
    mem.write(0x0102, 0x00);
    cpu.set_pc(0x0100);
    cpu.step(&mut mem);
    cpu.step(&mut mem);
    cpu.step(&mut mem);
    assert!(!mem.interrupts().ime);
}

#[test]
fn reti_enables_interrupts_at_once() {
    let mut cpu = CPU::new();
    let mut mem = Mem::new();
    mem.write(0x0100, 0xD9);
    mem.write(0xD000, 0x34);
    mem.write(0xD001, 0x12);
    cpu.set_pc(0x0100);
    cpu.set_sp(0xD000);
    assert_eq!(cpu.step(&mut mem), 4);
    assert_eq!(cpu.get_pc(), 0x1234);
    assert_eq!(cpu.get_sp(), 0xD002);
    assert!(mem.interrupts().ime);
}

#[test]
fn push_pop_pairs_and_stack_wrap() {
    let mut cpu = CPU::new();
    let mut mem = Mem::new();
    cpu.set_sp(0x0001);
    cpu.push_stack(0xBEEF, &mut mem);
    assert_eq!(cpu.get_sp(), 0xFFFF);
    assert_eq!(mem.read(0x0000), 0xBE);
    assert_eq!(mem.read(0xFFFF), 0xEF);
    assert_eq!(cpu.pop_stack(&mem), 0xBEEF);
    assert_eq!(cpu.get_sp(), 0x0001);
    let mut cpu = CPU::new();
    cpu.set_sp(0xD000);
    cpu.set_de(0xCAFE);
    cpu.set_pc(0x0100);
    mem.write(0x0100, 0xD5);
    mem.write(0x0101, 0xE1);
    cpu.step(&mut mem);
    assert_eq!(mem.read(0xCFFE), 0xFE);
    assert_eq!(mem.read(0xCFFF), 0xCA);
    cpu.step(&mut mem);
    assert_eq!(cpu.get_hl(), 0xCAFE);
    assert_eq!(cpu.get_sp(), 0xD000);
}

#[test]
fn loads_through_pairs_and_high_page() {
    let mut cpu = CPU::new();
    let mut mem = Mem::new();
    let program = [
        0x21, 0x00, 0xC0, // LD HL,0xC000
        0x3E, 0x11, // LD A,0x11
        0x22, // LD (HL+),A
        0x32, // LD (HL-),A
        0x0E, 0x80, // LD C,0x80
        0xE2, // LD (0xFF00+C),A
        0xE0, 0x81, // LDH (0x81),A
        0x3E, 0x00, // LD A,0
        0xF0, 0x80, // LDH A,(0x80)
        0x31, 0x34, 0x12, // LD SP,0x1234
        0x08, 0x10, 0xC0, // LD (0xC010),SP
    ];
    for (i, b) in program.iter().enumerate() {
        mem.write(0x0100 + i, *b);
    }
    cpu.set_pc(0x0100);
    while (cpu.get_pc() as usize) < 0x0100 + program.len() {
        cpu.step(&mut mem);
    }
    assert_eq!(mem.read(0xC000), 0x11);
    assert_eq!(mem.read(0xC001), 0x11);
    assert_eq!(cpu.get_hl(), 0xC000);
    assert_eq!(mem.read(0xFF80), 0x11);
    assert_eq!(mem.read(0xFF81), 0x11);
    assert_eq!(cpu.get_af() >> 8, 0x11);
    assert_eq!(cpu.get_sp(), 0x1234);
    assert_eq!(mem.read(0xC010), 0x34);
    assert_eq!(mem.read(0xC011), 0x12);
}

#[test]
fn pc_wraps_at_the_top() {
    let mut cpu = CPU::new();
    let mut mem = Mem::new();
    mem.write(0xFFFE, 0x00);
    cpu.set_pc(0xFFFE);
    cpu.step(&mut mem);
    cpu.set_pc(0xFFFF);
    cpu.set_af(0x0000);
    cpu.run_opcode(0x00, &mut mem);
    assert_eq!(cpu.get_pc(), 0xFFFF);
    mem.write(0xFFFF, 0x00);
    cpu.step(&mut mem);
    assert_eq!(cpu.get_pc(), 0x0000);
}

#[test]
fn jp_hl_and_ld_sp_hl() {
    let mut cpu = CPU::new();
    let mut mem = Mem::new();
    cpu.set_hl(0x4321);
    assert_eq!(cpu.run_opcode(0xF9, &mut mem), 2);
    assert_eq!(cpu.get_sp(), 0x4321);
    assert_eq!(cpu.run_opcode(0xE9, &mut mem), 1);
    assert_eq!(cpu.get_pc(), 0x4321);
}

#[test]
fn console_loads_and_runs() {
    let mut gb = SastaBoy::new();
    // LD A,'O'; LD (0xFF01),A; LD A,0x81; LD (0xFF02),A; JR -2
    let rom = vec![0x3E, b'O', 0xEA, 0x01, 0xFF, 0x3E, 0x81, 0xEA, 0x02, 0xFF, 0x18, 0xFE];
    gb.load_rom(&rom);
    assert_eq!(gb.mem.read(0x0000), 0x3E);
    assert_eq!(gb.mem.read(0x000B), 0xFE);
    assert!(gb.running());
    assert_eq!(gb.serial_output(), None);
    let mut cycles: u32 = 0;
    for _ in 0..4 {
        cycles += gb.step() as u32;
    }
    assert_eq!(cycles, 2 + 4 + 2 + 4);
    assert_eq!(gb.mem.timer().div_ctr, 48);
    assert_eq!(gb.serial_output(), Some(b'O'));
    assert_eq!(gb.mem.read(0xFF02), 0);
    assert_eq!(gb.serial_output(), None);
    assert_eq!(gb.step(), 3);
    assert_eq!(gb.cpu.get_pc(), 0x000A);
}
