use scam::cartridge::Cartrige;
use scam::cpu::{Cpu, BREAK, CARRY, INTERRUPT_DISABLE, NEGATIVE, OVERFLOW, UNUSED, ZERO};
use scam::cpu_bus::CpuBus;
use scam::nes::Nes;

/// An NROM image with one 16 KiB PRG bank (seen at 0x8000 and 0xC000) and CHR RAM.
fn nrom_image(prg: &[(usize, &[u8])]) -> Vec<u8> {
    let mut image = vec![0x4E, 0x45, 0x53, 0x1A, 1, 0, 0, 0, 0, 0, 0, 0, 0, 0, 0, 0];
    let mut bank = vec![0u8; 16384];
    for (offset, bytes) in prg {
        bank[*offset..*offset + bytes.len()].copy_from_slice(bytes);
    }
    image.extend_from_slice(&bank);
    image
}

fn bus_with_rom(prg: &[(usize, &[u8])]) -> CpuBus {
    let mut bus = CpuBus::new();
    bus.insert_cartrige(Cartrige::from_bytes(&nrom_image(prg)).unwrap());
    bus
}

/// Ticks until the instruction started by the first tick has drained.
fn run_instruction(cpu: &mut Cpu, bus: &mut CpuBus) -> u64 {
    let before = cpu.total_cycles;
    cpu.tick(bus);
    while cpu.get_cycles_left() > 0 {
        cpu.tick(bus);
    }
    cpu.total_cycles - before
}

fn cpu_at(pc: u16) -> Cpu {
    let mut cpu = Cpu::new();
    cpu.reset_with_program_counter(pc);
    cpu
}

#[test]
fn adc_overflow() {
    let mut bus = CpuBus::new();
    bus.write_memory(0x0200, &[0x69, 0x50]);
    let mut cpu = cpu_at(0x0200);
    cpu.accumulator = 0x50;
    cpu.set_flag(CARRY, false);
    assert_eq!(run_instruction(&mut cpu, &mut bus), 2);
    assert_eq!(cpu.accumulator, 0xA0);
    assert!(cpu.get_flag(NEGATIVE));
    assert!(cpu.get_flag(OVERFLOW));
    assert!(!cpu.get_flag(CARRY));
    assert!(!cpu.get_flag(ZERO));
    assert_eq!(cpu.get_program_counter(), 0x0202);
}

#[test]
fn sbc_borrow() {
    let mut bus = CpuBus::new();
    bus.write_memory(0x0200, &[0xE9, 0xB0]);
    let mut cpu = cpu_at(0x0200);
    cpu.accumulator = 0x50;
    cpu.set_flag(CARRY, true);
    cpu.tick(&mut bus);
    assert_eq!(cpu.accumulator, 0xA0);
    assert!(cpu.get_flag(NEGATIVE));
    assert!(cpu.get_flag(OVERFLOW));
    assert!(!cpu.get_flag(CARRY));
    assert!(!cpu.get_flag(ZERO));
}

#[test]
fn adc_carry_out_and_zero() {
    let mut bus = CpuBus::new();
    bus.write_memory(0x0200, &[0x69, 0x01]);
    let mut cpu = cpu_at(0x0200);
    cpu.accumulator = 0xFF;
    cpu.tick(&mut bus);
    assert_eq!(cpu.accumulator, 0x00);
    assert!(cpu.get_flag(CARRY));
    assert!(cpu.get_flag(ZERO));
    assert!(!cpu.get_flag(OVERFLOW));
}

#[test]
fn branch_page_crossing() {
    let mut bus = bus_with_rom(&[(0x00FD, &[0xF0, 0x05])]);
    let mut cpu = cpu_at(0x80FD);
    cpu.set_flag(ZERO, true);
    assert_eq!(run_instruction(&mut cpu, &mut bus), 4);
    assert_eq!(cpu.get_program_counter(), 0x8104);
}

#[test]
fn branch_taken_same_page() {
    let mut bus = bus_with_rom(&[(0x0000, &[0xF0, 0x05])]);
    let mut cpu = cpu_at(0x8000);
    cpu.set_flag(ZERO, true);
    assert_eq!(run_instruction(&mut cpu, &mut bus), 3);
    assert_eq!(cpu.get_program_counter(), 0x8007);
}

#[test]
fn branch_not_taken() {
    let mut bus = bus_with_rom(&[(0x00FD, &[0xF0, 0x05])]);
    let mut cpu = cpu_at(0x80FD);
    cpu.set_flag(ZERO, false);
    assert_eq!(run_instruction(&mut cpu, &mut bus), 2);
    assert_eq!(cpu.get_program_counter(), 0x80FF);
}

#[test]
fn branch_backwards() {
    let mut bus = bus_with_rom(&[(0x0010, &[0x90, 0xF6])]);
    let mut cpu = cpu_at(0x8010);
    cpu.set_flag(CARRY, false);
    assert_eq!(run_instruction(&mut cpu, &mut bus), 3);
    assert_eq!(cpu.get_program_counter(), 0x8008);
}

#[test]
fn jsr_rts_round_trip() {
    let mut bus = bus_with_rom(&[(0x0000, &[0x20, 0x34, 0x12])]);
    bus.write(0x1234, 0x60);
    let mut cpu = cpu_at(0x8000);
    let sp = cpu.stack_pointer;
    assert_eq!(run_instruction(&mut cpu, &mut bus), 6);
    assert_eq!(cpu.get_program_counter(), 0x1234);
    assert_eq!(cpu.stack_pointer, sp.wrapping_sub(2));
    assert_eq!(run_instruction(&mut cpu, &mut bus), 6);
    assert_eq!(cpu.get_program_counter(), 0x8003);
    assert_eq!(cpu.stack_pointer, sp);
}

#[test]
fn push_pull_accumulator_restores_a_and_sp() {
    let mut bus = CpuBus::new();
    bus.write_memory(0x0200, &[0x48, 0xA9, 0x00, 0x68]);
    let mut cpu = cpu_at(0x0200);
    cpu.accumulator = 0x80;
    let sp = cpu.stack_pointer;
    run_instruction(&mut cpu, &mut bus);
    assert_eq!(bus.read(0x01FD), 0x80);
    run_instruction(&mut cpu, &mut bus);
    assert_eq!(cpu.accumulator, 0x00);
    assert!(cpu.get_flag(ZERO));
    assert_eq!(run_instruction(&mut cpu, &mut bus), 4);
    assert_eq!(cpu.accumulator, 0x80);
    assert_eq!(cpu.stack_pointer, sp);
    assert!(cpu.get_flag(NEGATIVE));
    assert!(!cpu.get_flag(ZERO));
}

#[test]
fn push_pull_status_clears_break_sets_unused() {
    let mut bus = CpuBus::new();
    bus.write_memory(0x0200, &[0x08, 0x28]);
    let mut cpu = cpu_at(0x0200);
    cpu.status = 0xC3;
    let sp = cpu.stack_pointer;
    run_instruction(&mut cpu, &mut bus);
    assert_eq!(bus.read(0x01FD), 0xC3 | BREAK | UNUSED);
    run_instruction(&mut cpu, &mut bus);
    assert_eq!(cpu.stack_pointer, sp);
    assert_eq!(cpu.status, 0xC3 | UNUSED);
    assert!(!cpu.get_flag(BREAK));
}

#[test]
fn indirect_jmp_page_wrap() {
    let mut bus = CpuBus::new();
    bus.write_memory(0x0400, &[0x6C, 0xFF, 0x02]);
    bus.write(0x02FF, 0x34);
    bus.write(0x0200, 0x12);
    bus.write(0x0300, 0x56);
    let mut cpu = cpu_at(0x0400);
    assert_eq!(run_instruction(&mut cpu, &mut bus), 5);
    assert_eq!(cpu.get_program_counter(), 0x1234);
}

#[test]
fn ram_mirroring() {
    let mut bus = CpuBus::new();
    bus.write(0x0000, 0xAB);
    assert_eq!(bus.read(0x0800), 0xAB);
    assert_eq!(bus.read(0x1000), 0xAB);
    assert_eq!(bus.read(0x1800), 0xAB);
    bus.write(0x1FFF, 0x11);
    assert_eq!(bus.read(0x07FF), 0x11);
}

#[test]
fn bus_register_windows_and_missing_cartridge() {
    let mut bus = CpuBus::new();
    assert_eq!(bus.read(0x2000), 0x00);
    assert_eq!(bus.read(0x4000), 0xFF);
    assert_eq!(bus.read(0x401F), 0xFF);
    assert_eq!(bus.read(0x8000), 0x00);
    bus.write(0x2000, 0x12);
    assert_eq!(bus.read(0x2000), 0x00);
}

#[test]
fn open_bus_returns_last_read() {
    let mut bus = bus_with_rom(&[(0x0000, &[0x5A])]);
    assert_eq!(bus.read(0x8000), 0x5A);
    assert_eq!(bus.read(0x5000), 0x5A);
    assert_eq!(bus.peek(0x4000), 0xFF);
    assert_eq!(bus.read(0x6000), 0x5A);
}

#[test]
fn read_and_write_u16() {
    let mut bus = CpuBus::new();
    bus.write_u16(0x0010, 0xBEEF);
    assert_eq!(bus.read(0x0010), 0xEF);
    assert_eq!(bus.read(0x0011), 0xBE);
    assert_eq!(bus.read_u16(0x0010), 0xBEEF);
}

#[test]
fn increment_and_decrement_flags() {
    let mut bus = CpuBus::new();
    bus.write_memory(0x0200, &[0xE8, 0xCA, 0xCA, 0xE6, 0x10, 0xC6, 0x11]);
    bus.write(0x0010, 0xFF);
    bus.write(0x0011, 0x00);
    let mut cpu = cpu_at(0x0200);
    cpu.x = 0xFF;
    run_instruction(&mut cpu, &mut bus);
    assert_eq!(cpu.x, 0x00);
    assert!(cpu.get_flag(ZERO));
    assert!(!cpu.get_flag(NEGATIVE));
    run_instruction(&mut cpu, &mut bus);
    assert_eq!(cpu.x, 0xFF);
    assert!(cpu.get_flag(NEGATIVE));
    assert!(!cpu.get_flag(ZERO));
    run_instruction(&mut cpu, &mut bus);
    assert_eq!(cpu.x, 0xFE);
    assert_eq!(run_instruction(&mut cpu, &mut bus), 5);
    assert_eq!(bus.read(0x0010), 0x00);
    assert!(cpu.get_flag(ZERO));
    run_instruction(&mut cpu, &mut bus);
    assert_eq!(bus.read(0x0011), 0xFF);
    assert!(cpu.get_flag(NEGATIVE));
}

#[test]
fn compare_sets_carry_zero_negative() {
    let mut bus = CpuBus::new();
    bus.write_memory(0x0200, &[0xC9, 0x40, 0xC0, 0x20, 0xE0, 0x10]);
    let mut cpu = cpu_at(0x0200);
    cpu.accumulator = 0x40;
    cpu.y = 0x10;
    cpu.x = 0x90;
    run_instruction(&mut cpu, &mut bus);
    assert!(cpu.get_flag(ZERO) && cpu.get_flag(CARRY) && !cpu.get_flag(NEGATIVE));
    run_instruction(&mut cpu, &mut bus);
    assert!(!cpu.get_flag(ZERO) && !cpu.get_flag(CARRY) && cpu.get_flag(NEGATIVE));
    run_instruction(&mut cpu, &mut bus);
    assert!(!cpu.get_flag(ZERO) && cpu.get_flag(CARRY) && cpu.get_flag(NEGATIVE));
}

#[test]
fn absolute_x_page_cross_costs_a_cycle_for_reads_only() {
    let mut bus = CpuBus::new();
    bus.write_memory(0x0200, &[0xBD, 0xFF, 0x00, 0x9D, 0xFF, 0x00, 0xBD, 0x10, 0x00]);
    bus.write(0x0100, 0x77);
    let mut cpu = cpu_at(0x0200);
    cpu.x = 1;
    assert_eq!(run_instruction(&mut cpu, &mut bus), 5);
    assert_eq!(cpu.accumulator, 0x77);
    assert_eq!(run_instruction(&mut cpu, &mut bus), 5);
    assert_eq!(run_instruction(&mut cpu, &mut bus), 4);
}

#[test]
fn indirect_y_adds_y_after_the_pointer() {
    let mut bus = CpuBus::new();
    bus.write_memory(0x0200, &[0xB1, 0x40]);
    bus.write(0x0040, 0xF0);
    bus.write(0x0041, 0x03);
    bus.write(0x0410, 0x99);
    let mut cpu = cpu_at(0x0200);
    cpu.y = 0x20;
    assert_eq!(run_instruction(&mut cpu, &mut bus), 6);
    assert_eq!(cpu.accumulator, 0x99);
}

#[test]
fn illegal_combined_opcodes() {
    let mut bus = CpuBus::new();
    bus.write_memory(0x0200, &[0x07, 0x10, 0xA7, 0x11, 0xC7, 0x12]);
    bus.write(0x0010, 0x41);
    bus.write(0x0011, 0x80);
    bus.write(0x0012, 0x06);
    let mut cpu = cpu_at(0x0200);
    cpu.accumulator = 0x01;
    run_instruction(&mut cpu, &mut bus);
    assert_eq!(bus.read(0x0010), 0x82);
    assert_eq!(cpu.accumulator, 0x83);
    run_instruction(&mut cpu, &mut bus);
    assert_eq!(cpu.accumulator, 0x80);
    assert_eq!(cpu.x, 0x80);
    cpu.accumulator = 0x05;
    run_instruction(&mut cpu, &mut bus);
    assert_eq!(bus.read(0x0012), 0x05);
    assert!(cpu.get_flag(ZERO) && cpu.get_flag(CARRY));
}

#[test]
fn jam_halts_the_cpu() {
    let mut bus = CpuBus::new();
    bus.write_memory(0x0200, &[0x02, 0xE8]);
    let mut cpu = cpu_at(0x0200);
    cpu.tick(&mut bus);
    assert!(cpu.is_jammed);
    let cycles = cpu.total_cycles;
    for _ in 0..10 {
        cpu.tick(&mut bus);
    }
    assert_eq!(cpu.total_cycles, cycles);
    assert_eq!(cpu.x, 0);
}

#[test]
fn brk_pushes_state_and_jumps_through_vector() {
    let mut bus = bus_with_rom(&[(0x0000, &[0x00, 0xEA]), (0x3FFE, &[0x00, 0x90])]);
    let mut cpu = cpu_at(0x8000);
    let status = cpu.status;
    cpu.tick(&mut bus);
    assert!(cpu.is_resetting());
    assert_eq!(cpu.get_cycles_left(), 6);
    cpu.tick(&mut bus);
    assert!(!cpu.is_resetting());
    assert_eq!(cpu.get_program_counter(), 0x9000);
    assert!(cpu.get_flag(INTERRUPT_DISABLE));
    assert_eq!(bus.read(0x01FD), 0x80);
    assert_eq!(bus.read(0x01FC), 0x02);
    assert_eq!(bus.read(0x01FB), status | BREAK | UNUSED);
}

#[test]
fn reset_reads_the_vector() {
    let mut bus = bus_with_rom(&[(0x3FFC, &[0x34, 0xC2])]);
    let mut cpu = Cpu::new();
    cpu.accumulator = 9;
    cpu.reset(&mut bus);
    assert_eq!(cpu.get_program_counter(), 0xC234);
    assert_eq!(cpu.accumulator, 0);
    assert_eq!(cpu.stack_pointer, 0xFD);
    assert_eq!(cpu.status, 0x24);
    assert_eq!(cpu.total_cycles, 7);
}

#[test]
fn tick_drains_cycles_before_next_fetch() {
    let mut bus = CpuBus::new();
    bus.write_memory(0x0200, &[0xA5, 0x10, 0xE8]);
    let mut cpu = cpu_at(0x0200);
    cpu.tick(&mut bus);
    assert_eq!(cpu.total_cycles, 10);
    assert_eq!(cpu.get_cycles_left(), 2);
    cpu.tick(&mut bus);
    cpu.tick(&mut bus);
    assert_eq!(cpu.get_program_counter(), 0x0202);
    assert_eq!(cpu.x, 0);
    cpu.tick(&mut bus);
    assert_eq!(cpu.x, 1);
}

#[test]
fn trace_line_matches_the_reference_format() {
    let mut nes = Nes::new();
    let image = nrom_image(&[(0x0000, &[0x4C, 0xF5, 0xC5]), (0x05F5, &[0xA2, 0x00, 0x86, 0x00])]);
    nes.insert_cartrige(Cartrige::from_bytes(&image).unwrap());
    nes.reset_with_program_counter(0xC000);
    assert_eq!(
        nes.trace_line(),
        "C000  4C F5 C5  JMP $C5F5                       A:00 X:00 Y:00 P:24 SP:FD CYC:7"
    );
    for _ in 0..3 {
        nes.tick();
    }
    assert_eq!(
        nes.trace_line(),
        "C5F5  A2 00     LDX #$00                        A:00 X:00 Y:00 P:24 SP:FD CYC:10"
    );
    for _ in 0..2 {
        nes.tick();
    }
    assert_eq!(
        nes.trace_line(),
        "C5F7  86 00     STX $00 = 00                    A:00 X:00 Y:00 P:26 SP:FD CYC:12"
    );
}

#[test]
fn nes_runs_a_program_from_memory() {
    let mut nes = Nes::new();
    nes.write_memory(0x0300, &[0xA9, 0x07, 0x85, 0x20, 0x00]);
    nes.reset_with_program_counter(0x0300);
    while !nes.is_resetting() {
        nes.tick();
    }
    assert_eq!(nes.cpu().accumulator, 0x07);
    assert!(nes.cartrige().is_none());
}
