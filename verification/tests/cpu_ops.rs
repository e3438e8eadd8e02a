//! 6502 behavior: the indirect-JMP page-wrap bug, branch cycle penalties,
//! arithmetic flags, and the instruction table.

use nes::bus::MemoryBus;
use nes::cartridge::{Cartridge, Mapper, CHR, PRG};
use nes::cpu::CPU;
use nes::instructions::{opcode_entry, AddressingMode, Opcode};

fn test_mapper() -> Mapper {
    let mut prg = [0u8; 0x4000];
    prg[0x3ffc] = 0x00;
    prg[0x3ffd] = 0x80;
    let cartridge = Cartridge {
        prg: PRG { banks: vec![prg] },
        chr: CHR::RAM(vec![[0u8; 0x2000]]),
        sram: Vec::new(),
        mirror: nes::cartridge::MirroringMode::Horizontal,
    };
    nes::cartridge::new(cartridge, 0).unwrap()
}

fn fresh() -> (CPU, MemoryBus) {
    (CPU::new(), MemoryBus::new(test_mapper()))
}

#[test]
fn jmp_indirect_wraps_within_the_pointer_page() {
    let (mut cpu, mut bus) = fresh();
    // JMP ($02FF) at $0000; the pointer's high byte must come from $0200,
    // not from $0300
    cpu.write_byte(&mut bus, 0x0000, 0x6c);
    cpu.write_byte(&mut bus, 0x0001, 0xff);
    cpu.write_byte(&mut bus, 0x0002, 0x02);
    cpu.write_byte(&mut bus, 0x02ff, 0x34);
    cpu.write_byte(&mut bus, 0x0200, 0x12);
    cpu.write_byte(&mut bus, 0x0300, 0x99);

    cpu.pc = 0x0000;
    let cycles = cpu.step(&mut bus);
    assert_eq!(cpu.pc, 0x1234);
    assert_eq!(cycles, 5);
}

#[test]
fn branch_cycle_penalties() {
    // not taken: 2 cycles
    let (mut cpu, mut bus) = fresh();
    cpu.write_byte(&mut bus, 0x0000, 0xf0); // BEQ +$10
    cpu.write_byte(&mut bus, 0x0001, 0x10);
    cpu.pc = 0x0000;
    cpu.status = 0x00; // Z clear
    assert_eq!(cpu.step(&mut bus), 2);
    assert_eq!(cpu.pc, 0x0002);

    // taken within the page: 3 cycles
    let (mut cpu, mut bus) = fresh();
    cpu.write_byte(&mut bus, 0x0000, 0xf0);
    cpu.write_byte(&mut bus, 0x0001, 0x10);
    cpu.pc = 0x0000;
    cpu.status = 0x02; // Z set
    assert_eq!(cpu.step(&mut bus), 3);
    assert_eq!(cpu.pc, 0x0012);

    // taken across a page boundary: 4 cycles
    let (mut cpu, mut bus) = fresh();
    cpu.write_byte(&mut bus, 0x00f0, 0xf0); // BEQ +$7F from $00F0
    cpu.write_byte(&mut bus, 0x00f1, 0x7f);
    cpu.pc = 0x00f0;
    cpu.status = 0x02;
    assert_eq!(cpu.step(&mut bus), 4);
    assert_eq!(cpu.pc, 0x0171);
}

#[test]
fn relative_operands_are_signed() {
    let (mut cpu, mut bus) = fresh();
    cpu.write_byte(&mut bus, 0x0010, 0xd0); // BNE -2 (a tight loop)
    cpu.write_byte(&mut bus, 0x0011, 0xfe);
    cpu.pc = 0x0010;
    cpu.status = 0x00; // Z clear: taken
    cpu.step(&mut bus);
    assert_eq!(cpu.pc, 0x0010);
}

#[test]
fn adc_sets_carry_zero_and_overflow() {
    let (mut cpu, mut bus) = fresh();
    // LDA #$7F; ADC #$01 -> $80, V set, C clear, N set
    cpu.write_byte(&mut bus, 0x0000, 0xa9);
    cpu.write_byte(&mut bus, 0x0001, 0x7f);
    cpu.write_byte(&mut bus, 0x0002, 0x69);
    cpu.write_byte(&mut bus, 0x0003, 0x01);
    cpu.pc = 0x0000;
    cpu.step(&mut bus);
    cpu.step(&mut bus);
    assert_eq!(cpu.a, 0x80);
    assert_eq!(cpu.status & 0x40, 0x40); // V
    assert_eq!(cpu.status & 0x01, 0x00); // C
    assert_eq!(cpu.status & 0x80, 0x80); // N

    // $FF + $01 -> $00 with carry out and Z
    let (mut cpu, mut bus) = fresh();
    cpu.write_byte(&mut bus, 0x0000, 0xa9);
    cpu.write_byte(&mut bus, 0x0001, 0xff);
    cpu.write_byte(&mut bus, 0x0002, 0x69);
    cpu.write_byte(&mut bus, 0x0003, 0x01);
    cpu.pc = 0x0000;
    cpu.step(&mut bus);
    cpu.step(&mut bus);
    assert_eq!(cpu.a, 0x00);
    assert_eq!(cpu.status & 0x01, 0x01); // C
    assert_eq!(cpu.status & 0x02, 0x02); // Z
}

#[test]
fn sbc_borrows_and_compares() {
    let (mut cpu, mut bus) = fresh();
    // SEC; LDA #$50; SBC #$10 -> $40, C still set
    cpu.write_byte(&mut bus, 0x0000, 0x38);
    cpu.write_byte(&mut bus, 0x0001, 0xa9);
    cpu.write_byte(&mut bus, 0x0002, 0x50);
    cpu.write_byte(&mut bus, 0x0003, 0xe9);
    cpu.write_byte(&mut bus, 0x0004, 0x10);
    cpu.pc = 0x0000;
    cpu.step(&mut bus);
    cpu.step(&mut bus);
    cpu.step(&mut bus);
    assert_eq!(cpu.a, 0x40);
    assert_eq!(cpu.status & 0x01, 0x01);

    // CMP: register >= memory sets C; equal also sets Z
    let (mut cpu, mut bus) = fresh();
    cpu.write_byte(&mut bus, 0x0000, 0xa9); // LDA #$42
    cpu.write_byte(&mut bus, 0x0001, 0x42);
    cpu.write_byte(&mut bus, 0x0002, 0xc9); // CMP #$42
    cpu.write_byte(&mut bus, 0x0003, 0x42);
    cpu.pc = 0x0000;
    cpu.step(&mut bus);
    cpu.step(&mut bus);
    assert_eq!(cpu.status & 0x03, 0x03); // C and Z
}

#[test]
fn stack_round_trips_through_jsr_and_rts() {
    let (mut cpu, mut bus) = fresh();
    // JSR $0040 at $0010; RTS at $0040
    cpu.write_byte(&mut bus, 0x0010, 0x20);
    cpu.write_byte(&mut bus, 0x0011, 0x40);
    cpu.write_byte(&mut bus, 0x0012, 0x00);
    cpu.write_byte(&mut bus, 0x0040, 0x60);
    cpu.pc = 0x0010;
    cpu.sp = 0xfd;
    assert_eq!(cpu.step(&mut bus), 6);
    assert_eq!(cpu.pc, 0x0040);
    assert_eq!(cpu.sp, 0xfb);
    assert_eq!(cpu.step(&mut bus), 6);
    assert_eq!(cpu.pc, 0x0013);
    assert_eq!(cpu.sp, 0xfd);
}

#[test]
fn php_sets_b_and_plp_clears_it() {
    let (mut cpu, mut bus) = fresh();
    cpu.write_byte(&mut bus, 0x0000, 0x08); // PHP
    cpu.write_byte(&mut bus, 0x0001, 0x28); // PLP
    cpu.pc = 0x0000;
    cpu.sp = 0xfd;
    cpu.status = 0x01;
    cpu.step(&mut bus);
    // the pushed copy carries B
    assert_eq!(cpu.ram[0x01fd], 0x11);
    cpu.step(&mut bus);
    // the pulled status has U set and B clear
    assert_eq!(cpu.status, 0x21);
}

#[test]
fn unimplemented_opcode_halts_deterministically() {
    let (mut cpu, mut bus) = fresh();
    cpu.write_byte(&mut bus, 0x0000, 0x02); // a halting opcode byte
    cpu.pc = 0x0000;
    assert!(!cpu.halted);
    cpu.step(&mut bus);
    assert!(cpu.halted);
    let pc = cpu.pc;
    // a halted core idles, consuming two cycles per step
    assert_eq!(cpu.step(&mut bus), 2);
    assert_eq!(cpu.pc, pc);
}

#[test]
fn nmi_takes_priority_and_costs_seven_cycles() {
    let (mut cpu, mut bus) = fresh();
    cpu.pc = 0x1234;
    cpu.status = 0x20;
    cpu.sp = 0xfd;
    bus.ppu.pending_nmi = true;
    // the NMI vector lives in ROM; this cartridge holds zeroes there
    let cycles = cpu.step(&mut bus);
    assert_eq!(cycles, 7);
    assert!(!bus.ppu.pending_nmi);
    // PC pushed high then low, then the status byte with B set
    assert_eq!(cpu.ram[0x01fd], 0x12);
    assert_eq!(cpu.ram[0x01fc], 0x34);
    assert_eq!(cpu.ram[0x01fb], 0x30);
    assert_eq!(cpu.status & 0x04, 0x04);
}

#[test]
fn instruction_table_spot_checks() {
    let jmp_ind = opcode_entry(0x6c);
    assert_eq!(jmp_ind.opcode, Opcode::JMP);
    assert_eq!(jmp_ind.addressing_mode, AddressingMode::Indirect);
    assert_eq!(jmp_ind.min_cycles, 5);

    let lda_abx = opcode_entry(0xbd);
    assert_eq!(lda_abx.opcode, Opcode::LDA);
    assert_eq!(lda_abx.addressing_mode, AddressingMode::AbsoluteIndexedX);
    assert_eq!(lda_abx.min_cycles, 4);
    assert!(lda_abx.page_boundary_penalty);

    let sta_abx = opcode_entry(0x9d);
    assert_eq!(sta_abx.opcode, Opcode::STA);
    assert_eq!(sta_abx.min_cycles, 5);
    assert!(!sta_abx.page_boundary_penalty);

    let brk = opcode_entry(0x00);
    assert_eq!(brk.opcode, Opcode::BRK);
    assert_eq!(brk.min_cycles, 7);
}

#[test]
fn zero_page_indexed_wraps_in_the_zero_page() {
    let (mut cpu, mut bus) = fresh();
    // LDA $F0,X with X=$20 reads $0010, not $0110
    cpu.write_byte(&mut bus, 0x0000, 0xb5);
    cpu.write_byte(&mut bus, 0x0001, 0xf0);
    cpu.write_byte(&mut bus, 0x0010, 0x5a);
    cpu.write_byte(&mut bus, 0x0110, 0xa5);
    cpu.pc = 0x0000;
    cpu.x = 0x20;
    cpu.step(&mut bus);
    assert_eq!(cpu.a, 0x5a);
}
