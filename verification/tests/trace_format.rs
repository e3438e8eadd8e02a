//! The execution trace line layout.

use nes::bus::MemoryBus;
use nes::cartridge::{Cartridge, Mapper, MirroringMode, CHR, PRG};
use nes::cpu::CPU;
use nes::trace::trace_line;

fn test_mapper() -> Mapper {
    let mut prg = [0u8; 0x4000];
    prg[0x3ffc] = 0x00;
    prg[0x3ffd] = 0x80;
    let cartridge = Cartridge {
        prg: PRG { banks: vec![prg] },
        chr: CHR::RAM(vec![[0u8; 0x2000]]),
        sram: Vec::new(),
        mirror: MirroringMode::Horizontal,
    };
    nes::cartridge::new(cartridge, 0).unwrap()
}

#[test]
fn trace_line_renders_the_conventional_layout() {
    let mut bus = MemoryBus::new(test_mapper());
    let mut cpu = CPU::new();

    // JMP $C5F5 at $C000 (in RAM-mirrored terms: place it in RAM and point
    // PC there instead, the decoder does not care where the bytes live)
    cpu.write_byte(&mut bus, 0x0000, 0x4c);
    cpu.write_byte(&mut bus, 0x0001, 0xf5);
    cpu.write_byte(&mut bus, 0x0002, 0xc5);
    cpu.pc = 0x0000;
    cpu.a = 0x00;
    cpu.x = 0x01;
    cpu.y = 0x02;
    cpu.status = 0x24;
    cpu.sp = 0xfd;
    cpu.cycles = 7;

    let decoded = cpu.decode(&mut bus, cpu.pc);
    let line = String::from_utf8(trace_line(&cpu, &bus, &decoded)).unwrap();
    assert_eq!(
        line,
        "0000  4C F5 C5  JMP $C5F5                       A:00 X:01 Y:02 P:24 SP:FD CYC:7"
    );
}

#[test]
fn trace_line_shows_operand_bytes_and_memory() {
    let mut bus = MemoryBus::new(test_mapper());
    let mut cpu = CPU::new();

    // LDA $40 with $0040 holding $99
    cpu.write_byte(&mut bus, 0x0010, 0xa5);
    cpu.write_byte(&mut bus, 0x0011, 0x40);
    cpu.write_byte(&mut bus, 0x0040, 0x99);
    cpu.pc = 0x0010;
    cpu.cycles = 1234;

    let decoded = cpu.decode(&mut bus, cpu.pc);
    let line = String::from_utf8(trace_line(&cpu, &bus, &decoded)).unwrap();
    assert!(line.starts_with("0010  A5 40     LDA $40 = 99"));
    assert!(line.ends_with("A:00 X:00 Y:00 P:00 SP:00 CYC:1234"));
    // the register block starts at the conventional column
    assert_eq!(line.find("A:00"), Some(48));
}

#[test]
fn trace_line_renders_immediate_operands() {
    let mut bus = MemoryBus::new(test_mapper());
    let mut cpu = CPU::new();

    cpu.write_byte(&mut bus, 0x0000, 0xa9); // LDA #$7F
    cpu.write_byte(&mut bus, 0x0001, 0x7f);
    cpu.pc = 0x0000;

    let decoded = cpu.decode(&mut bus, cpu.pc);
    let line = String::from_utf8(trace_line(&cpu, &bus, &decoded)).unwrap();
    assert!(line.starts_with("0000  A9 7F     LDA #$7F"));
}
