//! The CPU-side address decoder: RAM mirroring, OAM DMA, and the
//! controller port.

use nes::bus::MemoryBus;
use nes::cartridge::{Cartridge, Mapper, CHR, PRG};
use nes::controller::{Button, ButtonState};
use nes::cpu::CPU;

fn test_mapper() -> Mapper {
    let mut prg = [0u8; 0x4000];
    // reset vector: $8000
    prg[0x3ffc] = 0x00;
    prg[0x3ffd] = 0x80;
    let cartridge = Cartridge {
        prg: PRG { banks: vec![prg] },
        chr: CHR::RAM(vec![[0u8; 0x2000]]),
        sram: Vec::new(),
        mirror: nes::cartridge::MirroringMode::Horizontal,
    };
    nes::cartridge::new(cartridge, 0).unwrap()
}

#[test]
fn ram_read_after_write_is_mirrored() {
    let mut bus = MemoryBus::new(test_mapper());
    let mut cpu = CPU::new();

    // a write below $2000 lands in RAM modulo the 2 KiB mirror
    cpu.write_byte(&mut bus, 0x0005, 0xab);
    assert_eq!(cpu.read_byte(&mut bus, 0x0005), 0xab);
    assert_eq!(cpu.read_byte(&mut bus, 0x0805), 0xab);
    assert_eq!(cpu.read_byte(&mut bus, 0x1005), 0xab);
    assert_eq!(cpu.read_byte(&mut bus, 0x1805), 0xab);

    // and through a mirror alias as well
    cpu.write_byte(&mut bus, 0x1fff, 0x77);
    assert_eq!(cpu.read_byte(&mut bus, 0x07ff), 0x77);
}

#[test]
fn oam_dma_copies_a_ram_page() {
    let mut bus = MemoryBus::new(test_mapper());
    let mut cpu = CPU::new();

    // CPU page $03 holds bytes 00..FF
    for i in 0..256u16 {
        cpu.write_byte(&mut bus, 0x0300 + i, i as u8);
    }
    assert_eq!(bus.ppu.oam_addr, 0);
    cpu.write_byte(&mut bus, 0x4014, 0x03);

    for i in 0..256usize {
        assert_eq!(bus.ppu.oam[i], i as u8);
    }
}

#[test]
fn oam_dma_honours_the_oam_address() {
    let mut bus = MemoryBus::new(test_mapper());
    let mut cpu = CPU::new();

    for i in 0..256u16 {
        cpu.write_byte(&mut bus, 0x0300 + i, i as u8);
    }
    // OAMADDR = $10: the page lands rotated
    cpu.write_byte(&mut bus, 0x2003, 0x10);
    cpu.write_byte(&mut bus, 0x4014, 0x03);

    for i in 0..256usize {
        assert_eq!(bus.ppu.oam[(0x10 + i) % 256], i as u8);
    }
}

#[test]
fn controller_strobe_clocks_out_the_mask() {
    let mut bus = MemoryBus::new(test_mapper());
    let mut cpu = CPU::new();

    // buttons: A only
    let mut buttons = ButtonState::default();
    buttons.set(Button::A);
    bus.controller.update_buttons(buttons);

    cpu.write_byte(&mut bus, 0x4016, 1);
    cpu.write_byte(&mut bus, 0x4016, 0);

    let mut bits = Vec::new();
    for _ in 0..8 {
        bits.push(cpu.read_byte(&mut bus, 0x4016));
    }
    assert_eq!(bits, vec![1, 0, 0, 0, 0, 0, 0, 0]);
    // every later read reports 0
    assert_eq!(cpu.read_byte(&mut bus, 0x4016), 0);
}

#[test]
fn controller_strobe_high_repeats_the_first_bit() {
    let mut bus = MemoryBus::new(test_mapper());
    let mut cpu = CPU::new();

    let mut buttons = ButtonState::default();
    buttons.set(Button::A);
    bus.controller.update_buttons(buttons);

    // while the strobe stays high the cursor never advances
    cpu.write_byte(&mut bus, 0x4016, 1);
    assert_eq!(cpu.read_byte(&mut bus, 0x4016), 1);
    assert_eq!(cpu.read_byte(&mut bus, 0x4016), 1);
    assert_eq!(cpu.read_byte(&mut bus, 0x4016), 1);
}

#[test]
fn button_mask_set_and_unset() {
    let mut buttons = ButtonState::default();
    buttons.set(Button::A);
    buttons.set(Button::Start);
    assert_eq!(buttons.0, 0b0000_1001);
    buttons.unset(Button::A);
    assert_eq!(buttons.0, 0b0000_1000);
    buttons.unset(Button::Start);
    assert_eq!(buttons.0, 0);
}

#[test]
fn apu_stub_reads_zero_and_cartridge_reads_rom() {
    let mut bus = MemoryBus::new(test_mapper());
    let cpu = CPU::new();
    let mut bus2 = bus.clone();
    for addr in 0x4000..0x4014u16 {
        assert_eq!(cpu.read_byte(&mut bus2, addr), 0);
    }
    // the reset vector is visible through the fixed PRG window
    assert_eq!(cpu.read_byte(&mut bus, 0xfffc), 0x00);
    assert_eq!(cpu.read_byte(&mut bus, 0xfffd), 0x80);
}
