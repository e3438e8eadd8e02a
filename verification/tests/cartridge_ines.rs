//! The iNES container parser and the two mappers.

use nes::cartridge::{Cartridge, MirroringMode, CHR, PRG};
use nes::ines;

fn container(prg_banks: u8, chr_banks: u8, flags6: u8, flags7: u8) -> Vec<u8> {
    let mut bytes = vec![
        0x4e, 0x45, 0x53, 0x1a, prg_banks, chr_banks, flags6, flags7, 0, 0, 0, 0, 0, 0, 0, 0,
    ];
    for b in 0..prg_banks as usize {
        bytes.extend(std::iter::repeat((b + 1) as u8).take(0x4000));
    }
    for b in 0..chr_banks as usize {
        bytes.extend(std::iter::repeat((0x80 + b) as u8).take(0x2000));
    }
    bytes
}

#[test]
fn load_parses_banks_and_mirroring() {
    let bytes = container(2, 1, 0x01, 0x00);
    let (cartridge, mapper_number) = ines::load(&bytes).unwrap();
    assert_eq!(mapper_number, 0);
    assert_eq!(cartridge.prg.banks.len(), 2);
    assert_eq!(cartridge.prg.banks[0][0], 1);
    assert_eq!(cartridge.prg.banks[1][0x3fff], 2);
    assert_eq!(cartridge.chr.get_banks().len(), 1);
    assert_eq!(cartridge.chr.get_banks()[0][0], 0x80);
    assert!(matches!(cartridge.mirror, MirroringMode::Vertical));
    assert!(matches!(cartridge.chr, CHR::ROM(_)));
}

#[test]
fn load_rejects_bad_magic_and_short_files() {
    let mut bytes = container(1, 1, 0, 0);
    bytes[0] = 0x4d;
    assert!(ines::load(&bytes).is_none());

    let bytes = vec![0x4e, 0x45, 0x53];
    assert!(ines::load(&bytes).is_none());

    // truncated PRG data
    let mut bytes = container(1, 0, 0, 0);
    bytes.truncate(16 + 0x2000);
    assert!(ines::load(&bytes).is_none());
}

#[test]
fn load_rejects_trainers() {
    let bytes = container(1, 1, 0x04, 0x00);
    assert!(ines::load(&bytes).is_none());
}

#[test]
fn chr_ram_is_allocated_when_the_container_has_none() {
    let bytes = container(1, 0, 0x00, 0x00);
    let (cartridge, _) = ines::load(&bytes).unwrap();
    assert!(matches!(cartridge.chr, CHR::RAM(_)));
    assert_eq!(cartridge.chr.get_banks().len(), 1);
    assert_eq!(cartridge.chr.get_banks()[0][123], 0);
}

#[test]
fn mapper_number_combines_both_nibbles() {
    let bytes = container(1, 1, 0x20, 0x00);
    let (_, mapper_number) = ines::load(&bytes).unwrap();
    assert_eq!(mapper_number, 2);

    let bytes = container(1, 1, 0x10, 0x40);
    let (_, mapper_number) = ines::load(&bytes).unwrap();
    assert_eq!(mapper_number, 0x41);
}

#[test]
fn unsupported_mapper_numbers_are_rejected() {
    let bytes = container(1, 1, 0x00, 0x00);
    let (cartridge, _) = ines::load(&bytes).unwrap();
    assert!(nes::cartridge::new(cartridge, 7).is_none());
}

#[test]
fn nrom_maps_first_and_last_banks() {
    let bytes = container(2, 1, 0x00, 0x00);
    let (cartridge, m) = ines::load(&bytes).unwrap();
    let mapper = nes::cartridge::new(cartridge, m).unwrap();
    assert_eq!(mapper.read(0x8000), 1);
    assert_eq!(mapper.read(0xbfff), 1);
    assert_eq!(mapper.read(0xc000), 2);
    assert_eq!(mapper.read(0xffff), 2);
    // the unmapped window reads zero
    assert_eq!(mapper.read(0x5000), 0);
    // CHR bank 0 below $2000
    assert_eq!(mapper.read(0x0000), 0x80);
}

#[test]
fn nrom_ignores_prg_writes() {
    let bytes = container(2, 1, 0x00, 0x00);
    let (cartridge, _) = ines::load(&bytes).unwrap();
    let mut mapper = nes::cartridge::new(cartridge, 0).unwrap();
    mapper.write(0x8000, 0x01);
    assert_eq!(mapper.read(0x8000), 1);
    assert_eq!(mapper.first_bank, 0);
}

#[test]
fn uxrom_switches_the_lower_window() {
    let mut bank0 = [0u8; 0x4000];
    let mut bank1 = [0u8; 0x4000];
    let mut bank2 = [0u8; 0x4000];
    bank0[0] = 10;
    bank1[0] = 11;
    bank2[0] = 12;
    let cartridge = Cartridge {
        prg: PRG { banks: vec![bank0, bank1, bank2] },
        chr: CHR::RAM(vec![[0u8; 0x2000]]),
        sram: Vec::new(),
        mirror: MirroringMode::Vertical,
    };
    let mut mapper = nes::cartridge::new(cartridge, 2).unwrap();
    assert_eq!(mapper.read(0x8000), 10);
    assert_eq!(mapper.read(0xc000), 12); // fixed to the last bank

    mapper.write(0x8000, 0x01);
    assert_eq!(mapper.read(0x8000), 11);
    assert_eq!(mapper.read(0xc000), 12);

    // a select beyond the bank count wraps, as shorter bank wiring does
    mapper.write(0xffff, 0x05);
    assert_eq!(mapper.first_bank, 2);
}

#[test]
fn chr_ram_accepts_writes_and_chr_rom_does_not() {
    let bytes = container(1, 0, 0x00, 0x00);
    let (cartridge, _) = ines::load(&bytes).unwrap();
    let mut mapper = nes::cartridge::new(cartridge, 0).unwrap();
    mapper.write(0x0123, 0x5a);
    assert_eq!(mapper.read(0x0123), 0x5a);
    assert!(mapper.cartridge.chr.get_banks_mut().is_some());

    let bytes = container(1, 1, 0x00, 0x00);
    let (cartridge, _) = ines::load(&bytes).unwrap();
    let mut mapper = nes::cartridge::new(cartridge, 0).unwrap();
    mapper.write(0x0123, 0x5a);
    assert_eq!(mapper.read(0x0123), 0x80); // untouched ROM
    assert!(mapper.cartridge.chr.get_banks_mut().is_none());
}

#[test]
fn read_page_serves_the_cartridge_space_only() {
    let bytes = container(2, 1, 0x00, 0x00);
    let (cartridge, _) = ines::load(&bytes).unwrap();
    let mapper = nes::cartridge::new(cartridge, 0).unwrap();
    assert!(mapper.read_page(0x00).is_none());
    assert!(mapper.read_page(0x7f).is_none());
    let page = mapper.read_page(0x80).unwrap();
    assert_eq!(page[0], 1);
    let page = mapper.read_page(0xff).unwrap();
    assert_eq!(page[255], 2);
}
