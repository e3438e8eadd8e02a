//! PPU behavior: the palette mirrors, the shared write toggle, the
//! odd-frame skip, nametable mirroring, and the sprite-zero hit.

use nes::bus::MemoryBus;
use nes::cartridge::{Cartridge, Mapper, MirroringMode, CHR, PRG};
use nes::cpu::CPU;
use nes::ppu::PPU;

fn test_mapper_with_chr(fill: u8) -> Mapper {
    let mut prg = [0u8; 0x4000];
    prg[0x3ffc] = 0x00;
    prg[0x3ffd] = 0x80;
    let cartridge = Cartridge {
        prg: PRG { banks: vec![prg] },
        chr: CHR::RAM(vec![[fill; 0x2000]]),
        sram: Vec::new(),
        mirror: MirroringMode::Horizontal,
    };
    nes::cartridge::new(cartridge, 0).unwrap()
}

#[test]
fn palette_mirror_write_sprite_backdrop_reads_through() {
    let mut bus = MemoryBus::new(test_mapper_with_chr(0));
    let mut cpu = CPU::new();

    // point v at $3F10 via two PPUADDR writes, then write $2A
    cpu.write_byte(&mut bus, 0x2006, 0x3f);
    cpu.write_byte(&mut bus, 0x2006, 0x10);
    cpu.write_byte(&mut bus, 0x2007, 0x2a);

    // point v at $3F00 and read: the palette returns directly
    cpu.write_byte(&mut bus, 0x2006, 0x3f);
    cpu.write_byte(&mut bus, 0x2006, 0x00);
    assert_eq!(cpu.read_byte(&mut bus, 0x2007), 0x2a);
}

#[test]
fn palette_read_after_write_is_six_bits() {
    let mut bus = MemoryBus::new(test_mapper_with_chr(0));
    let mut cpu = CPU::new();

    // writes keep only the six palette bits
    cpu.write_byte(&mut bus, 0x2006, 0x3f);
    cpu.write_byte(&mut bus, 0x2006, 0x07);
    cpu.write_byte(&mut bus, 0x2007, 0xeb);

    cpu.write_byte(&mut bus, 0x2006, 0x3f);
    cpu.write_byte(&mut bus, 0x2006, 0x07);
    assert_eq!(cpu.read_byte(&mut bus, 0x2007), 0xeb & 0x3f);
}

#[test]
fn status_read_clears_the_write_toggle() {
    let mut bus = MemoryBus::new(test_mapper_with_chr(0));
    let mut cpu = CPU::new();

    // two zero writes leave w back at false...
    cpu.write_byte(&mut bus, 0x2006, 0x00);
    cpu.write_byte(&mut bus, 0x2006, 0x00);
    // ...a $2002 read forces it false regardless...
    cpu.read_byte(&mut bus, 0x2002);
    // ...so the next write is a high byte again
    cpu.write_byte(&mut bus, 0x2006, 0x12);
    cpu.write_byte(&mut bus, 0x2006, 0x34);
    assert_eq!(bus.ppu.v, 0x1234);

    // and mid-sequence: one high write, a status read, then a fresh pair
    cpu.write_byte(&mut bus, 0x2006, 0x20);
    cpu.read_byte(&mut bus, 0x2002);
    cpu.write_byte(&mut bus, 0x2006, 0x06);
    cpu.write_byte(&mut bus, 0x2006, 0x66);
    assert_eq!(bus.ppu.v, 0x0666);
}

#[test]
fn ppudata_reads_are_buffered_below_the_palette() {
    let mut bus = MemoryBus::new(test_mapper_with_chr(0));
    let mut cpu = CPU::new();

    // write $55 into nametable RAM at $2000
    cpu.write_byte(&mut bus, 0x2006, 0x20);
    cpu.write_byte(&mut bus, 0x2006, 0x00);
    cpu.write_byte(&mut bus, 0x2007, 0x55);

    // the first read returns the stale buffer; the byte arrives one read late
    cpu.write_byte(&mut bus, 0x2006, 0x20);
    cpu.write_byte(&mut bus, 0x2006, 0x00);
    let first = cpu.read_byte(&mut bus, 0x2007);
    let second = cpu.read_byte(&mut bus, 0x2007);
    assert_eq!(first, 0x00);
    assert_eq!(second, 0x55);
}

#[test]
fn vram_increment_follows_the_control_register() {
    let mut bus = MemoryBus::new(test_mapper_with_chr(0));
    let mut cpu = CPU::new();

    cpu.write_byte(&mut bus, 0x2006, 0x20);
    cpu.write_byte(&mut bus, 0x2006, 0x00);
    cpu.write_byte(&mut bus, 0x2007, 0x01);
    assert_eq!(bus.ppu.v, 0x2001);

    cpu.write_byte(&mut bus, 0x2000, 0x04); // row stepping
    cpu.write_byte(&mut bus, 0x2007, 0x02);
    assert_eq!(bus.ppu.v, 0x2021);
}

#[test]
fn odd_frames_skip_a_dot_when_rendering() {
    let mut ppu = PPU::new();
    let mapper = test_mapper_with_chr(0);
    ppu.mask_reg = 0x08; // background on
    ppu.scanline = 261;
    ppu.cycle_in_scanline = 340;
    ppu.frame = 0;
    ppu.step(&mapper);
    assert_eq!(ppu.frame, 1);
    assert_eq!(ppu.scanline, 0);
    assert_eq!(ppu.cycle_in_scanline, 1); // the skipped dot

    // with rendering off, no skip
    let mut ppu = PPU::new();
    ppu.mask_reg = 0x00;
    ppu.scanline = 261;
    ppu.cycle_in_scanline = 340;
    ppu.frame = 0;
    ppu.step(&mapper);
    assert_eq!(ppu.cycle_in_scanline, 0);
}

#[test]
fn vblank_flag_rises_at_241_1_and_falls_at_261_1() {
    let mapper = test_mapper_with_chr(0);
    let mut ppu = PPU::new();
    ppu.scanline = 241;
    ppu.cycle_in_scanline = 1;
    ppu.control_reg = 0x80; // NMI enabled
    ppu.step(&mapper);
    assert!(ppu.in_vblank);
    assert!(ppu.pending_nmi);
    assert_eq!(ppu.status_reg & 0x80, 0x80);

    // park sprite-zero and overflow bits too, then run the pre-render dot
    ppu.status_reg = ppu.status_reg | 0x60;
    ppu.scanline = 261;
    ppu.cycle_in_scanline = 1;
    ppu.step(&mapper);
    assert!(!ppu.in_vblank);
    assert!(!ppu.pending_nmi);
    // vblank, sprite-zero hit and sprite overflow are all cleared
    assert_eq!(ppu.status_reg & 0xe0, 0x00);
}

#[test]
fn nametable_mirroring_modes() {
    // horizontal: the two left slots share bank 0, the right ones bank 1
    assert_eq!(PPU::mirror_nametable(0x2005, MirroringMode::Horizontal), 0x0005);
    assert_eq!(PPU::mirror_nametable(0x2405, MirroringMode::Horizontal), 0x0005);
    assert_eq!(PPU::mirror_nametable(0x2805, MirroringMode::Horizontal), 0x0405);
    assert_eq!(PPU::mirror_nametable(0x2c05, MirroringMode::Horizontal), 0x0405);
    // vertical: alternating banks
    assert_eq!(PPU::mirror_nametable(0x2405, MirroringMode::Vertical), 0x0405);
    assert_eq!(PPU::mirror_nametable(0x2805, MirroringMode::Vertical), 0x0005);
    // single screen folds everything onto bank 0
    assert_eq!(PPU::mirror_nametable(0x2c05, MirroringMode::SingleScreenLowerBank), 0x0005);
}

#[test]
fn sprite_zero_hit_on_opaque_overlap() {
    // CHR RAM full of $FF: every tile row is opaque
    let mapper = test_mapper_with_chr(0xff);
    let mut ppu = PPU::new();
    ppu.mask_reg = 0x18; // background and sprites on

    // sprite 0 at y=120, x=100, a solid tile
    ppu.oam[0] = 120;
    ppu.oam[1] = 0;
    ppu.oam[2] = 0;
    ppu.oam[3] = 100;
    // push every other sprite off range
    for i in 1..64 {
        ppu.oam[4 * i] = 0xf0;
    }

    // evaluate sprites on scanline 120, then fetch their patterns
    ppu.scanline = 120;
    ppu.cycle_in_scanline = 257;
    ppu.step(&mapper);
    assert!(ppu.sprite_zero_in_line);
    ppu.scanline = 120;
    ppu.cycle_in_scanline = 320;
    ppu.step(&mapper);

    // an opaque background tile under the pixel
    ppu.processed_tile[0].pattern_low = 0xff;
    ppu.processed_tile[1].pattern_low = 0xff;

    // a pixel left of the sprite does not hit
    ppu.scanline = 120;
    ppu.cycle_in_scanline = 1 + 50;
    ppu.step(&mapper);
    assert_eq!(ppu.status_reg & 0x40, 0x00);

    // the first overlapped pixel hits
    ppu.scanline = 120;
    ppu.cycle_in_scanline = 1 + 100;
    ppu.step(&mapper);
    assert_eq!(ppu.status_reg & 0x40, 0x40);
}

#[test]
fn transparent_sprite_pixel_does_not_hit() {
    // CHR RAM zeroed: sprite pixels are transparent
    let mapper = test_mapper_with_chr(0x00);
    let mut ppu = PPU::new();
    ppu.mask_reg = 0x18;
    ppu.oam[0] = 120;
    ppu.oam[1] = 0;
    ppu.oam[2] = 0;
    ppu.oam[3] = 100;
    for i in 1..64 {
        ppu.oam[4 * i] = 0xf0;
    }
    ppu.scanline = 120;
    ppu.cycle_in_scanline = 257;
    ppu.step(&mapper);
    ppu.scanline = 120;
    ppu.cycle_in_scanline = 320;
    ppu.step(&mapper);
    ppu.processed_tile[0].pattern_low = 0xff;
    ppu.processed_tile[1].pattern_low = 0xff;
    ppu.scanline = 120;
    ppu.cycle_in_scanline = 1 + 100;
    ppu.step(&mapper);
    assert_eq!(ppu.status_reg & 0x40, 0x00);
}

#[test]
fn sprite_zero_needs_an_opaque_background() {
    // an opaque sprite over a transparent background must not hit
    let mapper = test_mapper_with_chr(0xff);
    let mut ppu = PPU::new();
    ppu.mask_reg = 0x18;
    ppu.oam[0] = 120;
    ppu.oam[1] = 0;
    ppu.oam[2] = 0;
    ppu.oam[3] = 100;
    for i in 1..64 {
        ppu.oam[4 * i] = 0xf0;
    }
    ppu.scanline = 120;
    ppu.cycle_in_scanline = 257;
    ppu.step(&mapper);
    ppu.scanline = 120;
    ppu.cycle_in_scanline = 320;
    ppu.step(&mapper);
    // background tiles left fully transparent
    ppu.scanline = 120;
    ppu.cycle_in_scanline = 1 + 100;
    ppu.step(&mapper);
    assert_eq!(ppu.status_reg & 0x40, 0x00);
}

#[test]
fn sprite_overflow_flags_a_ninth_sprite() {
    let mapper = test_mapper_with_chr(0);
    let mut ppu = PPU::new();
    ppu.mask_reg = 0x18;
    // nine sprites on scanline 50
    for i in 0..9 {
        ppu.oam[4 * i] = 50;
    }
    for i in 9..64 {
        ppu.oam[4 * i] = 0xf0;
    }
    ppu.scanline = 50;
    ppu.cycle_in_scanline = 257;
    ppu.step(&mapper);
    assert_eq!(ppu.status_reg & 0x20, 0x20);

    // with only eight, no overflow
    let mut ppu = PPU::new();
    ppu.mask_reg = 0x18;
    for i in 0..8 {
        ppu.oam[4 * i] = 50;
    }
    for i in 8..64 {
        ppu.oam[4 * i] = 0xf0;
    }
    ppu.scanline = 50;
    ppu.cycle_in_scanline = 257;
    ppu.step(&mapper);
    assert_eq!(ppu.status_reg & 0x20, 0x00);
}

#[test]
fn scroll_register_fills_t_by_halves() {
    let mut bus = MemoryBus::new(test_mapper_with_chr(0));
    let mut cpu = CPU::new();
    // first write: coarse X and fine X
    cpu.write_byte(&mut bus, 0x2005, 0b0101_1111);
    assert_eq!(bus.ppu.t & 0x1f, 0b01011);
    assert_eq!(bus.ppu.fine_x, 0b111);
    assert!(bus.ppu.w);
    // second write: coarse Y and fine Y
    cpu.write_byte(&mut bus, 0x2005, 0b1010_1110);
    assert_eq!((bus.ppu.t >> 5) & 0x1f, 0b10101);
    assert_eq!((bus.ppu.t >> 12) & 0x7, 0b110);
    assert!(!bus.ppu.w);
}
