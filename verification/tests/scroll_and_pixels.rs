//! The v/t scroll address arithmetic and the per-pixel multiplexer.

use nes::ppu::{MultiplexerDecision, TileData, VRAMAddress, PPU};

#[test]
fn pack_unpack_round_trip() {
    let a = VRAMAddress::unpack(0x7fff);
    assert_eq!(a.coarse_x, 31);
    assert_eq!(a.coarse_y, 31);
    assert_eq!(a.nametable, 3);
    assert_eq!(a.fine_y, 7);
    assert_eq!(a.pack(), 0x7fff);

    let b = VRAMAddress::unpack(0x2d5e);
    assert_eq!(b.pack(), 0x2d5e);
}

#[test]
fn coarse_x_wraps_at_31_and_flips_the_nametable() {
    let mut a = VRAMAddress::unpack(0);
    a.coarse_x = 31;
    a.increment_x();
    assert_eq!(a.coarse_x, 0);
    assert_eq!(a.nametable, 1);
    a.increment_x();
    assert_eq!(a.coarse_x, 1);
    assert_eq!(a.nametable, 1);
}

#[test]
fn coarse_y_wraps_at_29_and_flips_the_nametable() {
    // fine Y rolls into coarse Y, and row 29 wraps to 0 with a bank flip
    let mut a = VRAMAddress::unpack(0);
    a.coarse_y = 29;
    a.fine_y = 7;
    a.increment_y();
    assert_eq!(a.fine_y, 0);
    assert_eq!(a.coarse_y, 0);
    assert_eq!(a.nametable, 2);

    // but plain fine-Y steps change nothing else
    let mut b = VRAMAddress::unpack(0);
    b.increment_y();
    assert_eq!(b.fine_y, 1);
    assert_eq!(b.coarse_y, 0);
}

#[test]
fn copy_x_and_copy_y_move_their_halves_only() {
    let mut v = VRAMAddress::unpack(0x7fff);
    let t = VRAMAddress::unpack(0x0000);
    v.copy_x(&t);
    assert_eq!(v.coarse_x, 0);
    assert_eq!(v.nametable, 2); // the low bit came from t, the high stayed
    assert_eq!(v.coarse_y, 31);
    assert_eq!(v.fine_y, 7);

    let mut v = VRAMAddress::unpack(0x7fff);
    v.copy_y(&t);
    assert_eq!(v.coarse_y, 0);
    assert_eq!(v.fine_y, 0);
    assert_eq!(v.nametable, 1); // the high bit came from t, the low stayed
    assert_eq!(v.coarse_x, 31);
}

#[test]
fn tile_color_reads_both_planes_msb_first() {
    let tile = TileData { nametable_index: 0, palette: 0, pattern_low: 0b1000_0001, pattern_high: 0b0000_0001 };
    assert_eq!(tile.color(0), 1);
    assert_eq!(tile.color(7), 3);
    assert_eq!(tile.color(3), 0);
}

#[test]
fn multiplexer_decision_table() {
    // both transparent: backdrop
    let (d, c) = PPU::multiplex_colors(0, 0x04, 0, 0x10, false);
    assert_eq!(d, MultiplexerDecision::DrawBackground);
    assert_eq!(c, 0);
    // only the sprite is opaque
    let (d, c) = PPU::multiplex_colors(0, 0x04, 2, 0x10, false);
    assert_eq!(d, MultiplexerDecision::DrawSprite);
    assert_eq!(c, 0x12);
    // only the background is opaque
    let (d, c) = PPU::multiplex_colors(3, 0x04, 0, 0x10, true);
    assert_eq!(d, MultiplexerDecision::DrawTile);
    assert_eq!(c, 0x07);
    // both opaque, sprite in front
    let (d, _) = PPU::multiplex_colors(1, 0x04, 1, 0x10, false);
    assert_eq!(d, MultiplexerDecision::DrawSprite);
    // both opaque, sprite behind
    let (d, _) = PPU::multiplex_colors(1, 0x04, 1, 0x10, true);
    assert_eq!(d, MultiplexerDecision::DrawTile);
}

#[test]
fn palette_mirror_function_folds_the_backdrop_entries() {
    assert_eq!(PPU::mirror_palette(0x10), 0x00);
    assert_eq!(PPU::mirror_palette(0x14), 0x04);
    assert_eq!(PPU::mirror_palette(0x18), 0x08);
    assert_eq!(PPU::mirror_palette(0x1c), 0x0c);
    // ordinary entries are untouched
    assert_eq!(PPU::mirror_palette(0x00), 0x00);
    assert_eq!(PPU::mirror_palette(0x11), 0x11);
    assert_eq!(PPU::mirror_palette(0x1f), 0x1f);
}
