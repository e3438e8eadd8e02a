//! The picture processor: a per-dot pixel generator with the canonical
//! v/t/w/x scroll model, a background tile pipeline, per-scanline sprite
//! evaluation, and the register file the CPU reaches through $2000-$3FFF.

use vstd::prelude::*;
use crate::bitmasks;
use crate::cartridge::{Mapper, MirroringMode};

verus! {

/// The control register ($2000), bit by bit.
pub struct PPUControl {
    pub base_nametable: u8,
    pub vram_increment: bool,
    pub sprite_pattern_table: bool,
    pub background_pattern_table: bool,
    pub tall_sprites: bool,
    pub master_select: bool,
    pub enable_nmi: bool,
}

impl PPUControl {
    /// Split a raw control byte into its fields.
    pub fn parse(raw: u8) -> (r: PPUControl)
        ensures
            r.base_nametable == raw & 0x03,
            r.vram_increment == ((raw & 0x04) != 0),
            r.sprite_pattern_table == ((raw & 0x08) != 0),
            r.background_pattern_table == ((raw & 0x10) != 0),
            r.tall_sprites == ((raw & 0x20) != 0),
            r.master_select == ((raw & 0x40) != 0),
            r.enable_nmi == ((raw & 0x80) != 0),
    {
        PPUControl {
            base_nametable: raw & 0x03,
            vram_increment: (raw & 0x04) != 0,
            sprite_pattern_table: (raw & 0x08) != 0,
            background_pattern_table: (raw & 0x10) != 0,
            tall_sprites: (raw & 0x20) != 0,
            master_select: (raw & 0x40) != 0,
            enable_nmi: (raw & 0x80) != 0,
        }
    }
}

/// The mask register ($2001), bit by bit.
pub struct PPUMask {
    pub greyscale: bool,
    pub show_background_left8: bool,
    pub show_sprites_left8: bool,
    pub show_background: bool,
    pub show_sprites: bool,
    pub boost_red: bool,
    pub boost_green: bool,
    pub boost_blue: bool,
}

impl PPUMask {
    /// Split a raw mask byte into its fields.
    pub fn parse(raw: u8) -> (r: PPUMask)
        ensures
            r.greyscale == ((raw & 0x01) != 0),
            r.show_background_left8 == ((raw & 0x02) != 0),
            r.show_sprites_left8 == ((raw & 0x04) != 0),
            r.show_background == ((raw & 0x08) != 0),
            r.show_sprites == ((raw & 0x10) != 0),
            r.boost_red == ((raw & 0x20) != 0),
            r.boost_green == ((raw & 0x40) != 0),
            r.boost_blue == ((raw & 0x80) != 0),
    {
        PPUMask {
            greyscale: (raw & 0x01) != 0,
            show_background_left8: (raw & 0x02) != 0,
            show_sprites_left8: (raw & 0x04) != 0,
            show_background: (raw & 0x08) != 0,
            show_sprites: (raw & 0x10) != 0,
            boost_red: (raw & 0x20) != 0,
            boost_green: (raw & 0x40) != 0,
            boost_blue: (raw & 0x80) != 0,
        }
    }
}

/// The 15-bit scroll address, decomposed: coarse X in bits 0-4, coarse Y in
/// bits 5-9, nametable select in bits 10-11, fine Y in bits 12-14.
pub struct VRAMAddress {
    pub coarse_x: u8,
    pub coarse_y: u8,
    pub nametable: u8,
    pub fine_y: u8,
}

impl VRAMAddress {
    /// Each field stays inside its bit window.
    pub open spec fn wf(&self) -> bool {
        &&& self.coarse_x < 32
        &&& self.coarse_y < 32
        &&& self.nametable < 4
        &&& self.fine_y < 8
    }

    /// The packed form of the decomposed address.
    pub open spec fn spec_pack(&self) -> u16 {
        (self.coarse_x + self.coarse_y * 0x20 + self.nametable * 0x400 + self.fine_y * 0x1000) as u16
    }

    /// Split a packed scroll address into its fields.
    pub fn unpack(raw: u16) -> (r: VRAMAddress)
        ensures
            r.coarse_x == raw % 0x20,
            r.coarse_y == (raw / 0x20) % 0x20,
            r.nametable == (raw / 0x400) % 4,
            r.fine_y == (raw / 0x1000) % 8,
            r.wf(),
    {
        VRAMAddress {
            coarse_x: (raw % 0x20) as u8,
            coarse_y: ((raw / 0x20) % 0x20) as u8,
            nametable: ((raw / 0x400) % 4) as u8,
            fine_y: ((raw / 0x1000) % 8) as u8,
        }
    }

    /// Pack the fields back into the 15-bit form.
    pub fn pack(&self) -> (r: u16)
        requires
            self.wf(),
        ensures
            r == self.spec_pack(),
    {
        self.coarse_x as u16 + self.coarse_y as u16 * 0x20 + self.nametable as u16 * 0x400
            + self.fine_y as u16 * 0x1000
    }

    /// Advance one tile to the right: coarse X wraps at 31 and flips the
    /// horizontal nametable bit.
    pub fn increment_x(&mut self)
        requires
            old(self).wf(),
        ensures
            final(self).wf(),
            *final(self) == spec_x_incremented(*old(self)),
            old(self).coarse_x < 31 ==> final(self).coarse_x == old(self).coarse_x + 1
                && final(self).nametable == old(self).nametable,
            old(self).coarse_x >= 31 ==> final(self).coarse_x == 0
                && final(self).nametable == old(self).nametable ^ 0x01,
            final(self).coarse_y == old(self).coarse_y,
            final(self).fine_y == old(self).fine_y,
    {
        if self.coarse_x < 31 {
            self.coarse_x = self.coarse_x + 1;
        } else {
            proof {
                bitmasks::lemma_nametable_xor_bounds();
            }
            self.nametable = self.nametable ^ 0x01;
            self.coarse_x = 0;
        }
    }

    /// Advance one line down: fine Y wraps into coarse Y, and coarse Y wraps
    /// at row 29 back to 0 while flipping the vertical nametable bit.
    pub fn increment_y(&mut self)
        requires
            old(self).wf(),
        ensures
            final(self).wf(),
            *final(self) == spec_y_incremented(*old(self)),
            old(self).fine_y < 7 ==> final(self).fine_y == old(self).fine_y + 1
                && final(self).coarse_y == old(self).coarse_y
                && final(self).nametable == old(self).nametable,
            old(self).fine_y >= 7 ==> final(self).fine_y == 0,
            old(self).fine_y >= 7 && old(self).coarse_y < 29 ==> final(self).coarse_y
                == old(self).coarse_y + 1 && final(self).nametable == old(self).nametable,
            old(self).fine_y >= 7 && old(self).coarse_y >= 29 ==> final(self).coarse_y == 0
                && final(self).nametable == old(self).nametable ^ 0x02,
            final(self).coarse_x == old(self).coarse_x,
    {
        if self.fine_y < 7 {
            self.fine_y = self.fine_y + 1;
        } else {
            self.fine_y = 0;
            if self.coarse_y < 29 {
                self.coarse_y = self.coarse_y + 1;
            } else {
                proof {
                    bitmasks::lemma_nametable_xor_bounds();
                }
                self.coarse_y = 0;
                self.nametable = self.nametable ^ 0x02;
            }
        }
    }

    /// Copy the horizontal scroll parts (coarse X and the low nametable bit)
    /// from `other`.
    pub fn copy_x(&mut self, other: &VRAMAddress)
        requires
            old(self).wf(),
            other.wf(),
        ensures
            final(self).wf(),
            *final(self) == spec_x_copied(*old(self), *other),
            final(self).coarse_x == other.coarse_x,
            final(self).nametable == (old(self).nametable & 0x02) | (other.nametable & 0x01),
            final(self).coarse_y == old(self).coarse_y,
            final(self).fine_y == old(self).fine_y,
    {
        proof {
            bitmasks::lemma_nametable_merge_bounds();
        }
        self.coarse_x = other.coarse_x;
        self.nametable = (self.nametable & 0x02) | (other.nametable & 0x01);
    }

    /// Copy the vertical scroll parts (coarse Y, fine Y and the high
    /// nametable bit) from `other`.
    pub fn copy_y(&mut self, other: &VRAMAddress)
        requires
            old(self).wf(),
            other.wf(),
        ensures
            final(self).wf(),
            *final(self) == spec_y_copied(*old(self), *other),
            final(self).coarse_y == other.coarse_y,
            final(self).fine_y == other.fine_y,
            final(self).nametable == (old(self).nametable & 0x01) | (other.nametable & 0x02),
            final(self).coarse_x == old(self).coarse_x,
    {
        proof {
            bitmasks::lemma_nametable_merge_bounds();
        }
        self.coarse_y = other.coarse_y;
        self.fine_y = other.fine_y;
        self.nametable = (self.nametable & 0x01) | (other.nametable & 0x02);
    }
}

/// One fetched background tile: its nametable index, palette bits, and the
/// two pattern planes for the current row.
#[derive(Clone, Copy, Debug, PartialEq)]
pub struct TileData {
    pub nametable_index: u8,
    pub palette: u8,
    pub pattern_low: u8,
    pub pattern_high: u8,
}

impl TileData {
    /// A tile with nothing fetched yet.
    pub fn empty() -> (r: TileData)
        ensures
            r.nametable_index == 0,
            r.palette == 0,
            r.pattern_low == 0,
            r.pattern_high == 0,
    {
        TileData { nametable_index: 0, palette: 0, pattern_low: 0, pattern_high: 0 }
    }

    /// The two-bit palette index of pixel `x` of this row, high plane over
    /// low plane, pixel 0 leftmost.
    pub open spec fn spec_color(&self, x: u8) -> u8 {
        (((self.pattern_high >> (7 - x) as u8) & 1) * 2 + ((self.pattern_low >> (7 - x) as u8) & 1)) as u8
    }

    /// The two-bit palette index of pixel `x` of this row.
    pub fn color(&self, x: u8) -> (r: u8)
        requires
            x < 8,
        ensures
            r == self.spec_color(x),
            r < 4,
    {
        let shift: u8 = 7 - x;
        let lo = (self.pattern_low >> shift) & 1;
        let hi = (self.pattern_high >> shift) & 1;
        proof {
            bitmasks::lemma_u8_mask_bounds();
        }
        hi * 2 + lo
    }
}

/// One OAM entry, fields unpacked.
#[derive(Clone, Copy, Debug, PartialEq)]
pub struct ParsedSprite {
    pub top_y: u8,
    pub tile_index: u8,
    pub palette: u8,
    pub behind_background: bool,
    pub flip_horizontal: bool,
    pub flip_vertical: bool,
    pub left_x: u8,
}

impl ParsedSprite {
    /// Unpack the four OAM bytes of one sprite.
    pub fn parse(b0: u8, b1: u8, b2: u8, b3: u8) -> (r: ParsedSprite)
        ensures
            r.top_y == b0,
            r.tile_index == b1,
            r.palette == b2 & 0x03,
            r.behind_background == ((b2 & 0x20) != 0),
            r.flip_horizontal == ((b2 & 0x40) != 0),
            r.flip_vertical == ((b2 & 0x80) != 0),
            r.left_x == b3,
    {
        ParsedSprite {
            top_y: b0,
            tile_index: b1,
            palette: b2 & 0x03,
            behind_background: (b2 & 0x20) != 0,
            flip_horizontal: (b2 & 0x40) != 0,
            flip_vertical: (b2 & 0x80) != 0,
            left_x: b3,
        }
    }

    /// A sprite slot left at the secondary OAM's $FF fill pattern.
    pub open spec fn spec_is_empty(&self) -> bool {
        self.top_y == 0xff && self.tile_index == 0xff && self.left_x == 0xff
    }

    /// Whether this slot still holds the secondary OAM's fill pattern.
    pub fn is_empty(&self) -> (r: bool)
        ensures
            r == self.spec_is_empty(),
    {
        self.top_y == 0xff && self.tile_index == 0xff && self.left_x == 0xff
    }

    /// An unpopulated sprite slot.
    pub fn empty() -> (r: ParsedSprite)
        ensures
            r.spec_is_empty(),
            r.top_y == 0xff,
            r.tile_index == 0xff,
            r.left_x == 0xff,
            r.palette == 0,
            !r.behind_background,
            !r.flip_horizontal,
            !r.flip_vertical,
    {
        ParsedSprite {
            top_y: 0xff,
            tile_index: 0xff,
            palette: 0,
            behind_background: false,
            flip_horizontal: false,
            flip_vertical: false,
            left_x: 0xff,
        }
    }
}

/// A sprite chosen for the coming scanline together with its fetched pattern
/// row.
#[derive(Clone, Copy, Debug, PartialEq)]
pub struct ProcessedSprite {
    pub sprite: ParsedSprite,
    pub tile: TileData,
}

impl ProcessedSprite {
    /// An unpopulated slot.
    pub fn empty() -> (r: ProcessedSprite)
        ensures
            r.sprite.spec_is_empty(),
            r.tile.pattern_low == 0,
            r.tile.pattern_high == 0,
    {
        ProcessedSprite { sprite: ParsedSprite::empty(), tile: TileData::empty() }
    }

    /// The sprite's two-bit color at `x` across its 8-pixel row, honouring
    /// horizontal flip.
    pub open spec fn spec_color(&self, x: u8) -> u8 {
        if self.sprite.flip_horizontal {
            self.tile.spec_color((7 - x) as u8)
        } else {
            self.tile.spec_color(x)
        }
    }

    /// The sprite's two-bit color at `x` across its 8-pixel row.
    pub fn color(&self, x: u8) -> (r: u8)
        requires
            x < 8,
        ensures
            r == self.spec_color(x),
            r < 4,
    {
        self.tile.color(if self.sprite.flip_horizontal { 7 - x } else { x })
    }
}

/// A finished frame: 240 rows of 256 six-bit palette indices.
#[derive(Clone, Copy, PartialEq)]
pub struct Screen {
    pub pixels: [[u8; 256]; 240],
}

impl Screen {
    /// An all-backdrop frame.
    pub fn new() -> (r: Screen)
        ensures
            forall|y: int, x: int| 0 <= y < 240 && 0 <= x < 256 ==> r.pixels@[y]@[x] == 0,
    {
        Screen { pixels: [[0; 256]; 240] }
    }
}

/// How the per-pixel multiplexer resolved a pixel.
#[derive(Clone, Copy, Debug, PartialEq, Eq, Structural)]
pub enum MultiplexerDecision {
    DrawBackground,
    DrawTile,
    DrawSprite,
}

/// The scroll address after a PPUDATA access: *v* advances by 32 when the
/// control register selects row stepping, else by 1, and wraps.
pub open spec fn spec_vram_step(v: u16, control: u8) -> u16 {
    (if (control & 0x04) != 0 {
        (v + 32) % 0x10000
    } else {
        (v + 1) % 0x10000
    }) as u16
}

/// Only the scroll address *v* differs.
pub open spec fn eq_except_v(a: PPU, b: PPU) -> bool {
    &&& same_timing(a, b)
    &&& same_memories(a, b)
    &&& same_pipeline(a, b)
    &&& a.control_reg == b.control_reg
    &&& a.status_reg == b.status_reg
    &&& a.mask_reg == b.mask_reg
    &&& a.oam_addr == b.oam_addr
    &&& a.buffered_ppu_data == b.buffered_ppu_data
    &&& a.t == b.t
    &&& a.w == b.w
    &&& a.fine_x == b.fine_x
    &&& a.in_vblank == b.in_vblank
    &&& a.pending_nmi == b.pending_nmi
}

/// Where the pending tile's nametable byte is fetched from.
pub open spec fn spec_nt_fetch_addr(v: u16) -> u16 {
    0x2000 | (v & 0x0fff)
}

/// Where the pending tile's attribute byte is fetched from.
pub open spec fn spec_attr_fetch_addr(v: u16) -> u16 {
    0x23c0 | (v & 0x0c00) | ((v >> 4) & 0x38) | ((v >> 2) & 0x07)
}

/// Which two-bit slice of the attribute byte the tile under *v* uses.
pub open spec fn spec_attr_shift(v: u16) -> u16 {
    ((v & 0x40) >> 4) | (v & 0x2)
}

/// Where a background pattern plane is fetched from: the pattern table the
/// control register selects, the pending tile's index, the plane, and the
/// fine Y row of *v*.
pub open spec fn spec_bg_pattern_addr(control: u8, nt_index: u8, v: u16, high: bool) -> u16 {
    let table: u16 = if (control & 0x10) != 0 { 0x1000 } else { 0 };
    if high {
        table | ((nt_index as u16) << 4) | 8 | ((v / 0x1000) % 8)
    } else {
        table | ((nt_index as u16) << 4) | ((v / 0x1000) % 8)
    }
}

/// Sprite height under a control byte: 16 rows in tall-sprite mode, else 8.
pub open spec fn spec_sprite_height(control: u8) -> u16 {
    if (control & 0x20) != 0 {
        16
    } else {
        8
    }
}

/// Whether OAM sprite `i` covers scanline `y` for sprite height `h`.
pub open spec fn spec_sprite_in_range(oam: Seq<u8>, i: int, y: u16, h: u16) -> bool {
    oam[4 * i] <= y < oam[4 * i] + h
}

/// How many of the first `n` OAM sprites cover scanline `y`.
pub open spec fn spec_sprites_in_range_count(oam: Seq<u8>, y: u16, h: u16, n: int) -> int
    decreases n,
{
    if n <= 0 {
        0
    } else {
        spec_sprites_in_range_count(oam, y, h, n - 1) + if spec_sprite_in_range(oam, n - 1, y, h) {
            1int
        } else {
            0int
        }
    }
}

/// The OAM index of the `j`-th sprite at or after index `n` that covers
/// scanline `y` for sprite height `h`; 64 when fewer qualify.
pub open spec fn spec_nth_in_range(oam: Seq<u8>, y: u16, h: u16, n: int, j: int) -> int
    decreases 64 - n when n >= 0
{
    if n >= 64 {
        64
    } else if spec_sprite_in_range(oam, n, y, h) {
        if j == 0 {
            n
        } else {
            spec_nth_in_range(oam, y, h, n + 1, j - 1)
        }
    } else {
        spec_nth_in_range(oam, y, h, n + 1, j)
    }
}

/// Counting qualifying sprites never decreases along the scan.
pub proof fn lemma_sprites_count_monotonic(oam: Seq<u8>, y: u16, h: u16, a: int, b: int)
    requires
        a <= b,
    ensures
        spec_sprites_in_range_count(oam, y, h, a) <= spec_sprites_in_range_count(oam, y, h, b),
    decreases b - a,
{
    if a < b {
        lemma_sprites_count_monotonic(oam, y, h, a, b - 1);
    }
}

/// A qualifying sprite at index `n` is the `c`-th qualifying sprite at or
/// after `m`, where `c` counts the qualifying sprites in between.
pub proof fn lemma_nth_in_range_counts(oam: Seq<u8>, y: u16, h: u16, m: int, n: int)
    requires
        0 <= m <= n < 64,
        spec_sprite_in_range(oam, n, y, h),
    ensures
        spec_nth_in_range(
            oam,
            y,
            h,
            m,
            spec_sprites_in_range_count(oam, y, h, n) - spec_sprites_in_range_count(oam, y, h, m),
        ) == n,
    decreases n - m,
{
    if m < n {
        lemma_nth_in_range_counts(oam, y, h, m + 1, n);
        lemma_sprites_count_monotonic(oam, y, h, m + 1, n);
    }
}

/// First-match scan of the scanline's sprites at screen column `x`, from
/// slot `i` up: the first slot that is populated, covers `x`, and is opaque
/// there wins, and an unpopulated slot ends the scan. Yields (palette index,
/// slot, palette offset, behind-background).
pub open spec fn spec_sprite_scan(sprites: Seq<ProcessedSprite>, x: u16, i: int) -> (u8, u8, u8, bool)
    decreases 8 - i,
{
    if i < 0 || i >= 8 || sprites.len() < 8 {
        (0u8, 0u8, 0u8, false)
    } else {
        let ps = sprites[i];
        if ps.sprite.spec_is_empty() {
            (0u8, 0u8, 0u8, false)
        } else if ps.sprite.left_x <= x < ps.sprite.left_x + 8 && ps.spec_color(
            (x - ps.sprite.left_x) as u8,
        ) != 0 {
            (
                ps.spec_color((x - ps.sprite.left_x) as u8),
                i as u8,
                ((ps.sprite.palette & 0x03) << 2) as u8,
                ps.sprite.behind_background,
            )
        } else {
            spec_sprite_scan(sprites, x, i + 1)
        }
    }
}

/// The pattern-plane addresses (low, high) for one row of a sprite on
/// scanline `y`: tall sprites take their table from bit 0 of the tile index,
/// short ones from the control register; the row within the sprite honours
/// vertical flip, and rows 8-15 of a tall sprite use the odd tile. A row
/// that does not actually cover `y` (possible only through a mid-line mask
/// toggle leaving stale slots) is clamped into range instead of trusted.
pub open spec fn spec_sprite_pattern_addrs(control: u8, sprite: ParsedSprite, y: u16) -> (u16, u16) {
    let tall = (control & 0x20) != 0;
    let h = spec_sprite_height(control);
    let bank: u16 = if tall {
        (sprite.tile_index & 0x01) as u16
    } else if (control & 0x08) != 0 {
        1
    } else {
        0
    };
    let ty0: u16 = if y >= sprite.top_y { (y - sprite.top_y) as u16 } else { 0 };
    let ty1: u16 = if ty0 > h - 1 { (h - 1) as u16 } else { ty0 };
    let ty2: u16 = if sprite.flip_vertical { (h - 1 - ty1) as u16 } else { ty1 };
    let base_index: u8 = if tall { sprite.tile_index & 0xfe } else { sprite.tile_index };
    let index: u8 = if ty2 >= 8 { (base_index + 1) as u8 } else { base_index };
    let row: u16 = ty2 % 8;
    let lo: u16 = (bank << 12) | ((index as u16) << 4) | row;
    (lo, lo | 8)
}

/// The frame counter's successor; it wraps at the type's top.
pub open spec fn spec_next_frame(frame: u64) -> u64 {
    if frame == u64::MAX {
        0u64
    } else {
        (frame + 1) as u64
    }
}

/// The decomposed form of a packed scroll address.
pub open spec fn spec_unpack(raw: u16) -> VRAMAddress {
    VRAMAddress {
        coarse_x: (raw % 0x20) as u8,
        coarse_y: ((raw / 0x20) % 0x20) as u8,
        nametable: ((raw / 0x400) % 4) as u8,
        fine_y: ((raw / 0x1000) % 8) as u8,
    }
}

/// A decomposed scroll address one tile to the right: coarse X wraps at 31
/// and flips the horizontal nametable bit.
pub open spec fn spec_x_incremented(a: VRAMAddress) -> VRAMAddress {
    if a.coarse_x < 31 {
        VRAMAddress { coarse_x: (a.coarse_x + 1) as u8, ..a }
    } else {
        VRAMAddress { coarse_x: 0, nametable: a.nametable ^ 0x01, ..a }
    }
}

/// A decomposed scroll address one line down: fine Y wraps into coarse Y,
/// and coarse Y wraps at row 29 while flipping the vertical nametable bit.
pub open spec fn spec_y_incremented(a: VRAMAddress) -> VRAMAddress {
    if a.fine_y < 7 {
        VRAMAddress { fine_y: (a.fine_y + 1) as u8, ..a }
    } else if a.coarse_y < 29 {
        VRAMAddress { fine_y: 0, coarse_y: (a.coarse_y + 1) as u8, ..a }
    } else {
        VRAMAddress { fine_y: 0, coarse_y: 0, nametable: a.nametable ^ 0x02, ..a }
    }
}

/// `a` with the horizontal scroll parts of `b`.
pub open spec fn spec_x_copied(a: VRAMAddress, b: VRAMAddress) -> VRAMAddress {
    VRAMAddress { coarse_x: b.coarse_x, nametable: (a.nametable & 0x02) | (b.nametable & 0x01), ..a }
}

/// `a` with the vertical scroll parts of `b`.
pub open spec fn spec_y_copied(a: VRAMAddress, b: VRAMAddress) -> VRAMAddress {
    VRAMAddress {
        coarse_y: b.coarse_y,
        fine_y: b.fine_y,
        nametable: (a.nametable & 0x01) | (b.nametable & 0x02),
        ..a
    }
}

/// Palette offsets $10/$14/$18/$1C alias the backdrop mirrors $00/$04/$08/$0C.
pub open spec fn spec_mirror_palette(offset: u8) -> u8 {
    if (offset & 0x13) == 0x10 {
        offset & 0xef
    } else {
        offset
    }
}

/// Which of the two (or, four-screen, four) nametable banks a given
/// addressable slot resolves to under a mirroring mode.
pub open spec fn spec_nametable_bank(mode: MirroringMode, select: u16) -> u16 {
    match mode {
        MirroringMode::Horizontal => if select < 2 { 0 } else { 1 },
        MirroringMode::Vertical => select % 2,
        MirroringMode::SingleScreenLowerBank => 0,
        MirroringMode::SingleScreenUpperBank => 0,
        MirroringMode::FourScreen => select,
    }
}

/// Resolve a nametable address to its bank-relative form under a mirroring
/// mode: a pure function of the address and the mode.
pub open spec fn spec_mirror_nametable(addr: u16, mode: MirroringMode) -> u16 {
    (spec_nametable_bank(mode, (addr / 0x400) % 4) * 0x400 + addr % 0x400) as u16
}

/// Palette entries behind the backdrop mirrors fold onto the backdrop, and
/// every other offset is its own entry.
pub proof fn lemma_palette_mirror_folds()
    by (bit_vector)
    ensures
        spec_mirror_palette(0x10) == 0x00,
        spec_mirror_palette(0x14) == 0x04,
        spec_mirror_palette(0x18) == 0x08,
        spec_mirror_palette(0x1c) == 0x0c,
        forall|o: u8| o < 0x20 && (o & 0x13) != 0x10 ==> #[trigger] spec_mirror_palette(o) == o,
{
}

/// A palette read returns what was last written through any alias of the
/// same mirrored entry, masked to the six palette bits.
pub proof fn lemma_palette_read_after_write(
    pre: PPU,
    post: PPU,
    m: Mapper,
    waddr: u16,
    raddr: u16,
    data: u8,
)
    requires
        waddr >= 0x3f00,
        raddr >= 0x3f00,
        spec_mirror_palette((waddr % 0x20) as u8) == spec_mirror_palette((raddr % 0x20) as u8),
        post.palette_ram@ == pre.palette_ram@.update(
            spec_mirror_palette((waddr % 0x20) as u8) as int,
            data & 0x3f,
        ),
        pre.palette_ram@.len() == 32,
    ensures
        post.spec_vram_read(&m, raddr) == data & 0x3f,
{
    bitmasks::lemma_u8_mask_bounds();
}


/// The PPU's whole architectural state.
#[derive(Clone, Copy, PartialEq)]
pub struct PPU {
    /// Dot within the scanline, 0 to 340.
    pub cycle_in_scanline: u16,
    /// Scanline, 0 to 261.
    pub scanline: u16,
    /// Frame counter; wraps.
    pub frame: u64,
    pub control_reg: u8,
    pub status_reg: u8,
    pub mask_reg: u8,
    pub oam_addr: u8,
    /// The one-read-deep buffer behind PPUDATA.
    pub buffered_ppu_data: u8,
    /// The current scroll address *v*.
    pub v: u16,
    /// The temporary scroll address *t*.
    pub t: u16,
    /// The shared write toggle *w* of $2005/$2006.
    pub w: bool,
    pub in_vblank: bool,
    /// The fine X scroll *x*.
    pub fine_x: u8,
    /// The frame being rendered.
    pub pending_screen: Screen,
    pub oam: [u8; 256],
    pub secondary_oam: [u8; 32],
    pub palette_ram: [u8; 32],
    pub nametables: [u8; 2048],
    /// An NMI edge waiting for the CPU to consume it.
    pub pending_nmi: bool,
    /// The tile being fetched for two tiles ahead.
    pub pending_tile: TileData,
    /// The two tiles the current eight-pixel window draws from.
    pub processed_tile: [TileData; 2],
    /// The up-to-eight sprites of the coming scanline, patterns fetched.
    pub processed_sprites: [ProcessedSprite; 8],
    /// Whether OAM sprite 0 was copied into the coming scanline's sprites.
    pub sprite_zero_in_line: bool,
}

/// The PPU's power-up state: counters at zero, registers cleared, memories
/// zeroed, scroll state cleared, pipelines empty, no NMI pending.
pub open spec fn spec_powered_up(p: PPU) -> bool {
    &&& p.cycle_in_scanline == 0
    &&& p.scanline == 0
    &&& p.frame == 0
    &&& p.control_reg == 0
    &&& p.status_reg == 0
    &&& p.mask_reg == 0
    &&& p.oam_addr == 0
    &&& p.buffered_ppu_data == 0
    &&& p.v == 0
    &&& p.t == 0
    &&& !p.w
    &&& !p.in_vblank
    &&& p.fine_x == 0
    &&& forall|y: int, x: int| 0 <= y < 240 && 0 <= x < 256
        ==> #[trigger] p.pending_screen.pixels@[y]@[x] == 0
    &&& forall|i: int| 0 <= i < 256 ==> #[trigger] p.oam@[i] == 0
    &&& forall|i: int| 0 <= i < 32 ==> #[trigger] p.secondary_oam@[i] == 0
    &&& forall|i: int| 0 <= i < 32 ==> #[trigger] p.palette_ram@[i] == 0
    &&& forall|i: int| 0 <= i < 2048 ==> #[trigger] p.nametables@[i] == 0
    &&& !p.pending_nmi
    &&& !p.sprite_zero_in_line
}

/// The dot, scanline and frame counters agree.
pub open spec fn same_timing(a: PPU, b: PPU) -> bool {
    &&& a.cycle_in_scanline == b.cycle_in_scanline
    &&& a.scanline == b.scanline
    &&& a.frame == b.frame
}

/// The scroll state v/t/w/x agrees.
pub open spec fn same_scroll(a: PPU, b: PPU) -> bool {
    &&& a.v == b.v
    &&& a.t == b.t
    &&& a.w == b.w
    &&& a.fine_x == b.fine_x
}

/// The four memories agree.
pub open spec fn same_memories(a: PPU, b: PPU) -> bool {
    &&& a.oam == b.oam
    &&& a.secondary_oam == b.secondary_oam
    &&& a.palette_ram == b.palette_ram
    &&& a.nametables == b.nametables
}

/// The background and sprite pipelines and the frame in progress agree.
pub open spec fn same_pipeline(a: PPU, b: PPU) -> bool {
    &&& a.pending_tile == b.pending_tile
    &&& a.processed_tile == b.processed_tile
    &&& a.processed_sprites == b.processed_sprites
    &&& a.sprite_zero_in_line == b.sprite_zero_in_line
    &&& a.pending_screen == b.pending_screen
}

/// Everything but the nametable RAM agrees.
pub open spec fn same_but_nametables(a: PPU, b: PPU) -> bool {
    &&& same_timing(a, b)
    &&& same_scroll(a, b)
    &&& same_pipeline(a, b)
    &&& a.control_reg == b.control_reg
    &&& a.status_reg == b.status_reg
    &&& a.mask_reg == b.mask_reg
    &&& a.oam_addr == b.oam_addr
    &&& a.buffered_ppu_data == b.buffered_ppu_data
    &&& a.in_vblank == b.in_vblank
    &&& a.pending_nmi == b.pending_nmi
    &&& a.oam == b.oam
    &&& a.secondary_oam == b.secondary_oam
    &&& a.palette_ram == b.palette_ram
}

/// Everything but the palette RAM agrees.
pub open spec fn same_but_palette(a: PPU, b: PPU) -> bool {
    &&& same_timing(a, b)
    &&& same_scroll(a, b)
    &&& same_pipeline(a, b)
    &&& a.control_reg == b.control_reg
    &&& a.status_reg == b.status_reg
    &&& a.mask_reg == b.mask_reg
    &&& a.oam_addr == b.oam_addr
    &&& a.buffered_ppu_data == b.buffered_ppu_data
    &&& a.in_vblank == b.in_vblank
    &&& a.pending_nmi == b.pending_nmi
    &&& a.oam == b.oam
    &&& a.secondary_oam == b.secondary_oam
    &&& a.nametables == b.nametables
}

/// How a write on the PPU's own bus relates the (PPU, mapper) pair to its
/// successor: pattern space goes to the mapper's CHR, $2000-$3EFF to the
/// mirrored nametable RAM, $3F00 and up to the mirrored palette RAM.
pub open spec fn vram_write_rel(
    pre_ppu: PPU,
    pre_m: Mapper,
    post_ppu: PPU,
    post_m: Mapper,
    addr: u16,
    data: u8,
) -> bool {
    &&& addr < 0x2000 ==> {
        &&& post_ppu == pre_ppu
        &&& crate::cartridge::chr_write_rel(pre_m, post_m, addr, data)
    }
    &&& 0x2000 <= addr < 0x3f00 ==> {
        &&& post_m == pre_m
        &&& post_ppu.nametables@ == pre_ppu.nametables@.update(
            spec_mirror_nametable(addr, pre_m.cartridge.mirror) as int % 0x800,
            data,
        )
        &&& same_but_nametables(pre_ppu, post_ppu)
    }
    &&& addr >= 0x3f00 ==> {
        &&& post_m == pre_m
        &&& post_ppu.palette_ram@ == pre_ppu.palette_ram@.update(
            spec_mirror_palette((addr % 0x20) as u8) as int,
            data & 0x3f,
        )
        &&& same_but_palette(pre_ppu, post_ppu)
    }
}

/// What a register read reports, as a function of the pre-read state.
pub open spec fn spec_read_register_value(ppu: PPU, m: Mapper, addr: u16) -> u8 {
    let r = addr % 8;
    if r == 2 {
        ppu.status_reg
    } else if r == 4 {
        ppu.oam@[ppu.oam_addr as int]
    } else if r == 7 {
        if ppu.v < 0x3f00 {
            ppu.buffered_ppu_data
        } else {
            ppu.spec_vram_read(&m, ppu.v)
        }
    } else {
        0
    }
}

/// The PPU after a register read: $2002 clears *w* and the NMI-occurred
/// bit, $2007 refills the read buffer and advances *v*, the rest is
/// untouched.
pub open spec fn spec_read_register_post(ppu: PPU, m: Mapper, addr: u16) -> PPU {
    let r = addr % 8;
    if r == 2 {
        PPU { w: false, status_reg: ppu.status_reg & 0x7f, ..ppu }
    } else if r == 7 {
        PPU {
            buffered_ppu_data: if ppu.v < 0x3f00 {
                ppu.spec_vram_read(&m, ppu.v)
            } else if ppu.v < 0x4000 {
                ppu.spec_vram_read(&m, ppu.v ^ 0x1000)
            } else {
                ppu.buffered_ppu_data
            },
            v: spec_vram_step(ppu.v, ppu.control_reg),
            ..ppu
        }
    } else {
        ppu
    }
}

/// How an OAM DMA relates the PPU to its successor: a present page lands in
/// OAM starting at the OAM address and wrapping, a missing one clears OAM;
/// nothing else moves.
pub open spec fn write_dma_rel(pre: PPU, post: PPU, page: Option<[u8; 256]>) -> bool {
    &&& page is Some ==> forall|i: int| 0 <= i < 256
        ==> post.oam@[(pre.oam_addr + i) % 256] == page->Some_0@[i]
    &&& page is None ==> forall|i: int| 0 <= i < 256 ==> post.oam@[i] == 0
    &&& same_timing(pre, post)
    &&& same_scroll(pre, post)
    &&& same_pipeline(pre, post)
    &&& post.secondary_oam == pre.secondary_oam
    &&& post.palette_ram == pre.palette_ram
    &&& post.nametables == pre.nametables
    &&& post.control_reg == pre.control_reg
    &&& post.status_reg == pre.status_reg
    &&& post.mask_reg == pre.mask_reg
    &&& post.oam_addr == pre.oam_addr
    &&& post.buffered_ppu_data == pre.buffered_ppu_data
    &&& post.in_vblank == pre.in_vblank
    &&& post.pending_nmi == pre.pending_nmi
}

/// How a register write relates the (PPU, mapper) pair to its successor;
/// `addr` is anywhere in the $2000-$3FFF mirror window.
pub open spec fn write_register_rel(pre: PPU, post: PPU, pre_m: Mapper, post_m: Mapper, addr: u16, data: u8) -> bool {
    &&& (post_m.wf())
    &&& (same_timing(pre, post))
    &&& (same_pipeline(pre, post))
    &&& (post.in_vblank == pre.in_vblank)
    &&& (addr % 8 != 0 ==> post.pending_nmi == pre.pending_nmi
                && post.control_reg == pre.control_reg)
    &&& (addr % 8 != 1 ==> post.mask_reg == pre.mask_reg)
    &&& (addr % 8 != 7 ==> post_m == pre_m
                && post.nametables == pre.nametables
                && post.palette_ram == pre.palette_ram)
    &&& (post.status_reg == pre.status_reg)
    &&& (post.secondary_oam == pre.secondary_oam)
    &&& (addr % 8 != 4 ==> post.oam == pre.oam)
    &&& (addr % 8 != 3 && addr % 8 != 4 ==> post.oam_addr == pre.oam_addr)
    &&& (post.buffered_ppu_data == pre.buffered_ppu_data)
    &&& (addr % 8 == 0 ==> {
                &&& post.control_reg == data
                &&& post.pending_nmi == (pre.pending_nmi || (pre.in_vblank
                    && (pre.control_reg & 0x80) == 0 && (data & 0x80) != 0))
                &&& post.t == (VRAMAddress {
                    nametable: data & 0x03,
                    ..spec_unpack(pre.t)
                }).spec_pack()
                &&& post.v == pre.v
                &&& post.w == pre.w
                &&& post.fine_x == pre.fine_x
            })
    &&& (addr % 8 == 1 ==> post.mask_reg == data && same_scroll(pre, post))
    &&& (addr % 8 == 2 ==> post == pre)
    &&& (addr % 8 == 3 ==> post.oam_addr == data && same_scroll(pre, post))
    &&& (addr % 8 == 4 ==> {
                &&& post.oam@ == pre.oam@.update(pre.oam_addr as int, data)
                &&& post.oam_addr == (pre.oam_addr + 1) % 256
                &&& same_scroll(pre, post)
            })
    &&& (addr % 8 == 5 && !pre.w ==> {
                &&& post.w
                &&& post.t == (VRAMAddress {
                    coarse_x: data / 8,
                    ..spec_unpack(pre.t)
                }).spec_pack()
                &&& post.fine_x == data & 0x07
                &&& post.v == pre.v
            })
    &&& (addr % 8 == 5 && pre.w ==> {
                &&& !post.w
                &&& post.t == (VRAMAddress {
                    coarse_y: data / 8,
                    fine_y: data & 0x07,
                    ..spec_unpack(pre.t)
                }).spec_pack()
                &&& post.fine_x == pre.fine_x
                &&& post.v == pre.v
            })
    &&& (addr % 8 == 6 && !pre.w ==> {
                &&& post.w
                &&& post.t == (pre.t & 0x80ff) | (((data as u16) << 8) & 0x7f00)
                &&& post.v == pre.v
                &&& post.fine_x == pre.fine_x
            })
    &&& (addr % 8 == 6 && pre.w ==> {
                &&& !post.w
                &&& post.t == (pre.t & 0xff00) | (data as u16)
                &&& post.v == post.t
                &&& post.fine_x == pre.fine_x
            })
    &&& (addr % 8 == 7 ==> {
                &&& post.v == spec_vram_step(pre.v, pre.control_reg)
                &&& post.t == pre.t
                &&& post.w == pre.w
                &&& post.fine_x == pre.fine_x
                &&& pre.v < 0x2000 ==> crate::cartridge::chr_write_rel(
                    pre_m,
                    post_m,
                    pre.v,
                    data,
                ) && post.nametables == pre.nametables
                    && post.palette_ram == pre.palette_ram
                &&& 0x2000 <= pre.v < 0x3f00 ==> post_m == pre_m
                    && post.nametables@ == pre.nametables@.update(
                        spec_mirror_nametable(pre.v, pre_m.cartridge.mirror) as int % 0x800,
                        data,
                    ) && post.palette_ram == pre.palette_ram
                &&& pre.v >= 0x3f00 ==> post_m == pre_m
                    && post.palette_ram@ == pre.palette_ram@.update(
                        spec_mirror_palette((pre.v % 0x20) as u8) as int,
                        data & 0x3f,
                    ) && post.nametables == pre.nametables
            })
}

/// How one scanline's sprite evaluation relates the PPU to its successor:
/// secondary OAM slot j holds the four bytes of the j-th sprite, in OAM
/// order, whose rows cover the scanline; unfilled slots hold $FF; the
/// overflow bit reports a ninth qualifier; the sprite-zero flag reports
/// whether OAM sprite 0 qualified. Nothing else moves.
pub open spec fn sprite_eval_rel(pre: PPU, post: PPU) -> bool {
    &&& (post.sprite_zero_in_line == spec_sprite_in_range(
                pre.oam@,
                0,
                pre.scanline,
                spec_sprite_height(pre.control_reg),
            ))
    &&& (post.status_reg == (pre.status_reg & 0xdf) | (
            if spec_sprites_in_range_count(
                pre.oam@,
                pre.scanline,
                spec_sprite_height(pre.control_reg),
                64,
            ) > 8 {
                0x20u8
            } else {
                0u8
            }))
    &&& (({
                let cnt = spec_sprites_in_range_count(
                    pre.oam@,
                    pre.scanline,
                    spec_sprite_height(pre.control_reg),
                    64,
                );
                let filled = if cnt > 8 { 8int } else { cnt };
                &&& forall|i: int| 4 * filled <= i < 32 ==> #[trigger] post.secondary_oam@[i] == 0xff
                &&& forall|j: int| 0 <= j < filled ==> {
                    let s = #[trigger] spec_nth_in_range(
                        pre.oam@,
                        pre.scanline,
                        spec_sprite_height(pre.control_reg),
                        0,
                        j,
                    );
                    &&& 0 <= s < 64
                    &&& spec_sprite_in_range(
                        pre.oam@,
                        s,
                        pre.scanline,
                        spec_sprite_height(pre.control_reg),
                    )
                    &&& post.secondary_oam@[4 * j] == pre.oam@[4 * s]
                    &&& post.secondary_oam@[4 * j + 1] == pre.oam@[4 * s + 1]
                    &&& post.secondary_oam@[4 * j + 2] == pre.oam@[4 * s + 2]
                    &&& post.secondary_oam@[4 * j + 3] == pre.oam@[4 * s + 3]
                }
            }))
    &&& (same_timing(pre, post))
    &&& (same_scroll(pre, post))
    &&& (post.oam == pre.oam)
    &&& (post.palette_ram == pre.palette_ram)
    &&& (post.nametables == pre.nametables)
    &&& (post.control_reg == pre.control_reg)
    &&& (post.mask_reg == pre.mask_reg)
    &&& (post.oam_addr == pre.oam_addr)
    &&& (post.buffered_ppu_data == pre.buffered_ppu_data)
    &&& (post.in_vblank == pre.in_vblank)
    &&& (post.pending_nmi == pre.pending_nmi)
    &&& (post.pending_tile == pre.pending_tile)
    &&& (post.processed_tile == pre.processed_tile)
    &&& (post.processed_sprites == pre.processed_sprites)
    &&& (post.pending_screen == pre.pending_screen)
}

impl PPU {
    /// Power-up state: counters at zero, registers cleared, memories zeroed,
    /// pipelines empty, no latched read.
    pub fn new() -> (r: PPU)
        ensures
            r.cycle_in_scanline == 0,
            r.scanline == 0,
            r.frame == 0,
            r.control_reg == 0,
            r.status_reg == 0,
            r.mask_reg == 0,
            r.oam_addr == 0,
            r.buffered_ppu_data == 0,
            r.v == 0,
            r.t == 0,
            !r.w,
            !r.in_vblank,
            r.fine_x == 0,
            forall|y: int, x: int| 0 <= y < 240 && 0 <= x < 256 ==> r.pending_screen.pixels@[y]@[x] == 0,
            forall|i: int| 0 <= i < 256 ==> r.oam@[i] == 0,
            forall|i: int| 0 <= i < 32 ==> r.secondary_oam@[i] == 0,
            forall|i: int| 0 <= i < 32 ==> r.palette_ram@[i] == 0,
            forall|i: int| 0 <= i < 2048 ==> r.nametables@[i] == 0,
            !r.pending_nmi,
            !r.sprite_zero_in_line,
            spec_powered_up(r),
            r.wf(),
    {
        PPU {
            cycle_in_scanline: 0,
            scanline: 0,
            frame: 0,
            control_reg: 0,
            status_reg: 0,
            mask_reg: 0,
            oam_addr: 0,
            buffered_ppu_data: 0,
            v: 0,
            t: 0,
            w: false,
            in_vblank: false,
            fine_x: 0,
            pending_screen: Screen::new(),
            oam: [0; 256],
            secondary_oam: [0; 32],
            palette_ram: [0; 32],
            nametables: [0; 2048],
            pending_nmi: false,
            pending_tile: TileData::empty(),
            processed_tile: [TileData::empty(); 2],
            processed_sprites: [ProcessedSprite::empty(); 8],
            sprite_zero_in_line: false,
        }
    }

    /// Reset the timing counters, control and mask registers, and the vblank
    /// and NMI lines; memories and scroll state persist.
    pub fn reset(&mut self)
        ensures
            final(self).cycle_in_scanline == 0,
            final(self).scanline == 0,
            final(self).frame == 0,
            final(self).control_reg == 0,
            final(self).oam_addr == 0,
            final(self).mask_reg == 0,
            !final(self).in_vblank,
            !final(self).pending_nmi,
            final(self).status_reg == old(self).status_reg,
            final(self).buffered_ppu_data == old(self).buffered_ppu_data,
            same_scroll(*old(self), *final(self)),
            same_memories(*old(self), *final(self)),
            same_pipeline(*old(self), *final(self)),
    {
        self.cycle_in_scanline = 0;
        self.scanline = 0;
        self.frame = 0;
        self.control_reg = 0;
        self.oam_addr = 0;
        self.mask_reg = 0;
        self.in_vblank = false;
        self.pending_nmi = false;
    }

    /// Whether the mask register shows the background or the sprites.
    pub open spec fn spec_rendering_enabled(&self) -> bool {
        (self.mask_reg & 0x08) != 0 || (self.mask_reg & 0x10) != 0
    }

    /// Whether the mask register shows the background or the sprites.
    pub fn rendering_enabled(&self) -> (r: bool)
        ensures
            r == self.spec_rendering_enabled(),
    {
        let parsed_mask = PPUMask::parse(self.mask_reg);
        parsed_mask.show_background || parsed_mask.show_sprites
    }

    /// The per-pixel priority decision and the resulting palette offset.
    pub open spec fn spec_multiplex(
        tile_palette: u8,
        tile_palette_offset: u8,
        sprite_palette: u8,
        sprite_palette_offset: u8,
        sprite_in_background: bool,
    ) -> (MultiplexerDecision, u8) {
        if tile_palette == 0 && sprite_palette == 0 {
            (MultiplexerDecision::DrawBackground, 0)
        } else if tile_palette == 0 {
            (MultiplexerDecision::DrawSprite, sprite_palette_offset | sprite_palette)
        } else if sprite_palette == 0 {
            (MultiplexerDecision::DrawTile, tile_palette_offset | tile_palette)
        } else if sprite_in_background {
            (MultiplexerDecision::DrawTile, tile_palette_offset | tile_palette)
        } else {
            (MultiplexerDecision::DrawSprite, sprite_palette_offset | sprite_palette)
        }
    }

    /// Resolve one pixel: the backdrop when both layers are transparent, the
    /// opaque layer when only one is, and sprite priority when both are.
    pub fn multiplex_colors(
        tile_palette: u8,
        tile_palette_offset: u8,
        sprite_palette: u8,
        sprite_palette_offset: u8,
        sprite_in_background: bool,
    ) -> (r: (MultiplexerDecision, u8))
        requires
            tile_palette < 4,
            sprite_palette < 4,
            tile_palette_offset < 0x20,
            sprite_palette_offset < 0x20,
        ensures
            r == PPU::spec_multiplex(
                tile_palette,
                tile_palette_offset,
                sprite_palette,
                sprite_palette_offset,
                sprite_in_background,
            ),
            r.1 < 0x20,
    {
        proof {
            bitmasks::lemma_u8_or_bounds();
        }
        if tile_palette == 0 && sprite_palette == 0 {
            (MultiplexerDecision::DrawBackground, 0)
        } else if tile_palette == 0 {
            (MultiplexerDecision::DrawSprite, sprite_palette_offset | sprite_palette)
        } else if sprite_palette == 0 {
            (MultiplexerDecision::DrawTile, tile_palette_offset | tile_palette)
        } else if sprite_in_background {
            (MultiplexerDecision::DrawTile, tile_palette_offset | tile_palette)
        } else {
            (MultiplexerDecision::DrawSprite, sprite_palette_offset | sprite_palette)
        }
    }

    /// Resolve a nametable address under a mirroring mode.
    pub fn mirror_nametable(addr: u16, mode: MirroringMode) -> (r: u16)
        ensures
            r == spec_mirror_nametable(addr, mode),
            r < 0x1000,
    {
        let nametable_offset = addr % 0x400;
        let nametable_select = (addr / 0x400) % 4;
        let nametable_bank: u16 = match mode {
            MirroringMode::Horizontal => if nametable_select < 2 { 0 } else { 1 },
            MirroringMode::Vertical => nametable_select % 2,
            MirroringMode::SingleScreenLowerBank => 0,
            MirroringMode::SingleScreenUpperBank => 0,
            MirroringMode::FourScreen => nametable_select,
        };
        nametable_bank * 0x400 + nametable_offset
    }

    /// Fold a palette offset through the backdrop mirrors.
    pub fn mirror_palette(offset: u8) -> (r: u8)
        requires
            offset < 0x20,
        ensures
            r == spec_mirror_palette(offset),
            r < 0x20,
    {
        proof {
            bitmasks::lemma_u8_mask_bounds();
        }
        if (offset & 0x13) == 0x10 {
            offset & 0xef
        } else {
            offset
        }
    }

    /// What a read on the PPU's own bus returns: pattern space from the
    /// mapper, $2000-$3EFF from the mirrored nametable RAM, $3F00 and up from
    /// the mirrored palette RAM.
    pub open spec fn spec_vram_read(&self, mapper: &Mapper, addr: u16) -> u8 {
        if addr < 0x2000 {
            mapper.spec_read(addr)
        } else if addr < 0x3f00 {
            self.nametables@[spec_mirror_nametable(addr, mapper.cartridge.mirror) as int % 0x800]
        } else {
            self.palette_ram@[spec_mirror_palette((addr % 0x20) as u8) as int]
        }
    }

    /// Read one byte on the PPU bus.
    pub fn read_byte(&self, mapper: &Mapper, addr: u16) -> (r: u8)
        requires
            mapper.wf(),
        ensures
            r == self.spec_vram_read(mapper, addr),
    {
        if addr < 0x2000 {
            mapper.read(addr)
        } else if addr < 0x3f00 {
            let mirrored = PPU::mirror_nametable(addr, mapper.mirror());
            self.nametables[(mirrored % 0x800) as usize]
        } else {
            let offset = PPU::mirror_palette((addr % 0x20) as u8);
            self.palette_ram[offset as usize]
        }
    }

    /// Write one byte on the PPU bus.
    pub fn write_byte(&mut self, mapper: &mut Mapper, addr: u16, data: u8)
        requires
            old(mapper).wf(),
        ensures
            final(mapper).wf(),
            vram_write_rel(*old(self), *old(mapper), *final(self), *final(mapper), addr, data),
    {
        if addr < 0x2000 {
            mapper.write(addr, data);
        } else if addr < 0x3f00 {
            let mirrored = PPU::mirror_nametable(addr, mapper.mirror());
            self.nametables[(mirrored % 0x800) as usize] = data;
        } else {
            let offset = PPU::mirror_palette((addr % 0x20) as u8);
            // palette entries are six bits wide
            self.palette_ram[offset as usize] = data & 0x3f;
        }
    }

    /// Copy a DMA page into OAM, starting at the current OAM address and
    /// wrapping; a missing page clears OAM instead.
    pub fn write_dma(&mut self, page: Option<[u8; 256]>)
        ensures
            write_dma_rel(*old(self), *final(self), page),
            page is Some ==> forall|i: int| 0 <= i < 256
                ==> final(self).oam@[(old(self).oam_addr + i) % 256] == page->Some_0@[i],
            page is None ==> forall|i: int| 0 <= i < 256 ==> final(self).oam@[i] == 0,
            same_timing(*old(self), *final(self)),
            same_scroll(*old(self), *final(self)),
            same_pipeline(*old(self), *final(self)),
            final(self).secondary_oam == old(self).secondary_oam,
            final(self).palette_ram == old(self).palette_ram,
            final(self).nametables == old(self).nametables,
            final(self).control_reg == old(self).control_reg,
            final(self).status_reg == old(self).status_reg,
            final(self).mask_reg == old(self).mask_reg,
            final(self).oam_addr == old(self).oam_addr,
            final(self).buffered_ppu_data == old(self).buffered_ppu_data,
            final(self).in_vblank == old(self).in_vblank,
            final(self).pending_nmi == old(self).pending_nmi,
    {
        match page {
            Some(page) => {
                let mut i: usize = 0;
                while i < 256
                    invariant
                        i <= 256,
                        forall|j: int| 0 <= j < i
                            ==> self.oam@[(old(self).oam_addr + j) % 256] == page@[j],
                        self.oam_addr == old(self).oam_addr,
                        same_timing(*old(self), *self),
                        same_scroll(*old(self), *self),
                        same_pipeline(*old(self), *self),
                        self.secondary_oam == old(self).secondary_oam,
                        self.palette_ram == old(self).palette_ram,
                        self.nametables == old(self).nametables,
                        self.control_reg == old(self).control_reg,
                        self.status_reg == old(self).status_reg,
                        self.mask_reg == old(self).mask_reg,
                        self.buffered_ppu_data == old(self).buffered_ppu_data,
                        self.in_vblank == old(self).in_vblank,
                        self.pending_nmi == old(self).pending_nmi,
                    decreases 256 - i,
                {
                    let dest: usize = (self.oam_addr as usize + i) % 256;
                    self.oam[dest] = page[i];
                    i = i + 1;
                }
            },
            None => {
                self.oam = [0; 256];
            },
        }
    }

    /// Report whether an NMI edge is pending, and lower the line.
    pub fn read_nmi_line(&mut self) -> (r: bool)
        ensures
            r == old(self).pending_nmi,
            !final(self).pending_nmi,
            *final(self) == (PPU { pending_nmi: false, ..*old(self) }),
    {
        let status = self.pending_nmi;
        self.pending_nmi = false;
        status
    }

    /// Read a CPU-visible register; `addr` is anywhere in the $2000-$3FFF
    /// mirror window.
    ///
    /// $2002 reports the status byte, clears the shared write toggle *w* and
    /// the NMI-occurred bit. $2004 reports the OAM byte under the OAM
    /// address. $2007 streams PPUDATA: below the palette it returns the
    /// one-read-deep buffer and refills it from *v*; in the palette it
    /// returns the palette byte directly while refilling the buffer from the
    /// nametable underneath at *v* xor $1000; either way *v* then advances by
    /// the control register's step.
    pub fn read_register(&mut self, mapper: &Mapper, addr: u16) -> (r: u8)
        requires
            mapper.wf(),
        ensures
            r == spec_read_register_value(*old(self), *mapper, addr),
            *final(self) == spec_read_register_post(*old(self), *mapper, addr),
    {
        let reg: u16 = 0x2000 + (addr % 8);

        if reg == 0x2002 {
            let status = self.status_reg;
            self.w = false;
            self.status_reg = self.status_reg & 0x7f;
            status
        } else if reg == 0x2004 {
            self.oam[self.oam_addr as usize]
        } else if reg == 0x2007 {
            let contents = self.read_byte(mapper, self.v);
            let result: u8 = if self.v < 0x3f00 {
                let latest_buffered = self.buffered_ppu_data;
                self.buffered_ppu_data = contents;
                latest_buffered
            } else if self.v < 0x4000 {
                self.buffered_ppu_data = self.read_byte(mapper, self.v ^ 0x1000);
                contents
            } else {
                contents
            };
            let inc: u32 = if (self.control_reg & 0x04) != 0 { 32 } else { 1 };
            self.v = ((self.v as u32 + inc) % 0x10000) as u16;
            result
        } else {
            0
        }
    }

    /// Write a CPU-visible register; `addr` is anywhere in the $2000-$3FFF
    /// mirror window. The effects follow the canonical v/t/w/x model.
    pub fn write_register(&mut self, mapper: &mut Mapper, addr: u16, data: u8)
        requires
            old(mapper).wf(),
        ensures
            final(mapper).wf(),
            write_register_rel(*old(self), *final(self), *old(mapper), *final(mapper), addr, data),
    {
        let reg: u16 = 0x2000 + (addr % 8);
        if reg == 0x2000 {
            let parsed_prev_ctrl = PPUControl::parse(self.control_reg);
            let parsed_next_ctrl = PPUControl::parse(data);
            // a positive edge on the NMI enable during vblank raises the line
            if self.in_vblank && !parsed_prev_ctrl.enable_nmi && parsed_next_ctrl.enable_nmi {
                self.pending_nmi = true;
            }
            self.control_reg = data;
            let mut t = VRAMAddress::unpack(self.t);
            t.nametable = parsed_next_ctrl.base_nametable;
            proof {
                bitmasks::lemma_u8_mask_bounds();
            }
            self.t = t.pack();
        } else if reg == 0x2001 {
            self.mask_reg = data;
        } else if reg == 0x2002 {
            // the status register is read-only
        } else if reg == 0x2003 {
            self.oam_addr = data;
        } else if reg == 0x2004 {
            self.oam[self.oam_addr as usize] = data;
            self.oam_addr = if self.oam_addr == 0xff { 0 } else { self.oam_addr + 1 };
        } else if reg == 0x2005 {
            if !self.w {
                self.w = true;
                let mut t = VRAMAddress::unpack(self.t);
                t.coarse_x = data / 8;
                self.t = t.pack();
                proof {
                    bitmasks::lemma_u8_mask_bounds();
                }
                self.fine_x = data & 0x07;
            } else {
                self.w = false;
                let mut t = VRAMAddress::unpack(self.t);
                t.coarse_y = data / 8;
                proof {
                    bitmasks::lemma_u8_mask_bounds();
                }
                t.fine_y = data & 0x07;
                self.t = t.pack();
            }
        } else if reg == 0x2006 {
            if !self.w {
                self.w = true;
                self.t = (self.t & 0x80ff) | (((data as u16) << 8) & 0x7f00);
            } else {
                self.t = (self.t & 0xff00) | (data as u16);
                self.v = self.t;
                self.w = false;
            }
        } else {
            self.write_byte(mapper, self.v, data);
            let inc: u32 = if (self.control_reg & 0x04) != 0 { 32 } else { 1 };
            self.v = ((self.v as u32 + inc) % 0x10000) as u16;
        }
    }

    /// The timing counters stay on the 341x262 grid and fine X stays inside
    /// a tile.
    pub open spec fn wf(&self) -> bool {
        &&& self.cycle_in_scanline <= 340
        &&& self.scanline <= 261
        &&& self.fine_x < 8
    }

    /// Advance the scroll address *v* as the dot demands: Y increments at
    /// dot 256, the horizontal bits of *t* are copied in at dot 257, the
    /// vertical bits are copied in across dots 280-304 of the pre-render
    /// line, and X increments on every eighth dot of the fetch regions.
    /// Nothing moves while rendering is disabled.
    pub fn update_vram_addr(&mut self)
        ensures
            eq_except_v(*old(self), *final(self)),
            !old(self).spec_rendering_enabled() ==> final(self).v == old(self).v,
            old(self).spec_rendering_enabled() ==> {
                let a = spec_unpack(old(self).v);
                let c = old(self).cycle_in_scanline;
                &&& c == 256 ==> final(self).v == spec_y_incremented(a).spec_pack()
                &&& c == 257 ==> final(self).v == spec_x_copied(
                    a,
                    spec_unpack(old(self).t),
                ).spec_pack()
                &&& (old(self).scanline == 261 && 280 <= c <= 304) ==> final(self).v
                    == spec_y_copied(a, spec_unpack(old(self).t)).spec_pack()
                &&& (c != 256 && c != 257 && !(old(self).scanline == 261 && 280 <= c <= 304)
                    && (1 <= c <= 256 || c >= 328) && c % 8 == 0) ==> final(self).v
                    == spec_x_incremented(a).spec_pack()
                &&& (c != 256 && c != 257 && !(old(self).scanline == 261 && 280 <= c <= 304)
                    && !((1 <= c <= 256 || c >= 328) && c % 8 == 0)) ==> final(self).v
                    == old(self).v
            },
    {
        if !self.rendering_enabled() {
            return ;
        }
        if self.cycle_in_scanline == 256 {
            let mut parsed_addr = VRAMAddress::unpack(self.v);
            parsed_addr.increment_y();
            self.v = parsed_addr.pack();
        } else if self.cycle_in_scanline == 257 {
            let mut parsed_addr = VRAMAddress::unpack(self.v);
            let t = VRAMAddress::unpack(self.t);
            parsed_addr.copy_x(&t);
            self.v = parsed_addr.pack();
        } else if self.scanline == 261 && 280 <= self.cycle_in_scanline
            && self.cycle_in_scanline <= 304 {
            let mut parsed_addr = VRAMAddress::unpack(self.v);
            let t = VRAMAddress::unpack(self.t);
            parsed_addr.copy_y(&t);
            self.v = parsed_addr.pack();
        } else if (1 <= self.cycle_in_scanline && self.cycle_in_scanline <= 256
            || self.cycle_in_scanline >= 328) && self.cycle_in_scanline % 8 == 0 {
            let mut parsed_addr = VRAMAddress::unpack(self.v);
            parsed_addr.increment_x();
            self.v = parsed_addr.pack();
        }
    }

    /// One dot of the eight-dot background fetch cadence: rotate the tile
    /// window on dot 0 of the group, then fetch the nametable byte, the
    /// attribute bits, and the two pattern planes for the pending tile on
    /// the odd dots.
    pub fn fetch_background_tile(&mut self, mapper: &Mapper)
        requires
            mapper.wf(),
        ensures
            same_timing(*old(self), *final(self)),
            same_memories(*old(self), *final(self)),
            same_scroll(*old(self), *final(self)),
            final(self).control_reg == old(self).control_reg,
            final(self).status_reg == old(self).status_reg,
            final(self).mask_reg == old(self).mask_reg,
            final(self).oam_addr == old(self).oam_addr,
            final(self).buffered_ppu_data == old(self).buffered_ppu_data,
            final(self).in_vblank == old(self).in_vblank,
            final(self).pending_nmi == old(self).pending_nmi,
            final(self).processed_sprites == old(self).processed_sprites,
            final(self).sprite_zero_in_line == old(self).sprite_zero_in_line,
            final(self).pending_screen == old(self).pending_screen,
            old(self).cycle_in_scanline % 8 == 0 ==> {
                &&& final(self).processed_tile@ == seq![
                    old(self).processed_tile@[1],
                    old(self).pending_tile,
                ]
                &&& final(self).pending_tile == old(self).pending_tile
            },
            old(self).cycle_in_scanline % 8 != 0 ==> final(self).processed_tile
                == old(self).processed_tile,
            old(self).cycle_in_scanline % 8 == 1 ==> final(self).pending_tile == (TileData {
                nametable_index: old(self).spec_vram_read(mapper, spec_nt_fetch_addr(old(self).v)),
                ..old(self).pending_tile
            }),
            old(self).cycle_in_scanline % 8 == 3 ==> final(self).pending_tile == (TileData {
                palette: (old(self).spec_vram_read(mapper, spec_attr_fetch_addr(old(self).v)) >> (
                spec_attr_shift(old(self).v) as u8)) & 0x03,
                ..old(self).pending_tile
            }),
            old(self).cycle_in_scanline % 8 == 5 ==> final(self).pending_tile == (TileData {
                pattern_low: old(self).spec_vram_read(
                    mapper,
                    spec_bg_pattern_addr(
                        old(self).control_reg,
                        old(self).pending_tile.nametable_index,
                        old(self).v,
                        false,
                    ),
                ),
                ..old(self).pending_tile
            }),
            old(self).cycle_in_scanline % 8 == 7 ==> final(self).pending_tile == (TileData {
                pattern_high: old(self).spec_vram_read(
                    mapper,
                    spec_bg_pattern_addr(
                        old(self).control_reg,
                        old(self).pending_tile.nametable_index,
                        old(self).v,
                        true,
                    ),
                ),
                ..old(self).pending_tile
            }),
            old(self).cycle_in_scanline % 8 == 2 || old(self).cycle_in_scanline % 8 == 4
                || old(self).cycle_in_scanline % 8 == 6 ==> final(self).pending_tile
                == old(self).pending_tile,
    {
        let phase = self.cycle_in_scanline % 8;
        if phase == 0 {
            self.processed_tile = [self.processed_tile[1], self.pending_tile];
            proof {
                assert(self.processed_tile@ =~= seq![
                    old(self).processed_tile@[1],
                    old(self).pending_tile,
                ]);
            }
        } else if phase == 1 {
            let nametable_addr = 0x2000 | (self.v & 0x0fff);
            self.pending_tile.nametable_index = self.read_byte(mapper, nametable_addr);
        } else if phase == 3 {
            let attr_address = 0x23c0 | (self.v & 0x0c00) | ((self.v >> 4) & 0x38) | ((self.v >> 2)
                & 0x07);
            let attr_data = self.read_byte(mapper, attr_address);
            let attr_shift = ((self.v & 0x40) >> 4) | (self.v & 0x2);
            proof {
                bitmasks::lemma_attr_shift_bounds();
            }
            self.pending_tile.palette = (attr_data >> (attr_shift as u8)) & 0x03;
        } else if phase == 5 {
            let pattern_table: u16 = if (self.control_reg & 0x10) != 0 { 0x1000 } else { 0 };
            let nametable_index = (self.pending_tile.nametable_index as u16) << 4;
            let fine_y = (self.v / 0x1000) % 8;
            let pattern_low_address = pattern_table | nametable_index | fine_y;
            self.pending_tile.pattern_low = self.read_byte(mapper, pattern_low_address);
        } else if phase == 7 {
            let pattern_table: u16 = if (self.control_reg & 0x10) != 0 { 0x1000 } else { 0 };
            let nametable_index = (self.pending_tile.nametable_index as u16) << 4;
            let fine_y = (self.v / 0x1000) % 8;
            let pattern_high_address = pattern_table | nametable_index | 8 | fine_y;
            self.pending_tile.pattern_high = self.read_byte(mapper, pattern_high_address);
        }
    }

    /// Advance the dot/scanline/frame counters by one dot. At a frame
    /// boundary the counter wraps to scanline 0, and with rendering enabled
    /// the first dot of each odd frame is skipped.
    pub fn update_cycle(&mut self)
        ensures
            old(self).cycle_in_scanline < 340 ==> *final(self) == (PPU {
                cycle_in_scanline: (old(self).cycle_in_scanline + 1) as u16,
                ..*old(self)
            }),
            old(self).cycle_in_scanline >= 340 && old(self).scanline < 261 ==> *final(self) == (PPU {
                cycle_in_scanline: 0,
                scanline: (old(self).scanline + 1) as u16,
                ..*old(self)
            }),
            old(self).cycle_in_scanline >= 340 && old(self).scanline >= 261 ==> *final(self) == (PPU {
                cycle_in_scanline: if old(self).spec_rendering_enabled()
                    && spec_next_frame(old(self).frame) % 2 == 1 { 1u16 } else { 0u16 },
                scanline: 0,
                frame: spec_next_frame(old(self).frame),
                ..*old(self)
            }),
    {
        if self.cycle_in_scanline < 340 {
            self.cycle_in_scanline = self.cycle_in_scanline + 1;
        } else if self.scanline < 261 {
            self.scanline = self.scanline + 1;
            self.cycle_in_scanline = 0;
        } else {
            self.frame = if self.frame == u64::MAX { 0 } else { self.frame + 1 };
            self.scanline = 0;
            self.cycle_in_scanline = if self.rendering_enabled() && (self.frame % 2 == 1) {
                1
            } else {
                0
            };
        }
    }

    /// Refill secondary OAM for the scanline now ending: fill it with $FF,
    /// then copy the first eight sprites that cover the line, note whether
    /// sprite 0 is among the line's sprites, and drive the overflow bit from
    /// whether a ninth was found.
    pub fn find_sprites_in_line(&mut self)
        requires
            old(self).scanline < 240,
        ensures
            sprite_eval_rel(*old(self), *final(self)),
    {
        self.secondary_oam = [0xff; 32];

        let sprite_height: u16 = if PPUControl::parse(self.control_reg).tall_sprites {
            16
        } else {
            8
        };

        let mut overflow = false;
        let mut sprite_count: u8 = 0;
        let y = self.scanline;

        self.sprite_zero_in_line = false;

        let ghost h = spec_sprite_height(self.control_reg);
        let mut idx: usize = 0;
        while idx < 64
            invariant
                idx <= 64,
                y == old(self).scanline,
                y < 240,
                h == spec_sprite_height(old(self).control_reg),
                sprite_height == h,
                self.oam == old(self).oam,
                sprite_count <= 8,
                ({
                    let cnt = spec_sprites_in_range_count(old(self).oam@, y, h, idx as int);
                    &&& sprite_count == if cnt > 8 { 8int } else { cnt }
                    &&& overflow == (cnt > 8)
                }),
                self.sprite_zero_in_line == (idx > 0 && spec_sprite_in_range(
                    old(self).oam@,
                    0,
                    y,
                    h,
                )),
                forall|i: int| 4 * sprite_count <= i < 32 ==> #[trigger] self.secondary_oam@[i] == 0xff,
                forall|j: int| 0 <= j < sprite_count ==> {
                    let s = #[trigger] spec_nth_in_range(old(self).oam@, y, h, 0, j);
                    &&& 0 <= s < idx
                    &&& spec_sprite_in_range(old(self).oam@, s, y, h)
                    &&& self.secondary_oam@[4 * j] == old(self).oam@[4 * s]
                    &&& self.secondary_oam@[4 * j + 1] == old(self).oam@[4 * s + 1]
                    &&& self.secondary_oam@[4 * j + 2] == old(self).oam@[4 * s + 2]
                    &&& self.secondary_oam@[4 * j + 3] == old(self).oam@[4 * s + 3]
                },
                same_timing(*old(self), *self),
                same_scroll(*old(self), *self),
                self.palette_ram == old(self).palette_ram,
                self.nametables == old(self).nametables,
                self.control_reg == old(self).control_reg,
                self.status_reg == old(self).status_reg,
                self.mask_reg == old(self).mask_reg,
                self.oam_addr == old(self).oam_addr,
                self.buffered_ppu_data == old(self).buffered_ppu_data,
                self.in_vblank == old(self).in_vblank,
                self.pending_nmi == old(self).pending_nmi,
                self.pending_tile == old(self).pending_tile,
                self.processed_tile == old(self).processed_tile,
                self.processed_sprites == old(self).processed_sprites,
                self.pending_screen == old(self).pending_screen,
            decreases 64 - idx,
        {
            let top_y = self.oam[idx * 4] as u16;

            if y >= top_y && y < top_y + sprite_height {
                if sprite_count == 8 {
                    overflow = true;
                } else {
                    if idx == 0 {
                        self.sprite_zero_in_line = true;
                    }
                    let base = (sprite_count as usize) * 4;
                    self.secondary_oam[base] = self.oam[idx * 4];
                    self.secondary_oam[base + 1] = self.oam[idx * 4 + 1];
                    self.secondary_oam[base + 2] = self.oam[idx * 4 + 2];
                    self.secondary_oam[base + 3] = self.oam[idx * 4 + 3];
                    proof {
                        lemma_nth_in_range_counts(old(self).oam@, y, h, 0, idx as int);
                    }
                    sprite_count = sprite_count + 1;
                }
            }
            idx = idx + 1;
        }

        self.status_reg = (self.status_reg & 0xdf) | (if overflow { 0x20 } else { 0 });
    }

    /// Scan the scanline's eight sprite slots for the first one that is
    /// populated, covers screen column `x`, and is opaque there.
    pub fn scan_sprites(sprites: &[ProcessedSprite; 8], x: u16) -> (r: (u8, u8, u8, bool))
        ensures
            r == spec_sprite_scan(sprites@, x, 0),
            r.0 < 4,
            r.2 <= 12,
    {
        let mut idx: usize = 0;
        while idx < 8
            invariant
                idx <= 8,
                spec_sprite_scan(sprites@, x, 0) == spec_sprite_scan(sprites@, x, idx as int),
            decreases 8 - idx,
        {
            let ps = sprites[idx];
            if ps.sprite.is_empty() {
                return (0, 0, 0, false);
            }
            let sprite_left = ps.sprite.left_x as u16;
            if x >= sprite_left && x < sprite_left + 8 {
                let sprite_x = (x - sprite_left) as u8;
                let sprite_palette = ps.color(sprite_x);
                if sprite_palette != 0 {
                    proof {
                        bitmasks::lemma_u8_mask_bounds();
                    }
                    return (
                        sprite_palette,
                        idx as u8,
                        (ps.sprite.palette & 0x03) << 2,
                        ps.sprite.behind_background,
                    );
                }
            }
            idx = idx + 1;
        }
        (0, 0, 0, false)
    }

    /// Render the pixel under the current dot: combine the background tile
    /// window with the first opaque sprite at this column, set the
    /// sprite-zero-hit bit when slot 0's sprite wins over an opaque
    /// background, and store the mirrored palette byte into the frame.
    pub fn render_pixel(&mut self)
        requires
            old(self).wf(),
            1 <= old(self).cycle_in_scanline <= 256,
            old(self).scanline < 240,
        ensures
            ({
                let x = (old(self).cycle_in_scanline - 1) as u16;
                let y = old(self).scanline;
                let scan = if (old(self).mask_reg & 0x10) != 0 {
                    spec_sprite_scan(old(self).processed_sprites@, x, 0)
                } else {
                    (0u8, 0u8, 0u8, false)
                };
                let fine = x % 8 + old(self).fine_x;
                let tile = if fine >= 8 {
                    old(self).processed_tile@[1]
                } else {
                    old(self).processed_tile@[0]
                };
                let tile_palette = tile.spec_color((fine % 8) as u8);
                let dc = PPU::spec_multiplex(
                    tile_palette,
                    ((tile.palette & 0x03) << 2) as u8,
                    scan.0,
                    (0x10 | scan.2) as u8,
                    scan.3,
                );
                let zero_hit = old(self).sprite_zero_in_line && scan.1 == 0 && tile_palette != 0
                    && dc.0 == MultiplexerDecision::DrawSprite;
                &&& final(self).status_reg == if zero_hit {
                    old(self).status_reg | 0x40
                } else {
                    old(self).status_reg
                }
                &&& final(self).pending_screen.pixels@[y as int]@[x as int]
                    == old(self).palette_ram@[spec_mirror_palette(dc.1) as int]
                &&& forall|yy: int, xx: int| 0 <= yy < 240 && 0 <= xx < 256
                    && !(yy == y && xx == x)
                    ==> final(self).pending_screen.pixels@[yy]@[xx]
                        == old(self).pending_screen.pixels@[yy]@[xx]
            }),
            same_timing(*old(self), *final(self)),
            same_scroll(*old(self), *final(self)),
            same_memories(*old(self), *final(self)),
            final(self).control_reg == old(self).control_reg,
            final(self).mask_reg == old(self).mask_reg,
            final(self).oam_addr == old(self).oam_addr,
            final(self).buffered_ppu_data == old(self).buffered_ppu_data,
            final(self).in_vblank == old(self).in_vblank,
            final(self).pending_nmi == old(self).pending_nmi,
            final(self).pending_tile == old(self).pending_tile,
            final(self).processed_tile == old(self).processed_tile,
            final(self).processed_sprites == old(self).processed_sprites,
            final(self).sprite_zero_in_line == old(self).sprite_zero_in_line,
    {
        let x = self.cycle_in_scanline - 1;
        let y = self.scanline;

        // the background tile window
        let fine_x = (x % 8) as u8 + self.fine_x;
        let tile = if fine_x >= 8 { self.processed_tile[1] } else { self.processed_tile[0] };
        let tile_palette = tile.color(fine_x % 8);
        proof {
            bitmasks::lemma_u8_mask_bounds();
            bitmasks::lemma_u8_or_bounds();
        }
        let tile_palette_offset = (tile.palette & 0x03) << 2;

        // the first opaque sprite over this column
        let (sprite_palette, sprite_pos, sprite_palette_offset, sprite_in_background) = if
            PPUMask::parse(self.mask_reg).show_sprites {
            PPU::scan_sprites(&self.processed_sprites, x)
        } else {
            (0, 0, 0, false)
        };

        let (decision, color) = PPU::multiplex_colors(
            tile_palette,
            tile_palette_offset,
            sprite_palette,
            0x10 | sprite_palette_offset,
            sprite_in_background,
        );
        // the hit needs an opaque pixel from both layers: the slot-0 sprite
        // must win the multiplexer over an opaque background
        let zero_hit = self.sprite_zero_in_line && sprite_pos == 0 && tile_palette != 0 && matches!(
            decision,
            MultiplexerDecision::DrawSprite
        );

        if zero_hit {
            self.status_reg = self.status_reg | 0x40;
        }

        let pixel = self.palette_ram[PPU::mirror_palette(color) as usize];
        self.pending_screen.pixels[y as usize][x as usize] = pixel;
    }

    /// Fetch the pattern row for each of the scanline's eight sprite slots:
    /// unpack the slot's OAM bytes, and for populated slots read the two
    /// pattern planes from the mapper at the addresses the sprite selects.
    pub fn fetch_sprite_patterns(&mut self, mapper: &Mapper)
        requires
            mapper.wf(),
        ensures
            forall|j: int| 0 <= j < 8 ==> {
                let b0 = old(self).secondary_oam@[4 * j];
                let b1 = old(self).secondary_oam@[4 * j + 1];
                let b2 = old(self).secondary_oam@[4 * j + 2];
                let b3 = old(self).secondary_oam@[4 * j + 3];
                let slot = #[trigger] final(self).processed_sprites@[j];
                &&& slot.sprite.top_y == b0
                &&& slot.sprite.tile_index == b1
                &&& slot.sprite.palette == b2 & 0x03
                &&& slot.sprite.behind_background == ((b2 & 0x20) != 0)
                &&& slot.sprite.flip_horizontal == ((b2 & 0x40) != 0)
                &&& slot.sprite.flip_vertical == ((b2 & 0x80) != 0)
                &&& slot.sprite.left_x == b3
                &&& (b0 == 0xff && b1 == 0xff && b2 == 0xff && b3 == 0xff) ==> slot.tile
                    == old(self).processed_sprites@[j].tile
                &&& !(b0 == 0xff && b1 == 0xff && b2 == 0xff && b3 == 0xff) ==> {
                    let addrs = spec_sprite_pattern_addrs(
                        old(self).control_reg,
                        slot.sprite,
                        old(self).scanline,
                    );
                    &&& slot.tile.nametable_index == 0
                    &&& slot.tile.palette == b2 & 0x03
                    &&& slot.tile.pattern_low == mapper.spec_read(addrs.0)
                    &&& slot.tile.pattern_high == mapper.spec_read(addrs.1)
                }
            },
            same_timing(*old(self), *final(self)),
            same_scroll(*old(self), *final(self)),
            same_memories(*old(self), *final(self)),
            final(self).control_reg == old(self).control_reg,
            final(self).status_reg == old(self).status_reg,
            final(self).mask_reg == old(self).mask_reg,
            final(self).oam_addr == old(self).oam_addr,
            final(self).buffered_ppu_data == old(self).buffered_ppu_data,
            final(self).in_vblank == old(self).in_vblank,
            final(self).pending_nmi == old(self).pending_nmi,
            final(self).pending_tile == old(self).pending_tile,
            final(self).processed_tile == old(self).processed_tile,
            final(self).sprite_zero_in_line == old(self).sprite_zero_in_line,
            final(self).pending_screen == old(self).pending_screen,
    {
        let ppu_control = PPUControl::parse(self.control_reg);
        let sprite_height: u16 = if ppu_control.tall_sprites { 16 } else { 8 };
        let y = self.scanline;

        let mut idx: usize = 0;
        while idx < 8
            invariant
                idx <= 8,
                y == old(self).scanline,
                sprite_height == spec_sprite_height(old(self).control_reg),
                ppu_control.tall_sprites == ((old(self).control_reg & 0x20) != 0),
                ppu_control.sprite_pattern_table == ((old(self).control_reg & 0x08) != 0),
                mapper.wf(),
                self.secondary_oam == old(self).secondary_oam,
                forall|j: int| 0 <= j < idx ==> {
                    let b0 = old(self).secondary_oam@[4 * j];
                    let b1 = old(self).secondary_oam@[4 * j + 1];
                    let b2 = old(self).secondary_oam@[4 * j + 2];
                    let b3 = old(self).secondary_oam@[4 * j + 3];
                    let slot = #[trigger] self.processed_sprites@[j];
                    &&& slot.sprite.top_y == b0
                    &&& slot.sprite.tile_index == b1
                    &&& slot.sprite.palette == b2 & 0x03
                    &&& slot.sprite.behind_background == ((b2 & 0x20) != 0)
                    &&& slot.sprite.flip_horizontal == ((b2 & 0x40) != 0)
                    &&& slot.sprite.flip_vertical == ((b2 & 0x80) != 0)
                    &&& slot.sprite.left_x == b3
                    &&& (b0 == 0xff && b1 == 0xff && b2 == 0xff && b3 == 0xff) ==> slot.tile
                        == old(self).processed_sprites@[j].tile
                    &&& !(b0 == 0xff && b1 == 0xff && b2 == 0xff && b3 == 0xff) ==> {
                        let addrs = spec_sprite_pattern_addrs(
                            old(self).control_reg,
                            slot.sprite,
                            old(self).scanline,
                        );
                        &&& slot.tile.nametable_index == 0
                        &&& slot.tile.palette == b2 & 0x03
                        &&& slot.tile.pattern_low == mapper.spec_read(addrs.0)
                        &&& slot.tile.pattern_high == mapper.spec_read(addrs.1)
                    }
                },
                forall|j: int| idx <= j < 8 ==> #[trigger] self.processed_sprites@[j]
                    == old(self).processed_sprites@[j],
                same_timing(*old(self), *self),
                same_scroll(*old(self), *self),
                same_memories(*old(self), *self),
                self.control_reg == old(self).control_reg,
                self.status_reg == old(self).status_reg,
                self.mask_reg == old(self).mask_reg,
                self.oam_addr == old(self).oam_addr,
                self.buffered_ppu_data == old(self).buffered_ppu_data,
                self.in_vblank == old(self).in_vblank,
                self.pending_nmi == old(self).pending_nmi,
                self.pending_tile == old(self).pending_tile,
                self.processed_tile == old(self).processed_tile,
                self.sprite_zero_in_line == old(self).sprite_zero_in_line,
                self.pending_screen == old(self).pending_screen,
            decreases 8 - idx,
        {
            let b0 = self.secondary_oam[idx * 4];
            let b1 = self.secondary_oam[idx * 4 + 1];
            let b2 = self.secondary_oam[idx * 4 + 2];
            let b3 = self.secondary_oam[idx * 4 + 3];
            let sprite = ParsedSprite::parse(b0, b1, b2, b3);

            if b0 == 0xff && b1 == 0xff && b2 == 0xff && b3 == 0xff {
                // an unpopulated slot keeps its stale pattern row
                let mut slot = self.processed_sprites[idx];
                slot.sprite = sprite;
                self.processed_sprites[idx] = slot;
            } else {
                let bank: u16 = if ppu_control.tall_sprites {
                    (sprite.tile_index & 0x01) as u16
                } else if ppu_control.sprite_pattern_table {
                    1
                } else {
                    0
                };

                // the row of the sprite this scanline falls on; a stale slot
                // left by a mid-line mask toggle is clamped instead of trusted
                let ty0: u16 = if y >= sprite.top_y as u16 { y - sprite.top_y as u16 } else { 0 };
                let ty1: u16 = if ty0 > sprite_height - 1 { sprite_height - 1 } else { ty0 };
                let ty2: u16 = if sprite.flip_vertical { sprite_height - 1 - ty1 } else { ty1 };

                proof {
                    bitmasks::lemma_u8_mask_bounds();
                }
                let base_index: u8 = if ppu_control.tall_sprites {
                    sprite.tile_index & 0xfe
                } else {
                    sprite.tile_index
                };
                let index: u8 = if ty2 >= 8 { base_index + 1 } else { base_index };
                let row: u16 = ty2 % 8;

                let tile_address_lo = (bank << 12) | ((index as u16) << 4) | row;
                let tile_address_hi = tile_address_lo | 8;

                self.processed_sprites[idx] = ProcessedSprite {
                    sprite,
                    tile: TileData {
                        nametable_index: 0,
                        palette: sprite.palette,
                        pattern_low: mapper.read(tile_address_lo),
                        pattern_high: mapper.read(tile_address_hi),
                    },
                };
            }
            idx = idx + 1;
        }
    }

    /// One dot of a visible scanline. While rendering is enabled: dots 1-256
    /// draw a pixel and run the background fetch cadence, dot 257 evaluates
    /// the next line's sprites, dot 320 fetches their patterns, dots 321-336
    /// prefetch the next line's first tiles, and the scroll address advances
    /// per its schedule. While rendering is disabled nothing moves.
    pub fn step_visible(&mut self, mapper: &Mapper)
        requires
            old(self).wf(),
            mapper.wf(),
            old(self).scanline < 240,
        ensures
            final(self).wf(),
            same_timing(*old(self), *final(self)),
            final(self).control_reg == old(self).control_reg,
            final(self).mask_reg == old(self).mask_reg,
            final(self).oam_addr == old(self).oam_addr,
            final(self).buffered_ppu_data == old(self).buffered_ppu_data,
            final(self).in_vblank == old(self).in_vblank,
            final(self).pending_nmi == old(self).pending_nmi,
            final(self).t == old(self).t,
            final(self).w == old(self).w,
            final(self).fine_x == old(self).fine_x,
            final(self).oam == old(self).oam,
            final(self).nametables == old(self).nametables,
            final(self).palette_ram == old(self).palette_ram,
            final(self).status_reg & 0x9f == old(self).status_reg & 0x9f,
            !old(self).spec_rendering_enabled() ==> *final(self) == *old(self),
            old(self).cycle_in_scanline != 257 ==> final(self).secondary_oam
                == old(self).secondary_oam,
            old(self).spec_rendering_enabled() && old(self).cycle_in_scanline == 257
                ==> sprite_eval_rel(*old(self), (PPU { v: old(self).v, ..*final(self) })),
            old(self).spec_rendering_enabled() ==> {
                let a = spec_unpack(old(self).v);
                let c = old(self).cycle_in_scanline;
                &&& c == 256 ==> final(self).v == spec_y_incremented(a).spec_pack()
                &&& c == 257 ==> final(self).v == spec_x_copied(
                    a,
                    spec_unpack(old(self).t),
                ).spec_pack()
                &&& (c != 256 && c != 257 && (1 <= c <= 256 || c >= 328) && c % 8 == 0)
                    ==> final(self).v == spec_x_incremented(a).spec_pack()
                &&& (c != 256 && c != 257 && !((1 <= c <= 256 || c >= 328) && c % 8 == 0))
                    ==> final(self).v == old(self).v
            },
    {
        if !self.rendering_enabled() {
            return ;
        }
        proof {
            bitmasks::lemma_status_bits();
        }

        let c = self.cycle_in_scanline;
        if c == 0 {
            // idle dot
        } else if c <= 256 {
            self.render_pixel();
            self.fetch_background_tile(mapper);
        } else if c == 257 {
            self.find_sprites_in_line();
        } else if c == 320 {
            self.fetch_sprite_patterns(mapper);
        } else if 321 <= c && c <= 336 {
            self.fetch_background_tile(mapper);
        }

        self.update_vram_addr();
    }

    /// The post-render scanline is a whole line of idle dots.
    pub fn step_post_render(&mut self)
        ensures
            *final(self) == *old(self),
    {
    }

    /// One dot of the vertical blank: at scanline 241, dot 1, the vblank
    /// flag and the NMI-occurred bit go up, and the NMI edge is raised when
    /// the control register enables it.
    pub fn step_vblank(&mut self)
        requires
            241 <= old(self).scanline <= 260,
        ensures
            old(self).scanline == 241 && old(self).cycle_in_scanline == 1 ==> {
                &&& final(self).in_vblank
                &&& final(self).status_reg == old(self).status_reg | 0x80
                &&& final(self).pending_nmi == ((old(self).control_reg & 0x80) != 0)
                &&& *final(self) == (PPU {
                    in_vblank: true,
                    status_reg: old(self).status_reg | 0x80,
                    pending_nmi: (old(self).control_reg & 0x80) != 0,
                    ..*old(self)
                })
            },
            !(old(self).scanline == 241 && old(self).cycle_in_scanline == 1) ==> *final(self)
                == *old(self),
    {
        if self.scanline == 241 && self.cycle_in_scanline == 1 {
            self.in_vblank = true;
            self.status_reg = self.status_reg | 0x80;
            self.pending_nmi = PPUControl::parse(self.control_reg).enable_nmi;
        }
    }

    /// One dot of the pre-render scanline: dot 1 clears the vblank,
    /// sprite-zero-hit and NMI state, and with rendering enabled the line
    /// runs the fetch cadence and the scroll-address schedule, including the
    /// vertical reload across dots 280-304.
    pub fn step_pre_render(&mut self, mapper: &Mapper)
        requires
            old(self).wf(),
            mapper.wf(),
            old(self).scanline == 261,
        ensures
            final(self).wf(),
            same_timing(*old(self), *final(self)),
            final(self).control_reg == old(self).control_reg,
            final(self).mask_reg == old(self).mask_reg,
            final(self).oam_addr == old(self).oam_addr,
            final(self).buffered_ppu_data == old(self).buffered_ppu_data,
            final(self).t == old(self).t,
            final(self).w == old(self).w,
            final(self).fine_x == old(self).fine_x,
            final(self).oam == old(self).oam,
            final(self).secondary_oam == old(self).secondary_oam,
            final(self).nametables == old(self).nametables,
            final(self).palette_ram == old(self).palette_ram,
            final(self).pending_screen == old(self).pending_screen,
            final(self).sprite_zero_in_line == old(self).sprite_zero_in_line,
            final(self).processed_sprites == old(self).processed_sprites,
            old(self).cycle_in_scanline == 1 ==> final(self).status_reg == old(self).status_reg
                & 0x1f && !final(self).in_vblank && !final(self).pending_nmi,
            old(self).cycle_in_scanline != 1 ==> final(self).status_reg == old(self).status_reg
                && final(self).in_vblank == old(self).in_vblank && final(self).pending_nmi
                == old(self).pending_nmi,
            !old(self).spec_rendering_enabled() ==> final(self).v == old(self).v,
            old(self).spec_rendering_enabled() ==> {
                let a = spec_unpack(old(self).v);
                let c = old(self).cycle_in_scanline;
                &&& c == 256 ==> final(self).v == spec_y_incremented(a).spec_pack()
                &&& c == 257 ==> final(self).v == spec_x_copied(
                    a,
                    spec_unpack(old(self).t),
                ).spec_pack()
                &&& 280 <= c <= 304 ==> final(self).v == spec_y_copied(
                    a,
                    spec_unpack(old(self).t),
                ).spec_pack()
                &&& (c != 256 && c != 257 && !(280 <= c <= 304) && (1 <= c <= 256 || c >= 328)
                    && c % 8 == 0) ==> final(self).v == spec_x_incremented(a).spec_pack()
                &&& (c != 256 && c != 257 && !(280 <= c <= 304) && !((1 <= c <= 256 || c >= 328)
                    && c % 8 == 0)) ==> final(self).v == old(self).v
            },
    {
        if self.cycle_in_scanline == 1 {
            // vblank, sprite-zero hit and sprite overflow all drop here
            self.status_reg = self.status_reg & 0x1f;
            self.in_vblank = false;
            self.pending_nmi = false;
        }

        if !self.rendering_enabled() {
            return ;
        }

        let c = self.cycle_in_scanline;
        if 1 <= c && c <= 256 {
            self.fetch_background_tile(mapper);
        } else if 321 <= c && c <= 336 {
            self.fetch_background_tile(mapper);
        }

        self.update_vram_addr();
    }

    /// Advance the PPU by one dot: run the current scanline's work, then
    /// step the dot/scanline/frame counters.
    pub fn step(&mut self, mapper: &Mapper)
        requires
            old(self).wf(),
            mapper.wf(),
        ensures
            final(self).wf(),
            old(self).cycle_in_scanline < 340 ==> final(self).cycle_in_scanline
                == old(self).cycle_in_scanline + 1 && final(self).scanline == old(self).scanline
                && final(self).frame == old(self).frame,
            old(self).cycle_in_scanline == 340 && old(self).scanline < 261
                ==> final(self).cycle_in_scanline == 0
                && final(self).scanline == old(self).scanline + 1
                && final(self).frame == old(self).frame,
            old(self).cycle_in_scanline == 340 && old(self).scanline == 261 ==> final(self).scanline
                == 0 && final(self).frame == spec_next_frame(old(self).frame)
                && final(self).cycle_in_scanline == (
                if old(self).spec_rendering_enabled() && spec_next_frame(old(self).frame) % 2
                    == 1 {
                    1u16
                } else {
                    0u16
                }),
            final(self).control_reg == old(self).control_reg,
            final(self).mask_reg == old(self).mask_reg,
            final(self).oam_addr == old(self).oam_addr,
            final(self).buffered_ppu_data == old(self).buffered_ppu_data,
            final(self).t == old(self).t,
            final(self).w == old(self).w,
            final(self).fine_x == old(self).fine_x,
            final(self).oam == old(self).oam,
            final(self).nametables == old(self).nametables,
            final(self).palette_ram == old(self).palette_ram,
            old(self).scanline == 241 && old(self).cycle_in_scanline == 1 ==> {
                &&& final(self).in_vblank
                &&& final(self).status_reg == old(self).status_reg | 0x80
                &&& final(self).pending_nmi == ((old(self).control_reg & 0x80) != 0)
            },
            old(self).scanline == 261 && old(self).cycle_in_scanline == 1 ==> {
                &&& !final(self).in_vblank
                &&& final(self).status_reg == old(self).status_reg & 0x1f
                &&& !final(self).pending_nmi
            },
            !(old(self).scanline == 241 && old(self).cycle_in_scanline == 1) && !(old(self).scanline
                == 261 && old(self).cycle_in_scanline == 1) ==> final(self).in_vblank
                == old(self).in_vblank && final(self).pending_nmi == old(self).pending_nmi,
            final(self).status_reg & 0x1f == old(self).status_reg & 0x1f,
            240 <= old(self).scanline <= 260 ==> final(self).v == old(self).v
                && final(self).secondary_oam == old(self).secondary_oam,
            !old(self).spec_rendering_enabled() ==> final(self).v == old(self).v
                && final(self).secondary_oam == old(self).secondary_oam,
    {
        proof {
            bitmasks::lemma_status_bits();
            bitmasks::lemma_status_low_bits();
        }
        if self.scanline <= 239 {
            self.step_visible(mapper);
        } else if self.scanline == 240 {
            self.step_post_render();
        } else if self.scanline <= 260 {
            self.step_vblank();
        } else {
            self.step_pre_render(mapper);
        }

        self.update_cycle();
    }
}

} // verus!
