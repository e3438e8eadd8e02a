//! The cartridge record and the two supported memory mappers.
//!
//! A cartridge is an ordered set of 16 KiB PRG banks, 8 KiB CHR banks (ROM or
//! RAM), optional save-RAM banks, and a nametable mirroring mode. The mapper
//! decodes cartridge-side CPU and PPU addresses onto those banks; dispatch is
//! hot in both CPU reads and PPU pattern fetches, so it is a tagged variant
//! rather than a trait object.

use vstd::prelude::*;

verus! {

/// How the two nametables are aliased over the four addressable slots.
#[derive(Clone, Copy, Debug, PartialEq, Eq, Structural)]
pub enum MirroringMode {
    Horizontal,
    Vertical,
    SingleScreenLowerBank,
    FourScreen,
    SingleScreenUpperBank,
}

/// One 16 KiB PRG ROM bank.
pub type ProgBank = [u8; 0x4000];

/// One 8 KiB CHR bank.
pub type ChrBank = [u8; 0x2000];

/// One 8 KiB save-RAM bank.
pub type SaveRamBank = [u8; 0x2000];

/// CHR memory: read-only when the cartridge ships tiles in ROM, writable when
/// the board provides RAM instead.
#[derive(PartialEq)]
pub enum CHR {
    ROM(Vec<ChrBank>),
    RAM(Vec<ChrBank>),
}

impl CHR {
    /// The banks, whichever variant holds them.
    pub open spec fn spec_banks(&self) -> Seq<ChrBank> {
        match self {
            CHR::ROM(banks) => banks@,
            CHR::RAM(banks) => banks@,
        }
    }

    /// Whether the banks accept writes.
    pub open spec fn spec_is_ram(&self) -> bool {
        match self {
            CHR::ROM(_) => false,
            CHR::RAM(_) => true,
        }
    }

    /// The banks, whichever variant holds them.
    pub fn get_banks(&self) -> (r: &Vec<ChrBank>)
        ensures
            r@ == self.spec_banks(),
    {
        match self {
            CHR::ROM(banks) => banks,
            CHR::RAM(banks) => banks,
        }
    }

    /// The banks, writable: present exactly when the cartridge has CHR RAM.
    pub fn get_banks_mut(&mut self) -> (r: Option<&mut Vec<ChrBank>>)
        ensures
            old(self).spec_is_ram() <==> r is Some,
            !old(self).spec_is_ram() ==> *final(self) == *old(self),
    {
        match self {
            CHR::ROM(_) => None,
            CHR::RAM(banks) => Some(banks),
        }
    }
}

/// The PRG ROM banks; immutable once loaded.
#[derive(PartialEq)]
pub struct PRG {
    pub banks: Vec<ProgBank>,
}

/// Everything read from a ROM container: PRG, CHR, save RAM, mirroring.
#[derive(PartialEq)]
pub struct Cartridge {
    pub prg: PRG,
    pub chr: CHR,
    pub sram: Vec<SaveRamBank>,
    pub mirror: MirroringMode,
}

impl Cartridge {
    /// A loadable cartridge has at least one PRG bank and one CHR bank.
    pub open spec fn wf(&self) -> bool {
        &&& self.prg.banks.len() >= 1
        &&& self.chr.spec_banks().len() >= 1
    }
}

/// Which board the cartridge uses.
#[derive(Clone, Copy, Debug, PartialEq, Eq, Structural)]
pub enum MapperKind {
    /// Fixed mapping: $8000-$BFFF is PRG bank 0, $C000-$FFFF the last bank.
    Nrom,
    /// $8000-$BFFF is a switchable PRG bank, $C000-$FFFF the last bank; any
    /// CPU write to $8000-$FFFF selects the lower bank.
    Uxrom,
}

/// A cartridge wired to its board: per-mapper bank state plus the banks.
#[derive(PartialEq)]
pub struct Mapper {
    pub kind: MapperKind,
    pub cartridge: Cartridge,
    pub first_bank: usize,
    pub last_bank: usize,
}

impl Mapper {
    /// Bank indices stay inside the cartridge's banks, and the upper window is
    /// pinned to the last bank.
    pub open spec fn wf(&self) -> bool {
        &&& self.cartridge.wf()
        &&& self.first_bank < self.cartridge.prg.banks.len()
        &&& self.last_bank == self.cartridge.prg.banks.len() - 1
    }

    /// The nametable mirroring the cartridge requests.
    pub fn mirror(&self) -> (r: MirroringMode)
        ensures
            r == self.cartridge.mirror,
    {
        self.cartridge.mirror
    }

    /// What a cartridge-side read returns: CHR bank 0 below $2000, nothing in
    /// the unmapped window, then the switchable and the fixed PRG bank.
    pub open spec fn spec_read(&self, address: u16) -> u8 {
        if address < 0x2000 {
            self.cartridge.chr.spec_banks()[0]@[address as int]
        } else if address < 0x8000 {
            0
        } else if address < 0xc000 {
            self.cartridge.prg.banks@[self.first_bank as int]@[address as int % 0x4000]
        } else {
            self.cartridge.prg.banks@[self.last_bank as int]@[address as int % 0x4000]
        }
    }

    /// Read one byte of cartridge space. Both boards decode reads the same
    /// way; they differ only in whether the bank select responds to writes.
    pub fn read(&self, address: u16) -> (r: u8)
        requires
            self.wf(),
        ensures
            r == self.spec_read(address),
    {
        if address < 0x2000 {
            self.cartridge.chr.get_banks()[0][address as usize]
        } else if address < 0x8000 {
            0
        } else if address < 0xc000 {
            self.cartridge.prg.banks[self.first_bank][address as usize % 0x4000]
        } else {
            self.cartridge.prg.banks[self.last_bank][address as usize % 0x4000]
        }
    }

    /// Write one byte of cartridge space.
    ///
    /// Below $2000 the byte lands in CHR bank 0 when CHR is RAM and is
    /// dropped when it is ROM. From $8000 up, a UxROM board latches the low
    /// nibble as the switchable bank index (reduced modulo the bank count, as
    /// the bank lines of a smaller ROM wrap); an NROM board ignores it.
    pub fn write(&mut self, address: u16, data: u8)
        requires
            old(self).wf(),
        ensures
            final(self).wf(),
            mapper_write_rel(*old(self), *final(self), address, data),
    {
        if address < 0x2000 {
            match &mut self.cartridge.chr {
                CHR::ROM(_) => {},
                CHR::RAM(banks) => {
                    banks[0][address as usize] = data;
                },
            }
        } else if address < 0x8000 {
            // open bus between the CHR window and the PRG window
        } else {
            match self.kind {
                MapperKind::Nrom => {},
                MapperKind::Uxrom => {
                    self.first_bank = (data & 0x0f) as usize % self.cartridge.prg.banks.len();
                },
            }
        }
    }

    /// What DMA sees of page `page`: for pages at $8000 and above, the 256
    /// bytes of the PRG bank mapped there; `None` below the cartridge space.
    pub fn read_page(&self, page: u8) -> (r: Option<[u8; 256]>)
        requires
            self.wf(),
        ensures
            page < 0x80 ==> r is None,
            0x80 <= page < 0xc0 ==> {
                &&& r is Some
                &&& forall|i: int| 0 <= i < 256 ==> r->Some_0@[i]
                    == self.cartridge.prg.banks@[self.first_bank as int]@[(page - 0x80) * 256 + i]
            },
            page >= 0xc0 ==> {
                &&& r is Some
                &&& forall|i: int| 0 <= i < 256 ==> r->Some_0@[i]
                    == self.cartridge.prg.banks@[self.last_bank as int]@[(page - 0xc0) * 256 + i]
            },
    {
        if page < 0x80 {
            // pages below the cartridge window belong to the CPU side
            None
        } else {
            let bank_index = if page < 0xc0 { self.first_bank } else { self.last_bank };
            let bank_start: usize = ((page % 64) as usize) * 256;
            let mut out: [u8; 256] = [0; 256];
            let mut i: usize = 0;
            while i < 256
                invariant
                    i <= 256,
                    bank_start + 256 <= 0x4000,
                    bank_index < self.cartridge.prg.banks.len(),
                    forall|j: int| 0 <= j < i ==> out@[j]
                        == self.cartridge.prg.banks@[bank_index as int]@[bank_start + j],
                decreases 256 - i,
            {
                out[i] = self.cartridge.prg.banks[bank_index][bank_start + i];
                i = i + 1;
            }
            Some(out)
        }
    }
}

/// How a cartridge-space write relates a mapper to its successor.
pub open spec fn mapper_write_rel(pre: Mapper, post: Mapper, address: u16, data: u8) -> bool {
    &&& (post.kind == pre.kind)
    &&& (post.cartridge.prg == pre.cartridge.prg)
    &&& (post.cartridge.sram == pre.cartridge.sram)
    &&& (post.cartridge.mirror == pre.cartridge.mirror)
    &&& (post.last_bank == pre.last_bank)
    &&& (address < 0x2000 && pre.cartridge.chr.spec_is_ram() ==> {
                &&& post.cartridge.chr is RAM
                &&& post.cartridge.chr.spec_banks().len() == pre.cartridge.chr.spec_banks().len()
                &&& post.cartridge.chr.spec_banks()[0]@
                    == pre.cartridge.chr.spec_banks()[0]@.update(address as int, data)
                &&& forall|k: int| 1 <= k < pre.cartridge.chr.spec_banks().len()
                    ==> post.cartridge.chr.spec_banks()[k] == pre.cartridge.chr.spec_banks()[k]
                &&& post.first_bank == pre.first_bank
            })
    &&& (address < 0x2000 && !pre.cartridge.chr.spec_is_ram() ==> post == pre)
    &&& (0x2000 <= address < 0x8000 ==> post == pre)
    &&& (address >= 0x8000 && pre.kind == MapperKind::Uxrom ==> {
                &&& post.cartridge.chr == pre.cartridge.chr
                &&& post.first_bank == (data & 0x0f) as int % (pre.cartridge.prg.banks.len() as int)
            })
    &&& (address >= 0x8000 && pre.kind == MapperKind::Nrom ==> post == pre)
}

/// How a PPU-side write below $2000 relates a mapper to its successor: the
/// byte lands in CHR bank 0 when CHR is RAM and is dropped when it is ROM;
/// nothing else moves.
pub open spec fn chr_write_rel(pre: Mapper, post: Mapper, address: u16, data: u8) -> bool {
    &&& post.kind == pre.kind
    &&& post.cartridge.prg == pre.cartridge.prg
    &&& post.cartridge.sram == pre.cartridge.sram
    &&& post.cartridge.mirror == pre.cartridge.mirror
    &&& post.first_bank == pre.first_bank
    &&& post.last_bank == pre.last_bank
    &&& pre.cartridge.chr.spec_is_ram() ==> {
        &&& post.cartridge.chr is RAM
        &&& post.cartridge.chr.spec_banks().len() == pre.cartridge.chr.spec_banks().len()
        &&& post.cartridge.chr.spec_banks()[0]@
            == pre.cartridge.chr.spec_banks()[0]@.update(address as int, data)
        &&& forall|k: int| 1 <= k < pre.cartridge.chr.spec_banks().len()
            ==> post.cartridge.chr.spec_banks()[k] == pre.cartridge.chr.spec_banks()[k]
    }
    &&& !pre.cartridge.chr.spec_is_ram() ==> post == pre
}



impl CHR {
    /// Same writability and the same bank contents.
    pub open spec fn equiv(&self, other: &CHR) -> bool {
        &&& self.spec_is_ram() == other.spec_is_ram()
        &&& self.spec_banks() == other.spec_banks()
    }
}

impl Cartridge {
    /// The same banks, save RAM and mirroring, bank contents compared by
    /// value.
    pub open spec fn equiv(&self, other: &Cartridge) -> bool {
        &&& self.prg.banks@ == other.prg.banks@
        &&& self.chr.equiv(&other.chr)
        &&& self.sram@ == other.sram@
        &&& self.mirror == other.mirror
    }
}

impl Mapper {
    /// The same board, bank state and cartridge contents; two mappers this
    /// relates decode every access identically.
    pub open spec fn equiv(&self, other: &Mapper) -> bool {
        &&& self.kind == other.kind
        &&& self.cartridge.equiv(&other.cartridge)
        &&& self.first_bank == other.first_bank
        &&& self.last_bank == other.last_bank
    }
}

/// Copy a vector of fixed-size banks, element for element.
fn clone_banks<const N: usize>(banks: &Vec<[u8; N]>) -> (r: Vec<[u8; N]>)
    ensures
        r@ == banks@,
{
    let mut out: Vec<[u8; N]> = Vec::new();
    let mut i: usize = 0;
    while i < banks.len()
        invariant
            i <= banks.len(),
            out@ =~= banks@.subrange(0, i as int),
        decreases banks.len() - i,
    {
        out.push(banks[i]);
        i = i + 1;
    }
    proof {
        assert(out@ =~= banks@);
    }
    out
}

impl Clone for CHR {
    /// A deep copy: the same variant over equal banks.
    fn clone(&self) -> (r: Self)
        ensures
            r.equiv(self),
    {
        match self {
            CHR::ROM(banks) => CHR::ROM(clone_banks(banks)),
            CHR::RAM(banks) => CHR::RAM(clone_banks(banks)),
        }
    }
}

impl Clone for PRG {
    /// A deep copy of the PRG banks.
    fn clone(&self) -> (r: Self)
        ensures
            r.banks@ == self.banks@,
    {
        PRG { banks: clone_banks(&self.banks) }
    }
}

impl Clone for Cartridge {
    /// A deep copy of every bank and the mirroring mode.
    fn clone(&self) -> (r: Self)
        ensures
            r.equiv(self),
    {
        Cartridge {
            prg: self.prg.clone(),
            chr: self.chr.clone(),
            sram: clone_banks(&self.sram),
            mirror: self.mirror,
        }
    }
}

impl Clone for Mapper {
    /// A deep copy of the cartridge and the bank state.
    fn clone(&self) -> (r: Self)
        ensures
            r.equiv(self),
            r.wf() == self.wf(),
    {
        Mapper {
            kind: self.kind,
            cartridge: self.cartridge.clone(),
            first_bank: self.first_bank,
            last_bank: self.last_bank,
        }
    }
}

/// Wire a cartridge to its board: mapper number 0 is NROM, 2 is UxROM, and
/// any other number is unsupported.
pub fn new(cartridge: Cartridge, mapper: u8) -> (r: Option<Mapper>)
    requires
        cartridge.wf(),
    ensures
        (mapper == 0 || mapper == 2) <==> r is Some,
        mapper == 0 ==> r == Some((Mapper {
            kind: MapperKind::Nrom,
            first_bank: 0,
            last_bank: (cartridge.prg.banks.len() - 1) as usize,
            cartridge: cartridge,
        })),
        mapper == 2 ==> r == Some((Mapper {
            kind: MapperKind::Uxrom,
            first_bank: 0,
            last_bank: (cartridge.prg.banks.len() - 1) as usize,
            cartridge: cartridge,
        })),
        r is Some ==> r->Some_0.wf(),
{
    if mapper == 0 || mapper == 2 {
        let kind = if mapper == 0 { MapperKind::Nrom } else { MapperKind::Uxrom };
        let last_bank = cartridge.prg.banks.len() - 1;
        Some(Mapper { kind, cartridge, first_bank: 0, last_bank })
    } else {
        None
    }
}

} // verus!
