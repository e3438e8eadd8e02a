//! The iNES 1.0 ROM container: a 16-byte header followed by the PRG banks and
//! the CHR banks. Parsing works on the container's bytes; reading them from
//! disk is the host's business.

use vstd::prelude::*;
use crate::cartridge;
use crate::cartridge::Cartridge;

verus! {

/// The fields of the 16-byte container header.
pub struct INESHeader {
    /// Number of 16 KiB PRG ROM banks.
    pub prg_banks: u8,
    /// Number of 8 KiB CHR ROM banks; 0 means the board uses CHR RAM.
    pub chr_banks: u8,
    /// Vertical mirroring when set, horizontal when clear.
    pub mirror: bool,
    pub has_battery: bool,
    /// A 512-byte trainer precedes the PRG data; such containers are rejected.
    pub has_trainer: bool,
    pub four_screen_mirror: bool,
    pub vs_unisystem: bool,
    pub playchoice10: bool,
    /// The container claims the NES 2.0 extension.
    pub nes2: bool,
    /// Number of 8 KiB PRG RAM banks.
    pub ram_size: u8,
    pub pal: bool,
    pub tv_system_prg_ram_presence: u8,
    /// Mapper number: high nibble of byte 7 over the high nibble of byte 6.
    pub mapper: u8,
}

/// The container starts with the magic bytes `N`, `E`, `S`, $1A.
pub open spec fn magic_ok(bytes: Seq<u8>) -> bool {
    &&& bytes.len() >= 16
    &&& bytes[0] == 0x4e
    &&& bytes[1] == 0x45
    &&& bytes[2] == 0x53
    &&& bytes[3] == 0x1a
}

/// The PRG bank count the header advertises.
pub open spec fn spec_prg_banks(bytes: Seq<u8>) -> u8 {
    bytes[4]
}

/// The CHR bank count the header advertises; 0 means CHR RAM.
pub open spec fn spec_chr_banks(bytes: Seq<u8>) -> u8 {
    bytes[5]
}

/// Whether the container carries a 512-byte trainer.
pub open spec fn spec_has_trainer(bytes: Seq<u8>) -> bool {
    (bytes[6] & 0x04) != 0
}

/// The PRG RAM bank count the header advertises.
pub open spec fn spec_ram_size(bytes: Seq<u8>) -> u8 {
    bytes[8]
}

/// The mapper number: high nibble of byte 7 over the high nibble of byte 6.
pub open spec fn spec_mapper_number(bytes: Seq<u8>) -> u8 {
    (bytes[7] & 0xf0) | (bytes[6] >> 4)
}

/// How many bytes the whole container needs for its header and banks.
pub open spec fn spec_container_len(bytes: Seq<u8>) -> int {
    16 + spec_prg_banks(bytes) * 0x4000 + spec_chr_banks(bytes) * 0x2000
}

/// The mirroring mode the header's flags select.
pub open spec fn spec_container_mirroring(bytes: Seq<u8>) -> cartridge::MirroringMode {
    if (bytes[6] & 0x08) != 0 {
        cartridge::MirroringMode::FourScreen
    } else if (bytes[6] & 0x01) != 0 {
        cartridge::MirroringMode::Vertical
    } else {
        cartridge::MirroringMode::Horizontal
    }
}

impl INESHeader {
    /// Each header field, as the header layout reads it off the raw bytes.
    pub open spec fn matches(&self, bytes: Seq<u8>) -> bool {
        &&& self.prg_banks == bytes[4]
        &&& self.chr_banks == bytes[5]
        &&& self.mirror == ((bytes[6] & 0x01) != 0)
        &&& self.has_battery == ((bytes[6] & 0x02) != 0)
        &&& self.has_trainer == ((bytes[6] & 0x04) != 0)
        &&& self.four_screen_mirror == ((bytes[6] & 0x08) != 0)
        &&& self.vs_unisystem == ((bytes[7] & 0x01) != 0)
        &&& self.playchoice10 == ((bytes[7] & 0x02) != 0)
        &&& self.nes2 == ((bytes[7] & 0x0c) == 0x08)
        &&& self.ram_size == bytes[8]
        &&& self.pal == ((bytes[9] & 0x01) != 0)
        &&& self.tv_system_prg_ram_presence == bytes[10]
        &&& self.mapper == (bytes[7] & 0xf0) | (bytes[6] >> 4)
    }

    /// Parse the 16-byte header, rejecting a short buffer or bad magic.
    pub fn parse(bytes: &Vec<u8>) -> (r: Option<INESHeader>)
        ensures
            r is Some <==> magic_ok(bytes@),
            r is Some ==> r->Some_0.matches(bytes@),
    {
        if bytes.len() < 16 {
            return None;
        }
        if !(bytes[0] == 0x4e && bytes[1] == 0x45 && bytes[2] == 0x53 && bytes[3] == 0x1a) {
            return None;
        }
        Some(INESHeader {
            prg_banks: bytes[4],
            chr_banks: bytes[5],
            mirror: (bytes[6] & 0x01) != 0,
            has_battery: (bytes[6] & 0x02) != 0,
            has_trainer: (bytes[6] & 0x04) != 0,
            four_screen_mirror: (bytes[6] & 0x08) != 0,
            vs_unisystem: (bytes[7] & 0x01) != 0,
            playchoice10: (bytes[7] & 0x02) != 0,
            nes2: (bytes[7] & 0x0c) == 0x08,
            ram_size: bytes[8],
            pal: (bytes[9] & 0x01) != 0,
            tv_system_prg_ram_presence: bytes[10],
            mapper: (bytes[7] & 0xf0) | (bytes[6] >> 4),
        })
    }

    /// How many bytes the container must hold for this header: the header
    /// itself, then the PRG banks, then the CHR banks.
    pub open spec fn spec_needed_len(&self) -> int {
        16 + self.prg_banks * 0x4000 + self.chr_banks * 0x2000
    }

    /// The mirroring mode the header's flags select.
    pub open spec fn spec_mirroring(&self) -> cartridge::MirroringMode {
        if self.four_screen_mirror {
            cartridge::MirroringMode::FourScreen
        } else if self.mirror {
            cartridge::MirroringMode::Vertical
        } else {
            cartridge::MirroringMode::Horizontal
        }
    }

    /// Assemble the cartridge that follows this header in `bytes`.
    ///
    /// Rejects a container with a trainer or with fewer bytes than the header
    /// promises. PRG banks come first, then CHR banks; a container with no
    /// CHR banks gets a single zeroed CHR RAM bank, and the save RAM banks
    /// the header asks for are allocated zeroed.
    pub fn read(&self, bytes: &Vec<u8>) -> (r: Option<Cartridge>)
        ensures
            r is Some <==> (!self.has_trainer && bytes@.len() >= self.spec_needed_len()),
            r is Some ==> {
                let c = r->Some_0;
                &&& c.prg.banks.len() == self.prg_banks
                &&& forall|b: int, i: int| 0 <= b < self.prg_banks && 0 <= i < 0x4000
                    ==> c.prg.banks@[b]@[i] == bytes@[16 + b * 0x4000 + i]
                &&& c.chr.spec_is_ram() <==> self.chr_banks == 0
                &&& self.chr_banks == 0 ==> c.chr.spec_banks().len() == 1
                    && c.chr.spec_banks()[0]@ =~= Seq::new(0x2000, |i: int| 0u8)
                &&& self.chr_banks > 0 ==> c.chr.spec_banks().len() == self.chr_banks
                    && forall|b: int, i: int| 0 <= b < self.chr_banks && 0 <= i < 0x2000
                        ==> c.chr.spec_banks()[b]@[i]
                            == bytes@[16 + self.prg_banks * 0x4000 + b * 0x2000 + i]
                &&& c.sram.len() == self.ram_size
                &&& c.mirror == self.spec_mirroring()
                &&& self.prg_banks > 0 ==> c.wf()
            },
    {
        if self.has_trainer {
            return None;
        }
        let needed: usize = 16 + (self.prg_banks as usize) * 0x4000 + (self.chr_banks as usize)
            * 0x2000;
        if bytes.len() < needed {
            return None;
        }

        let mut prg_banks: Vec<cartridge::ProgBank> = Vec::new();
        let mut b: usize = 0;
        while b < self.prg_banks as usize
            invariant
                b <= self.prg_banks,
                bytes@.len() >= self.spec_needed_len(),
                prg_banks.len() == b,
                forall|k: int, i: int| 0 <= k < b && 0 <= i < 0x4000
                    ==> prg_banks@[k]@[i] == bytes@[16 + k * 0x4000 + i],
            decreases self.prg_banks - b,
        {
            let mut bank: cartridge::ProgBank = [0; 0x4000];
            let base: usize = 16 + b * 0x4000;
            let mut i: usize = 0;
            while i < 0x4000
                invariant
                    i <= 0x4000,
                    b < self.prg_banks,
                    base == 16 + b * 0x4000,
                    bytes@.len() >= self.spec_needed_len(),
                    forall|j: int| 0 <= j < i ==> bank@[j] == bytes@[base + j],
                decreases 0x4000 - i,
            {
                bank[i] = bytes[base + i];
                i = i + 1;
            }
            prg_banks.push(bank);
            b = b + 1;
        }

        let chr: cartridge::CHR = if self.chr_banks == 0 {
            let mut banks: Vec<cartridge::ChrBank> = Vec::new();
            banks.push([0; 0x2000]);
            cartridge::CHR::RAM(banks)
        } else {
            let chr_base: usize = 16 + (self.prg_banks as usize) * 0x4000;
            let mut chr_banks: Vec<cartridge::ChrBank> = Vec::new();
            let mut b: usize = 0;
            while b < self.chr_banks as usize
                invariant
                    b <= self.chr_banks,
                    bytes@.len() >= self.spec_needed_len(),
                    chr_base == 16 + self.prg_banks * 0x4000,
                    chr_banks.len() == b,
                    forall|k: int, i: int| 0 <= k < b && 0 <= i < 0x2000
                        ==> chr_banks@[k]@[i] == bytes@[chr_base + k * 0x2000 + i],
                decreases self.chr_banks - b,
            {
                let mut bank: cartridge::ChrBank = [0; 0x2000];
                let base: usize = chr_base + b * 0x2000;
                let mut i: usize = 0;
                while i < 0x2000
                    invariant
                        i <= 0x2000,
                        b < self.chr_banks,
                        base == chr_base + b * 0x2000,
                        chr_base == 16 + self.prg_banks * 0x4000,
                        bytes@.len() >= self.spec_needed_len(),
                        forall|j: int| 0 <= j < i ==> bank@[j] == bytes@[base + j],
                    decreases 0x2000 - i,
                {
                    bank[i] = bytes[base + i];
                    i = i + 1;
                }
                chr_banks.push(bank);
                b = b + 1;
            }
            cartridge::CHR::ROM(chr_banks)
        };

        let mut sram: Vec<cartridge::SaveRamBank> = Vec::new();
        let mut s: usize = 0;
        while s < self.ram_size as usize
            invariant
                s <= self.ram_size,
                sram.len() == s,
            decreases self.ram_size - s,
        {
            sram.push([0; 0x2000]);
            s = s + 1;
        }

        let mirror = if self.four_screen_mirror {
            cartridge::MirroringMode::FourScreen
        } else if self.mirror {
            cartridge::MirroringMode::Vertical
        } else {
            cartridge::MirroringMode::Horizontal
        };

        Some(Cartridge { prg: cartridge::PRG { banks: prg_banks }, chr, sram, mirror })
    }
}

/// Parse a whole iNES container: the cartridge it holds and its mapper
/// number. Fails exactly on bad magic, a trainer, or fewer bytes than the
/// header's bank counts require; on success the banks hold the container's
/// bytes in order and a chr-less container gets one zeroed CHR RAM bank.
pub fn load(bytes: &Vec<u8>) -> (r: Option<(Cartridge, u8)>)
    ensures
        r is Some <==> (magic_ok(bytes@) && !spec_has_trainer(bytes@) && bytes@.len()
            >= spec_container_len(bytes@)),
        r is Some ==> {
            let (c, mapper) = r->Some_0;
            &&& mapper == spec_mapper_number(bytes@)
            &&& c.prg.banks.len() == spec_prg_banks(bytes@)
            &&& forall|b: int, i: int| 0 <= b < spec_prg_banks(bytes@) && 0 <= i < 0x4000
                ==> c.prg.banks@[b]@[i] == bytes@[16 + b * 0x4000 + i]
            &&& (c.chr.spec_is_ram() <==> spec_chr_banks(bytes@) == 0)
            &&& spec_chr_banks(bytes@) == 0 ==> c.chr.spec_banks().len() == 1
                && c.chr.spec_banks()[0]@ =~= Seq::new(0x2000, |i: int| 0u8)
            &&& spec_chr_banks(bytes@) > 0 ==> c.chr.spec_banks().len() == spec_chr_banks(bytes@)
                && forall|b: int, i: int| 0 <= b < spec_chr_banks(bytes@) && 0 <= i < 0x2000
                    ==> c.chr.spec_banks()[b]@[i]
                        == bytes@[16 + spec_prg_banks(bytes@) * 0x4000 + b * 0x2000 + i]
            &&& c.sram.len() == spec_ram_size(bytes@)
            &&& c.mirror == spec_container_mirroring(bytes@)
            &&& spec_prg_banks(bytes@) > 0 ==> c.wf()
        },
{
    let header = match INESHeader::parse(bytes) {
        Some(h) => h,
        None => { return None; },
    };
    let cartridge = match header.read(bytes) {
        Some(c) => c,
        None => { return None; },
    };
    Some((cartridge, header.mapper))
}

} // verus!
