//! The 6502 core: registers, the status byte, the address decoder onto the
//! bus, the stack, instruction decode and dispatch, and cycle accounting.

use vstd::prelude::*;
use crate::bitmasks;
use crate::bus::MemoryBus;
use crate::cartridge;
use crate::cartridge::Mapper;
use crate::controller;
use crate::instructions::{AddressInfo, AddressingMode, DecodedInstruction};
use crate::instructions;
use crate::ppu;

verus! {

/// One bit of the status register, from carry at bit 0 to negative at bit 7.
#[derive(Clone, Copy, Debug)]
pub enum StatusFlag {
    C,
    Z,
    I,
    D,
    B,
    U,
    V,
    N,
}

impl StatusFlag {
    /// The flag's bit mask within the status byte.
    pub open spec fn spec_mask(self) -> u8 {
        match self {
            StatusFlag::C => 0x01,
            StatusFlag::Z => 0x02,
            StatusFlag::I => 0x04,
            StatusFlag::D => 0x08,
            StatusFlag::B => 0x10,
            StatusFlag::U => 0x20,
            StatusFlag::V => 0x40,
            StatusFlag::N => 0x80,
        }
    }

    /// The flag's bit mask within the status byte.
    pub fn mask(self) -> (r: u8)
        ensures
            r == self.spec_mask(),
    {
        match self {
            StatusFlag::C => 0x01,
            StatusFlag::Z => 0x02,
            StatusFlag::I => 0x04,
            StatusFlag::D => 0x08,
            StatusFlag::B => 0x10,
            StatusFlag::U => 0x20,
            StatusFlag::V => 0x40,
            StatusFlag::N => 0x80,
        }
    }
}

/// A status byte with one flag forced to a value.
pub open spec fn spec_set_flag(status: u8, mask: u8, value: bool) -> u8 {
    if value {
        status | mask
    } else {
        status & !mask
    }
}

/// A status byte with N and Z set from a result byte: N mirrors bit 7, Z
/// reports a zero result.
pub open spec fn spec_with_nz(status: u8, value: u8) -> u8 {
    spec_set_flag(spec_set_flag(status, 0x80, value >= 0x80), 0x02, value == 0)
}

/// A status byte with C from bit 8 of a wide result and N/Z from its low
/// byte.
pub open spec fn spec_with_cnz(status: u8, value: u16) -> u8 {
    spec_with_nz(spec_set_flag(status, 0x01, (value & 0x100) != 0), value as u8)
}

/// Whether two addresses lie on different 256-byte pages.
pub open spec fn spec_crosses_page_boundary(a: u16, b: u16) -> bool {
    a / 256 != b / 256
}

/// Whether two addresses lie on different 256-byte pages.
pub fn crosses_page_boundary(a: u16, b: u16) -> (r: bool)
    ensures
        r == spec_crosses_page_boundary(a, b),
{
    a / 256 != b / 256
}

/// The 6502's architectural state: registers, the cycle counter, the 2 KiB
/// work RAM, and the halt latch for the unimplemented opcodes.
#[derive(Clone, Copy, Debug, PartialEq)]
pub struct CPU {
    /// Total cycles executed; wraps.
    pub cycles: u64,
    pub pc: u16,
    pub a: u8,
    pub x: u8,
    pub y: u8,
    pub status: u8,
    pub sp: u8,
    /// Work RAM, mirrored four times across $0000-$1FFF.
    pub ram: [u8; 0x800],
    /// Set when an unimplemented opcode was met; the core then stops
    /// executing instructions, deterministically.
    pub halted: bool,
}

/// Whether a CPU-bus access at this address leaves every device untouched.
/// Reads of the PPU window and the controller port move their state.
pub open spec fn side_effect_free(addr: u16) -> bool {
    !(0x2000 <= addr < 0x4000) && addr != 0x4016
}

/// What a CPU-bus read at `addr` reports, as a function of the pre-read
/// state: RAM below $2000 (mirrored), the PPU register file to $3FFF, the
/// APU and I/O stubs, the controller port, and the cartridge above.
pub open spec fn spec_cpu_read_value(cpu: CPU, bus: MemoryBus, addr: u16) -> u8 {
    if addr < 0x2000 {
        cpu.ram@[addr as int % 0x800]
    } else if addr < 0x4000 {
        ppu::spec_read_register_value(bus.ppu, bus.mapper, addr)
    } else if addr <= 0x4013 {
        0
    } else if addr == 0x4014 {
        0
    } else if addr == 0x4015 {
        bus.mapper.spec_read(addr)
    } else if addr == 0x4016 {
        controller::spec_controller_read_value(bus.controller)
    } else if addr <= 0x401f {
        0
    } else {
        bus.mapper.spec_read(addr)
    }
}

/// A 16-bit value read little-endian with both bytes taken from the same
/// pre-read state; exact for side-effect-free locations.
pub open spec fn spec_cpu_read_address(cpu: CPU, bus: MemoryBus, addr: u16) -> u16 {
    (spec_cpu_read_value(cpu, bus, addr) + spec_cpu_read_value(
        cpu,
        bus,
        ((addr + 1) % 0x10000) as u16,
    ) * 0x100) as u16
}

/// A 16-bit value read with the original 6502 page-wrap bug: the high byte
/// comes from the same page as the low byte.
pub open spec fn spec_cpu_read_address_indirect(cpu: CPU, bus: MemoryBus, addr: u16) -> u16 {
    (spec_cpu_read_value(cpu, bus, addr) + spec_cpu_read_value(
        cpu,
        bus,
        ((addr & 0xff00) + ((addr + 1) % 0x100)) as u16,
    ) * 0x100) as u16
}

/// What OAM DMA sees of byte `i` of source page `page`: CPU work RAM for
/// pages below $20 (mirrored), cartridge PRG from $80 up.
pub open spec fn spec_dma_byte(cpu: CPU, m: Mapper, page: u8, i: int) -> u8 {
    if page < 0x20 {
        cpu.ram@[(page as int % 8) * 256 + i]
    } else if page < 0xc0 {
        m.cartridge.prg.banks@[m.first_bank as int]@[(page - 0x80) * 256 + i]
    } else {
        m.cartridge.prg.banks@[m.last_bank as int]@[(page - 0xc0) * 256 + i]
    }
}

/// Whether OAM DMA has a source for page `page`; the I/O window in between
/// provides none, and the transfer clears OAM instead.
pub open spec fn spec_dma_source_exists(page: u8) -> bool {
    page < 0x20 || page >= 0x80
}

/// The cycle counter after `n` more cycles; it wraps.
pub open spec fn spec_cycles_after(c: u64, n: u64) -> u64 {
    if c + n > u64::MAX {
        (c + n - 0x1_0000_0000_0000_0000) as u64
    } else {
        (c + n) as u64
    }
}

/// Add-with-carry: binary mode only; V from the sign rule, C from bit 8,
/// N/Z from the result. Yields the new accumulator and status.
pub open spec fn spec_adc(a: u8, m: u8, c: bool, status: u8) -> (u8, u8) {
    let aa = a as u16;
    let bb = m as u16;
    let cc: u16 = if c { 1 } else { 0 };
    let sum = (aa + bb + cc) as u16;
    (
        sum as u8,
        spec_with_cnz(spec_set_flag(status, 0x40, ((aa ^ sum) & (bb ^ sum) & 0x80) != 0), sum),
    )
}

/// Subtract-with-borrow: the complementary sign rule for V, C clear on
/// borrow. Yields the new accumulator and status.
pub open spec fn spec_sbc(a: u8, m: u8, c: bool, status: u8) -> (u8, u8) {
    let aa = a as u16;
    let mm = m as u16;
    let nc: u16 = if c { 0 } else { 1 };
    let result = ((aa + 0x10000 - mm - nc) % 0x10000) as u16;
    let st = spec_set_flag(
        spec_set_flag(
            spec_with_nz(status, result as u8),
            0x40,
            (((aa ^ result) & (!mm ^ result)) & 0x80) != 0,
        ),
        0x01,
        (result & 0x100) == 0,
    );
    (result as u8, st)
}

/// Compare a register against memory: N/Z from the difference, C when the
/// register is at least the operand.
pub open spec fn spec_compare(status: u8, reg: u8, m: u8) -> u8 {
    let data = ((reg + 0x100 - m) % 0x100) as u8;
    spec_set_flag(spec_with_nz(status, data), 0x01, reg >= m)
}

/// The BIT status effects: Z from the masked accumulator, V and N copied
/// from bits 6 and 7 of the operand.
pub open spec fn spec_bit_flags(status: u8, a: u8, m: u8) -> u8 {
    spec_set_flag(
        spec_set_flag(spec_set_flag(status, 0x02, (a & m) == 0), 0x40, (m & 0x40) != 0),
        0x80,
        (m & 0x80) != 0,
    )
}

/// A left shift widened to nine bits, for C/N/Z accounting.
pub open spec fn spec_shl_wide(v: u8) -> u16 {
    ((v as u16) * 2) as u16
}

/// A right shift with the outgoing bit parked at bit 8, as the shifter
/// computes it.
pub open spec fn spec_shr_wide(v: u8) -> u16 {
    ((v as u16) / 2 + (v as u16) % 2 * 0x100) as u16
}

/// A left rotate through carry, widened to nine bits.
pub open spec fn spec_rol_wide(v: u8, c: bool) -> u16 {
    ((v as u16) * 2 + if c { 1u16 } else { 0u16 }) as u16
}

/// A right rotate through carry, with the outgoing bit parked at bit 8.
pub open spec fn spec_ror_wide(v: u8, c: bool) -> u16 {
    ((v as u16) / 2 + (if c { 0x80u16 } else { 0u16 }) + (v as u16) % 2 * 0x100) as u16
}

/// The halting outcome: the opcode was one the core does not implement (or
/// an operand shape the table never produces), so the halt latch goes up
/// and nothing else moves.
pub open spec fn halt_rel(pre: CPU, pre_bus: MemoryBus, post: CPU, post_bus: MemoryBus) -> bool {
    &&& post == (CPU { halted: true, ..pre })
    &&& post_bus == pre_bus
}

/// How one dispatched opcode relates the (CPU, bus) pair to its successor.
///
/// Operand reads are pinned down whenever the operand address is
/// side-effect-free (RAM, cartridge, the stubs); read-modify-write and store
/// effects are pinned down for work-RAM operands. An access that touches a
/// live device (the PPU window, the controller port, a bank-select write)
/// still updates the registers the same way, but over whatever the device
/// handed back, so such an outcome is left to the device relations.
/// The ADC arm of `dispatch_rel`.
pub open spec fn rel_adc(
    pre: CPU,
    pre_bus: MemoryBus,
    post: CPU,
    post_bus: MemoryBus,
    addr: Option<u16>,
) -> bool {
    let a = addr->Some_0;
    let m = spec_cpu_read_value(pre, pre_bus, a);
    let c = (pre.status & 0x01) != 0;
    let pulled = pre.ram@[0x100 + ((pre.sp + 1) % 0x100)];
    match addr {
            Some(a) => side_effect_free(a) ==> post == (CPU {
                a: spec_adc(pre.a, m, c, pre.status).0,
                status: spec_adc(pre.a, m, c, pre.status).1,
                ..pre
            }) && post_bus == pre_bus,
            None => halt_rel(pre, pre_bus, post, post_bus),
        }
}

/// The SBC arm of `dispatch_rel`.
pub open spec fn rel_sbc(
    pre: CPU,
    pre_bus: MemoryBus,
    post: CPU,
    post_bus: MemoryBus,
    addr: Option<u16>,
) -> bool {
    let a = addr->Some_0;
    let m = spec_cpu_read_value(pre, pre_bus, a);
    let c = (pre.status & 0x01) != 0;
    let pulled = pre.ram@[0x100 + ((pre.sp + 1) % 0x100)];
    match addr {
            Some(a) => side_effect_free(a) ==> post == (CPU {
                a: spec_sbc(pre.a, m, c, pre.status).0,
                status: spec_sbc(pre.a, m, c, pre.status).1,
                ..pre
            }) && post_bus == pre_bus,
            None => halt_rel(pre, pre_bus, post, post_bus),
        }
}

/// The AND arm of `dispatch_rel`.
pub open spec fn rel_and(
    pre: CPU,
    pre_bus: MemoryBus,
    post: CPU,
    post_bus: MemoryBus,
    addr: Option<u16>,
) -> bool {
    let a = addr->Some_0;
    let m = spec_cpu_read_value(pre, pre_bus, a);
    let c = (pre.status & 0x01) != 0;
    let pulled = pre.ram@[0x100 + ((pre.sp + 1) % 0x100)];
    match addr {
            Some(a) => side_effect_free(a) ==> post == (CPU {
                a: (pre.a & m),
                status: spec_with_nz(pre.status, pre.a & m),
                ..pre
            }) && post_bus == pre_bus,
            None => halt_rel(pre, pre_bus, post, post_bus),
        }
}

/// The ORA arm of `dispatch_rel`.
pub open spec fn rel_ora(
    pre: CPU,
    pre_bus: MemoryBus,
    post: CPU,
    post_bus: MemoryBus,
    addr: Option<u16>,
) -> bool {
    let a = addr->Some_0;
    let m = spec_cpu_read_value(pre, pre_bus, a);
    let c = (pre.status & 0x01) != 0;
    let pulled = pre.ram@[0x100 + ((pre.sp + 1) % 0x100)];
    match addr {
            Some(a) => side_effect_free(a) ==> post == (CPU {
                a: (pre.a | m),
                status: spec_with_nz(pre.status, pre.a | m),
                ..pre
            }) && post_bus == pre_bus,
            None => halt_rel(pre, pre_bus, post, post_bus),
        }
}

/// The EOR arm of `dispatch_rel`.
pub open spec fn rel_eor(
    pre: CPU,
    pre_bus: MemoryBus,
    post: CPU,
    post_bus: MemoryBus,
    addr: Option<u16>,
) -> bool {
    let a = addr->Some_0;
    let m = spec_cpu_read_value(pre, pre_bus, a);
    let c = (pre.status & 0x01) != 0;
    let pulled = pre.ram@[0x100 + ((pre.sp + 1) % 0x100)];
    match addr {
            Some(a) => side_effect_free(a) ==> post == (CPU {
                a: (pre.a ^ m),
                status: spec_with_nz(pre.status, pre.a ^ m),
                ..pre
            }) && post_bus == pre_bus,
            None => halt_rel(pre, pre_bus, post, post_bus),
        }
}

/// The BIT arm of `dispatch_rel`.
pub open spec fn rel_bit(
    pre: CPU,
    pre_bus: MemoryBus,
    post: CPU,
    post_bus: MemoryBus,
    addr: Option<u16>,
) -> bool {
    let a = addr->Some_0;
    let m = spec_cpu_read_value(pre, pre_bus, a);
    let c = (pre.status & 0x01) != 0;
    let pulled = pre.ram@[0x100 + ((pre.sp + 1) % 0x100)];
    match addr {
            Some(a) => side_effect_free(a) ==> post == (CPU {
                status: spec_bit_flags(pre.status, pre.a, m),
                ..pre
            }) && post_bus == pre_bus,
            None => halt_rel(pre, pre_bus, post, post_bus),
        }
}

/// The CMP arm of `dispatch_rel`.
pub open spec fn rel_cmp(
    pre: CPU,
    pre_bus: MemoryBus,
    post: CPU,
    post_bus: MemoryBus,
    addr: Option<u16>,
) -> bool {
    let a = addr->Some_0;
    let m = spec_cpu_read_value(pre, pre_bus, a);
    let c = (pre.status & 0x01) != 0;
    let pulled = pre.ram@[0x100 + ((pre.sp + 1) % 0x100)];
    match addr {
            Some(a) => side_effect_free(a) ==> post == (CPU {
                status: spec_compare(pre.status, pre.a, m),
                ..pre
            }) && post_bus == pre_bus,
            None => halt_rel(pre, pre_bus, post, post_bus),
        }
}

/// The CPX arm of `dispatch_rel`.
pub open spec fn rel_cpx(
    pre: CPU,
    pre_bus: MemoryBus,
    post: CPU,
    post_bus: MemoryBus,
    addr: Option<u16>,
) -> bool {
    let a = addr->Some_0;
    let m = spec_cpu_read_value(pre, pre_bus, a);
    let c = (pre.status & 0x01) != 0;
    let pulled = pre.ram@[0x100 + ((pre.sp + 1) % 0x100)];
    match addr {
            Some(a) => side_effect_free(a) ==> post == (CPU {
                status: spec_compare(pre.status, pre.x, m),
                ..pre
            }) && post_bus == pre_bus,
            None => halt_rel(pre, pre_bus, post, post_bus),
        }
}

/// The CPY arm of `dispatch_rel`.
pub open spec fn rel_cpy(
    pre: CPU,
    pre_bus: MemoryBus,
    post: CPU,
    post_bus: MemoryBus,
    addr: Option<u16>,
) -> bool {
    let a = addr->Some_0;
    let m = spec_cpu_read_value(pre, pre_bus, a);
    let c = (pre.status & 0x01) != 0;
    let pulled = pre.ram@[0x100 + ((pre.sp + 1) % 0x100)];
    match addr {
            Some(a) => side_effect_free(a) ==> post == (CPU {
                status: spec_compare(pre.status, pre.y, m),
                ..pre
            }) && post_bus == pre_bus,
            None => halt_rel(pre, pre_bus, post, post_bus),
        }
}

/// The LDA arm of `dispatch_rel`.
pub open spec fn rel_lda(
    pre: CPU,
    pre_bus: MemoryBus,
    post: CPU,
    post_bus: MemoryBus,
    addr: Option<u16>,
) -> bool {
    let a = addr->Some_0;
    let m = spec_cpu_read_value(pre, pre_bus, a);
    let c = (pre.status & 0x01) != 0;
    let pulled = pre.ram@[0x100 + ((pre.sp + 1) % 0x100)];
    match addr {
            Some(a) => side_effect_free(a) ==> post == (CPU {
                a: m,
                status: spec_with_nz(pre.status, m),
                ..pre
            }) && post_bus == pre_bus,
            None => halt_rel(pre, pre_bus, post, post_bus),
        }
}

/// The LDX arm of `dispatch_rel`.
pub open spec fn rel_ldx(
    pre: CPU,
    pre_bus: MemoryBus,
    post: CPU,
    post_bus: MemoryBus,
    addr: Option<u16>,
) -> bool {
    let a = addr->Some_0;
    let m = spec_cpu_read_value(pre, pre_bus, a);
    let c = (pre.status & 0x01) != 0;
    let pulled = pre.ram@[0x100 + ((pre.sp + 1) % 0x100)];
    match addr {
            Some(a) => side_effect_free(a) ==> post == (CPU {
                x: m,
                status: spec_with_nz(pre.status, m),
                ..pre
            }) && post_bus == pre_bus,
            None => halt_rel(pre, pre_bus, post, post_bus),
        }
}

/// The LDY arm of `dispatch_rel`.
pub open spec fn rel_ldy(
    pre: CPU,
    pre_bus: MemoryBus,
    post: CPU,
    post_bus: MemoryBus,
    addr: Option<u16>,
) -> bool {
    let a = addr->Some_0;
    let m = spec_cpu_read_value(pre, pre_bus, a);
    let c = (pre.status & 0x01) != 0;
    let pulled = pre.ram@[0x100 + ((pre.sp + 1) % 0x100)];
    match addr {
            Some(a) => side_effect_free(a) ==> post == (CPU {
                y: m,
                status: spec_with_nz(pre.status, m),
                ..pre
            }) && post_bus == pre_bus,
            None => halt_rel(pre, pre_bus, post, post_bus),
        }
}

/// The LAX arm of `dispatch_rel`.
pub open spec fn rel_lax(
    pre: CPU,
    pre_bus: MemoryBus,
    post: CPU,
    post_bus: MemoryBus,
    addr: Option<u16>,
) -> bool {
    let a = addr->Some_0;
    let m = spec_cpu_read_value(pre, pre_bus, a);
    let c = (pre.status & 0x01) != 0;
    let pulled = pre.ram@[0x100 + ((pre.sp + 1) % 0x100)];
    match addr {
            Some(a) => side_effect_free(a) ==> post == (CPU {
                a: m,
                x: m,
                status: spec_with_nz(pre.status, m),
                ..pre
            }) && post_bus == pre_bus,
            None => halt_rel(pre, pre_bus, post, post_bus),
        }
}

/// The ASL arm of `dispatch_rel`.
pub open spec fn rel_asl(
    pre: CPU,
    pre_bus: MemoryBus,
    post: CPU,
    post_bus: MemoryBus,
    addr: Option<u16>,
) -> bool {
    let a = addr->Some_0;
    let m = spec_cpu_read_value(pre, pre_bus, a);
    let c = (pre.status & 0x01) != 0;
    let pulled = pre.ram@[0x100 + ((pre.sp + 1) % 0x100)];
    match addr {
            Some(a) => a < 0x2000 ==> {
                &&& post.ram@ == pre.ram@.update(a as int % 0x800, spec_shl_wide(m) as u8)
                &&& post == (CPU {
                    ram: post.ram,
                    status: spec_with_cnz(pre.status, spec_shl_wide(m)),
                    ..pre
                })
                &&& post_bus == pre_bus
            },
            None => post == (CPU {
                a: spec_shl_wide(pre.a) as u8,
                status: spec_with_cnz(pre.status, spec_shl_wide(pre.a)),
                ..pre
            }) && post_bus == pre_bus,
        }
}

/// The LSR arm of `dispatch_rel`.
pub open spec fn rel_lsr(
    pre: CPU,
    pre_bus: MemoryBus,
    post: CPU,
    post_bus: MemoryBus,
    addr: Option<u16>,
) -> bool {
    let a = addr->Some_0;
    let m = spec_cpu_read_value(pre, pre_bus, a);
    let c = (pre.status & 0x01) != 0;
    let pulled = pre.ram@[0x100 + ((pre.sp + 1) % 0x100)];
    match addr {
            Some(a) => a < 0x2000 ==> {
                &&& post.ram@ == pre.ram@.update(a as int % 0x800, spec_shr_wide(m) as u8)
                &&& post == (CPU {
                    ram: post.ram,
                    status: spec_with_cnz(pre.status, spec_shr_wide(m)),
                    ..pre
                })
                &&& post_bus == pre_bus
            },
            None => post == (CPU {
                a: spec_shr_wide(pre.a) as u8,
                status: spec_with_cnz(pre.status, spec_shr_wide(pre.a)),
                ..pre
            }) && post_bus == pre_bus,
        }
}

/// The ROL arm of `dispatch_rel`.
pub open spec fn rel_rol(
    pre: CPU,
    pre_bus: MemoryBus,
    post: CPU,
    post_bus: MemoryBus,
    addr: Option<u16>,
) -> bool {
    let a = addr->Some_0;
    let m = spec_cpu_read_value(pre, pre_bus, a);
    let c = (pre.status & 0x01) != 0;
    let pulled = pre.ram@[0x100 + ((pre.sp + 1) % 0x100)];
    match addr {
            Some(a) => a < 0x2000 ==> {
                &&& post.ram@ == pre.ram@.update(a as int % 0x800, spec_rol_wide(m, c) as u8)
                &&& post == (CPU {
                    ram: post.ram,
                    status: spec_with_cnz(pre.status, spec_rol_wide(m, c)),
                    ..pre
                })
                &&& post_bus == pre_bus
            },
            None => post == (CPU {
                a: spec_rol_wide(pre.a, c) as u8,
                status: spec_with_cnz(pre.status, spec_rol_wide(pre.a, c)),
                ..pre
            }) && post_bus == pre_bus,
        }
}

/// The ROR arm of `dispatch_rel`.
pub open spec fn rel_ror(
    pre: CPU,
    pre_bus: MemoryBus,
    post: CPU,
    post_bus: MemoryBus,
    addr: Option<u16>,
) -> bool {
    let a = addr->Some_0;
    let m = spec_cpu_read_value(pre, pre_bus, a);
    let c = (pre.status & 0x01) != 0;
    let pulled = pre.ram@[0x100 + ((pre.sp + 1) % 0x100)];
    match addr {
            Some(a) => a < 0x2000 ==> {
                &&& post.ram@ == pre.ram@.update(a as int % 0x800, spec_ror_wide(m, c) as u8)
                &&& post == (CPU {
                    ram: post.ram,
                    status: spec_with_cnz(pre.status, spec_ror_wide(m, c)),
                    ..pre
                })
                &&& post_bus == pre_bus
            },
            None => post == (CPU {
                a: spec_ror_wide(pre.a, c) as u8,
                status: spec_with_cnz(pre.status, spec_ror_wide(pre.a, c)),
                ..pre
            }) && post_bus == pre_bus,
        }
}

/// The INC arm of `dispatch_rel`.
pub open spec fn rel_inc(
    pre: CPU,
    pre_bus: MemoryBus,
    post: CPU,
    post_bus: MemoryBus,
    addr: Option<u16>,
) -> bool {
    let a = addr->Some_0;
    let m = spec_cpu_read_value(pre, pre_bus, a);
    let c = (pre.status & 0x01) != 0;
    let pulled = pre.ram@[0x100 + ((pre.sp + 1) % 0x100)];
    match addr {
            Some(a) => a < 0x2000 ==> {
                &&& post.ram@ == pre.ram@.update(a as int % 0x800, ((m + 1) % 0x100) as u8)
                &&& post == (CPU {
                    ram: post.ram,
                    status: spec_with_nz(pre.status, ((m + 1) % 0x100) as u8),
                    ..pre
                })
                &&& post_bus == pre_bus
            },
            None => halt_rel(pre, pre_bus, post, post_bus),
        }
}

/// The DEC arm of `dispatch_rel`.
pub open spec fn rel_dec(
    pre: CPU,
    pre_bus: MemoryBus,
    post: CPU,
    post_bus: MemoryBus,
    addr: Option<u16>,
) -> bool {
    let a = addr->Some_0;
    let m = spec_cpu_read_value(pre, pre_bus, a);
    let c = (pre.status & 0x01) != 0;
    let pulled = pre.ram@[0x100 + ((pre.sp + 1) % 0x100)];
    match addr {
            Some(a) => a < 0x2000 ==> {
                &&& post.ram@ == pre.ram@.update(a as int % 0x800, ((m + 0xff) % 0x100) as u8)
                &&& post == (CPU {
                    ram: post.ram,
                    status: spec_with_nz(pre.status, ((m + 0xff) % 0x100) as u8),
                    ..pre
                })
                &&& post_bus == pre_bus
            },
            None => halt_rel(pre, pre_bus, post, post_bus),
        }
}

/// The STA arm of `dispatch_rel`.
pub open spec fn rel_sta(
    pre: CPU,
    pre_bus: MemoryBus,
    post: CPU,
    post_bus: MemoryBus,
    addr: Option<u16>,
) -> bool {
    let a = addr->Some_0;
    let m = spec_cpu_read_value(pre, pre_bus, a);
    let c = (pre.status & 0x01) != 0;
    let pulled = pre.ram@[0x100 + ((pre.sp + 1) % 0x100)];
    match addr {
            Some(a) => {
                &&& a < 0x2000 ==> post.ram@ == pre.ram@.update(a as int % 0x800, pre.a)
                    && post == (CPU { ram: post.ram, ..pre }) && post_bus == pre_bus
                &&& a >= 0x2000 ==> post == pre
            },
            None => halt_rel(pre, pre_bus, post, post_bus),
        }
}

/// The STX arm of `dispatch_rel`.
pub open spec fn rel_stx(
    pre: CPU,
    pre_bus: MemoryBus,
    post: CPU,
    post_bus: MemoryBus,
    addr: Option<u16>,
) -> bool {
    let a = addr->Some_0;
    let m = spec_cpu_read_value(pre, pre_bus, a);
    let c = (pre.status & 0x01) != 0;
    let pulled = pre.ram@[0x100 + ((pre.sp + 1) % 0x100)];
    match addr {
            Some(a) => {
                &&& a < 0x2000 ==> post.ram@ == pre.ram@.update(a as int % 0x800, pre.x)
                    && post == (CPU { ram: post.ram, ..pre }) && post_bus == pre_bus
                &&& a >= 0x2000 ==> post == pre
            },
            None => halt_rel(pre, pre_bus, post, post_bus),
        }
}

/// The STY arm of `dispatch_rel`.
pub open spec fn rel_sty(
    pre: CPU,
    pre_bus: MemoryBus,
    post: CPU,
    post_bus: MemoryBus,
    addr: Option<u16>,
) -> bool {
    let a = addr->Some_0;
    let m = spec_cpu_read_value(pre, pre_bus, a);
    let c = (pre.status & 0x01) != 0;
    let pulled = pre.ram@[0x100 + ((pre.sp + 1) % 0x100)];
    match addr {
            Some(a) => {
                &&& a < 0x2000 ==> post.ram@ == pre.ram@.update(a as int % 0x800, pre.y)
                    && post == (CPU { ram: post.ram, ..pre }) && post_bus == pre_bus
                &&& a >= 0x2000 ==> post == pre
            },
            None => halt_rel(pre, pre_bus, post, post_bus),
        }
}

/// The SAX arm of `dispatch_rel`.
pub open spec fn rel_sax(
    pre: CPU,
    pre_bus: MemoryBus,
    post: CPU,
    post_bus: MemoryBus,
    addr: Option<u16>,
) -> bool {
    let a = addr->Some_0;
    let m = spec_cpu_read_value(pre, pre_bus, a);
    let c = (pre.status & 0x01) != 0;
    let pulled = pre.ram@[0x100 + ((pre.sp + 1) % 0x100)];
    match addr {
            Some(a) => {
                &&& a < 0x2000 ==> post.ram@ == pre.ram@.update(a as int % 0x800, pre.a & pre.x)
                    && post == (CPU { ram: post.ram, ..pre }) && post_bus == pre_bus
                &&& a >= 0x2000 ==> post == pre
            },
            None => halt_rel(pre, pre_bus, post, post_bus),
        }
}

/// The JMP arm of `dispatch_rel`.
pub open spec fn rel_jmp(
    pre: CPU,
    pre_bus: MemoryBus,
    post: CPU,
    post_bus: MemoryBus,
    addr: Option<u16>,
) -> bool {
    let a = addr->Some_0;
    let m = spec_cpu_read_value(pre, pre_bus, a);
    let c = (pre.status & 0x01) != 0;
    let pulled = pre.ram@[0x100 + ((pre.sp + 1) % 0x100)];
    match addr {
            Some(a) => post == (CPU { pc: a, ..pre }) && post_bus == pre_bus,
            None => halt_rel(pre, pre_bus, post, post_bus),
        }
}

/// The CLC arm of `dispatch_rel`.
pub open spec fn rel_clc(
    pre: CPU,
    pre_bus: MemoryBus,
    post: CPU,
    post_bus: MemoryBus,
    addr: Option<u16>,
) -> bool {
    let a = addr->Some_0;
    let m = spec_cpu_read_value(pre, pre_bus, a);
    let c = (pre.status & 0x01) != 0;
    let pulled = pre.ram@[0x100 + ((pre.sp + 1) % 0x100)];
    match addr {
            None => post == (CPU { status: pre.status & !0x01, ..pre }) && post_bus == pre_bus,
            Some(_) => halt_rel(pre, pre_bus, post, post_bus),
        }
}

/// The SEC arm of `dispatch_rel`.
pub open spec fn rel_sec(
    pre: CPU,
    pre_bus: MemoryBus,
    post: CPU,
    post_bus: MemoryBus,
    addr: Option<u16>,
) -> bool {
    let a = addr->Some_0;
    let m = spec_cpu_read_value(pre, pre_bus, a);
    let c = (pre.status & 0x01) != 0;
    let pulled = pre.ram@[0x100 + ((pre.sp + 1) % 0x100)];
    match addr {
            None => post == (CPU { status: pre.status | 0x01, ..pre }) && post_bus == pre_bus,
            Some(_) => halt_rel(pre, pre_bus, post, post_bus),
        }
}

/// The CLI arm of `dispatch_rel`.
pub open spec fn rel_cli(
    pre: CPU,
    pre_bus: MemoryBus,
    post: CPU,
    post_bus: MemoryBus,
    addr: Option<u16>,
) -> bool {
    let a = addr->Some_0;
    let m = spec_cpu_read_value(pre, pre_bus, a);
    let c = (pre.status & 0x01) != 0;
    let pulled = pre.ram@[0x100 + ((pre.sp + 1) % 0x100)];
    match addr {
            None => post == (CPU { status: pre.status & !0x04, ..pre }) && post_bus == pre_bus,
            Some(_) => halt_rel(pre, pre_bus, post, post_bus),
        }
}

/// The SEI arm of `dispatch_rel`.
pub open spec fn rel_sei(
    pre: CPU,
    pre_bus: MemoryBus,
    post: CPU,
    post_bus: MemoryBus,
    addr: Option<u16>,
) -> bool {
    let a = addr->Some_0;
    let m = spec_cpu_read_value(pre, pre_bus, a);
    let c = (pre.status & 0x01) != 0;
    let pulled = pre.ram@[0x100 + ((pre.sp + 1) % 0x100)];
    match addr {
            None => post == (CPU { status: pre.status | 0x04, ..pre }) && post_bus == pre_bus,
            Some(_) => halt_rel(pre, pre_bus, post, post_bus),
        }
}

/// The CLD arm of `dispatch_rel`.
pub open spec fn rel_cld(
    pre: CPU,
    pre_bus: MemoryBus,
    post: CPU,
    post_bus: MemoryBus,
    addr: Option<u16>,
) -> bool {
    let a = addr->Some_0;
    let m = spec_cpu_read_value(pre, pre_bus, a);
    let c = (pre.status & 0x01) != 0;
    let pulled = pre.ram@[0x100 + ((pre.sp + 1) % 0x100)];
    match addr {
            None => post == (CPU { status: pre.status & !0x08, ..pre }) && post_bus == pre_bus,
            Some(_) => halt_rel(pre, pre_bus, post, post_bus),
        }
}

/// The SED arm of `dispatch_rel`.
pub open spec fn rel_sed(
    pre: CPU,
    pre_bus: MemoryBus,
    post: CPU,
    post_bus: MemoryBus,
    addr: Option<u16>,
) -> bool {
    let a = addr->Some_0;
    let m = spec_cpu_read_value(pre, pre_bus, a);
    let c = (pre.status & 0x01) != 0;
    let pulled = pre.ram@[0x100 + ((pre.sp + 1) % 0x100)];
    match addr {
            None => post == (CPU { status: pre.status | 0x08, ..pre }) && post_bus == pre_bus,
            Some(_) => halt_rel(pre, pre_bus, post, post_bus),
        }
}

/// The CLV arm of `dispatch_rel`.
pub open spec fn rel_clv(
    pre: CPU,
    pre_bus: MemoryBus,
    post: CPU,
    post_bus: MemoryBus,
    addr: Option<u16>,
) -> bool {
    let a = addr->Some_0;
    let m = spec_cpu_read_value(pre, pre_bus, a);
    let c = (pre.status & 0x01) != 0;
    let pulled = pre.ram@[0x100 + ((pre.sp + 1) % 0x100)];
    match addr {
            None => post == (CPU { status: pre.status & !0x40, ..pre }) && post_bus == pre_bus,
            Some(_) => halt_rel(pre, pre_bus, post, post_bus),
        }
}

/// The TAX arm of `dispatch_rel`.
pub open spec fn rel_tax(
    pre: CPU,
    pre_bus: MemoryBus,
    post: CPU,
    post_bus: MemoryBus,
    addr: Option<u16>,
) -> bool {
    let a = addr->Some_0;
    let m = spec_cpu_read_value(pre, pre_bus, a);
    let c = (pre.status & 0x01) != 0;
    let pulled = pre.ram@[0x100 + ((pre.sp + 1) % 0x100)];
    match addr {
            None => post == (CPU {
                x: pre.a,
                status: spec_with_nz(pre.status, pre.a),
                ..pre
            }) && post_bus == pre_bus,
            Some(_) => halt_rel(pre, pre_bus, post, post_bus),
        }
}

/// The TAY arm of `dispatch_rel`.
pub open spec fn rel_tay(
    pre: CPU,
    pre_bus: MemoryBus,
    post: CPU,
    post_bus: MemoryBus,
    addr: Option<u16>,
) -> bool {
    let a = addr->Some_0;
    let m = spec_cpu_read_value(pre, pre_bus, a);
    let c = (pre.status & 0x01) != 0;
    let pulled = pre.ram@[0x100 + ((pre.sp + 1) % 0x100)];
    match addr {
            None => post == (CPU {
                y: pre.a,
                status: spec_with_nz(pre.status, pre.a),
                ..pre
            }) && post_bus == pre_bus,
            Some(_) => halt_rel(pre, pre_bus, post, post_bus),
        }
}

/// The TSX arm of `dispatch_rel`.
pub open spec fn rel_tsx(
    pre: CPU,
    pre_bus: MemoryBus,
    post: CPU,
    post_bus: MemoryBus,
    addr: Option<u16>,
) -> bool {
    let a = addr->Some_0;
    let m = spec_cpu_read_value(pre, pre_bus, a);
    let c = (pre.status & 0x01) != 0;
    let pulled = pre.ram@[0x100 + ((pre.sp + 1) % 0x100)];
    match addr {
            None => post == (CPU {
                x: pre.sp,
                status: spec_with_nz(pre.status, pre.sp),
                ..pre
            }) && post_bus == pre_bus,
            Some(_) => halt_rel(pre, pre_bus, post, post_bus),
        }
}

/// The TXA arm of `dispatch_rel`.
pub open spec fn rel_txa(
    pre: CPU,
    pre_bus: MemoryBus,
    post: CPU,
    post_bus: MemoryBus,
    addr: Option<u16>,
) -> bool {
    let a = addr->Some_0;
    let m = spec_cpu_read_value(pre, pre_bus, a);
    let c = (pre.status & 0x01) != 0;
    let pulled = pre.ram@[0x100 + ((pre.sp + 1) % 0x100)];
    match addr {
            None => post == (CPU {
                a: pre.x,
                status: spec_with_nz(pre.status, pre.x),
                ..pre
            }) && post_bus == pre_bus,
            Some(_) => halt_rel(pre, pre_bus, post, post_bus),
        }
}

/// The TYA arm of `dispatch_rel`.
pub open spec fn rel_tya(
    pre: CPU,
    pre_bus: MemoryBus,
    post: CPU,
    post_bus: MemoryBus,
    addr: Option<u16>,
) -> bool {
    let a = addr->Some_0;
    let m = spec_cpu_read_value(pre, pre_bus, a);
    let c = (pre.status & 0x01) != 0;
    let pulled = pre.ram@[0x100 + ((pre.sp + 1) % 0x100)];
    match addr {
            None => post == (CPU {
                a: pre.y,
                status: spec_with_nz(pre.status, pre.y),
                ..pre
            }) && post_bus == pre_bus,
            Some(_) => halt_rel(pre, pre_bus, post, post_bus),
        }
}

/// The TXS arm of `dispatch_rel`.
pub open spec fn rel_txs(
    pre: CPU,
    pre_bus: MemoryBus,
    post: CPU,
    post_bus: MemoryBus,
    addr: Option<u16>,
) -> bool {
    let a = addr->Some_0;
    let m = spec_cpu_read_value(pre, pre_bus, a);
    let c = (pre.status & 0x01) != 0;
    let pulled = pre.ram@[0x100 + ((pre.sp + 1) % 0x100)];
    match addr {
            None => post == (CPU { sp: pre.x, ..pre }) && post_bus == pre_bus,
            Some(_) => halt_rel(pre, pre_bus, post, post_bus),
        }
}

/// The INX arm of `dispatch_rel`.
pub open spec fn rel_inx(
    pre: CPU,
    pre_bus: MemoryBus,
    post: CPU,
    post_bus: MemoryBus,
    addr: Option<u16>,
) -> bool {
    let a = addr->Some_0;
    let m = spec_cpu_read_value(pre, pre_bus, a);
    let c = (pre.status & 0x01) != 0;
    let pulled = pre.ram@[0x100 + ((pre.sp + 1) % 0x100)];
    match addr {
            None => post == (CPU {
                x: ((pre.x + 1) % 0x100) as u8,
                status: spec_with_nz(pre.status, ((pre.x + 1) % 0x100) as u8),
                ..pre
            }) && post_bus == pre_bus,
            Some(_) => halt_rel(pre, pre_bus, post, post_bus),
        }
}

/// The INY arm of `dispatch_rel`.
pub open spec fn rel_iny(
    pre: CPU,
    pre_bus: MemoryBus,
    post: CPU,
    post_bus: MemoryBus,
    addr: Option<u16>,
) -> bool {
    let a = addr->Some_0;
    let m = spec_cpu_read_value(pre, pre_bus, a);
    let c = (pre.status & 0x01) != 0;
    let pulled = pre.ram@[0x100 + ((pre.sp + 1) % 0x100)];
    match addr {
            None => post == (CPU {
                y: ((pre.y + 1) % 0x100) as u8,
                status: spec_with_nz(pre.status, ((pre.y + 1) % 0x100) as u8),
                ..pre
            }) && post_bus == pre_bus,
            Some(_) => halt_rel(pre, pre_bus, post, post_bus),
        }
}

/// The DEX arm of `dispatch_rel`.
pub open spec fn rel_dex(
    pre: CPU,
    pre_bus: MemoryBus,
    post: CPU,
    post_bus: MemoryBus,
    addr: Option<u16>,
) -> bool {
    let a = addr->Some_0;
    let m = spec_cpu_read_value(pre, pre_bus, a);
    let c = (pre.status & 0x01) != 0;
    let pulled = pre.ram@[0x100 + ((pre.sp + 1) % 0x100)];
    match addr {
            None => post == (CPU {
                x: ((pre.x + 0xff) % 0x100) as u8,
                status: spec_with_nz(pre.status, ((pre.x + 0xff) % 0x100) as u8),
                ..pre
            }) && post_bus == pre_bus,
            Some(_) => halt_rel(pre, pre_bus, post, post_bus),
        }
}

/// The DEY arm of `dispatch_rel`.
pub open spec fn rel_dey(
    pre: CPU,
    pre_bus: MemoryBus,
    post: CPU,
    post_bus: MemoryBus,
    addr: Option<u16>,
) -> bool {
    let a = addr->Some_0;
    let m = spec_cpu_read_value(pre, pre_bus, a);
    let c = (pre.status & 0x01) != 0;
    let pulled = pre.ram@[0x100 + ((pre.sp + 1) % 0x100)];
    match addr {
            None => post == (CPU {
                y: ((pre.y + 0xff) % 0x100) as u8,
                status: spec_with_nz(pre.status, ((pre.y + 0xff) % 0x100) as u8),
                ..pre
            }) && post_bus == pre_bus,
            Some(_) => halt_rel(pre, pre_bus, post, post_bus),
        }
}

/// The PHA arm of `dispatch_rel`.
pub open spec fn rel_pha(
    pre: CPU,
    pre_bus: MemoryBus,
    post: CPU,
    post_bus: MemoryBus,
    addr: Option<u16>,
) -> bool {
    let a = addr->Some_0;
    let m = spec_cpu_read_value(pre, pre_bus, a);
    let c = (pre.status & 0x01) != 0;
    let pulled = pre.ram@[0x100 + ((pre.sp + 1) % 0x100)];
    match addr {
            None => {
                &&& post.ram@ == pre.ram@.update(0x100 + pre.sp, pre.a)
                &&& post == (CPU {
                    ram: post.ram,
                    sp: ((pre.sp + 0xff) % 0x100) as u8,
                    ..pre
                })
                &&& post_bus == pre_bus
            },
            Some(_) => halt_rel(pre, pre_bus, post, post_bus),
        }
}

/// The PHP arm of `dispatch_rel`.
pub open spec fn rel_php(
    pre: CPU,
    pre_bus: MemoryBus,
    post: CPU,
    post_bus: MemoryBus,
    addr: Option<u16>,
) -> bool {
    let a = addr->Some_0;
    let m = spec_cpu_read_value(pre, pre_bus, a);
    let c = (pre.status & 0x01) != 0;
    let pulled = pre.ram@[0x100 + ((pre.sp + 1) % 0x100)];
    match addr {
            None => {
                &&& post.ram@ == pre.ram@.update(0x100 + pre.sp, pre.status | 0x10)
                &&& post == (CPU {
                    ram: post.ram,
                    sp: ((pre.sp + 0xff) % 0x100) as u8,
                    ..pre
                })
                &&& post_bus == pre_bus
            },
            Some(_) => halt_rel(pre, pre_bus, post, post_bus),
        }
}

/// The PLA arm of `dispatch_rel`.
pub open spec fn rel_pla(
    pre: CPU,
    pre_bus: MemoryBus,
    post: CPU,
    post_bus: MemoryBus,
    addr: Option<u16>,
) -> bool {
    let a = addr->Some_0;
    let m = spec_cpu_read_value(pre, pre_bus, a);
    let c = (pre.status & 0x01) != 0;
    let pulled = pre.ram@[0x100 + ((pre.sp + 1) % 0x100)];
    match addr {
            None => post == (CPU {
                a: pulled,
                status: spec_with_nz(pre.status, pulled),
                sp: ((pre.sp + 1) % 0x100) as u8,
                ..pre
            }) && post_bus == pre_bus,
            Some(_) => halt_rel(pre, pre_bus, post, post_bus),
        }
}

/// The PLP arm of `dispatch_rel`.
pub open spec fn rel_plp(
    pre: CPU,
    pre_bus: MemoryBus,
    post: CPU,
    post_bus: MemoryBus,
    addr: Option<u16>,
) -> bool {
    let a = addr->Some_0;
    let m = spec_cpu_read_value(pre, pre_bus, a);
    let c = (pre.status & 0x01) != 0;
    let pulled = pre.ram@[0x100 + ((pre.sp + 1) % 0x100)];
    match addr {
            None => post == (CPU {
                status: ((pulled | 0x20) & !0x10),
                sp: ((pre.sp + 1) % 0x100) as u8,
                ..pre
            }) && post_bus == pre_bus,
            Some(_) => halt_rel(pre, pre_bus, post, post_bus),
        }
}

/// The JSR arm of `dispatch_rel`.
pub open spec fn rel_jsr(
    pre: CPU,
    pre_bus: MemoryBus,
    post: CPU,
    post_bus: MemoryBus,
    addr: Option<u16>,
) -> bool {
    let a = addr->Some_0;
    let m = spec_cpu_read_value(pre, pre_bus, a);
    let c = (pre.status & 0x01) != 0;
    let pulled = pre.ram@[0x100 + ((pre.sp + 1) % 0x100)];
    match addr {
            Some(a) => {
                &&& post.ram@ == pre.ram@.update(
                    0x100 + pre.sp,
                    (((pre.pc + 0xffff) % 0x10000) / 0x100) as u8,
                ).update(
                    0x100 + ((pre.sp + 0xff) % 0x100),
                    (((pre.pc + 0xffff) % 0x10000) % 0x100) as u8,
                )
                &&& post == (CPU {
                    ram: post.ram,
                    sp: ((pre.sp + 0xfe) % 0x100) as u8,
                    pc: a,
                    ..pre
                })
                &&& post_bus == pre_bus
            },
            None => halt_rel(pre, pre_bus, post, post_bus),
        }
}

/// The RTS arm of `dispatch_rel`.
pub open spec fn rel_rts(
    pre: CPU,
    pre_bus: MemoryBus,
    post: CPU,
    post_bus: MemoryBus,
    addr: Option<u16>,
) -> bool {
    let a = addr->Some_0;
    let m = spec_cpu_read_value(pre, pre_bus, a);
    let c = (pre.status & 0x01) != 0;
    let pulled = pre.ram@[0x100 + ((pre.sp + 1) % 0x100)];
    match addr {
            None => {
                let lo = pre.ram@[0x100 + ((pre.sp + 1) % 0x100)];
                let hi = pre.ram@[0x100 + ((pre.sp + 2) % 0x100)];
                &&& post == (CPU {
                    pc: (((lo + hi * 0x100) + 1) % 0x10000) as u16,
                    sp: ((pre.sp + 2) % 0x100) as u8,
                    ..pre
                })
                &&& post_bus == pre_bus
            },
            Some(_) => halt_rel(pre, pre_bus, post, post_bus),
        }
}

/// The RTI arm of `dispatch_rel`.
pub open spec fn rel_rti(
    pre: CPU,
    pre_bus: MemoryBus,
    post: CPU,
    post_bus: MemoryBus,
    addr: Option<u16>,
) -> bool {
    let a = addr->Some_0;
    let m = spec_cpu_read_value(pre, pre_bus, a);
    let c = (pre.status & 0x01) != 0;
    let pulled = pre.ram@[0x100 + ((pre.sp + 1) % 0x100)];
    match addr {
            None => {
                let st = pre.ram@[0x100 + ((pre.sp + 1) % 0x100)];
                let rlo = pre.ram@[0x100 + ((pre.sp + 2) % 0x100)];
                let rhi = pre.ram@[0x100 + ((pre.sp + 3) % 0x100)];
                &&& post == (CPU {
                    status: ((st | 0x20) & !0x10),
                    pc: (rlo + rhi * 0x100) as u16,
                    sp: ((pre.sp + 3) % 0x100) as u8,
                    ..pre
                })
                &&& post_bus == pre_bus
            },
            Some(_) => halt_rel(pre, pre_bus, post, post_bus),
        }
}

/// The BRK arm of `dispatch_rel`.
pub open spec fn rel_brk(
    pre: CPU,
    pre_bus: MemoryBus,
    post: CPU,
    post_bus: MemoryBus,
    addr: Option<u16>,
) -> bool {
    let a = addr->Some_0;
    let m = spec_cpu_read_value(pre, pre_bus, a);
    let c = (pre.status & 0x01) != 0;
    let pulled = pre.ram@[0x100 + ((pre.sp + 1) % 0x100)];
    match addr {
            None => {
                &&& post.ram@ == pre.ram@.update(
                    0x100 + pre.sp,
                    (pre.pc / 0x100) as u8,
                ).update(
                    0x100 + ((pre.sp + 0xff) % 0x100),
                    (pre.pc % 0x100) as u8,
                ).update(0x100 + ((pre.sp + 0xfe) % 0x100), pre.status | 0x10)
                &&& post == (CPU {
                    ram: post.ram,
                    sp: ((pre.sp + 0xfd) % 0x100) as u8,
                    status: pre.status | 0x04,
                    pc: spec_cpu_read_address(pre, pre_bus, 0xfffe),
                    ..pre
                })
                &&& post_bus == pre_bus
            },
            Some(_) => halt_rel(pre, pre_bus, post, post_bus),
        }
}

/// The DCP arm of `dispatch_rel`.
pub open spec fn rel_dcp(
    pre: CPU,
    pre_bus: MemoryBus,
    post: CPU,
    post_bus: MemoryBus,
    addr: Option<u16>,
) -> bool {
    let a = addr->Some_0;
    let m = spec_cpu_read_value(pre, pre_bus, a);
    let c = (pre.status & 0x01) != 0;
    let pulled = pre.ram@[0x100 + ((pre.sp + 1) % 0x100)];
    match addr {
            Some(a) => a < 0x2000 ==> {
                let m1 = ((m + 0xff) % 0x100) as u8;
                &&& post.ram@ == pre.ram@.update(a as int % 0x800, m1)
                &&& post == (CPU {
                    ram: post.ram,
                    status: spec_compare(spec_with_nz(pre.status, m1), pre.a, m1),
                    ..pre
                })
                &&& post_bus == pre_bus
            },
            None => halt_rel(pre, pre_bus, post, post_bus),
        }
}

/// The ISB arm of `dispatch_rel`.
pub open spec fn rel_isb(
    pre: CPU,
    pre_bus: MemoryBus,
    post: CPU,
    post_bus: MemoryBus,
    addr: Option<u16>,
) -> bool {
    let a = addr->Some_0;
    let m = spec_cpu_read_value(pre, pre_bus, a);
    let c = (pre.status & 0x01) != 0;
    let pulled = pre.ram@[0x100 + ((pre.sp + 1) % 0x100)];
    match addr {
            Some(a) => a < 0x2000 ==> {
                let m1 = ((m + 1) % 0x100) as u8;
                let st1 = spec_with_nz(pre.status, m1);
                let c1 = (st1 & 0x01) != 0;
                &&& post.ram@ == pre.ram@.update(a as int % 0x800, m1)
                &&& post == (CPU {
                    ram: post.ram,
                    a: spec_sbc(pre.a, m1, c1, st1).0,
                    status: spec_sbc(pre.a, m1, c1, st1).1,
                    ..pre
                })
                &&& post_bus == pre_bus
            },
            None => halt_rel(pre, pre_bus, post, post_bus),
        }
}

/// The SLO arm of `dispatch_rel`.
pub open spec fn rel_slo(
    pre: CPU,
    pre_bus: MemoryBus,
    post: CPU,
    post_bus: MemoryBus,
    addr: Option<u16>,
) -> bool {
    let a = addr->Some_0;
    let m = spec_cpu_read_value(pre, pre_bus, a);
    let c = (pre.status & 0x01) != 0;
    let pulled = pre.ram@[0x100 + ((pre.sp + 1) % 0x100)];
    match addr {
            Some(a) => a < 0x2000 ==> {
                let m1 = spec_shl_wide(m) as u8;
                let st1 = spec_with_cnz(pre.status, spec_shl_wide(m));
                &&& post.ram@ == pre.ram@.update(a as int % 0x800, m1)
                &&& post == (CPU {
                    ram: post.ram,
                    a: (pre.a | m1),
                    status: spec_with_nz(st1, pre.a | m1),
                    ..pre
                })
                &&& post_bus == pre_bus
            },
            None => halt_rel(pre, pre_bus, post, post_bus),
        }
}

/// The SRE arm of `dispatch_rel`.
pub open spec fn rel_sre(
    pre: CPU,
    pre_bus: MemoryBus,
    post: CPU,
    post_bus: MemoryBus,
    addr: Option<u16>,
) -> bool {
    let a = addr->Some_0;
    let m = spec_cpu_read_value(pre, pre_bus, a);
    let c = (pre.status & 0x01) != 0;
    let pulled = pre.ram@[0x100 + ((pre.sp + 1) % 0x100)];
    match addr {
            Some(a) => a < 0x2000 ==> {
                let m1 = spec_shr_wide(m) as u8;
                let st1 = spec_with_cnz(pre.status, spec_shr_wide(m));
                &&& post.ram@ == pre.ram@.update(a as int % 0x800, m1)
                &&& post == (CPU {
                    ram: post.ram,
                    a: (pre.a ^ m1),
                    status: spec_with_nz(st1, pre.a ^ m1),
                    ..pre
                })
                &&& post_bus == pre_bus
            },
            None => halt_rel(pre, pre_bus, post, post_bus),
        }
}

/// The RLA arm of `dispatch_rel`.
pub open spec fn rel_rla(
    pre: CPU,
    pre_bus: MemoryBus,
    post: CPU,
    post_bus: MemoryBus,
    addr: Option<u16>,
) -> bool {
    let a = addr->Some_0;
    let m = spec_cpu_read_value(pre, pre_bus, a);
    let c = (pre.status & 0x01) != 0;
    let pulled = pre.ram@[0x100 + ((pre.sp + 1) % 0x100)];
    match addr {
            Some(a) => a < 0x2000 ==> {
                let m1 = spec_rol_wide(m, c) as u8;
                let st1 = spec_with_cnz(pre.status, spec_rol_wide(m, c));
                &&& post.ram@ == pre.ram@.update(a as int % 0x800, m1)
                &&& post == (CPU {
                    ram: post.ram,
                    a: (pre.a & m1),
                    status: spec_with_nz(st1, pre.a & m1),
                    ..pre
                })
                &&& post_bus == pre_bus
            },
            None => halt_rel(pre, pre_bus, post, post_bus),
        }
}

/// The RRA arm of `dispatch_rel`.
pub open spec fn rel_rra(
    pre: CPU,
    pre_bus: MemoryBus,
    post: CPU,
    post_bus: MemoryBus,
    addr: Option<u16>,
) -> bool {
    let a = addr->Some_0;
    let m = spec_cpu_read_value(pre, pre_bus, a);
    let c = (pre.status & 0x01) != 0;
    let pulled = pre.ram@[0x100 + ((pre.sp + 1) % 0x100)];
    match addr {
            Some(a) => a < 0x2000 ==> {
                let m1 = spec_ror_wide(m, c) as u8;
                let st1 = spec_with_cnz(pre.status, spec_ror_wide(m, c));
                let c1 = (st1 & 0x01) != 0;
                &&& post.ram@ == pre.ram@.update(a as int % 0x800, m1)
                &&& post == (CPU {
                    ram: post.ram,
                    a: spec_adc(pre.a, m1, c1, st1).0,
                    status: spec_adc(pre.a, m1, c1, st1).1,
                    ..pre
                })
                &&& post_bus == pre_bus
            },
            None => halt_rel(pre, pre_bus, post, post_bus),
        }
}

pub open spec fn dispatch_rel(
    pre: CPU,
    pre_bus: MemoryBus,
    post: CPU,
    post_bus: MemoryBus,
    opcode: instructions::Opcode,
    addr: Option<u16>,
) -> bool {
    match opcode {
        instructions::Opcode::ADC => rel_adc(pre, pre_bus, post, post_bus, addr),
        instructions::Opcode::SBC => rel_sbc(pre, pre_bus, post, post_bus, addr),
        instructions::Opcode::AND => rel_and(pre, pre_bus, post, post_bus, addr),
        instructions::Opcode::ORA => rel_ora(pre, pre_bus, post, post_bus, addr),
        instructions::Opcode::EOR => rel_eor(pre, pre_bus, post, post_bus, addr),
        instructions::Opcode::BIT => rel_bit(pre, pre_bus, post, post_bus, addr),
        instructions::Opcode::CMP => rel_cmp(pre, pre_bus, post, post_bus, addr),
        instructions::Opcode::CPX => rel_cpx(pre, pre_bus, post, post_bus, addr),
        instructions::Opcode::CPY => rel_cpy(pre, pre_bus, post, post_bus, addr),
        instructions::Opcode::LDA => rel_lda(pre, pre_bus, post, post_bus, addr),
        instructions::Opcode::LDX => rel_ldx(pre, pre_bus, post, post_bus, addr),
        instructions::Opcode::LDY => rel_ldy(pre, pre_bus, post, post_bus, addr),
        instructions::Opcode::LAX => rel_lax(pre, pre_bus, post, post_bus, addr),
        instructions::Opcode::ASL => rel_asl(pre, pre_bus, post, post_bus, addr),
        instructions::Opcode::LSR => rel_lsr(pre, pre_bus, post, post_bus, addr),
        instructions::Opcode::ROL => rel_rol(pre, pre_bus, post, post_bus, addr),
        instructions::Opcode::ROR => rel_ror(pre, pre_bus, post, post_bus, addr),
        instructions::Opcode::INC => rel_inc(pre, pre_bus, post, post_bus, addr),
        instructions::Opcode::DEC => rel_dec(pre, pre_bus, post, post_bus, addr),
        instructions::Opcode::STA => rel_sta(pre, pre_bus, post, post_bus, addr),
        instructions::Opcode::STX => rel_stx(pre, pre_bus, post, post_bus, addr),
        instructions::Opcode::STY => rel_sty(pre, pre_bus, post, post_bus, addr),
        instructions::Opcode::SAX => rel_sax(pre, pre_bus, post, post_bus, addr),
        instructions::Opcode::JMP => rel_jmp(pre, pre_bus, post, post_bus, addr),
        instructions::Opcode::NOP => post == pre && post_bus == pre_bus,
        instructions::Opcode::BCC => branch_rel(pre, pre_bus, post, post_bus, addr, 0x01, false),
        instructions::Opcode::BCS => branch_rel(pre, pre_bus, post, post_bus, addr, 0x01, true),
        instructions::Opcode::BNE => branch_rel(pre, pre_bus, post, post_bus, addr, 0x02, false),
        instructions::Opcode::BEQ => branch_rel(pre, pre_bus, post, post_bus, addr, 0x02, true),
        instructions::Opcode::BPL => branch_rel(pre, pre_bus, post, post_bus, addr, 0x80, false),
        instructions::Opcode::BMI => branch_rel(pre, pre_bus, post, post_bus, addr, 0x80, true),
        instructions::Opcode::BVC => branch_rel(pre, pre_bus, post, post_bus, addr, 0x40, false),
        instructions::Opcode::BVS => branch_rel(pre, pre_bus, post, post_bus, addr, 0x40, true),
        instructions::Opcode::CLC => rel_clc(pre, pre_bus, post, post_bus, addr),
        instructions::Opcode::SEC => rel_sec(pre, pre_bus, post, post_bus, addr),
        instructions::Opcode::CLI => rel_cli(pre, pre_bus, post, post_bus, addr),
        instructions::Opcode::SEI => rel_sei(pre, pre_bus, post, post_bus, addr),
        instructions::Opcode::CLD => rel_cld(pre, pre_bus, post, post_bus, addr),
        instructions::Opcode::SED => rel_sed(pre, pre_bus, post, post_bus, addr),
        instructions::Opcode::CLV => rel_clv(pre, pre_bus, post, post_bus, addr),
        instructions::Opcode::TAX => rel_tax(pre, pre_bus, post, post_bus, addr),
        instructions::Opcode::TAY => rel_tay(pre, pre_bus, post, post_bus, addr),
        instructions::Opcode::TSX => rel_tsx(pre, pre_bus, post, post_bus, addr),
        instructions::Opcode::TXA => rel_txa(pre, pre_bus, post, post_bus, addr),
        instructions::Opcode::TYA => rel_tya(pre, pre_bus, post, post_bus, addr),
        instructions::Opcode::TXS => rel_txs(pre, pre_bus, post, post_bus, addr),
        instructions::Opcode::INX => rel_inx(pre, pre_bus, post, post_bus, addr),
        instructions::Opcode::INY => rel_iny(pre, pre_bus, post, post_bus, addr),
        instructions::Opcode::DEX => rel_dex(pre, pre_bus, post, post_bus, addr),
        instructions::Opcode::DEY => rel_dey(pre, pre_bus, post, post_bus, addr),
        instructions::Opcode::PHA => rel_pha(pre, pre_bus, post, post_bus, addr),
        instructions::Opcode::PHP => rel_php(pre, pre_bus, post, post_bus, addr),
        instructions::Opcode::PLA => rel_pla(pre, pre_bus, post, post_bus, addr),
        instructions::Opcode::PLP => rel_plp(pre, pre_bus, post, post_bus, addr),
        instructions::Opcode::JSR => rel_jsr(pre, pre_bus, post, post_bus, addr),
        instructions::Opcode::RTS => rel_rts(pre, pre_bus, post, post_bus, addr),
        instructions::Opcode::RTI => rel_rti(pre, pre_bus, post, post_bus, addr),
        instructions::Opcode::BRK => rel_brk(pre, pre_bus, post, post_bus, addr),
        instructions::Opcode::DCP => rel_dcp(pre, pre_bus, post, post_bus, addr),
        instructions::Opcode::ISB => rel_isb(pre, pre_bus, post, post_bus, addr),
        instructions::Opcode::SLO => rel_slo(pre, pre_bus, post, post_bus, addr),
        instructions::Opcode::SRE => rel_sre(pre, pre_bus, post, post_bus, addr),
        instructions::Opcode::RLA => rel_rla(pre, pre_bus, post, post_bus, addr),
        instructions::Opcode::RRA => rel_rra(pre, pre_bus, post, post_bus, addr),
        _ => halt_rel(pre, pre_bus, post, post_bus),
    }
}

/// How a conditional branch relates the CPU to its successor: when the
/// status bit under `mask` equals `wants_set` the branch is taken, costing
/// one extra cycle, or two when the target sits on another page.
pub open spec fn branch_rel(
    pre: CPU,
    pre_bus: MemoryBus,
    post: CPU,
    post_bus: MemoryBus,
    addr: Option<u16>,
    mask: u8,
    wants_set: bool,
) -> bool {
    match addr {
        Some(a) => {
            let taken = ((pre.status & mask) != 0) == wants_set;
            &&& post_bus == pre_bus
            &&& taken ==> post == (CPU {
                pc: a,
                cycles: spec_cycles_after(
                    pre.cycles,
                    if spec_crosses_page_boundary(pre.pc, a) { 2u64 } else { 1u64 },
                ),
                ..pre
            })
            &&& !taken ==> post == pre
        },
        None => halt_rel(pre, pre_bus, post, post_bus),
    }
}

/// The fully decoded instruction at `addr`, assuming its fetches are
/// side-effect-free (see `spec_decode_pure`): the table row of the opcode
/// byte, the resolved operand address per addressing mode — zero-page
/// indexing wraps within the zero page, indirect resolution keeps the
/// original page-wrap bug, relative operands are signed displacements from
/// the following instruction — and the page-cross penalty flag.
#[verifier::opaque]
pub open spec fn spec_decode(cpu: CPU, bus: MemoryBus, addr: u16) -> DecodedInstruction {
    let operand_addr = ((addr + 1) % 0x10000) as u16;
    let eo = instructions::spec_opcode_entry(spec_cpu_read_value(cpu, bus, addr));
    match eo.addressing_mode {
        AddressingMode::Implied => DecodedInstruction {
            extended_opcode: eo,
            address_info: AddressInfo::Implied,
            width: 1,
            page_boundary_hit: false,
            final_address: None,
        },
        AddressingMode::Accumulator => DecodedInstruction {
            extended_opcode: eo,
            address_info: AddressInfo::Accumulator,
            width: 1,
            page_boundary_hit: false,
            final_address: None,
        },
        AddressingMode::Absolute => {
            let address = spec_cpu_read_address(cpu, bus, operand_addr);
            DecodedInstruction {
                extended_opcode: eo,
                address_info: AddressInfo::Absolute { address },
                width: 3,
                page_boundary_hit: false,
                final_address: Some(address),
            }
        },
        AddressingMode::AbsoluteIndexedX => {
            let indirect = spec_cpu_read_address(cpu, bus, operand_addr);
            let address = ((indirect + cpu.x) % 0x10000) as u16;
            DecodedInstruction {
                extended_opcode: eo,
                address_info: AddressInfo::AbsoluteIndexedX { indirect, address },
                width: 3,
                page_boundary_hit: eo.page_boundary_penalty && spec_crosses_page_boundary(
                    indirect,
                    address,
                ),
                final_address: Some(address),
            }
        },
        AddressingMode::AbsoluteIndexedY => {
            let indirect = spec_cpu_read_address(cpu, bus, operand_addr);
            let address = ((indirect + cpu.y) % 0x10000) as u16;
            DecodedInstruction {
                extended_opcode: eo,
                address_info: AddressInfo::AbsoluteIndexedY { indirect, address },
                width: 3,
                page_boundary_hit: eo.page_boundary_penalty && spec_crosses_page_boundary(
                    indirect,
                    address,
                ),
                final_address: Some(address),
            }
        },
        AddressingMode::Immediate => DecodedInstruction {
            extended_opcode: eo,
            address_info: AddressInfo::Immediate { address: operand_addr },
            width: 2,
            page_boundary_hit: false,
            final_address: Some(operand_addr),
        },
        AddressingMode::IndexedIndirect => {
            let offset = spec_cpu_read_value(cpu, bus, operand_addr);
            let indirect = (((offset + cpu.x) % 0x100) as u16);
            let address = spec_cpu_read_address_indirect(cpu, bus, indirect);
            DecodedInstruction {
                extended_opcode: eo,
                address_info: AddressInfo::IndexedIndirect { offset, indirect, address },
                width: 2,
                page_boundary_hit: false,
                final_address: Some(address),
            }
        },
        AddressingMode::Indirect => {
            let indirect = spec_cpu_read_address(cpu, bus, operand_addr);
            let address = spec_cpu_read_address_indirect(cpu, bus, indirect);
            DecodedInstruction {
                extended_opcode: eo,
                address_info: AddressInfo::Indirect { indirect, address },
                width: 3,
                page_boundary_hit: false,
                final_address: Some(address),
            }
        },
        AddressingMode::IndirectIndexed => {
            let offset = spec_cpu_read_value(cpu, bus, operand_addr);
            let indirect = spec_cpu_read_address_indirect(cpu, bus, offset as u16);
            let address = ((indirect + cpu.y) % 0x10000) as u16;
            DecodedInstruction {
                extended_opcode: eo,
                address_info: AddressInfo::IndirectIndexed { offset, indirect, address },
                width: 2,
                page_boundary_hit: eo.page_boundary_penalty && spec_crosses_page_boundary(
                    indirect,
                    address,
                ),
                final_address: Some(address),
            }
        },
        AddressingMode::Relative => {
            let offset = spec_cpu_read_value(cpu, bus, operand_addr);
            let next_pc = (addr + 2) % 0x10000;
            let address = if offset >= 0x80 {
                ((next_pc + 0x10000 - (0x100 - offset)) % 0x10000) as u16
            } else {
                ((next_pc + offset) % 0x10000) as u16
            };
            DecodedInstruction {
                extended_opcode: eo,
                address_info: AddressInfo::Relative { offset, address },
                width: 2,
                page_boundary_hit: false,
                final_address: Some(address),
            }
        },
        AddressingMode::ZeroPage => {
            let address = spec_cpu_read_value(cpu, bus, operand_addr);
            DecodedInstruction {
                extended_opcode: eo,
                address_info: AddressInfo::ZeroPage { address },
                width: 2,
                page_boundary_hit: false,
                final_address: Some(address as u16),
            }
        },
        AddressingMode::ZeroPageIndexedX => {
            let offset = spec_cpu_read_value(cpu, bus, operand_addr);
            let address = (((offset + cpu.x) % 0x100) as u16);
            DecodedInstruction {
                extended_opcode: eo,
                address_info: AddressInfo::ZeroPageIndexedX { offset, address },
                width: 2,
                page_boundary_hit: false,
                final_address: Some(address),
            }
        },
        AddressingMode::ZeroPageIndexedY => {
            let offset = spec_cpu_read_value(cpu, bus, operand_addr);
            let address = (((offset + cpu.y) % 0x100) as u16);
            DecodedInstruction {
                extended_opcode: eo,
                address_info: AddressInfo::ZeroPageIndexedY { offset, address },
                width: 2,
                page_boundary_hit: false,
                final_address: Some(address),
            }
        },
    }
}

/// Whether every fetch `spec_decode` makes at `addr` is side-effect-free,
/// so that decoding reports exactly `spec_decode` and moves nothing.
#[verifier::opaque]
pub open spec fn spec_decode_pure(cpu: CPU, bus: MemoryBus, addr: u16) -> bool {
    let operand_addr = ((addr + 1) % 0x10000) as u16;
    let operand_addr2 = ((addr + 2) % 0x10000) as u16;
    let eo = instructions::spec_opcode_entry(spec_cpu_read_value(cpu, bus, addr));
    &&& side_effect_free(addr)
    &&& side_effect_free(operand_addr)
    &&& side_effect_free(operand_addr2)
    &&& (eo.addressing_mode == AddressingMode::Indirect ==> {
        let indirect = spec_cpu_read_address(cpu, bus, operand_addr);
        &&& side_effect_free(indirect)
        &&& side_effect_free(((indirect & 0xff00) + ((indirect + 1) % 0x100)) as u16)
    })
}

impl CPU {
    /// Power-up register file: everything zero, the stack pointer at the
    /// top, RAM cleared.
    pub fn new() -> (r: CPU)
        ensures
            r.cycles == 0,
            r.pc == 0,
            r.a == 0,
            r.x == 0,
            r.y == 0,
            r.status == 0,
            r.sp == 0,
            forall|i: int| 0 <= i < 0x800 ==> r.ram@[i] == 0,
            !r.halted,
    {
        CPU {
            cycles: 0,
            pc: 0,
            a: 0,
            x: 0,
            y: 0,
            status: 0,
            sp: 0,
            ram: [0; 0x800],
            halted: false,
        }
    }

    /// Whether a status flag is set.
    pub fn check_status_bit(&self, bit: StatusFlag) -> (r: bool)
        ensures
            r == ((self.status & bit.spec_mask()) != 0),
    {
        let mask = bit.mask();
        self.status & mask != 0
    }

    /// Force one status flag to a value, leaving the others alone.
    pub fn write_status_bit(&mut self, bit: StatusFlag, value: bool)
        ensures
            final(self).status == spec_set_flag(old(self).status, bit.spec_mask(), value),
            *final(self) == (CPU { status: final(self).status, ..*old(self) }),
    {
        let mask = bit.mask();
        if value {
            self.status = self.status | mask;
        } else {
            self.status = self.status & !mask;
        }
    }

    /// Set N and Z from a result byte.
    pub fn set_nz(&mut self, value: u8)
        ensures
            final(self).status == spec_with_nz(old(self).status, value),
            *final(self) == (CPU { status: final(self).status, ..*old(self) }),
    {
        self.write_status_bit(StatusFlag::N, value >= 0x80);
        self.write_status_bit(StatusFlag::Z, value == 0x00);
    }

    /// Set C from bit 8 of a wide result and N/Z from its low byte.
    pub fn set_cnz(&mut self, value: u16)
        ensures
            final(self).status == spec_with_cnz(old(self).status, value),
            *final(self) == (CPU { status: final(self).status, ..*old(self) }),
    {
        self.write_status_bit(StatusFlag::C, (value & 0x100) != 0);
        self.set_nz(value as u8);
    }

    /// Read one byte through the CPU's address decoder.
    pub fn read_byte(&self, bus: &mut MemoryBus, addr: u16) -> (r: u8)
        requires
            old(bus).wf(),
        ensures
            ppu::same_timing(old(bus).ppu, final(bus).ppu),
            final(bus).ppu.in_vblank == old(bus).ppu.in_vblank,
            final(bus).wf(),
            r == spec_cpu_read_value(*self, *old(bus), addr),
            side_effect_free(addr) ==> *final(bus) == *old(bus),
            final(bus).mapper == old(bus).mapper,
            0x2000 <= addr < 0x4000 ==> final(bus).ppu == ppu::spec_read_register_post(
                old(bus).ppu,
                old(bus).mapper,
                addr,
            ) && final(bus).controller == old(bus).controller,
            addr == 0x4016 ==> final(bus).controller == controller::spec_controller_read_post(
                old(bus).controller,
            ) && final(bus).ppu == old(bus).ppu,
    {
        if addr < 0x2000 {
            self.ram[(addr as usize) % 0x800]
        } else if addr < 0x4000 {
            bus.ppu.read_register(&bus.mapper, addr)
        } else if addr <= 0x4013 {
            0
        } else if addr == 0x4014 {
            0
        } else if addr == 0x4015 {
            bus.mapper.read(addr)
        } else if addr == 0x4016 {
            bus.controller.read()
        } else if addr <= 0x401f {
            0
        } else {
            bus.mapper.read(addr)
        }
    }

    /// The 256-byte page OAM DMA reads from: CPU work RAM for pages below
    /// $20 (honouring the RAM mirrors), the cartridge from $80 up, and
    /// nothing for the I/O window in between.
    pub fn read_page(&self, mapper: &Mapper, page: u8) -> (r: Option<[u8; 256]>)
        requires
            mapper.wf(),
        ensures
            r is Some <==> spec_dma_source_exists(page),
            r is Some ==> forall|i: int| 0 <= i < 256 ==> r->Some_0@[i] == spec_dma_byte(
                *self,
                *mapper,
                page,
                i,
            ),
    {
        if page < 0x20 {
            let base: usize = ((page as usize) % 8) * 256;
            let mut out: [u8; 256] = [0; 256];
            let mut i: usize = 0;
            while i < 256
                invariant
                    i <= 256,
                    base == (page as int % 8) * 256,
                    base + 256 <= 0x800,
                    forall|j: int| 0 <= j < i ==> out@[j] == self.ram@[base + j],
                decreases 256 - i,
            {
                out[i] = self.ram[base + i];
                i = i + 1;
            }
            Some(out)
        } else if page < 0x80 {
            None
        } else {
            mapper.read_page(page)
        }
    }

    /// Read a little-endian 16-bit value; both bytes go through the decoder.
    pub fn read_address(&self, bus: &mut MemoryBus, addr: u16) -> (r: u16)
        requires
            old(bus).wf(),
        ensures
            ppu::same_timing(old(bus).ppu, final(bus).ppu),
            final(bus).ppu.in_vblank == old(bus).ppu.in_vblank,
            final(bus).wf(),
            side_effect_free(addr) && side_effect_free(((addr + 1) % 0x10000) as u16) ==> {
                &&& *final(bus) == *old(bus)
                &&& r == spec_cpu_read_address(*self, *old(bus), addr)
            },
            final(bus).mapper == old(bus).mapper,
    {
        let lo = self.read_byte(bus, addr);
        let hi = self.read_byte(bus, ((addr as u32 + 1) % 0x10000) as u16);
        lo as u16 + (hi as u16) * 0x100
    }

    /// Read a little-endian 16-bit value whose high byte wraps within the
    /// page of the low byte, as the original hardware's indirect fetches do.
    pub fn read_address_indirect(&self, bus: &mut MemoryBus, addr: u16) -> (r: u16)
        requires
            old(bus).wf(),
        ensures
            ppu::same_timing(old(bus).ppu, final(bus).ppu),
            final(bus).ppu.in_vblank == old(bus).ppu.in_vblank,
            final(bus).wf(),
            side_effect_free(addr) && side_effect_free(
                ((addr & 0xff00) + ((addr + 1) % 0x100)) as u16,
            ) ==> {
                &&& *final(bus) == *old(bus)
                &&& r == spec_cpu_read_address_indirect(*self, *old(bus), addr)
            },
            final(bus).mapper == old(bus).mapper,
    {
        proof {
            bitmasks::lemma_u16_mask_bounds();
        }
        let lo = self.read_byte(bus, addr);
        let hi_addr: u16 = (addr & 0xff00) + ((addr as u32 + 1) % 0x100) as u16;
        let hi = self.read_byte(bus, hi_addr);
        lo as u16 + (hi as u16) * 0x100
    }

    /// Write one byte through the CPU's address decoder.
    pub fn write_byte(&mut self, bus: &mut MemoryBus, addr: u16, data: u8)
        requires
            old(bus).wf(),
        ensures
            ppu::same_timing(old(bus).ppu, final(bus).ppu),
            final(bus).ppu.in_vblank == old(bus).ppu.in_vblank,
            final(bus).wf(),
            final(self).cycles == old(self).cycles,
            final(self).pc == old(self).pc,
            final(self).a == old(self).a,
            final(self).x == old(self).x,
            final(self).y == old(self).y,
            final(self).status == old(self).status,
            final(self).sp == old(self).sp,
            final(self).halted == old(self).halted,
            addr < 0x2000 ==> final(self).ram@ == old(self).ram@.update(addr as int % 0x800, data)
                && *final(bus) == *old(bus),
            addr >= 0x2000 ==> final(self).ram == old(self).ram,
            0x2000 <= addr < 0x4000 ==> ppu::write_register_rel(
                old(bus).ppu,
                final(bus).ppu,
                old(bus).mapper,
                final(bus).mapper,
                addr,
                data,
            ) && final(bus).controller == old(bus).controller,
            addr == 0x4014 ==> {
                &&& final(bus).mapper == old(bus).mapper
                &&& final(bus).controller == old(bus).controller
                &&& spec_dma_source_exists(data) ==> forall|i: int| 0 <= i < 256
                    ==> final(bus).ppu.oam@[(old(bus).ppu.oam_addr + i) % 256] == spec_dma_byte(
                        *old(self),
                        old(bus).mapper,
                        data,
                        i,
                    )
                &&& !spec_dma_source_exists(data) ==> forall|i: int| 0 <= i < 256
                    ==> final(bus).ppu.oam@[i] == 0
                &&& ppu::same_timing(old(bus).ppu, final(bus).ppu)
                &&& ppu::same_scroll(old(bus).ppu, final(bus).ppu)
                &&& ppu::same_pipeline(old(bus).ppu, final(bus).ppu)
                &&& final(bus).ppu.secondary_oam == old(bus).ppu.secondary_oam
                &&& final(bus).ppu.palette_ram == old(bus).ppu.palette_ram
                &&& final(bus).ppu.nametables == old(bus).ppu.nametables
                &&& final(bus).ppu.control_reg == old(bus).ppu.control_reg
                &&& final(bus).ppu.status_reg == old(bus).ppu.status_reg
                &&& final(bus).ppu.mask_reg == old(bus).ppu.mask_reg
                &&& final(bus).ppu.oam_addr == old(bus).ppu.oam_addr
                &&& final(bus).ppu.buffered_ppu_data == old(bus).ppu.buffered_ppu_data
                &&& final(bus).ppu.in_vblank == old(bus).ppu.in_vblank
                &&& final(bus).ppu.pending_nmi == old(bus).ppu.pending_nmi
            },
            addr == 0x4016 ==> final(bus).controller == controller::spec_controller_write_post(
                old(bus).controller,
                data,
            ) && final(bus).ppu == old(bus).ppu && final(bus).mapper == old(bus).mapper,
            (0x4000 <= addr <= 0x4013) || addr == 0x4017 || (0x4018 <= addr <= 0x401f)
                ==> *final(bus) == *old(bus),
            addr == 0x4015 || addr >= 0x4020 ==> {
                &&& cartridge::mapper_write_rel(old(bus).mapper, final(bus).mapper, addr, data)
                &&& final(bus).ppu == old(bus).ppu
                &&& final(bus).controller == old(bus).controller
            },
    {
        proof {
            bitmasks::lemma_u8_mask_bounds();
        }
        if addr < 0x2000 {
            self.ram[(addr as usize) % 0x800] = data;
        } else if addr < 0x4000 {
            bus.ppu.write_register(&mut bus.mapper, addr, data);
        } else if addr == 0x4014 {
            let page = self.read_page(&bus.mapper, data);
            bus.ppu.write_dma(page);
        } else if addr == 0x4016 {
            bus.controller.write(data);
        } else if addr <= 0x4013 || addr == 0x4017 || (0x4018 <= addr && addr <= 0x401f) {
            // APU stub, second controller and test mode: writes are dropped
        } else {
            bus.mapper.write(addr, data);
        }
    }

    /// Push one byte onto the stack at $0100 | SP; SP decrements.
    pub fn push_byte(&mut self, bus: &mut MemoryBus, data: u8)
        requires
            old(bus).wf(),
        ensures
            final(bus).wf(),
            *final(bus) == *old(bus),
            final(self).ram@ == old(self).ram@.update(0x100 + old(self).sp, data),
            final(self).sp == (if old(self).sp == 0 { 0xffu8 } else { (old(self).sp - 1) as u8 }),
            *final(self) == (CPU { ram: final(self).ram, sp: final(self).sp, ..*old(self) }),
    {
        let addr: u16 = 0x100 + self.sp as u16;
        self.write_byte(bus, addr, data);
        self.sp = if self.sp == 0 { 0xff } else { self.sp - 1 };
    }

    /// Pull one byte off the stack; SP increments first.
    pub fn pull_byte(&mut self, bus: &mut MemoryBus) -> (r: u8)
        requires
            old(bus).wf(),
        ensures
            final(bus).wf(),
            *final(bus) == *old(bus),
            final(self).sp == ((old(self).sp + 1) % 0x100),
            r == old(self).ram@[0x100 + final(self).sp],
            *final(self) == (CPU { sp: final(self).sp, ..*old(self) }),
    {
        self.sp = if self.sp == 0xff { 0 } else { self.sp + 1 };
        self.read_byte(bus, 0x100 + self.sp as u16)
    }

    /// Push a 16-bit address, high byte first.
    pub fn push_address(&mut self, bus: &mut MemoryBus, addr: u16)
        requires
            old(bus).wf(),
        ensures
            final(bus).wf(),
            *final(bus) == *old(bus),
            final(self).ram@ == old(self).ram@.update(
                0x100 + old(self).sp,
                (addr / 0x100) as u8,
            ).update(
                0x100 + (if old(self).sp == 0 { 0xffint } else { old(self).sp - 1 }),
                (addr % 0x100) as u8,
            ),
            final(self).sp == (if old(self).sp >= 2 {
                (old(self).sp - 2) as u8
            } else {
                (old(self).sp + 0x100 - 2) as u8
            }),
            *final(self) == (CPU { ram: final(self).ram, sp: final(self).sp, ..*old(self) }),
    {
        let hi: u8 = (addr / 0x100) as u8;
        let lo: u8 = (addr % 0x100) as u8;
        self.push_byte(bus, hi);
        self.push_byte(bus, lo);
    }

    /// Pull a 16-bit address, low byte first.
    pub fn pull_address(&mut self, bus: &mut MemoryBus) -> (r: u16)
        requires
            old(bus).wf(),
        ensures
            final(bus).wf(),
            *final(bus) == *old(bus),
            final(self).sp == ((old(self).sp + 2) % 0x100),
            r == old(self).ram@[0x100 + ((old(self).sp + 1) % 0x100)] + old(self).ram@[0x100 + ((
            old(self).sp + 2) % 0x100)] * 0x100,
            *final(self) == (CPU { sp: final(self).sp, ..*old(self) }),
    {
        let lo = self.pull_byte(bus);
        let hi = self.pull_byte(bus);
        lo as u16 + (hi as u16) * 0x100
    }

    /// Power-up reset: clear the registers, point SP at $FD, set the I and U
    /// flags, load PC from the reset vector at $FFFC, and silence the APU
    /// stub's registers (whose writes the bus drops).
    pub fn reset(&mut self, bus: &mut MemoryBus)
        requires
            old(bus).wf(),
        ensures
            final(bus).wf(),
            *final(bus) == *old(bus),
            final(self).a == 0,
            final(self).x == 0,
            final(self).y == 0,
            final(self).sp == 0xfd,
            final(self).status == 0x24,
            final(self).pc == spec_cpu_read_address(*old(self), *old(bus), 0xfffc),
            final(self).ram == old(self).ram,
            final(self).cycles == old(self).cycles,
            final(self).halted == old(self).halted,
    {
        self.a = 0;
        self.x = 0;
        self.y = 0;
        self.sp = 0xfd;
        self.status = 0x24;
        self.pc = self.read_address(bus, 0xfffc);

        // disable frame IRQ, disable all audio, clear the I/O registers
        let mut addr: u16 = 0x4000;
        while addr <= 0x4013
            invariant
                0x4000 <= addr <= 0x4014,
                bus.wf(),
                *bus == *old(bus),
                self.a == 0,
                self.x == 0,
                self.y == 0,
                self.sp == 0xfd,
                self.status == 0x24,
                self.pc == spec_cpu_read_address(*old(self), *old(bus), 0xfffc),
                self.ram == old(self).ram,
                self.cycles == old(self).cycles,
                self.halted == old(self).halted,
            decreases 0x4014 - addr,
        {
            self.write_byte(bus, addr, 0x00);
            addr = addr + 1;
        }

        self.write_byte(bus, 0x4015, 0x40);
        self.write_byte(bus, 0x4017, 0x40);
    }

    /// Take the branch when the flag matches: a taken branch costs one extra
    /// cycle, and one more when the target lies on a different page than the
    /// updated program counter.
    pub fn branch_on_flag(&mut self, flag: StatusFlag, branch_status: bool, new_pc: u16)
        ensures
            ({
                let taken = ((old(self).status & flag.spec_mask()) != 0) == branch_status;
                &&& taken ==> *final(self) == (CPU {
                    pc: new_pc,
                    cycles: spec_cycles_after(
                        old(self).cycles,
                        if spec_crosses_page_boundary(old(self).pc, new_pc) { 2u64 } else { 1u64 },
                    ),
                    ..*old(self)
                })
                &&& !taken ==> *final(self) == *old(self)
            }),
    {
        if self.check_status_bit(flag) == branch_status {
            let extra: u64 = if crosses_page_boundary(self.pc, new_pc) { 2 } else { 1 };
            self.cycles = if self.cycles > u64::MAX - extra {
                (extra - 1 - (u64::MAX - self.cycles)) as u64
            } else {
                self.cycles + extra
            };
            self.pc = new_pc;
        }
    }

    /// A stack push or pull instruction.
    #[verifier::rlimit(100)]
    #[verifier::spinoff_prover]
    fn exec_push_pull_op(&mut self, bus: &mut MemoryBus, opcode: instructions::Opcode)
        requires
            old(bus).wf(),
            ({
                ||| opcode == instructions::Opcode::PHA
                ||| opcode == instructions::Opcode::PHP
                ||| opcode == instructions::Opcode::PLA
                ||| opcode == instructions::Opcode::PLP
            }),
        ensures
            ppu::same_timing(old(bus).ppu, final(bus).ppu),
            final(bus).ppu.in_vblank == old(bus).ppu.in_vblank,
            final(self).cycles == old(self).cycles,
            final(bus).wf(),
            dispatch_rel(*old(self), *old(bus), *final(self), *final(bus), opcode, None),
    {
        match opcode {
            instructions::Opcode::PHA => {
                self.push_byte(bus, self.a);
            },
            instructions::Opcode::PHP => {
                self.push_byte(bus, self.status | 0x10);
            },
            instructions::Opcode::PLA => {
                self.a = self.pull_byte(bus);
                self.set_nz(self.a);
            },
            instructions::Opcode::PLP => {
                self.status = self.pull_byte(bus);
                self.write_status_bit(StatusFlag::U, true);
                self.write_status_bit(StatusFlag::B, false);
            },
            _ => {
                self.halted = true;
            },
        }
    }

    /// A subroutine or interrupt return, or a software interrupt.
    #[verifier::rlimit(100)]
    #[verifier::spinoff_prover]
    fn exec_interrupt_op(&mut self, bus: &mut MemoryBus, opcode: instructions::Opcode)
        requires
            old(bus).wf(),
            ({
                ||| opcode == instructions::Opcode::RTS
                ||| opcode == instructions::Opcode::RTI
                ||| opcode == instructions::Opcode::BRK
            }),
        ensures
            ppu::same_timing(old(bus).ppu, final(bus).ppu),
            final(bus).ppu.in_vblank == old(bus).ppu.in_vblank,
            final(self).cycles == old(self).cycles,
            final(bus).wf(),
            dispatch_rel(*old(self), *old(bus), *final(self), *final(bus), opcode, None),
    {
        match opcode {
            instructions::Opcode::RTS => {
                let pulled = self.pull_address(bus);
                self.pc = ((pulled as u32 + 1) % 0x10000) as u16;
            },
            instructions::Opcode::RTI => {
                let st = self.pull_byte(bus);
                self.status = st;
                self.write_status_bit(StatusFlag::U, true);
                self.write_status_bit(StatusFlag::B, false);
                self.pc = self.pull_address(bus);
            },
            instructions::Opcode::BRK => {
                self.push_address(bus, self.pc);
                self.push_byte(bus, self.status | 0x10);
                self.write_status_bit(StatusFlag::I, true);
                self.pc = self.read_address(bus, 0xfffe);
            },
            _ => {
                self.halted = true;
            },
        }
    }

    /// A flag set or clear instruction.
    #[verifier::rlimit(100)]
    #[verifier::spinoff_prover]
    fn exec_flag_op(&mut self, bus: &MemoryBus, opcode: instructions::Opcode)
        requires
            ({
                ||| opcode == instructions::Opcode::CLC
                ||| opcode == instructions::Opcode::SEC
                ||| opcode == instructions::Opcode::CLI
                ||| opcode == instructions::Opcode::SEI
                ||| opcode == instructions::Opcode::CLD
                ||| opcode == instructions::Opcode::SED
                ||| opcode == instructions::Opcode::CLV
            }),
        ensures
            final(self).cycles == old(self).cycles,
            dispatch_rel(*old(self), *bus, *final(self), *bus, opcode, None),
    {
        match opcode {
            instructions::Opcode::CLC => {
                self.write_status_bit(StatusFlag::C, false);
            },
            instructions::Opcode::SEC => {
                self.write_status_bit(StatusFlag::C, true);
            },
            instructions::Opcode::CLI => {
                self.write_status_bit(StatusFlag::I, false);
            },
            instructions::Opcode::SEI => {
                self.write_status_bit(StatusFlag::I, true);
            },
            instructions::Opcode::CLD => {
                self.write_status_bit(StatusFlag::D, false);
            },
            instructions::Opcode::SED => {
                self.write_status_bit(StatusFlag::D, true);
            },
            instructions::Opcode::CLV => {
                self.write_status_bit(StatusFlag::V, false);
            },
            _ => {
                self.halted = true;
            },
        }
    }

    /// A register transfer instruction.
    #[verifier::rlimit(100)]
    #[verifier::spinoff_prover]
    fn exec_transfer_op(&mut self, bus: &MemoryBus, opcode: instructions::Opcode)
        requires
            ({
                ||| opcode == instructions::Opcode::TAX
                ||| opcode == instructions::Opcode::TAY
                ||| opcode == instructions::Opcode::TSX
                ||| opcode == instructions::Opcode::TXA
                ||| opcode == instructions::Opcode::TYA
                ||| opcode == instructions::Opcode::TXS
            }),
        ensures
            final(self).cycles == old(self).cycles,
            dispatch_rel(*old(self), *bus, *final(self), *bus, opcode, None),
    {
        match opcode {
            instructions::Opcode::TAX => {
                self.x = self.a;
                self.set_nz(self.x);
            },
            instructions::Opcode::TAY => {
                self.y = self.a;
                self.set_nz(self.y);
            },
            instructions::Opcode::TSX => {
                self.x = self.sp;
                self.set_nz(self.x);
            },
            instructions::Opcode::TXA => {
                self.a = self.x;
                self.set_nz(self.a);
            },
            instructions::Opcode::TYA => {
                self.a = self.y;
                self.set_nz(self.a);
            },
            instructions::Opcode::TXS => {
                self.sp = self.x;
            },
            _ => {
                self.halted = true;
            },
        }
    }

    /// A register increment or decrement instruction.
    #[verifier::rlimit(100)]
    #[verifier::spinoff_prover]
    fn exec_register_step_op(&mut self, bus: &MemoryBus, opcode: instructions::Opcode)
        requires
            ({
                ||| opcode == instructions::Opcode::INX
                ||| opcode == instructions::Opcode::INY
                ||| opcode == instructions::Opcode::DEX
                ||| opcode == instructions::Opcode::DEY
            }),
        ensures
            final(self).cycles == old(self).cycles,
            dispatch_rel(*old(self), *bus, *final(self), *bus, opcode, None),
    {
        match opcode {
            instructions::Opcode::INX => {
                self.x = if self.x == 0xff { 0 } else { self.x + 1 };
                self.set_nz(self.x);
            },
            instructions::Opcode::INY => {
                self.y = if self.y == 0xff { 0 } else { self.y + 1 };
                self.set_nz(self.y);
            },
            instructions::Opcode::DEX => {
                self.x = if self.x == 0 { 0xff } else { self.x - 1 };
                self.set_nz(self.x);
            },
            instructions::Opcode::DEY => {
                self.y = if self.y == 0 { 0xff } else { self.y - 1 };
                self.set_nz(self.y);
            },
            _ => {
                self.halted = true;
            },
        }
    }

    /// A shift or rotate on the accumulator.
    #[verifier::rlimit(100)]
    #[verifier::spinoff_prover]
    fn exec_accumulator_op(&mut self, bus: &MemoryBus, opcode: instructions::Opcode)
        requires
            ({
                ||| opcode == instructions::Opcode::ASL
                ||| opcode == instructions::Opcode::LSR
                ||| opcode == instructions::Opcode::ROL
                ||| opcode == instructions::Opcode::ROR
            }),
        ensures
            final(self).cycles == old(self).cycles,
            dispatch_rel(*old(self), *bus, *final(self), *bus, opcode, None),
    {
        match opcode {
            instructions::Opcode::ASL => {
                let wide: u16 = (self.a as u16) * 2;
                self.a = wide as u8;
                self.set_cnz(wide);
            },
            instructions::Opcode::LSR => {
                let v = self.a as u16;
                let wide: u16 = v / 2 + (v % 2) * 0x100;
                self.a = wide as u8;
                self.set_cnz(wide);
            },
            instructions::Opcode::ROL => {
                let c: u16 = if self.check_status_bit(StatusFlag::C) { 1 } else { 0 };
                let wide: u16 = (self.a as u16) * 2 + c;
                self.a = wide as u8;
                self.set_cnz(wide);
            },
            instructions::Opcode::ROR => {
                let c: u16 = if self.check_status_bit(StatusFlag::C) { 0x80 } else { 0 };
                let v = self.a as u16;
                let wide: u16 = v / 2 + c + (v % 2) * 0x100;
                self.a = wide as u8;
                self.set_cnz(wide);
            },
            _ => {
                self.halted = true;
            },
        }
    }

    /// Execute one opcode against its resolved operand address.
    ///
    /// The legal set and the composite illegal opcodes (DCP, ISB, LAX, RLA,
    /// RRA, SAX, SLO, SRE) follow the 6502 reference; the unimplemented
    /// remainder, and an opcode paired with an operand shape the table never
    /// produces, latch the halt flag instead of executing.
    /// A read-operand instruction: loads, logic, arithmetic and compares.
    #[verifier::rlimit(100)]
    #[verifier::spinoff_prover]
    fn exec_read_op(&mut self, bus: &mut MemoryBus, opcode: instructions::Opcode, addr: u16)
        requires
            old(bus).wf(),
            ({
                ||| opcode == instructions::Opcode::ADC
                ||| opcode == instructions::Opcode::SBC
                ||| opcode == instructions::Opcode::AND
                ||| opcode == instructions::Opcode::ORA
                ||| opcode == instructions::Opcode::EOR
                ||| opcode == instructions::Opcode::BIT
                ||| opcode == instructions::Opcode::CMP
                ||| opcode == instructions::Opcode::CPX
                ||| opcode == instructions::Opcode::CPY
                ||| opcode == instructions::Opcode::LDA
                ||| opcode == instructions::Opcode::LDX
                ||| opcode == instructions::Opcode::LDY
                ||| opcode == instructions::Opcode::LAX
            }),
        ensures
            ppu::same_timing(old(bus).ppu, final(bus).ppu),
            final(bus).ppu.in_vblank == old(bus).ppu.in_vblank,
            final(self).cycles == old(self).cycles,
            final(bus).wf(),
            dispatch_rel(*old(self), *old(bus), *final(self), *final(bus), opcode, Some(addr)),
    {
        match opcode {
            instructions::Opcode::ADC => {
                let a = self.a as u16;
                let b = self.read_byte(bus, addr) as u16;
                let c = if self.check_status_bit(StatusFlag::C) { 1u16 } else { 0u16 };
                let sum = a + b + c;

                self.a = sum as u8;
                self.write_status_bit(StatusFlag::V, ((a ^ sum) & (b ^ sum) & 0x80) != 0);
                self.set_cnz(sum);
            },
            instructions::Opcode::SBC => {
                let a = self.a as u32;
                let m = self.read_byte(bus, addr) as u32;
                let nc: u32 = if self.check_status_bit(StatusFlag::C) { 0 } else { 1 };
                let result: u16 = ((a + 0x10000 - m - nc) % 0x10000) as u16;
                self.a = result as u8;

                self.set_nz(self.a);
                self.write_status_bit(
                    StatusFlag::V,
                    ((((a as u16) ^ result) & (!(m as u16) ^ result)) & 0x80) != 0,
                );
                self.write_status_bit(StatusFlag::C, (result & 0x100) == 0);
            },
            instructions::Opcode::AND => {
                let m = self.read_byte(bus, addr);
                self.a = self.a & m;
                self.set_nz(self.a);
            },
            instructions::Opcode::ORA => {
                let m = self.read_byte(bus, addr);
                self.a = self.a | m;
                self.set_nz(self.a);
            },
            instructions::Opcode::EOR => {
                let m = self.read_byte(bus, addr);
                self.a = self.a ^ m;
                self.set_nz(self.a);
            },
            instructions::Opcode::BIT => {
                let m = self.read_byte(bus, addr);
                let result = self.a & m;
                self.write_status_bit(StatusFlag::Z, result == 0);
                self.write_status_bit(StatusFlag::V, (m & 0x40) != 0);
                self.write_status_bit(StatusFlag::N, (m & 0x80) != 0);
            },
            instructions::Opcode::CMP => {
                let m = self.read_byte(bus, addr);
                let reg = self.a;
                let data: u8 = ((reg as u16 + 0x100 - m as u16) % 0x100) as u8;
                self.set_nz(data);
                self.write_status_bit(StatusFlag::C, reg >= m);
            },
            instructions::Opcode::CPX => {
                let m = self.read_byte(bus, addr);
                let reg = self.x;
                let data: u8 = ((reg as u16 + 0x100 - m as u16) % 0x100) as u8;
                self.set_nz(data);
                self.write_status_bit(StatusFlag::C, reg >= m);
            },
            instructions::Opcode::CPY => {
                let m = self.read_byte(bus, addr);
                let reg = self.y;
                let data: u8 = ((reg as u16 + 0x100 - m as u16) % 0x100) as u8;
                self.set_nz(data);
                self.write_status_bit(StatusFlag::C, reg >= m);
            },
            instructions::Opcode::LDA => {
                self.a = self.read_byte(bus, addr);
                self.set_nz(self.a);
            },
            instructions::Opcode::LDX => {
                self.x = self.read_byte(bus, addr);
                self.set_nz(self.x);
            },
            instructions::Opcode::LDY => {
                self.y = self.read_byte(bus, addr);
                self.set_nz(self.y);
            },
            instructions::Opcode::LAX => {
                let data = self.read_byte(bus, addr);
                self.a = data;
                self.x = data;
                self.set_nz(data);
            },
            _ => {
                self.halted = true;
            },
        }
    }

    /// A read-modify-write instruction against a memory operand.
    #[verifier::rlimit(100)]
    #[verifier::spinoff_prover]
    fn exec_rmw_op(&mut self, bus: &mut MemoryBus, opcode: instructions::Opcode, addr: u16)
        requires
            old(bus).wf(),
            ({
                ||| opcode == instructions::Opcode::ASL
                ||| opcode == instructions::Opcode::LSR
                ||| opcode == instructions::Opcode::ROL
                ||| opcode == instructions::Opcode::ROR
                ||| opcode == instructions::Opcode::INC
                ||| opcode == instructions::Opcode::DEC
            }),
        ensures
            ppu::same_timing(old(bus).ppu, final(bus).ppu),
            final(bus).ppu.in_vblank == old(bus).ppu.in_vblank,
            final(self).cycles == old(self).cycles,
            final(bus).wf(),
            dispatch_rel(*old(self), *old(bus), *final(self), *final(bus), opcode, Some(addr)),
    {
        match opcode {
            instructions::Opcode::ASL => {
                let m = self.read_byte(bus, addr);
                let wide: u16 = (m as u16) * 2;
                self.write_byte(bus, addr, wide as u8);
                self.set_cnz(wide);
            },
            instructions::Opcode::LSR => {
                let v = self.read_byte(bus, addr) as u16;
                let wide: u16 = v / 2 + (v % 2) * 0x100;
                self.write_byte(bus, addr, wide as u8);
                self.set_cnz(wide);
            },
            instructions::Opcode::ROL => {
                let c: u16 = if self.check_status_bit(StatusFlag::C) { 1 } else { 0 };
                let v = self.read_byte(bus, addr) as u16;
                let wide: u16 = v * 2 + c;
                self.write_byte(bus, addr, wide as u8);
                self.set_cnz(wide);
            },
            instructions::Opcode::ROR => {
                let c: u16 = if self.check_status_bit(StatusFlag::C) { 0x80 } else { 0 };
                let v = self.read_byte(bus, addr) as u16;
                let wide: u16 = v / 2 + c + (v % 2) * 0x100;
                self.write_byte(bus, addr, wide as u8);
                self.set_cnz(wide);
            },
            instructions::Opcode::INC => {
                let m = self.read_byte(bus, addr);
                let data: u8 = ((m as u16 + 1) % 0x100) as u8;
                self.write_byte(bus, addr, data);
                self.set_nz(data);
            },
            instructions::Opcode::DEC => {
                let m = self.read_byte(bus, addr);
                let data: u8 = ((m as u16 + 0xff) % 0x100) as u8;
                self.write_byte(bus, addr, data);
                self.set_nz(data);
            },
            _ => {
                self.halted = true;
            },
        }
    }

    /// A composite illegal read-modify-write instruction.
    #[verifier::rlimit(100)]
    #[verifier::spinoff_prover]
    fn exec_illegal_rmw_op(&mut self, bus: &mut MemoryBus, opcode: instructions::Opcode, addr: u16)
        requires
            old(bus).wf(),
            ({
                ||| opcode == instructions::Opcode::DCP
                ||| opcode == instructions::Opcode::ISB
                ||| opcode == instructions::Opcode::SLO
                ||| opcode == instructions::Opcode::SRE
                ||| opcode == instructions::Opcode::RLA
                ||| opcode == instructions::Opcode::RRA
            }),
        ensures
            ppu::same_timing(old(bus).ppu, final(bus).ppu),
            final(bus).ppu.in_vblank == old(bus).ppu.in_vblank,
            final(self).cycles == old(self).cycles,
            final(bus).wf(),
            dispatch_rel(*old(self), *old(bus), *final(self), *final(bus), opcode, Some(addr)),
    {
        match opcode {
            instructions::Opcode::DCP => {
                // DEC then CMP against the decremented value
                let m = self.read_byte(bus, addr);
                let data: u8 = ((m as u16 + 0xff) % 0x100) as u8;
                self.write_byte(bus, addr, data);
                self.set_nz(data);
                let m2 = self.read_byte(bus, addr);
                let reg = self.a;
                let cmp: u8 = ((reg as u16 + 0x100 - m2 as u16) % 0x100) as u8;
                self.set_nz(cmp);
                self.write_status_bit(StatusFlag::C, reg >= m2);
            },
            instructions::Opcode::ISB => {
                // INC then SBC against the incremented value
                let m = self.read_byte(bus, addr);
                let data: u8 = ((m as u16 + 1) % 0x100) as u8;
                self.write_byte(bus, addr, data);
                self.set_nz(data);
                let m2 = self.read_byte(bus, addr) as u32;
                let a = self.a as u32;
                let nc: u32 = if self.check_status_bit(StatusFlag::C) { 0 } else { 1 };
                let result: u16 = ((a + 0x10000 - m2 - nc) % 0x10000) as u16;
                self.a = result as u8;
                self.set_nz(self.a);
                self.write_status_bit(
                    StatusFlag::V,
                    ((((a as u16) ^ result) & (!(m2 as u16) ^ result)) & 0x80) != 0,
                );
                self.write_status_bit(StatusFlag::C, (result & 0x100) == 0);
            },
            instructions::Opcode::SLO => {
                // ASL then ORA with the shifted value
                let m = self.read_byte(bus, addr);
                let wide: u16 = (m as u16) * 2;
                self.write_byte(bus, addr, wide as u8);
                self.set_cnz(wide);
                let m2 = self.read_byte(bus, addr);
                self.a = self.a | m2;
                self.set_nz(self.a);
            },
            instructions::Opcode::SRE => {
                // LSR then EOR with the shifted value
                let m = self.read_byte(bus, addr) as u16;
                let wide: u16 = m / 2 + (m % 2) * 0x100;
                self.write_byte(bus, addr, wide as u8);
                self.set_cnz(wide);
                let m2 = self.read_byte(bus, addr);
                self.a = self.a ^ m2;
                self.set_nz(self.a);
            },
            instructions::Opcode::RLA => {
                // ROL then AND with the rotated value
                let c: u16 = if self.check_status_bit(StatusFlag::C) { 1 } else { 0 };
                let m = self.read_byte(bus, addr) as u16;
                let wide: u16 = m * 2 + c;
                self.write_byte(bus, addr, wide as u8);
                self.set_cnz(wide);
                let m2 = self.read_byte(bus, addr);
                self.a = self.a & m2;
                self.set_nz(self.a);
            },
            instructions::Opcode::RRA => {
                // ROR then ADC with the rotated value
                let c: u16 = if self.check_status_bit(StatusFlag::C) { 0x80 } else { 0 };
                let m = self.read_byte(bus, addr) as u16;
                let wide: u16 = m / 2 + c + (m % 2) * 0x100;
                self.write_byte(bus, addr, wide as u8);
                self.set_cnz(wide);
                let a = self.a as u16;
                let b = self.read_byte(bus, addr) as u16;
                let c2 = if self.check_status_bit(StatusFlag::C) { 1u16 } else { 0u16 };
                let sum = a + b + c2;
                self.a = sum as u8;
                self.write_status_bit(StatusFlag::V, ((a ^ sum) & (b ^ sum) & 0x80) != 0);
                self.set_cnz(sum);
            },
            _ => {
                self.halted = true;
            },
        }
    }

    /// A store instruction.
    #[verifier::rlimit(100)]
    #[verifier::spinoff_prover]
    fn exec_store_op(&mut self, bus: &mut MemoryBus, opcode: instructions::Opcode, addr: u16)
        requires
            old(bus).wf(),
            ({
                ||| opcode == instructions::Opcode::STA
                ||| opcode == instructions::Opcode::STX
                ||| opcode == instructions::Opcode::STY
                ||| opcode == instructions::Opcode::SAX
            }),
        ensures
            ppu::same_timing(old(bus).ppu, final(bus).ppu),
            final(bus).ppu.in_vblank == old(bus).ppu.in_vblank,
            final(self).cycles == old(self).cycles,
            final(bus).wf(),
            dispatch_rel(*old(self), *old(bus), *final(self), *final(bus), opcode, Some(addr)),
    {
        match opcode {
            instructions::Opcode::STA => {
                self.write_byte(bus, addr, self.a);
            },
            instructions::Opcode::STX => {
                self.write_byte(bus, addr, self.x);
            },
            instructions::Opcode::STY => {
                self.write_byte(bus, addr, self.y);
            },
            instructions::Opcode::SAX => {
                self.write_byte(bus, addr, self.a & self.x);
            },
            _ => {
                self.halted = true;
            },
        }
    }

    /// An implied-operand instruction: flag writes, register transfers,
    #[verifier::rlimit(100)]
    #[verifier::spinoff_prover]
    pub fn dispatch(&mut self, bus: &mut MemoryBus, opcode: instructions::Opcode, addr: Option<
        u16,
    >)
        requires
            old(bus).wf(),
        ensures
            ppu::same_timing(old(bus).ppu, final(bus).ppu),
            final(bus).ppu.in_vblank == old(bus).ppu.in_vblank,
            final(bus).wf(),
            final(self).cycles == old(self).cycles || final(self).cycles == spec_cycles_after(
                old(self).cycles,
                1,
            ) || final(self).cycles == spec_cycles_after(old(self).cycles, 2),
            dispatch_rel(*old(self), *old(bus), *final(self), *final(bus), opcode, addr),
    {
        match (opcode, addr) {
            (
                instructions::Opcode::ADC | instructions::Opcode::SBC | instructions::Opcode::AND
                | instructions::Opcode::ORA | instructions::Opcode::EOR | instructions::Opcode::BIT
                | instructions::Opcode::CMP | instructions::Opcode::CPX | instructions::Opcode::CPY
                | instructions::Opcode::LDA | instructions::Opcode::LDX | instructions::Opcode::LDY
                | instructions::Opcode::LAX,
                Some(addr),
            ) => self.exec_read_op(bus, opcode, addr),
            (
                instructions::Opcode::ASL | instructions::Opcode::LSR | instructions::Opcode::ROL
                | instructions::Opcode::ROR | instructions::Opcode::INC | instructions::Opcode::DEC,
                Some(addr),
            ) => self.exec_rmw_op(bus, opcode, addr),
            (
                instructions::Opcode::DCP | instructions::Opcode::ISB | instructions::Opcode::SLO
                | instructions::Opcode::SRE | instructions::Opcode::RLA | instructions::Opcode::RRA,
                Some(addr),
            ) => self.exec_illegal_rmw_op(bus, opcode, addr),
            (
                instructions::Opcode::STA | instructions::Opcode::STX | instructions::Opcode::STY
                | instructions::Opcode::SAX,
                Some(addr),
            ) => self.exec_store_op(bus, opcode, addr),
            (
                instructions::Opcode::PHA | instructions::Opcode::PHP | instructions::Opcode::PLA
                | instructions::Opcode::PLP,
                None,
            ) => self.exec_push_pull_op(bus, opcode),
            (
                instructions::Opcode::RTS | instructions::Opcode::RTI | instructions::Opcode::BRK,
                None,
            ) => self.exec_interrupt_op(bus, opcode),
            (
                instructions::Opcode::CLC | instructions::Opcode::SEC | instructions::Opcode::CLI
                | instructions::Opcode::SEI | instructions::Opcode::CLD | instructions::Opcode::SED
                | instructions::Opcode::CLV,
                None,
            ) => self.exec_flag_op(bus, opcode),
            (
                instructions::Opcode::TAX | instructions::Opcode::TAY | instructions::Opcode::TSX
                | instructions::Opcode::TXA | instructions::Opcode::TYA | instructions::Opcode::TXS,
                None,
            ) => self.exec_transfer_op(bus, opcode),
            (
                instructions::Opcode::INX | instructions::Opcode::INY | instructions::Opcode::DEX
                | instructions::Opcode::DEY,
                None,
            ) => self.exec_register_step_op(bus, opcode),
            (
                instructions::Opcode::ASL | instructions::Opcode::LSR | instructions::Opcode::ROL
                | instructions::Opcode::ROR,
                None,
            ) => self.exec_accumulator_op(bus, opcode),
            (instructions::Opcode::JMP, Some(addr)) => {
                self.pc = addr;
            },
            (instructions::Opcode::JSR, Some(addr)) => {
                let ret: u16 = ((self.pc as u32 + 0xffff) % 0x10000) as u16;
                self.push_address(bus, ret);
                self.pc = addr;
            },
            (instructions::Opcode::NOP, _) => {},
            (instructions::Opcode::BCC, Some(addr)) => {
                self.branch_on_flag(StatusFlag::C, false, addr);
            },
            (instructions::Opcode::BCS, Some(addr)) => {
                self.branch_on_flag(StatusFlag::C, true, addr);
            },
            (instructions::Opcode::BEQ, Some(addr)) => {
                self.branch_on_flag(StatusFlag::Z, true, addr);
            },
            (instructions::Opcode::BNE, Some(addr)) => {
                self.branch_on_flag(StatusFlag::Z, false, addr);
            },
            (instructions::Opcode::BMI, Some(addr)) => {
                self.branch_on_flag(StatusFlag::N, true, addr);
            },
            (instructions::Opcode::BPL, Some(addr)) => {
                self.branch_on_flag(StatusFlag::N, false, addr);
            },
            (instructions::Opcode::BVS, Some(addr)) => {
                self.branch_on_flag(StatusFlag::V, true, addr);
            },
            (instructions::Opcode::BVC, Some(addr)) => {
                self.branch_on_flag(StatusFlag::V, false, addr);
            },
            _ => {
                // the unimplemented illegal opcodes, and operand shapes the
                // table never produces, halt the core deterministically
                self.halted = true;
            },
        }
    }

    /// Run one instruction, or service a pending interrupt, and report how
    /// many cycles it consumed.
    ///
    /// A pending NMI edge takes priority: the program counter and the status
    /// byte (B set) are pushed, the I flag goes up, execution continues at
    /// the NMI vector, and seven cycles pass. A halted core consumes two
    /// idle cycles so that the picture processor keeps its cadence.
    /// Otherwise the instruction at PC is decoded, PC advances by its width,
    /// its minimum cycles plus any page-cross penalty accrue, and the opcode
    /// is dispatched (a taken branch accrues its own extra cycles).
    #[verifier::rlimit(100)]
    #[verifier::spinoff_prover]
    pub fn step(&mut self, bus: &mut MemoryBus) -> (r: u16)
        requires
            old(bus).wf(),
        ensures
            ppu::same_timing(old(bus).ppu, final(bus).ppu),
            final(bus).ppu.in_vblank == old(bus).ppu.in_vblank,
            final(bus).wf(),
            1 <= r <= 12,
            final(self).cycles == spec_cycles_after(old(self).cycles, r as u64),
            old(self).halted ==> {
                &&& r == 2
                &&& *final(self) == (CPU {
                    cycles: spec_cycles_after(old(self).cycles, 2),
                    ..*old(self)
                })
                &&& *final(bus) == *old(bus)
            },
            !old(self).halted && old(bus).ppu.pending_nmi ==> {
                &&& r == 7
                &&& final(self).ram@ == old(self).ram@.update(
                    0x100 + old(self).sp,
                    (old(self).pc / 0x100) as u8,
                ).update(
                    0x100 + ((old(self).sp + 0xff) % 0x100),
                    (old(self).pc % 0x100) as u8,
                ).update(0x100 + ((old(self).sp + 0xfe) % 0x100), old(self).status | 0x10)
                &&& *final(self) == (CPU {
                    ram: final(self).ram,
                    sp: ((old(self).sp + 0xfd) % 0x100) as u8,
                    status: old(self).status | 0x04,
                    pc: spec_cpu_read_address(*old(self), *old(bus), 0xfffa),
                    cycles: spec_cycles_after(old(self).cycles, 7),
                    ..*old(self)
                })
                &&& final(bus).ppu == (ppu::PPU { pending_nmi: false, ..old(bus).ppu })
                &&& final(bus).mapper == old(bus).mapper
                &&& final(bus).controller == old(bus).controller
            },
            !old(self).halted && !old(bus).ppu.pending_nmi && spec_decode_pure(
                *old(self),
                *old(bus),
                old(self).pc,
            ) ==> {
                let d = spec_decode(*old(self), *old(bus), old(self).pc);
                let stepped = CPU {
                    pc: ((old(self).pc + d.width) % 0x10000) as u16,
                    cycles: spec_cycles_after(
                        old(self).cycles,
                        (d.extended_opcode.min_cycles + if d.page_boundary_hit {
                            1u64
                        } else {
                            0u64
                        }) as u64,
                    ),
                    ..*old(self)
                };
                dispatch_rel(
                    stepped,
                    *old(bus),
                    *final(self),
                    *final(bus),
                    d.extended_opcode.opcode,
                    d.final_address,
                )
            },
    {
        if self.halted {
            self.cycles = if self.cycles > u64::MAX - 2 {
                (1 - (u64::MAX - self.cycles)) as u64
            } else {
                self.cycles + 2
            };
            return 2;
        }

        // the NMI edge takes priority over instruction fetch
        if bus.ppu.read_nmi_line() {
            self.push_address(bus, self.pc);
            self.push_byte(bus, self.status | 0x10);
            self.pc = self.read_address(bus, 0xfffa);
            self.write_status_bit(StatusFlag::I, true);
            self.cycles = if self.cycles > u64::MAX - 7 {
                (6 - (u64::MAX - self.cycles)) as u64
            } else {
                self.cycles + 7
            };
            return 7;
        }

        let pre_cycles = self.cycles;

        let instr = self.decode(bus, self.pc);

        self.pc = ((self.pc as u32 + instr.width as u32) % 0x10000) as u16;
        let base: u64 = instr.extended_opcode.min_cycles as u64 + if instr.page_boundary_hit {
            1
        } else {
            0
        };
        self.cycles = if self.cycles > u64::MAX - base {
            (base - 1 - (u64::MAX - self.cycles)) as u64
        } else {
            self.cycles + base
        };

        self.dispatch(bus, instr.extended_opcode.opcode, instr.final_address);

        (if self.cycles >= pre_cycles {
            self.cycles - pre_cycles
        } else {
            (self.cycles + 1 + (u64::MAX - pre_cycles)) as u64
        }) as u16
    }

    /// Read the byte a bus access at `addr` would report, without the
    /// access's side effects: the PPU's latches and the controller's read
    /// cursor stay put. The trace formatter peeks through this.
    pub fn peek_byte(&self, bus: &MemoryBus, addr: u16) -> (r: u8)
        requires
            bus.wf(),
        ensures
            r == spec_cpu_read_value(*self, *bus, addr),
    {
        if addr < 0x2000 {
            self.ram[(addr as usize) % 0x800]
        } else if addr < 0x4000 {
            let reg = addr % 8;
            if reg == 2 {
                bus.ppu.status_reg
            } else if reg == 4 {
                bus.ppu.oam[bus.ppu.oam_addr as usize]
            } else if reg == 7 {
                if bus.ppu.v < 0x3f00 {
                    bus.ppu.buffered_ppu_data
                } else {
                    bus.ppu.read_byte(&bus.mapper, bus.ppu.v)
                }
            } else {
                0
            }
        } else if addr <= 0x4013 {
            0
        } else if addr == 0x4014 {
            0
        } else if addr == 0x4015 {
            bus.mapper.read(addr)
        } else if addr == 0x4016 {
            if bus.controller.index < 8 {
                (bus.controller.button_state.0 >> bus.controller.index) & 1
            } else {
                0
            }
        } else if addr <= 0x401f {
            0
        } else {
            bus.mapper.read(addr)
        }
    }

    /// Decode the instruction at `addr`: look the opcode byte up in the
    /// table and resolve its operand address per addressing mode.
    pub fn decode(&self, bus: &mut MemoryBus, addr: u16) -> (r: DecodedInstruction)
        requires
            old(bus).wf(),
        ensures
            ppu::same_timing(old(bus).ppu, final(bus).ppu),
            final(bus).ppu.in_vblank == old(bus).ppu.in_vblank,
            final(bus).wf(),
            final(bus).mapper == old(bus).mapper,
            1 <= r.extended_opcode.min_cycles <= 8,
            spec_decode_pure(*self, *old(bus), addr) ==> {
                &&& *final(bus) == *old(bus)
                &&& r == spec_decode(*self, *old(bus), addr)
            },
    {
        proof {
            bitmasks::lemma_u16_mask_bounds();
            reveal(spec_decode);
            reveal(spec_decode_pure);
        }
        let operand_addr: u16 = ((addr as u32 + 1) % 0x10000) as u16;
        let opcode = self.read_byte(bus, addr);
        let extended_opcode = instructions::opcode_entry(opcode);

        match extended_opcode.addressing_mode {
            AddressingMode::Implied => DecodedInstruction {
                extended_opcode,
                address_info: AddressInfo::Implied,
                width: 1,
                page_boundary_hit: false,
                final_address: None,
            },
            AddressingMode::Accumulator => DecodedInstruction {
                extended_opcode,
                address_info: AddressInfo::Accumulator,
                width: 1,
                page_boundary_hit: false,
                final_address: None,
            },
            AddressingMode::Absolute => {
                let address = self.read_address(bus, operand_addr);
                DecodedInstruction {
                    extended_opcode,
                    address_info: AddressInfo::Absolute { address },
                    width: 3,
                    page_boundary_hit: false,
                    final_address: Some(address),
                }
            },
            AddressingMode::AbsoluteIndexedX => {
                let indirect = self.read_address(bus, operand_addr);
                let address = ((indirect as u32 + self.x as u32) % 0x10000) as u16;
                DecodedInstruction {
                    extended_opcode,
                    address_info: AddressInfo::AbsoluteIndexedX { indirect, address },
                    width: 3,
                    page_boundary_hit: extended_opcode.page_boundary_penalty
                        && crosses_page_boundary(indirect, address),
                    final_address: Some(address),
                }
            },
            AddressingMode::AbsoluteIndexedY => {
                let indirect = self.read_address(bus, operand_addr);
                let address = ((indirect as u32 + self.y as u32) % 0x10000) as u16;
                DecodedInstruction {
                    extended_opcode,
                    address_info: AddressInfo::AbsoluteIndexedY { indirect, address },
                    width: 3,
                    page_boundary_hit: extended_opcode.page_boundary_penalty
                        && crosses_page_boundary(indirect, address),
                    final_address: Some(address),
                }
            },
            AddressingMode::Immediate => DecodedInstruction {
                extended_opcode,
                address_info: AddressInfo::Immediate { address: operand_addr },
                width: 2,
                page_boundary_hit: false,
                final_address: Some(operand_addr),
            },
            AddressingMode::IndexedIndirect => {
                let offset = self.read_byte(bus, operand_addr);
                let indirect: u16 = (offset as u16 + self.x as u16) % 0x100;
                let address = self.read_address_indirect(bus, indirect);
                DecodedInstruction {
                    extended_opcode,
                    address_info: AddressInfo::IndexedIndirect { offset, indirect, address },
                    width: 2,
                    page_boundary_hit: false,
                    final_address: Some(address),
                }
            },
            AddressingMode::Indirect => {
                let indirect = self.read_address(bus, operand_addr);
                let address = self.read_address_indirect(bus, indirect);
                DecodedInstruction {
                    extended_opcode,
                    address_info: AddressInfo::Indirect { indirect, address },
                    width: 3,
                    page_boundary_hit: false,
                    final_address: Some(address),
                }
            },
            AddressingMode::IndirectIndexed => {
                let offset = self.read_byte(bus, operand_addr);
                let indirect = self.read_address_indirect(bus, offset as u16);
                let address = ((indirect as u32 + self.y as u32) % 0x10000) as u16;
                DecodedInstruction {
                    extended_opcode,
                    address_info: AddressInfo::IndirectIndexed { offset, indirect, address },
                    width: 2,
                    page_boundary_hit: extended_opcode.page_boundary_penalty
                        && crosses_page_boundary(indirect, address),
                    final_address: Some(address),
                }
            },
            AddressingMode::Relative => {
                let offset = self.read_byte(bus, operand_addr);
                let next_pc: u32 = (addr as u32 + 2) % 0x10000;
                let address: u16 = if offset >= 0x80 {
                    ((next_pc + 0x10000 - (0x100 - offset as u32)) % 0x10000) as u16
                } else {
                    ((next_pc + offset as u32) % 0x10000) as u16
                };
                DecodedInstruction {
                    extended_opcode,
                    address_info: AddressInfo::Relative { offset, address },
                    width: 2,
                    page_boundary_hit: false,
                    final_address: Some(address),
                }
            },
            AddressingMode::ZeroPage => {
                let address = self.read_byte(bus, operand_addr);
                DecodedInstruction {
                    extended_opcode,
                    address_info: AddressInfo::ZeroPage { address },
                    width: 2,
                    page_boundary_hit: false,
                    final_address: Some(address as u16),
                }
            },
            AddressingMode::ZeroPageIndexedX => {
                let offset = self.read_byte(bus, operand_addr);
                let address: u16 = (offset as u16 + self.x as u16) % 0x100;
                DecodedInstruction {
                    extended_opcode,
                    address_info: AddressInfo::ZeroPageIndexedX { offset, address },
                    width: 2,
                    page_boundary_hit: false,
                    final_address: Some(address),
                }
            },
            AddressingMode::ZeroPageIndexedY => {
                let offset = self.read_byte(bus, operand_addr);
                let address: u16 = (offset as u16 + self.y as u16) % 0x100;
                DecodedInstruction {
                    extended_opcode,
                    address_info: AddressInfo::ZeroPageIndexedY { offset, address },
                    width: 2,
                    page_boundary_hit: false,
                    final_address: Some(address),
                }
            },
        }
    }
}

} // verus!
