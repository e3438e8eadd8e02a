//! The execution trace line: one decoded instruction rendered in the
//! conventional 6502 log layout — program counter, raw bytes, mnemonic and
//! operand in a 48-column block, then the registers and the cycle counter.
//! `spec_trace_line` gives the whole line, byte for byte.
//!
//! The formatter only peeks at the bus, so tracing never disturbs the
//! machine being traced.

use vstd::prelude::*;
use crate::bus::MemoryBus;
use crate::cpu;
use crate::cpu::CPU;
use crate::instructions::{AddressInfo, DecodedInstruction, Opcode};

verus! {

/// The ASCII digit for one hex nibble, upper case.
pub open spec fn spec_hex_digit(v: u8) -> u8 {
    if v < 10 {
        (0x30 + v) as u8
    } else {
        (0x37 + v) as u8
    }
}

/// A byte as two upper-case hex digits.
pub open spec fn spec_hex2(v: u8) -> Seq<u8> {
    seq![spec_hex_digit(v / 16), spec_hex_digit(v % 16)]
}

/// A word as four upper-case hex digits.
pub open spec fn spec_hex4(v: u16) -> Seq<u8> {
    spec_hex2((v / 256) as u8) + spec_hex2((v % 256) as u8)
}

/// A counter in decimal, most significant digit first, no leading zeroes.
pub open spec fn spec_decimal(n: u64) -> Seq<u8>
    decreases n,
{
    if n < 10 {
        seq![(0x30 + n) as u8]
    } else {
        spec_decimal(n / 10) + seq![(0x30 + n % 10) as u8]
    }
}

/// `n` spaces (none when `n` is negative).
pub open spec fn spec_spaces(n: int) -> Seq<u8> {
    Seq::new(if n >= 0 { n as nat } else { 0 }, |i: int| 0x20u8)
}

/// The register block that ends a trace line:
/// `A:.. X:.. Y:.. P:.. SP:.. CYC:..`.
pub open spec fn spec_register_tail(c: CPU) -> Seq<u8> {
    seq![0x41u8, 0x3a] + spec_hex2(c.a) + seq![0x20u8, 0x58, 0x3a] + spec_hex2(c.x) + seq![
        0x20u8,
        0x59,
        0x3a,
    ] + spec_hex2(c.y) + seq![0x20u8, 0x50, 0x3a] + spec_hex2(c.status) + seq![
        0x20u8,
        0x53,
        0x50,
        0x3a,
    ] + spec_hex2(c.sp) + seq![0x20u8, 0x43, 0x59, 0x43, 0x3a] + spec_decimal(c.cycles)
}

/// One of the three raw-byte slots: the instruction byte in hex and a
/// space while the instruction is that wide, else three spaces.
pub open spec fn spec_raw_slot(c: CPU, bus: MemoryBus, width: u8, offset: int) -> Seq<u8> {
    if offset < width {
        spec_hex2(cpu::spec_cpu_read_value(c, bus, ((c.pc + offset) % 0x10000) as u16)) + seq![
            0x20u8,
        ]
    } else {
        seq![0x20u8, 0x20, 0x20]
    }
}

/// The three raw-byte slots.
pub open spec fn spec_raw_bytes(c: CPU, bus: MemoryBus, width: u8) -> Seq<u8> {
    spec_raw_slot(c, bus, width, 0) + spec_raw_slot(c, bus, width, 1) + spec_raw_slot(
        c,
        bus,
        width,
        2,
    )
}

/// The operand field, one layout per addressing mode, with every
/// intermediate of the address calculation and the byte under the final
/// address where one is read.
pub open spec fn spec_operand_text(c: CPU, bus: MemoryBus, d: DecodedInstruction) -> Seq<u8> {
    match d.address_info {
        AddressInfo::Implied => Seq::empty(),
        AddressInfo::Accumulator => seq![0x41u8],
        AddressInfo::Absolute { address } => seq![0x24u8] + spec_hex4(address) + (
        if d.extended_opcode.opcode == Opcode::JSR || d.extended_opcode.opcode == Opcode::JMP {
            Seq::empty()
        } else {
            seq![0x20u8, 0x3d, 0x20] + spec_hex2(cpu::spec_cpu_read_value(c, bus, address))
        }),
        AddressInfo::AbsoluteIndexedX { indirect, address } => seq![0x24u8] + spec_hex4(indirect)
            + seq![0x2cu8, 0x58, 0x20, 0x40, 0x20] + spec_hex4(address) + seq![0x20u8, 0x3d, 0x20]
            + spec_hex2(cpu::spec_cpu_read_value(c, bus, address)),
        AddressInfo::AbsoluteIndexedY { indirect, address } => seq![0x24u8] + spec_hex4(indirect)
            + seq![0x2cu8, 0x59, 0x20, 0x40, 0x20] + spec_hex4(address) + seq![0x20u8, 0x3d, 0x20]
            + spec_hex2(cpu::spec_cpu_read_value(c, bus, address)),
        AddressInfo::Immediate { address } => seq![0x23u8, 0x24] + spec_hex2(
            cpu::spec_cpu_read_value(c, bus, address),
        ),
        AddressInfo::IndexedIndirect { offset, indirect, address } => seq![0x28u8, 0x24]
            + spec_hex2(offset) + seq![0x2cu8, 0x58, 0x29, 0x20, 0x40, 0x20] + spec_hex2(
            (indirect % 0x100) as u8,
        ) + seq![0x20u8, 0x3d, 0x20] + spec_hex4(address) + seq![0x20u8, 0x3d, 0x20] + spec_hex2(
            cpu::spec_cpu_read_value(c, bus, address),
        ),
        AddressInfo::Indirect { indirect, address } => seq![0x28u8, 0x24] + spec_hex4(indirect)
            + seq![0x29u8, 0x20, 0x3d, 0x20] + spec_hex4(address),
        AddressInfo::IndirectIndexed { offset, indirect, address } => seq![0x28u8, 0x24]
            + spec_hex2(offset) + seq![0x29u8, 0x2c, 0x59, 0x20, 0x3d, 0x20] + spec_hex4(indirect)
            + seq![0x20u8, 0x40, 0x20] + spec_hex4(address) + seq![0x20u8, 0x3d, 0x20] + spec_hex2(
            cpu::spec_cpu_read_value(c, bus, address),
        ),
        AddressInfo::Relative { offset: _, address } => seq![0x24u8] + spec_hex4(address),
        AddressInfo::ZeroPage { address } => seq![0x24u8] + spec_hex2(address) + seq![
            0x20u8,
            0x3d,
            0x20,
        ] + spec_hex2(cpu::spec_cpu_read_value(c, bus, address as u16)),
        AddressInfo::ZeroPageIndexedX { offset, address } => seq![0x24u8] + spec_hex2(offset)
            + seq![0x2cu8, 0x58, 0x20, 0x40, 0x20] + spec_hex2((address % 0x100) as u8) + seq![
            0x20u8,
            0x3d,
            0x20,
        ] + spec_hex2(cpu::spec_cpu_read_value(c, bus, address)),
        AddressInfo::ZeroPageIndexedY { offset, address } => seq![0x24u8] + spec_hex2(offset)
            + seq![0x2cu8, 0x59, 0x20, 0x40, 0x20] + spec_hex2((address % 0x100) as u8) + seq![
            0x20u8,
            0x3d,
            0x20,
        ] + spec_hex2(cpu::spec_cpu_read_value(c, bus, address)),
    }
}

/// Everything left of the register block, before padding: the program
/// counter, two spaces, the raw-byte slots, the mnemonic between spaces,
/// and the operand field.
pub open spec fn spec_trace_left(c: CPU, bus: MemoryBus, d: DecodedInstruction) -> Seq<u8> {
    spec_hex4(c.pc) + seq![0x20u8, 0x20] + spec_raw_bytes(c, bus, d.width) + seq![0x20u8]
        + d.extended_opcode.opcode.spec_mnemonic() + seq![0x20u8] + spec_operand_text(c, bus, d)
}

/// The whole trace line: the left block, spaces out to column 48, then the
/// register block.
pub open spec fn spec_trace_line(c: CPU, bus: MemoryBus, d: DecodedInstruction) -> Seq<u8> {
    let left = spec_trace_left(c, bus, d);
    left + spec_spaces(48 - left.len()) + spec_register_tail(c)
}

/// The ASCII digit for one hex nibble, upper case.
fn hex_digit(v: u8) -> (r: u8)
    requires
        v < 16,
    ensures
        r == spec_hex_digit(v),
{
    if v < 10 {
        0x30 + v
    } else {
        0x37 + v
    }
}

/// Append a byte as two hex digits.
fn push_hex2(out: &mut Vec<u8>, v: u8)
    ensures
        final(out)@ == old(out)@ + spec_hex2(v),
{
    out.push(hex_digit(v / 16));
    out.push(hex_digit(v % 16));
    proof {
        assert(out@ =~= old(out)@ + spec_hex2(v));
    }
}

/// Append a word as four hex digits.
fn push_hex4(out: &mut Vec<u8>, v: u16)
    ensures
        final(out)@ == old(out)@ + spec_hex4(v),
{
    push_hex2(out, (v / 256) as u8);
    push_hex2(out, (v % 256) as u8);
    proof {
        assert(out@ =~= old(out)@ + spec_hex4(v));
    }
}

/// Append a counter in decimal.
fn push_decimal(out: &mut Vec<u8>, n: u64)
    ensures
        final(out)@ == old(out)@ + spec_decimal(n),
    decreases n,
{
    if n < 10 {
        out.push(0x30 + (n as u8));
        proof {
            assert(out@ =~= old(out)@ + spec_decimal(n));
        }
    } else {
        push_decimal(out, n / 10);
        out.push(0x30 + ((n % 10) as u8));
        proof {
            assert(out@ =~= old(out)@ + spec_decimal(n));
        }
    }
}

/// Append the register block.
fn push_register_tail(out: &mut Vec<u8>, c: &CPU)
    ensures
        final(out)@ == old(out)@ + spec_register_tail(*c),
{
    out.push(0x41);  // A:
    out.push(0x3a);
    push_hex2(out, c.a);
    out.push(0x20);
    out.push(0x58);  // X:
    out.push(0x3a);
    push_hex2(out, c.x);
    out.push(0x20);
    out.push(0x59);  // Y:
    out.push(0x3a);
    push_hex2(out, c.y);
    out.push(0x20);
    out.push(0x50);  // P:
    out.push(0x3a);
    push_hex2(out, c.status);
    out.push(0x20);
    out.push(0x53);  // SP:
    out.push(0x50);
    out.push(0x3a);
    push_hex2(out, c.sp);
    out.push(0x20);
    out.push(0x43);  // CYC:
    out.push(0x59);
    out.push(0x43);
    out.push(0x3a);
    push_decimal(out, c.cycles);
    proof {
        assert(out@ =~= old(out)@ + spec_register_tail(*c));
    }
}

/// Append one raw-byte slot.
fn push_raw_slot(out: &mut Vec<u8>, c: &CPU, bus: &MemoryBus, width: u8, offset: u8)
    requires
        bus.wf(),
    ensures
        final(out)@ == old(out)@ + spec_raw_slot(*c, *bus, width, offset as int),
{
    if offset < width {
        let byte_addr: u16 = ((c.pc as u32 + offset as u32) % 0x10000) as u16;
        let b = c.peek_byte(bus, byte_addr);
        push_hex2(out, b);
        out.push(0x20);
        proof {
            assert(out@ =~= old(out)@ + spec_raw_slot(*c, *bus, width, offset as int));
        }
    } else {
        out.push(0x20);
        out.push(0x20);
        out.push(0x20);
        proof {
            assert(out@ =~= old(out)@ + spec_raw_slot(*c, *bus, width, offset as int));
        }
    }
}

/// Append the operand field for the decoded instruction.
fn push_operand_text(out: &mut Vec<u8>, c: &CPU, bus: &MemoryBus, decoded: &DecodedInstruction)
    requires
        bus.wf(),
    ensures
        final(out)@ == old(out)@ + spec_operand_text(*c, *bus, *decoded),
{
    match decoded.address_info {
        AddressInfo::Implied => {
            proof {
                assert(out@ =~= old(out)@ + spec_operand_text(*c, *bus, *decoded));
            }
        },
        AddressInfo::Accumulator => {
            out.push(0x41);  // A
            proof {
                assert(out@ =~= old(out)@ + spec_operand_text(*c, *bus, *decoded));
            }
        },
        AddressInfo::Absolute { address } => {
            out.push(0x24);  // $
            push_hex4(out, address);
            match decoded.extended_opcode.opcode {
                Opcode::JSR | Opcode::JMP => {
                    proof {
                        assert(out@ =~= old(out)@ + spec_operand_text(*c, *bus, *decoded));
                    }
                },
                _ => {
                    out.push(0x20);
                    out.push(0x3d);  // =
                    out.push(0x20);
                    push_hex2(out, c.peek_byte(bus, address));
                    proof {
                        assert(out@ =~= old(out)@ + spec_operand_text(*c, *bus, *decoded));
                    }
                },
            }
        },
        AddressInfo::AbsoluteIndexedX { indirect, address } => {
            out.push(0x24);
            push_hex4(out, indirect);
            out.push(0x2c);  // ,X @
            out.push(0x58);
            out.push(0x20);
            out.push(0x40);
            out.push(0x20);
            push_hex4(out, address);
            out.push(0x20);
            out.push(0x3d);
            out.push(0x20);
            push_hex2(out, c.peek_byte(bus, address));
            proof {
                assert(out@ =~= old(out)@ + spec_operand_text(*c, *bus, *decoded));
            }
        },
        AddressInfo::AbsoluteIndexedY { indirect, address } => {
            out.push(0x24);
            push_hex4(out, indirect);
            out.push(0x2c);  // ,Y @
            out.push(0x59);
            out.push(0x20);
            out.push(0x40);
            out.push(0x20);
            push_hex4(out, address);
            out.push(0x20);
            out.push(0x3d);
            out.push(0x20);
            push_hex2(out, c.peek_byte(bus, address));
            proof {
                assert(out@ =~= old(out)@ + spec_operand_text(*c, *bus, *decoded));
            }
        },
        AddressInfo::Immediate { address } => {
            out.push(0x23);  // #$
            out.push(0x24);
            push_hex2(out, c.peek_byte(bus, address));
            proof {
                assert(out@ =~= old(out)@ + spec_operand_text(*c, *bus, *decoded));
            }
        },
        AddressInfo::IndexedIndirect { offset, indirect, address } => {
            out.push(0x28);  // ($
            out.push(0x24);
            push_hex2(out, offset);
            out.push(0x2c);  // ,X) @
            out.push(0x58);
            out.push(0x29);
            out.push(0x20);
            out.push(0x40);
            out.push(0x20);
            push_hex2(out, (indirect % 0x100) as u8);
            out.push(0x20);
            out.push(0x3d);
            out.push(0x20);
            push_hex4(out, address);
            out.push(0x20);
            out.push(0x3d);
            out.push(0x20);
            push_hex2(out, c.peek_byte(bus, address));
            proof {
                assert(out@ =~= old(out)@ + spec_operand_text(*c, *bus, *decoded));
            }
        },
        AddressInfo::Indirect { indirect, address } => {
            out.push(0x28);  // ($
            out.push(0x24);
            push_hex4(out, indirect);
            out.push(0x29);  // ) =
            out.push(0x20);
            out.push(0x3d);
            out.push(0x20);
            push_hex4(out, address);
            proof {
                assert(out@ =~= old(out)@ + spec_operand_text(*c, *bus, *decoded));
            }
        },
        AddressInfo::IndirectIndexed { offset, indirect, address } => {
            out.push(0x28);  // ($
            out.push(0x24);
            push_hex2(out, offset);
            out.push(0x29);  // ),Y =
            out.push(0x2c);
            out.push(0x59);
            out.push(0x20);
            out.push(0x3d);
            out.push(0x20);
            push_hex4(out, indirect);
            out.push(0x20);
            out.push(0x40);  // @
            out.push(0x20);
            push_hex4(out, address);
            out.push(0x20);
            out.push(0x3d);
            out.push(0x20);
            push_hex2(out, c.peek_byte(bus, address));
            proof {
                assert(out@ =~= old(out)@ + spec_operand_text(*c, *bus, *decoded));
            }
        },
        AddressInfo::Relative { offset: _, address } => {
            out.push(0x24);  // $
            push_hex4(out, address);
            proof {
                assert(out@ =~= old(out)@ + spec_operand_text(*c, *bus, *decoded));
            }
        },
        AddressInfo::ZeroPage { address } => {
            out.push(0x24);  // $
            push_hex2(out, address);
            out.push(0x20);
            out.push(0x3d);
            out.push(0x20);
            push_hex2(out, c.peek_byte(bus, address as u16));
            proof {
                assert(out@ =~= old(out)@ + spec_operand_text(*c, *bus, *decoded));
            }
        },
        AddressInfo::ZeroPageIndexedX { offset, address } => {
            out.push(0x24);  // $
            push_hex2(out, offset);
            out.push(0x2c);  // ,X @
            out.push(0x58);
            out.push(0x20);
            out.push(0x40);
            out.push(0x20);
            push_hex2(out, (address % 0x100) as u8);
            out.push(0x20);
            out.push(0x3d);
            out.push(0x20);
            push_hex2(out, c.peek_byte(bus, address));
            proof {
                assert(out@ =~= old(out)@ + spec_operand_text(*c, *bus, *decoded));
            }
        },
        AddressInfo::ZeroPageIndexedY { offset, address } => {
            out.push(0x24);  // $
            push_hex2(out, offset);
            out.push(0x2c);  // ,Y @
            out.push(0x59);
            out.push(0x20);
            out.push(0x40);
            out.push(0x20);
            push_hex2(out, (address % 0x100) as u8);
            out.push(0x20);
            out.push(0x3d);
            out.push(0x20);
            push_hex2(out, c.peek_byte(bus, address));
            proof {
                assert(out@ =~= old(out)@ + spec_operand_text(*c, *bus, *decoded));
            }
        },
    }
}

/// Render one decoded instruction as a trace line: exactly
/// `spec_trace_line`, whose first four bytes are the program counter in
/// hex and whose register block starts no earlier than column 48.
#[verifier::rlimit(100)]
#[verifier::spinoff_prover]
pub fn trace_line(cpu_state: &CPU, bus: &MemoryBus, decoded: &DecodedInstruction) -> (r: Vec<u8>)
    requires
        bus.wf(),
    ensures
        r@ == spec_trace_line(*cpu_state, *bus, *decoded),
        r@.len() >= 48 + spec_register_tail(*cpu_state).len(),
        r@.subrange(0, 4) == spec_hex4(cpu_state.pc),
        r@.subrange(r@.len() - spec_register_tail(*cpu_state).len(), r@.len() as int)
            == spec_register_tail(*cpu_state),
{
    // everything between the program counter and the register block
    let mut body: Vec<u8> = Vec::new();
    body.push(0x20);
    body.push(0x20);
    proof {
        assert(body@ =~= seq![0x20u8, 0x20]);
    }

    push_raw_slot(&mut body, cpu_state, bus, decoded.width, 0);
    push_raw_slot(&mut body, cpu_state, bus, decoded.width, 1);
    push_raw_slot(&mut body, cpu_state, bus, decoded.width, 2);
    proof {
        assert(body@ =~= seq![0x20u8, 0x20] + spec_raw_bytes(*cpu_state, *bus, decoded.width));
    }

    body.push(0x20);
    let m = decoded.extended_opcode.opcode.mnemonic_bytes();
    body.push(m[0]);
    body.push(m[1]);
    body.push(m[2]);
    body.push(0x20);
    proof {
        assert(body@ =~= seq![0x20u8, 0x20] + spec_raw_bytes(*cpu_state, *bus, decoded.width)
            + seq![0x20u8] + decoded.extended_opcode.opcode.spec_mnemonic() + seq![0x20u8]);
    }

    push_operand_text(&mut body, cpu_state, bus, decoded);

    // assemble: program counter, the body, padding to the register column
    let mut line: Vec<u8> = Vec::new();
    push_hex4(&mut line, cpu_state.pc);
    line.append(&mut body);
    proof {
        assert(line@ =~= spec_trace_left(*cpu_state, *bus, *decoded));
        assert(line@ =~= spec_trace_left(*cpu_state, *bus, *decoded) + spec_spaces(
            line@.len() - spec_trace_left(*cpu_state, *bus, *decoded).len(),
        ));
    }
    while line.len() < 48
        invariant
            line@.len() >= spec_trace_left(*cpu_state, *bus, *decoded).len(),
            line@.len() <= 48 || line@.len() == spec_trace_left(*cpu_state, *bus, *decoded).len(),
            line@ == spec_trace_left(*cpu_state, *bus, *decoded) + spec_spaces(
                line@.len() - spec_trace_left(*cpu_state, *bus, *decoded).len(),
            ),
        decreases 48 - line.len(),
    {
        line.push(0x20);
        proof {
            assert(line@ =~= spec_trace_left(*cpu_state, *bus, *decoded) + spec_spaces(
                line@.len() - spec_trace_left(*cpu_state, *bus, *decoded).len(),
            ));
        }
    }
    proof {
        assert(line@ =~= spec_trace_left(*cpu_state, *bus, *decoded) + spec_spaces(
            48 - spec_trace_left(*cpu_state, *bus, *decoded).len(),
        ));
    }
    push_register_tail(&mut line, cpu_state);
    proof {
        assert(line@ =~= spec_trace_line(*cpu_state, *bus, *decoded));
        assert(line@.subrange(0, 4) =~= spec_hex4(cpu_state.pc));
        assert(line@.subrange(
            line@.len() - spec_register_tail(*cpu_state).len(),
            line@.len() as int,
        ) =~= spec_register_tail(*cpu_state));
    }
    line
}

} // verus!
