//! Addressing modes: how the bytes after an opcode name the operand.
use vstd::prelude::*;
use crate::cpu::Cpu;
use crate::cpu_bus::{BusState, CpuBus};

verus! {

#[derive(Debug, Clone, Copy, PartialEq, Eq, Structural)]
pub enum AddressingMode {
    Implicit,
    Accumulator,
    Immediate,
    ZeroPage,
    ZeroPageX,
    ZeroPageY,
    Absolute,
    AbsoluteX,
    AbsoluteY,
    /// JMP only; carries the 6502 page-wrap bug.
    Indirect,
    IndirectX,
    IndirectY,
    Relative,
}

/// What an instruction operates on once its operand is resolved.
#[derive(Debug, Clone, Copy, PartialEq, Eq, Structural)]
pub enum Target {
    Implied,
    Accumulator,
    Memory(u16),
}

#[derive(Debug, Clone, Copy, PartialEq, Eq, Structural)]
pub struct Resolved {
    pub target: Target,
    /// Indexing moved the effective address to another page.
    pub page_crossed: bool,
}

/// How many operand bytes follow the opcode.
pub open spec fn operand_length(mode: AddressingMode) -> u16 {
    match mode {
        AddressingMode::Implicit | AddressingMode::Accumulator => 0,
        AddressingMode::Absolute
        | AddressingMode::AbsoluteX
        | AddressingMode::AbsoluteY
        | AddressingMode::Indirect => 2,
        _ => 1,
    }
}

pub fn operand_len(mode: AddressingMode) -> (r: u16)
    ensures
        r == operand_length(mode),
{
    match mode {
        AddressingMode::Implicit | AddressingMode::Accumulator => 0,
        AddressingMode::Absolute
        | AddressingMode::AbsoluteX
        | AddressingMode::AbsoluteY
        | AddressingMode::Indirect => 2,
        _ => 1,
    }
}

pub open spec fn page_differs(a: u16, b: u16) -> bool {
    a & 0xFF00 != b & 0xFF00
}

/// Where the high byte of a pointer stored at `ptr` is fetched: the 6502 does
/// not carry into the page, so `$xxFF` is followed by `$xx00`.
pub open spec fn pointer_high_address(ptr: u16) -> u16 {
    (ptr & 0xFF00) | (ptr.wrapping_add(1) & 0x00FF)
}

/// A 16-bit pointer read with the page-wrap rule, and the bus after its reads.
pub open spec fn read_pointer_spec(b: BusState, ptr: u16) -> (u16, BusState) {
    let low = b.read_value(ptr);
    let b1 = b.after_read(ptr);
    let high = b1.read_value(pointer_high_address(ptr));
    ((high as u16) << 8u16 | low as u16, b1.after_read(pointer_high_address(ptr)))
}

proof fn lemma_page_wrap(ptr: u16)
    by (bit_vector)
    requires
        ptr & 0xFF == 0xFF,
        ptr < 0xFFFF,
    ensures
        (ptr & 0xFF00) | ((ptr + 1) as u16 & 0x00FF) == ptr & 0xFF00,
{
}

/// A pointer at `$xxFF` has its high byte at `$xx00`.
pub proof fn pointer_high_wraps_in_page(ptr: u16)
    requires
        ptr & 0xFF == 0xFF,
    ensures
        pointer_high_address(ptr) == ptr & 0xFF00,
{
    if ptr < 0xFFFF {
        lemma_page_wrap(ptr);
    } else {
        assert(pointer_high_address(ptr) == ptr & 0xFF00) by (bit_vector)
            requires
                ptr == 0xFFFF,
        ;
    }
}

pub open spec fn memory(address: u16, page_crossed: bool) -> Resolved {
    Resolved { target: Target::Memory(address), page_crossed }
}

/// The operand of `mode` for an instruction whose operand bytes start at the
/// program counter of `c`, and the bus after the reads this takes.
pub open spec fn resolve_spec(c: Cpu, b: BusState, mode: AddressingMode) -> (Resolved, BusState) {
    let pc = c.program_counter;
    match mode {
        AddressingMode::Implicit => (Resolved { target: Target::Implied, page_crossed: false }, b),
        AddressingMode::Accumulator => (
            Resolved { target: Target::Accumulator, page_crossed: false },
            b,
        ),
        AddressingMode::Immediate | AddressingMode::Relative => (memory(pc, false), b),
        AddressingMode::ZeroPage => (memory(b.read_value(pc) as u16, false), b.after_read(pc)),
        AddressingMode::ZeroPageX => (
            memory(b.read_value(pc).wrapping_add(c.x) as u16, false),
            b.after_read(pc),
        ),
        AddressingMode::ZeroPageY => (
            memory(b.read_value(pc).wrapping_add(c.y) as u16, false),
            b.after_read(pc),
        ),
        AddressingMode::Absolute => {
            let (address, b1) = b.read_u16_spec(pc);
            (memory(address, false), b1)
        },
        AddressingMode::AbsoluteX => {
            let (base, b1) = b.read_u16_spec(pc);
            let address = base.wrapping_add(c.x as u16);
            (memory(address, page_differs(base, address)), b1)
        },
        AddressingMode::AbsoluteY => {
            let (base, b1) = b.read_u16_spec(pc);
            let address = base.wrapping_add(c.y as u16);
            (memory(address, page_differs(base, address)), b1)
        },
        AddressingMode::Indirect => {
            let (ptr, b1) = b.read_u16_spec(pc);
            let (address, b2) = read_pointer_spec(b1, ptr);
            (memory(address, false), b2)
        },
        AddressingMode::IndirectX => {
            let zp = b.read_value(pc).wrapping_add(c.x) as u16;
            let (address, b2) = read_pointer_spec(b.after_read(pc), zp);
            (memory(address, false), b2)
        },
        AddressingMode::IndirectY => {
            let zp = b.read_value(pc) as u16;
            let (base, b2) = read_pointer_spec(b.after_read(pc), zp);
            let address = base.wrapping_add(c.y as u16);
            (memory(address, page_differs(base, address)), b2)
        },
    }
}

/// `JMP ($xxFF)` reads the low byte of its target from `$xxFF` and the high
/// byte from `$xx00`, not from the next page.
pub proof fn indirect_jump_page_wrap(c: Cpu, b: BusState)
    requires
        b.read_u16_spec(c.program_counter).0 & 0xFF == 0xFF,
    ensures
        ({
            let (ptr, b1) = b.read_u16_spec(c.program_counter);
            resolve_spec(c, b, AddressingMode::Indirect).0.target == Target::Memory(
                (b1.after_read(ptr).read_value(ptr & 0xFF00) as u16) << 8u16 | b1.read_value(ptr) as u16,
            )
        }),
{
    let (ptr, b1) = b.read_u16_spec(c.program_counter);
    pointer_high_wraps_in_page(ptr);
}

fn read_pointer(bus: &mut CpuBus, ptr: u16) -> (r: u16)
    requires
        old(bus).wf(),
    ensures
        final(bus).wf(),
        (r, final(bus)@) == read_pointer_spec(old(bus)@, ptr),
{
    let low = bus.read(ptr) as u16;
    let high_address = (ptr & 0xFF00) | (ptr.wrapping_add(1) & 0x00FF);
    let high = bus.read(high_address) as u16;
    (high << 8u16) | low
}

/// Resolves the operand of `mode`; the program counter of `cpu` points at the
/// first operand byte and is not moved.
pub fn resolve(cpu: &Cpu, bus: &mut CpuBus, mode: AddressingMode) -> (r: Resolved)
    requires
        old(bus).wf(),
    ensures
        final(bus).wf(),
        (r, final(bus)@) == resolve_spec(*cpu, old(bus)@, mode),
{
    let pc = cpu.program_counter;
    match mode {
        AddressingMode::Implicit => Resolved { target: Target::Implied, page_crossed: false },
        AddressingMode::Accumulator => Resolved { target: Target::Accumulator, page_crossed: false },
        AddressingMode::Immediate | AddressingMode::Relative => Resolved {
            target: Target::Memory(pc),
            page_crossed: false,
        },
        AddressingMode::ZeroPage => {
            let address = bus.read(pc) as u16;
            Resolved { target: Target::Memory(address), page_crossed: false }
        },
        AddressingMode::ZeroPageX => {
            let address = bus.read(pc).wrapping_add(cpu.x) as u16;
            Resolved { target: Target::Memory(address), page_crossed: false }
        },
        AddressingMode::ZeroPageY => {
            let address = bus.read(pc).wrapping_add(cpu.y) as u16;
            Resolved { target: Target::Memory(address), page_crossed: false }
        },
        AddressingMode::Absolute => {
            let address = bus.read_u16(pc);
            Resolved { target: Target::Memory(address), page_crossed: false }
        },
        AddressingMode::AbsoluteX => {
            let base = bus.read_u16(pc);
            let address = base.wrapping_add(cpu.x as u16);
            Resolved {
                target: Target::Memory(address),
                page_crossed: base & 0xFF00 != address & 0xFF00,
            }
        },
        AddressingMode::AbsoluteY => {
            let base = bus.read_u16(pc);
            let address = base.wrapping_add(cpu.y as u16);
            Resolved {
                target: Target::Memory(address),
                page_crossed: base & 0xFF00 != address & 0xFF00,
            }
        },
        AddressingMode::Indirect => {
            let ptr = bus.read_u16(pc);
            let address = read_pointer(bus, ptr);
            Resolved { target: Target::Memory(address), page_crossed: false }
        },
        AddressingMode::IndirectX => {
            let zp = bus.read(pc).wrapping_add(cpu.x) as u16;
            let address = read_pointer(bus, zp);
            Resolved { target: Target::Memory(address), page_crossed: false }
        },
        AddressingMode::IndirectY => {
            let zp = bus.read(pc) as u16;
            let base = read_pointer(bus, zp);
            let address = base.wrapping_add(cpu.y as u16);
            Resolved {
                target: Target::Memory(address),
                page_crossed: base & 0xFF00 != address & 0xFF00,
            }
        },
    }
}

} // verus!
