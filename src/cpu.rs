//! The 6502 register file, status flags and stack.
use vstd::prelude::*;
use crate::cpu_bus::{BusState, CpuBus};

verus! {

pub const CARRY: u8 = 0x01;

pub const ZERO: u8 = 0x02;

pub const INTERRUPT_DISABLE: u8 = 0x04;

pub const DECIMAL_MODE: u8 = 0x08;

pub const BREAK: u8 = 0x10;

pub const UNUSED: u8 = 0x20;

pub const OVERFLOW: u8 = 0x40;

pub const NEGATIVE: u8 = 0x80;

pub const STACK_OFFSET: u16 = 0x100;

pub const RESET_VECTOR: u16 = 0xFFFC;

pub const IRQ_VECTOR: u16 = 0xFFFE;

/// The stack pointer right after power-on.
pub const INITIAL_STACK_POINTER: u8 = 0xFD;

/// The cycle counter right after power-on, as the nestest conformance trace counts it.
pub const INITIAL_TOTAL_CYCLES: u64 = 7;

/// CPU registers and the bookkeeping of the instruction in flight.
#[derive(Debug, Clone, Copy, PartialEq, Eq, Structural)]
pub struct Cpu {
    pub accumulator: u8,
    pub x: u8,
    pub y: u8,
    pub program_counter: u16,
    pub stack_pointer: u8,
    pub status: u8,
    /// Cycles of the current instruction still to be drained.
    pub cycles_left: u8,
    pub total_cycles: u64,
    /// Set by BRK; cleared by the next tick.
    pub is_resetting: bool,
    /// Set by a JAM opcode; the CPU then does nothing.
    pub is_jammed: bool,
}

/// `p` with the bits of `flag` set or cleared.
pub open spec fn with_flag(p: u8, flag: u8, on: bool) -> u8 {
    if on {
        p | flag
    } else {
        p & !flag
    }
}

/// `p` with Z and N describing the 8-bit result `r`.
pub open spec fn with_zn(p: u8, r: u8) -> u8 {
    with_flag(with_flag(p, ZERO, r == 0), NEGATIVE, r & 0x80 != 0)
}

/// The register state after power-on, with the given program counter.
pub open spec fn power_on(program_counter: u16) -> Cpu {
    Cpu {
        accumulator: 0,
        x: 0,
        y: 0,
        program_counter,
        stack_pointer: INITIAL_STACK_POINTER,
        status: UNUSED | INTERRUPT_DISABLE,
        cycles_left: 0,
        total_cycles: INITIAL_TOTAL_CYCLES,
        is_resetting: false,
        is_jammed: false,
    }
}

pub open spec fn stack_address(sp: u8) -> u16 {
    (STACK_OFFSET + sp) as u16
}

/// Pushing a byte: store at `0x0100 + SP`, then decrement SP.
pub open spec fn push_spec(c: Cpu, b: BusState, value: u8) -> (Cpu, BusState) {
    (
        Cpu { stack_pointer: c.stack_pointer.wrapping_sub(1), ..c },
        b.after_write(stack_address(c.stack_pointer), value),
    )
}

/// Popping a byte: increment SP, then read `0x0100 + SP`.
pub open spec fn pop_spec(c: Cpu, b: BusState) -> (u8, Cpu, BusState) {
    let sp = c.stack_pointer.wrapping_add(1);
    (
        b.read_value(stack_address(sp)),
        Cpu { stack_pointer: sp, ..c },
        b.after_read(stack_address(sp)),
    )
}

/// Pushing a word: high byte first.
pub open spec fn push_u16_spec(c: Cpu, b: BusState, value: u16) -> (Cpu, BusState) {
    let (c1, b1) = push_spec(c, b, (value >> 8u16) as u8);
    push_spec(c1, b1, value as u8)
}

/// Popping a word: low byte first.
pub open spec fn pop_u16_spec(c: Cpu, b: BusState) -> (u16, Cpu, BusState) {
    let (low, c1, b1) = pop_spec(c, b);
    let (high, c2, b2) = pop_spec(c1, b1);
    ((high as u16) << 8u16 | low as u16, c2, b2)
}

impl Cpu {
    pub open spec fn flag(self, flag: u8) -> bool {
        self.status & flag != 0
    }

    pub fn new() -> (r: Cpu)
        ensures
            r == power_on(0),
    {
        Cpu {
            accumulator: 0,
            x: 0,
            y: 0,
            program_counter: 0,
            stack_pointer: INITIAL_STACK_POINTER,
            status: UNUSED | INTERRUPT_DISABLE,
            cycles_left: 0,
            total_cycles: INITIAL_TOTAL_CYCLES,
            is_resetting: false,
            is_jammed: false,
        }
    }

    pub fn is_resetting(&self) -> (r: bool)
        ensures
            r == self.is_resetting,
    {
        self.is_resetting
    }

    /// Power-on reset: registers reinitialised, PC loaded from the reset vector.
    pub fn reset(&mut self, bus: &mut CpuBus)
        requires
            old(bus).wf(),
        ensures
            final(bus).wf(),
            (final(self).program_counter, final(bus)@) == old(bus)@.read_u16_spec(RESET_VECTOR),
            *final(self) == power_on(final(self).program_counter),
    {
        *self = Cpu::new();
        self.program_counter = bus.read_u16(RESET_VECTOR);
    }

    pub fn reset_with_program_counter(&mut self, program_counter: u16)
        ensures
            *final(self) == power_on(program_counter),
    {
        *self = Cpu::new();
        self.program_counter = program_counter;
    }

    pub fn get_program_counter(&self) -> (r: u16)
        ensures
            r == self.program_counter,
    {
        self.program_counter
    }

    pub fn get_cycles_left(&self) -> (r: u8)
        ensures
            r == self.cycles_left,
    {
        self.cycles_left
    }

    pub fn set_flag(&mut self, flag: u8, enabled: bool)
        ensures
            *final(self) == (Cpu { status: with_flag(old(self).status, flag, enabled), ..*old(self) }),
    {
        if enabled {
            self.status = self.status | flag;
        } else {
            self.status = self.status & !flag;
        }
    }

    pub fn get_flag(&self, flag: u8) -> (r: bool)
        ensures
            r == self.flag(flag),
    {
        self.status & flag != 0
    }

    /// Sets Z and N from an 8-bit result.
    pub fn set_zn(&mut self, result: u8)
        ensures
            *final(self) == (Cpu { status: with_zn(old(self).status, result), ..*old(self) }),
    {
        self.set_flag(ZERO, result == 0);
        self.set_flag(NEGATIVE, result & 0x80 != 0);
    }

    pub fn push_stack(&mut self, value: u8, bus: &mut CpuBus)
        requires
            old(bus).wf(),
        ensures
            final(bus).wf(),
            (*final(self), final(bus)@) == push_spec(*old(self), old(bus)@, value),
    {
        bus.write(STACK_OFFSET + self.stack_pointer as u16, value);
        self.stack_pointer = self.stack_pointer.wrapping_sub(1);
    }

    pub fn pop_stack(&mut self, bus: &mut CpuBus) -> (r: u8)
        requires
            old(bus).wf(),
        ensures
            final(bus).wf(),
            (r, *final(self), final(bus)@) == pop_spec(*old(self), old(bus)@),
    {
        self.stack_pointer = self.stack_pointer.wrapping_add(1);
        bus.read(STACK_OFFSET + self.stack_pointer as u16)
    }

    pub fn push_stack_u16(&mut self, value: u16, bus: &mut CpuBus)
        requires
            old(bus).wf(),
        ensures
            final(bus).wf(),
            (*final(self), final(bus)@) == push_u16_spec(*old(self), old(bus)@, value),
    {
        let high = (value >> 8u16) as u8;
        let low = value as u8;
        self.push_stack(high, bus);
        self.push_stack(low, bus);
    }

    pub fn pop_stack_u16(&mut self, bus: &mut CpuBus) -> (r: u16)
        requires
            old(bus).wf(),
        ensures
            final(bus).wf(),
            (r, *final(self), final(bus)@) == pop_u16_spec(*old(self), old(bus)@),
    {
        let low = self.pop_stack(bus) as u16;
        let high = self.pop_stack(bus) as u16;
        (high << 8u16) | low
    }
}

} // verus!
