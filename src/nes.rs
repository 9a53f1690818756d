//! The console: CPU and bus, with the cartridge on the bus.
use vstd::prelude::*;
use crate::cartridge::Cartrige;
use crate::cpu::{power_on, Cpu};
use crate::cpu_bus::{BusState, CpuBus, CPU_RAM_SIZE};
use crate::disassembler::trace_line_spec;
use crate::instructions::{tick_spec, MAX_INSTRUCTION_CYCLES};

verus! {

pub struct Nes {
    bus: CpuBus,
    cpu: Cpu,
}

impl View for Nes {
    type V = (Cpu, BusState);

    closed spec fn view(&self) -> (Cpu, BusState) {
        (self.cpu, self.bus@)
    }
}

impl Nes {
    pub open spec fn wf(&self) -> bool {
        self@.1.wf()
    }

    pub fn new() -> (r: Nes)
        ensures
            r.wf(),
            r@.0 == power_on(0),
            r@.1.ram == Seq::new(CPU_RAM_SIZE as nat, |i: int| 0u8),
            r@.1.cartridge is None,
            r@.1.last_read == 0,
    {
        Nes { bus: CpuBus::new(), cpu: Cpu::new() }
    }

    /// Puts the cartridge on the bus.
    pub fn insert_cartrige(&mut self, cartrige: Cartrige)
        ensures
            final(self)@ == (old(self)@.0, BusState { cartridge: Some(cartrige@), ..old(self)@.1 }),
    {
        self.bus.insert_cartrige(cartrige);
    }

    pub fn cartrige(&self) -> (r: Option<&Cartrige>)
        ensures
            match r {
                Some(c) => self@.1.cartridge == Some(c@),
                None => self@.1.cartridge is None,
            },
    {
        self.bus.cartrige()
    }

    pub fn cpu(&self) -> (r: &Cpu)
        ensures
            *r == self@.0,
    {
        &self.cpu
    }

    pub fn is_resetting(&self) -> (r: bool)
        ensures
            r == self@.0.is_resetting,
    {
        self.cpu.is_resetting()
    }

    /// Power-on reset through the vector at `0xFFFC`.
    pub fn reset(&mut self)
        requires
            old(self).wf(),
        ensures
            final(self).wf(),
            (final(self)@.0.program_counter, final(self)@.1) == old(self)@.1.read_u16_spec(
                crate::cpu::RESET_VECTOR,
            ),
            final(self)@.0 == power_on(final(self)@.0.program_counter),
    {
        self.cpu.reset(&mut self.bus);
    }

    pub fn reset_with_program_counter(&mut self, program_counter: u16)
        ensures
            final(self)@ == (power_on(program_counter), old(self)@.1),
    {
        self.cpu.reset_with_program_counter(program_counter);
    }

    /// Advances the console by one CPU clock.
    pub fn tick(&mut self)
        requires
            old(self).wf(),
            old(self)@.0.total_cycles <= u64::MAX - MAX_INSTRUCTION_CYCLES,
        ensures
            final(self).wf(),
            final(self)@ == tick_spec(old(self)@.0, old(self)@.1),
    {
        self.cpu.tick(&mut self.bus);
    }

    /// The trace line that the next instruction fetch would log.
    pub fn trace_line(&self) -> (r: String)
        requires
            self.wf(),
        ensures
            r@ == trace_line_spec(self@.0, self@.1),
    {
        self.cpu.trace_line(&self.bus)
    }

    /// Writes `memory` through the bus from `start` on.
    pub fn write_memory(&mut self, start: u16, memory: &[u8])
        requires
            old(self).wf(),
            start + memory@.len() <= 0x10000,
        ensures
            final(self).wf(),
            final(self)@ == (old(self)@.0, old(self)@.1.write_all(start, memory@)),
    {
        self.bus.write_memory(start, memory);
    }
}

} // verus!
