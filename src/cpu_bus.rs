//! The CPU's view of memory: 2 KiB of RAM mirrored four times, register stubs
//! for the PPU and the APU, and the cartridge.
//!
//! Reads are not pure: the bus keeps the last byte it returned, and that byte
//! is what an unmapped cartridge address reads as (open bus).
use vstd::prelude::*;
use crate::cartridge::{CartState, Cartrige, MemoryAccess};

verus! {

pub const CPU_RAM_SIZE: usize = 2048;

/// What the bus holds, as plain values.
pub struct BusState {
    pub ram: Seq<u8>,
    pub cartridge: Option<CartState>,
    pub last_read: u8,
}

pub proof fn lemma_ram_index(address: u16)
    by (bit_vector)
    ensures
        address & 0x07FF < 0x0800,
{
}

impl BusState {
    pub open spec fn wf(self) -> bool {
        self.ram.len() == CPU_RAM_SIZE
    }

    /// The byte that a read of `address` returns.
    pub open spec fn read_value(self, address: u16) -> u8 {
        if address < 0x2000 {
            self.ram[(address & 0x07FF) as int]
        } else if address < 0x4000 {
            0
        } else if address < 0x4020 {
            0xFF
        } else {
            match self.cartridge {
                None => 0,
                Some(c) => match c.read_spec(MemoryAccess::CpuAccess { address }) {
                    Some(v) => v,
                    None => self.last_read,
                },
            }
        }
    }

    /// The bus after a read of `address`: it latches the byte returned.
    pub open spec fn after_read(self, address: u16) -> BusState {
        BusState { last_read: self.read_value(address), ..self }
    }

    pub open spec fn after_write(self, address: u16, value: u8) -> BusState {
        if address < 0x2000 {
            BusState { ram: self.ram.update((address & 0x07FF) as int, value), ..self }
        } else if address < 0x4020 {
            self
        } else {
            match self.cartridge {
                None => self,
                Some(c) => BusState {
                    cartridge: Some(c.write_spec(MemoryAccess::CpuAccess { address }, value)),
                    ..self
                },
            }
        }
    }

    /// The 16-bit little-endian value at `address`, and the bus after its two reads.
    pub open spec fn read_u16_spec(self, address: u16) -> (u16, BusState) {
        let low = self.read_value(address);
        let b1 = self.after_read(address);
        let next = address.wrapping_add(1);
        let high = b1.read_value(next);
        ((high as u16) << 8u16 | low as u16, b1.after_read(next))
    }

    /// The bus after writing `m` byte by byte from `start` upward.
    pub open spec fn write_all(self, start: u16, m: Seq<u8>) -> BusState
        decreases m.len(),
    {
        if m.len() == 0 {
            self
        } else {
            self.write_all(start, m.drop_last()).after_write(
                (start + m.len() - 1) as u16,
                m.last(),
            )
        }
    }
}

proof fn lemma_mirror_index(address: u16, mirror: u16)
    by (bit_vector)
    requires
        address < 0x2000,
        mirror < 0x2000,
        address % 0x0800 == mirror % 0x0800,
    ensures
        address & 0x07FF == mirror & 0x07FF,
{
}

/// RAM is mirrored: a byte written anywhere in `0x0000..0x2000` reads back at
/// every address of that range that agrees with it modulo 2 KiB.
pub proof fn ram_mirroring(b: BusState, address: u16, mirror: u16, value: u8)
    requires
        b.wf(),
        address < 0x2000,
        mirror < 0x2000,
        address % 0x0800 == mirror % 0x0800,
    ensures
        b.after_write(address, value).read_value(mirror) == value,
{
    lemma_mirror_index(address, mirror);
    lemma_ram_index(address);
}

/// A write to `$0000` reads back at `$0800`, `$1000` and `$1800`.
pub proof fn zero_page_mirrors(b: BusState, value: u8)
    requires
        b.wf(),
    ensures
        b.after_write(0x0000, value).read_value(0x0000) == value,
        b.after_write(0x0000, value).read_value(0x0800) == value,
        b.after_write(0x0000, value).read_value(0x1000) == value,
        b.after_write(0x0000, value).read_value(0x1800) == value,
{
    ram_mirroring(b, 0x0000, 0x0000, value);
    ram_mirroring(b, 0x0000, 0x0800, value);
    ram_mirroring(b, 0x0000, 0x1000, value);
    ram_mirroring(b, 0x0000, 0x1800, value);
}

pub struct CpuBus {
    cpu_ram: Vec<u8>,
    cartrige: Option<Cartrige>,
    last_read: u8,
}

impl View for CpuBus {
    type V = BusState;

    closed spec fn view(&self) -> BusState {
        BusState {
            ram: self.cpu_ram@,
            cartridge: match self.cartrige {
                Some(c) => Some(c@),
                None => None,
            },
            last_read: self.last_read,
        }
    }
}

impl CpuBus {
    pub open spec fn wf(&self) -> bool {
        self@.wf()
    }

    pub fn new() -> (r: CpuBus)
        ensures
            r.wf(),
            r@.ram == Seq::new(CPU_RAM_SIZE as nat, |i: int| 0u8),
            r@.cartridge is None,
            r@.last_read == 0,
    {
        let mut ram: Vec<u8> = Vec::with_capacity(CPU_RAM_SIZE);
        let mut i: usize = 0;
        while i < CPU_RAM_SIZE
            invariant
                i <= CPU_RAM_SIZE,
                ram@ == Seq::new(i as nat, |j: int| 0u8),
            decreases CPU_RAM_SIZE - i,
        {
            ram.push(0u8);
            i = i + 1;
            assert(ram@ =~= Seq::new(i as nat, |j: int| 0u8));
        }
        CpuBus { cpu_ram: ram, cartrige: None, last_read: 0 }
    }

    pub fn insert_cartrige(&mut self, cartrige: Cartrige)
        ensures
            final(self)@ == (BusState { cartridge: Some(cartrige@), ..old(self)@ }),
    {
        self.cartrige = Some(cartrige);
    }

    /// The inserted cartridge, for inspection.
    pub fn cartrige(&self) -> (r: Option<&Cartrige>)
        ensures
            match r {
                Some(c) => self@.cartridge == Some(c@),
                None => self@.cartridge is None,
            },
    {
        match &self.cartrige {
            Some(c) => Some(c),
            None => None,
        }
    }

    /// The byte a read of `address` would return, without latching it.
    pub fn peek(&self, address: u16) -> (r: u8)
        requires
            self.wf(),
        ensures
            r == self@.read_value(address),
    {
        if address < 0x2000 {
            proof {
                lemma_ram_index(address);
            }
            self.cpu_ram[(address & 0x07FF) as usize]
        } else if address < 0x4000 {
            0
        } else if address < 0x4020 {
            0xFF
        } else {
            match &self.cartrige {
                None => 0,
                Some(c) => match c.read(MemoryAccess::CpuAccess { address }) {
                    Some(v) => v,
                    None => self.last_read,
                },
            }
        }
    }

    pub fn read(&mut self, address: u16) -> (r: u8)
        requires
            old(self).wf(),
        ensures
            final(self).wf(),
            r == old(self)@.read_value(address),
            final(self)@ == old(self)@.after_read(address),
    {
        let result = self.peek(address);
        self.last_read = result;
        result
    }

    pub fn write(&mut self, address: u16, value: u8)
        requires
            old(self).wf(),
        ensures
            final(self).wf(),
            final(self)@ == old(self)@.after_write(address, value),
    {
        if address < 0x2000 {
            proof {
                lemma_ram_index(address);
            }
            self.cpu_ram.set((address & 0x07FF) as usize, value);
        } else if address < 0x4020 {
        } else {
            match &mut self.cartrige {
                None => {},
                Some(c) => c.write(MemoryAccess::CpuAccess { address }, value),
            }
        }
    }

    pub fn read_u16(&mut self, address: u16) -> (r: u16)
        requires
            old(self).wf(),
        ensures
            final(self).wf(),
            (r, final(self)@) == old(self)@.read_u16_spec(address),
    {
        let low = self.read(address) as u16;
        let high = self.read(address.wrapping_add(1)) as u16;
        high << 8u16 | low
    }

    /// Stores a 16-bit little-endian value straight into RAM (for test setup).
    pub fn write_u16(&mut self, address: u16, value: u16)
        requires
            old(self).wf(),
            address + 1 < CPU_RAM_SIZE,
        ensures
            final(self)@ == (BusState {
                ram: old(self)@.ram.update(address as int, (value & 0x00FF) as u8).update(
                    address + 1,
                    (value >> 8u16) as u8,
                ),
                ..old(self)@
            }),
    {
        let value_low = (value & 0x00FF) as u8;
        let value_high = (value >> 8u16) as u8;
        self.cpu_ram.set(address as usize, value_low);
        self.cpu_ram.set(address as usize + 1, value_high);
    }

    /// Writes `memory` through the address decoder, starting at `start`.
    pub fn write_memory(&mut self, start: u16, memory: &[u8])
        requires
            old(self).wf(),
            start + memory@.len() <= 0x10000,
        ensures
            final(self).wf(),
            final(self)@ == old(self)@.write_all(start, memory@),
    {
        let n = memory.len();
        let mut i: usize = 0;
        while i < n
            invariant
                n == memory@.len(),
                start + n <= 0x10000,
                i <= n,
                self.wf(),
                self@ == old(self)@.write_all(start, memory@.subrange(0, i as int)),
            decreases n - i,
        {
            let ghost before = self@;
            self.write(start + i as u16, memory[i]);
            proof {
                let next = memory@.subrange(0, i + 1);
                assert(next.drop_last() =~= memory@.subrange(0, i as int));
            }
            i = i + 1;
        }
        assert(memory@.subrange(0, n as int) =~= memory@);
    }
}

} // verus!
