//! iNES cartridges: header parsing, PRG/CHR memory and the mappers that route
//! CPU and PPU addresses into it.
use vstd::prelude::*;

verus! {

pub const PRG_ROM_BANK_SIZE: usize = 16384;

pub const CHR_ROM_BANK_SIZE: usize = 8192;

pub const PRG_RAM_BANK_SIZE: usize = 8192;

pub const TRAINER_SIZE: usize = 512;

pub const HEADER_SIZE: usize = 16;

pub const FLAG6_NAMETABLE: u8 = 0x01;

pub const FLAG6_BATTERY: u8 = 0x02;

pub const FLAG6_TRAINER: u8 = 0x04;

pub const FLAG6_FOUR_SCREEN: u8 = 0x08;

pub const FLAG7_VS_UNISYSTEM: u8 = 0x01;

pub const FLAG7_PLAYCHOICE_10: u8 = 0x02;

pub const FLAG7_NES2_SIGNATURE_MASK: u8 = 0x0C;

pub const FLAG7_NES2_SIGNATURE_VALUE: u8 = 0x08;

pub const FLAG9_TV_SYSTEM: u8 = 0x01;

pub const FLAG10_TV_SYSTEM_MASK: u8 = 0x03;

/// Why a byte image could not be turned into a cartridge.
#[derive(Debug, Clone, Copy, PartialEq, Eq, Structural)]
pub enum CartrigeParseError {
    /// The host could not read the image; never produced by byte parsing.
    IoError,
    /// The image does not start with `4E 45 53 1A`.
    MissingMagicNumbersError,
    /// A read of this many bytes ran past the end of the image.
    NotEnoughBytesError(usize),
    /// The header names a mapper that is not implemented.
    UnknownMapperIdError(u8),
}

#[derive(Debug, Clone, Copy, PartialEq, Eq, Structural)]
pub enum Mirroring {
    Horizontal,
    Vertical,
    FourScreen,
}

#[derive(Debug, Clone, Copy, PartialEq, Eq, Structural)]
pub enum TvSystem {
    Ntsc,
    Pal,
    DualCompatible,
    Unknown(u8),
}

/// The fields of the 16-byte iNES header (bytes 4 to 10).
#[derive(Debug, Clone, Copy, PartialEq, Eq, Structural)]
pub struct Header {
    pub prg_size: u8,
    pub chr_size: u8,
    pub flags6: u8,
    pub flags7: u8,
    pub flags8: u8,
    pub flags9: u8,
    pub flags10: u8,
}

pub open spec fn mapper_id_of(h: Header) -> u8 {
    (((h.flags6 >> 4u8) << 4u8) | (h.flags7 >> 4u8)) as u8
}

pub open spec fn is_nes_2_0_spec(h: Header) -> bool {
    h.flags7 & FLAG7_NES2_SIGNATURE_MASK == FLAG7_NES2_SIGNATURE_VALUE
}

pub open spec fn mirroring_of(h: Header) -> Mirroring {
    if h.flags6 & FLAG6_FOUR_SCREEN != 0 {
        Mirroring::FourScreen
    } else if h.flags6 & FLAG6_NAMETABLE == 1 {
        Mirroring::Vertical
    } else {
        Mirroring::Horizontal
    }
}

pub open spec fn tv_system_of(h: Header) -> TvSystem {
    if is_nes_2_0_spec(h) {
        let bits = h.flags10 & FLAG10_TV_SYSTEM_MASK;
        if bits == 0 {
            TvSystem::Ntsc
        } else if bits == 2 {
            TvSystem::Pal
        } else if bits == 1 || bits == 3 {
            TvSystem::DualCompatible
        } else {
            TvSystem::Unknown(bits)
        }
    } else if h.flags9 & FLAG9_TV_SYSTEM != 0 {
        TvSystem::Pal
    } else {
        TvSystem::Ntsc
    }
}

impl Header {
    pub fn prg_rom_size(&self) -> (r: u8)
        ensures
            r == self.prg_size,
    {
        self.prg_size
    }

    pub fn prg_chr_size(&self) -> (r: u8)
        ensures
            r == self.chr_size,
    {
        self.chr_size
    }

    pub fn prg_rom_size_bytes(&self) -> (r: usize)
        ensures
            r == self.prg_size * PRG_ROM_BANK_SIZE,
    {
        self.prg_size as usize * PRG_ROM_BANK_SIZE
    }

    pub fn chr_rom_size_bytes(&self) -> (r: usize)
        ensures
            r == self.chr_size * CHR_ROM_BANK_SIZE,
    {
        self.chr_size as usize * CHR_ROM_BANK_SIZE
    }

    /// PRG RAM in bytes; a zero count in byte 8 means one bank.
    pub fn prg_ram_size_bytes(&self) -> (r: usize)
        ensures
            r == (if self.flags8 == 0 { 1 } else { self.flags8 as int }) * PRG_RAM_BANK_SIZE,
    {
        let units: usize = if self.flags8 == 0 {
            1
        } else {
            self.flags8 as usize
        };
        units * PRG_RAM_BANK_SIZE
    }

    pub fn get_nametable_arrangement(&self) -> (r: u8)
        ensures
            r == self.flags6 & FLAG6_NAMETABLE,
    {
        self.flags6 & FLAG6_NAMETABLE
    }

    pub fn get_mapper_id(&self) -> (r: u8)
        ensures
            r == mapper_id_of(*self),
    {
        ((self.flags6 >> 4u8) << 4u8) | (self.flags7 >> 4u8)
    }

    pub fn has_battery_backed_ram(&self) -> (r: bool)
        ensures
            r == (self.flags6 & FLAG6_BATTERY != 0),
    {
        self.flags6 & FLAG6_BATTERY != 0
    }

    pub fn mirroring(&self) -> (r: Mirroring)
        ensures
            r == mirroring_of(*self),
    {
        if self.has_four_screen_vram() {
            Mirroring::FourScreen
        } else if self.get_nametable_arrangement() == 1 {
            Mirroring::Vertical
        } else {
            Mirroring::Horizontal
        }
    }

    pub fn has_four_screen_vram(&self) -> (r: bool)
        ensures
            r == (self.flags6 & FLAG6_FOUR_SCREEN != 0),
    {
        self.flags6 & FLAG6_FOUR_SCREEN != 0
    }

    pub fn get_has_trainer(&self) -> (r: bool)
        ensures
            r == (self.flags6 & FLAG6_TRAINER != 0),
    {
        self.flags6 & FLAG6_TRAINER != 0
    }

    pub fn is_vs_unisystem(&self) -> (r: bool)
        ensures
            r == (self.flags7 & FLAG7_VS_UNISYSTEM != 0),
    {
        self.flags7 & FLAG7_VS_UNISYSTEM != 0
    }

    pub fn is_playchoice_10(&self) -> (r: bool)
        ensures
            r == (self.flags7 & FLAG7_PLAYCHOICE_10 != 0),
    {
        self.flags7 & FLAG7_PLAYCHOICE_10 != 0
    }

    pub fn is_nes_2_0(&self) -> (r: bool)
        ensures
            r == is_nes_2_0_spec(*self),
    {
        self.flags7 & FLAG7_NES2_SIGNATURE_MASK == FLAG7_NES2_SIGNATURE_VALUE
    }

    pub fn tv_system(&self) -> (r: TvSystem)
        ensures
            r == tv_system_of(*self),
    {
        if self.is_nes_2_0() {
            let bits = self.flags10 & FLAG10_TV_SYSTEM_MASK;
            if bits == 0 {
                TvSystem::Ntsc
            } else if bits == 2 {
                TvSystem::Pal
            } else if bits == 1 || bits == 3 {
                TvSystem::DualCompatible
            } else {
                TvSystem::Unknown(bits)
            }
        } else if self.flags9 & FLAG9_TV_SYSTEM != 0 {
            TvSystem::Pal
        } else {
            TvSystem::Ntsc
        }
    }
}


/// Which side of the machine asks: the CPU sees PRG memory, the PPU sees CHR memory.
#[derive(Debug, Clone, Copy, PartialEq, Eq, Structural)]
pub enum MemoryAccess {
    CpuAccess { address: u16 },
    PpuAccess { address: u16 },
}

/// The implemented mappers: NROM (id 0) and UxROM (id 2) with its bank register.
#[derive(Debug, Clone, Copy, PartialEq, Eq, Structural)]
pub enum Mapper {
    M000,
    M002 { selected_bank: u8 },
}

/// The flat PRG (CPU side) or CHR (PPU side) offset that an access reads.
pub open spec fn map_read_spec(m: Mapper, h: Header, access: MemoryAccess) -> Option<usize> {
    match access {
        MemoryAccess::CpuAccess { address } => {
            if address < 0x8000 {
                None
            } else {
                match m {
                    Mapper::M000 => {
                        let offset = (address - 0x8000) as u16;
                        if h.prg_size == 1 {
                            Some((offset & 0x3FFF) as usize)
                        } else {
                            Some(offset as usize)
                        }
                    },
                    Mapper::M002 { selected_bank } => {
                        if address < 0xC000 {
                            Some((selected_bank * 0x4000 + (address & 0x3FFF)) as usize)
                        } else if h.prg_size == 0 {
                            None
                        } else {
                            Some(((h.prg_size - 1) * 0x4000 + (address & 0x3FFF)) as usize)
                        }
                    },
                }
            }
        },
        MemoryAccess::PpuAccess { address } => {
            if address < 0x2000 {
                Some(address as usize)
            } else {
                None
            }
        },
    }
}

/// The mapper after a write, and the CHR offset that the write stores to, if any.
pub open spec fn map_write_spec(m: Mapper, h: Header, access: MemoryAccess, value: u8) -> (
    Mapper,
    Option<usize>,
) {
    match access {
        MemoryAccess::CpuAccess { address } => match m {
            Mapper::M000 => (m, None),
            Mapper::M002 { .. } => {
                if address < 0x8000 {
                    (m, None)
                } else {
                    (Mapper::M002 { selected_bank: value & 0x0F }, None)
                }
            },
        },
        MemoryAccess::PpuAccess { address } => {
            if address < 0x2000 && h.chr_size == 0 {
                (m, Some(address as usize))
            } else {
                (m, None)
            }
        },
    }
}

impl Mapper {
    pub fn map_read(&self, header: &Header, access: MemoryAccess) -> (r: Option<usize>)
        ensures
            r == map_read_spec(*self, *header, access),
    {
        match access {
            MemoryAccess::CpuAccess { address } => {
                if address < 0x8000 {
                    None
                } else {
                    match self {
                        Mapper::M000 => {
                            let offset = address - 0x8000;
                            if header.prg_size == 1 {
                                Some((offset & 0x3FFF) as usize)
                            } else {
                                Some(offset as usize)
                            }
                        },
                        Mapper::M002 { selected_bank } => {
                            if address < 0xC000 {
                                Some(*selected_bank as usize * 0x4000 + (address & 0x3FFF) as usize)
                            } else if header.prg_size == 0 {
                                None
                            } else {
                                Some(
                                    (header.prg_size - 1) as usize * 0x4000 + (address & 0x3FFF) as usize,
                                )
                            }
                        },
                    }
                }
            },
            MemoryAccess::PpuAccess { address } => {
                if address < 0x2000 {
                    Some(address as usize)
                } else {
                    None
                }
            },
        }
    }

    pub fn map_write(&mut self, header: &Header, access: MemoryAccess, value: u8) -> (r: Option<
        usize,
    >)
        ensures
            (*final(self), r) == map_write_spec(*old(self), *header, access, value),
    {
        match access {
            MemoryAccess::CpuAccess { address } => {
                if let Mapper::M002 { .. } = self {
                    if address >= 0x8000 {
                        *self = Mapper::M002 { selected_bank: value & 0x0F };
                    }
                }
                None
            },
            MemoryAccess::PpuAccess { address } => {
                if address < 0x2000 && header.chr_size == 0 {
                    Some(address as usize)
                } else {
                    None
                }
            },
        }
    }
}

/// What a cartridge holds, as plain values.
pub struct CartState {
    pub mapper: Mapper,
    pub header: Header,
    pub prg: Seq<u8>,
    pub chr: Seq<u8>,
}

impl CartState {
    /// The byte an access reads, or `None` where nothing is mapped.
    pub open spec fn read_spec(self, access: MemoryAccess) -> Option<u8> {
        match map_read_spec(self.mapper, self.header, access) {
            None => None,
            Some(offset) => {
                let mem = if access is CpuAccess {
                    self.prg
                } else {
                    self.chr
                };
                if offset < mem.len() {
                    Some(mem[offset as int])
                } else {
                    None
                }
            },
        }
    }

    pub open spec fn write_spec(self, access: MemoryAccess, value: u8) -> CartState {
        let (mapper, target) = map_write_spec(self.mapper, self.header, access, value);
        let chr = match target {
            Some(offset) => if offset < self.chr.len() {
                self.chr.update(offset as int, value)
            } else {
                self.chr
            },
            None => self.chr,
        };
        CartState { mapper, chr, ..self }
    }
}

/// A loaded cartridge: header, mapper state, PRG ROM and CHR ROM (or 8 KiB of CHR RAM).
pub struct Cartrige {
    mapper: Mapper,
    header: Header,
    prg_mem: Vec<u8>,
    chr_mem: Vec<u8>,
}

impl View for Cartrige {
    type V = CartState;

    closed spec fn view(&self) -> CartState {
        CartState {
            mapper: self.mapper,
            header: self.header,
            prg: self.prg_mem@,
            chr: self.chr_mem@,
        }
    }
}

pub open spec fn has_magic(b: Seq<u8>) -> bool {
    b[0] == 0x4E && b[1] == 0x45 && b[2] == 0x53 && b[3] == 0x1A
}

pub open spec fn header_of(b: Seq<u8>) -> Header {
    Header {
        prg_size: b[4],
        chr_size: b[5],
        flags6: b[6],
        flags7: b[7],
        flags8: b[8],
        flags9: b[9],
        flags10: b[10],
    }
}

/// Where PRG ROM starts: after the header and the optional trainer.
pub open spec fn prg_start(h: Header) -> int {
    HEADER_SIZE + if h.flags6 & FLAG6_TRAINER != 0 {
        TRAINER_SIZE as int
    } else {
        0
    }
}

pub open spec fn prg_len(h: Header) -> int {
    h.prg_size * PRG_ROM_BANK_SIZE
}

pub open spec fn chr_len(h: Header) -> int {
    h.chr_size * CHR_ROM_BANK_SIZE
}

pub open spec fn is_known_mapper(id: u8) -> bool {
    id == 0 || id == 2
}

pub open spec fn initial_mapper(id: u8) -> Mapper {
    if id == 0 {
        Mapper::M000
    } else {
        Mapper::M002 { selected_bank: 0 }
    }
}

/// CHR memory when the header declares no CHR ROM: 8 KiB of zeroed RAM.
pub open spec fn chr_ram() -> Seq<u8> {
    Seq::new(CHR_ROM_BANK_SIZE as nat, |i: int| 0u8)
}

/// The iNES image format: magic, header, optional trainer, PRG ROM, CHR ROM.
/// A short read fails with the number of bytes that it asked for.
pub open spec fn parse_spec(b: Seq<u8>) -> Result<CartState, CartrigeParseError> {
    if b.len() < 4 {
        Err(CartrigeParseError::NotEnoughBytesError(4))
    } else if !has_magic(b) {
        Err(CartrigeParseError::MissingMagicNumbersError)
    } else if b.len() < 11 {
        Err(CartrigeParseError::NotEnoughBytesError(1))
    } else if b.len() < HEADER_SIZE {
        Err(CartrigeParseError::NotEnoughBytesError(5))
    } else {
        let h = header_of(b);
        let p = prg_start(h);
        let c = p + prg_len(h);
        if b.len() < p {
            Err(CartrigeParseError::NotEnoughBytesError(TRAINER_SIZE))
        } else if b.len() < c {
            Err(CartrigeParseError::NotEnoughBytesError(prg_len(h) as usize))
        } else if b.len() < c + chr_len(h) {
            Err(CartrigeParseError::NotEnoughBytesError(chr_len(h) as usize))
        } else if !is_known_mapper(mapper_id_of(h)) {
            Err(CartrigeParseError::UnknownMapperIdError(mapper_id_of(h)))
        } else {
            Ok(
                CartState {
                    mapper: initial_mapper(mapper_id_of(h)),
                    header: h,
                    prg: b.subrange(p, c),
                    chr: if h.chr_size == 0 {
                        chr_ram()
                    } else {
                        b.subrange(c, c + chr_len(h))
                    },
                },
            )
        }
    }
}

fn copy_range(bytes: &[u8], start: usize, len: usize) -> (v: Vec<u8>)
    requires
        start + len <= bytes@.len(),
    ensures
        v@ == bytes@.subrange(start as int, start + len),
{
    let n = bytes.len();
    let mut v: Vec<u8> = Vec::with_capacity(len);
    let mut i: usize = 0;
    while i < len
        invariant
            n == bytes@.len(),
            start + len <= bytes@.len(),
            i <= len,
            v@ == bytes@.subrange(start as int, start + i),
        decreases len - i,
    {
        v.push(bytes[start + i]);
        i = i + 1;
        assert(v@ =~= bytes@.subrange(start as int, start + i));
    }
    v
}

fn zeroed(len: usize) -> (v: Vec<u8>)
    ensures
        v@ == Seq::new(len as nat, |i: int| 0u8),
{
    let mut v: Vec<u8> = Vec::with_capacity(len);
    let mut i: usize = 0;
    while i < len
        invariant
            i <= len,
            v@ == Seq::new(i as nat, |j: int| 0u8),
        decreases len - i,
    {
        v.push(0u8);
        i = i + 1;
        assert(v@ =~= Seq::new(i as nat, |j: int| 0u8));
    }
    v
}

/// Takes the next `n` bytes of `data` from `pos` on, or fails with `n` when
/// fewer are left.
fn try_get_next_n<'a>(data: &'a [u8], pos: &mut usize, n: usize) -> (r: Result<
    &'a [u8],
    CartrigeParseError,
>)
    requires
        *old(pos) <= data@.len(),
    ensures
        *final(pos) <= data@.len(),
        match r {
            Ok(s) => *old(pos) + n <= data@.len() && s@ == data@.subrange(
                *old(pos) as int,
                *old(pos) + n,
            ) && *final(pos) == *old(pos) + n,
            Err(e) => *old(pos) + n > data@.len() && e == CartrigeParseError::NotEnoughBytesError(
                n,
            ),
        },
{
    if data.len() - *pos < n {
        return Err(CartrigeParseError::NotEnoughBytesError(n));
    }
    let start = *pos;
    *pos = start + n;
    Ok(slice_range(data, start, start + n))
}

/// Takes the next byte of `data`, or fails with 1 at the end.
fn try_get_next(data: &[u8], pos: &mut usize) -> (r: Result<u8, CartrigeParseError>)
    requires
        *old(pos) <= data@.len(),
    ensures
        *final(pos) <= data@.len(),
        match r {
            Ok(v) => *old(pos) < data@.len() && v == data@[*old(pos) as int] && *final(pos) == *old(
                pos,
            ) + 1,
            Err(e) => *old(pos) == data@.len() && e == CartrigeParseError::NotEnoughBytesError(1),
        },
{
    if *pos >= data.len() {
        return Err(CartrigeParseError::NotEnoughBytesError(1));
    }
    let v = data[*pos];
    *pos = *pos + 1;
    Ok(v)
}

fn slice_range<'a>(data: &'a [u8], start: usize, end: usize) -> (r: &'a [u8])
    requires
        start <= end <= data@.len(),
    ensures
        r@ == data@.subrange(start as int, end as int),
{
    &data[start..end]
}

/// The mapper that the header names, in its power-on state.
fn from_header(header: &Header) -> (r: Result<Mapper, CartrigeParseError>)
    ensures
        match r {
            Ok(m) => is_known_mapper(mapper_id_of(*header)) && m == initial_mapper(
                mapper_id_of(*header),
            ),
            Err(e) => !is_known_mapper(mapper_id_of(*header)) && e
                == CartrigeParseError::UnknownMapperIdError(mapper_id_of(*header)),
        },
{
    let id = header.get_mapper_id();
    if id == 0 {
        Ok(Mapper::M000)
    } else if id == 2 {
        Ok(Mapper::M002 { selected_bank: 0 })
    } else {
        Err(CartrigeParseError::UnknownMapperIdError(id))
    }
}

impl Cartrige {
    pub fn get_header(&self) -> (r: &Header)
        ensures
            *r == self@.header,
    {
        &self.header
    }

    pub fn get_mapper(&self) -> (r: Mapper)
        ensures
            r == self@.mapper,
    {
        self.mapper
    }

    /// The PRG ROM bytes.
    pub fn prg_mem(&self) -> (r: &Vec<u8>)
        ensures
            r@ == self@.prg,
    {
        &self.prg_mem
    }

    /// The CHR ROM bytes, or the CHR RAM.
    pub fn chr_mem(&self) -> (r: &Vec<u8>)
        ensures
            r@ == self@.chr,
    {
        &self.chr_mem
    }

    /// Parses an iNES image.
    pub fn from_bytes(bytes: &[u8]) -> (r: Result<Cartrige, CartrigeParseError>)
        ensures
            match r {
                Ok(c) => parse_spec(bytes@) == Ok::<CartState, CartrigeParseError>(c@),
                Err(e) => parse_spec(bytes@) == Err::<CartState, CartrigeParseError>(e),
            },
    {
        let ghost b = bytes@;
        let mut pos: usize = 0;
        let magic = try_get_next_n(bytes, &mut pos, 4)?;
        if !(magic[0] == 0x4E && magic[1] == 0x45 && magic[2] == 0x53 && magic[3] == 0x1A) {
            return Err(CartrigeParseError::MissingMagicNumbersError);
        }
        let prg_size = try_get_next(bytes, &mut pos)?;
        let chr_size = try_get_next(bytes, &mut pos)?;
        let flags6 = try_get_next(bytes, &mut pos)?;
        let flags7 = try_get_next(bytes, &mut pos)?;
        let flags8 = try_get_next(bytes, &mut pos)?;
        let flags9 = try_get_next(bytes, &mut pos)?;
        let flags10 = try_get_next(bytes, &mut pos)?;
        let _ = try_get_next_n(bytes, &mut pos, 5)?;
        let header = Header { prg_size, chr_size, flags6, flags7, flags8, flags9, flags10 };
        assert(header == header_of(b));
        if header.get_has_trainer() {
            let _ = try_get_next_n(bytes, &mut pos, TRAINER_SIZE)?;
        }
        assert(pos == prg_start(header));
        let prg = try_get_next_n(bytes, &mut pos, header.prg_rom_size_bytes())?;
        let chr = try_get_next_n(bytes, &mut pos, header.chr_rom_size_bytes())?;
        let mapper = from_header(&header)?;
        let prg_mem = copy_range(prg, 0, prg.len());
        let chr_mem = if header.chr_size == 0 {
            zeroed(CHR_ROM_BANK_SIZE)
        } else {
            copy_range(chr, 0, chr.len())
        };
        assert(prg_mem@ =~= prg@);
        assert(chr_mem@ =~= chr_ram() || chr_mem@ =~= chr@);
        Ok(Cartrige { mapper, header, prg_mem, chr_mem })
    }

    /// Reads through the mapper; `None` where the mapper maps nothing.
    pub fn read(&self, access: MemoryAccess) -> (r: Option<u8>)
        ensures
            r == self@.read_spec(access),
    {
        match self.mapper.map_read(&self.header, access) {
            None => None,
            Some(offset) => {
                let mem = if let MemoryAccess::CpuAccess { .. } = access {
                    &self.prg_mem
                } else {
                    &self.chr_mem
                };
                if offset < mem.len() {
                    Some(mem[offset])
                } else {
                    None
                }
            },
        }
    }

    /// Writes through the mapper: bank selection, or CHR RAM.
    pub fn write(&mut self, access: MemoryAccess, value: u8)
        ensures
            final(self)@ == old(self)@.write_spec(access, value),
    {
        let target = self.mapper.map_write(&self.header, access, value);
        if let Some(offset) = target {
            if offset < self.chr_mem.len() {
                self.chr_mem.set(offset, value);
            }
        }
    }
}

} // verus!
