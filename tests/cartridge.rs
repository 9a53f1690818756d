use scam::cartridge::{
    Cartrige, CartrigeParseError, Mapper, MemoryAccess, Mirroring, TvSystem,
};

fn image(prg_banks: u8, chr_banks: u8, flags6: u8, flags7: u8) -> Vec<u8> {
    let mut v = vec![0x4E, 0x45, 0x53, 0x1A, prg_banks, chr_banks, flags6, flags7, 0, 0, 0, 0, 0, 0, 0, 0];
    if flags6 & 0x04 != 0 {
        v.extend(std::iter::repeat(0xEE).take(512));
    }
    for bank in 0..prg_banks {
        v.extend(std::iter::repeat(bank).take(16384));
    }
    for bank in 0..chr_banks {
        v.extend(std::iter::repeat(0x80 | bank).take(8192));
    }
    v
}

fn parse_error(bytes: &[u8]) -> CartrigeParseError {
    match Cartrige::from_bytes(bytes) {
        Ok(_) => panic!("image unexpectedly accepted"),
        Err(e) => e,
    }
}

#[test]
fn short_image_fails_before_magic() {
    assert_eq!(parse_error(&[0x4E, 0x45]), CartrigeParseError::NotEnoughBytesError(4));
}

#[test]
fn wrong_magic_is_rejected() {
    assert_eq!(parse_error(&[0x4E, 0x45, 0x53, 0x00, 1, 0]), CartrigeParseError::MissingMagicNumbersError);
}

#[test]
fn truncated_header_fails() {
    let full = image(1, 0, 0, 0);
    assert_eq!(parse_error(&full[..8]), CartrigeParseError::NotEnoughBytesError(1));
    assert_eq!(parse_error(&full[..13]), CartrigeParseError::NotEnoughBytesError(5));
}

#[test]
fn truncated_rom_fails_with_the_requested_size() {
    let full = image(2, 1, 0, 0);
    assert_eq!(parse_error(&full[..16 + 100]), CartrigeParseError::NotEnoughBytesError(32768));
    assert_eq!(parse_error(&full[..16 + 32768 + 10]), CartrigeParseError::NotEnoughBytesError(8192));
    let trained = image(1, 0, 0x04, 0);
    assert_eq!(parse_error(&trained[..16 + 100]), CartrigeParseError::NotEnoughBytesError(512));
}

#[test]
fn unknown_mapper_is_rejected() {
    assert_eq!(parse_error(&image(1, 0, 0x10, 0)), CartrigeParseError::UnknownMapperIdError(0x10));
    assert_eq!(parse_error(&image(1, 0, 0, 0x30)), CartrigeParseError::UnknownMapperIdError(3));
}

#[test]
fn nrom_single_bank_is_mirrored() {
    let mut bytes = image(1, 1, 0, 0);
    bytes[16] = 0x11;
    bytes[16 + 0x3FFF] = 0x22;
    let cart = Cartrige::from_bytes(&bytes).unwrap();
    assert_eq!(cart.read(MemoryAccess::CpuAccess { address: 0x8000 }), Some(0x11));
    assert_eq!(cart.read(MemoryAccess::CpuAccess { address: 0xC000 }), Some(0x11));
    assert_eq!(cart.read(MemoryAccess::CpuAccess { address: 0xFFFF }), Some(0x22));
    assert_eq!(cart.read(MemoryAccess::CpuAccess { address: 0x6000 }), None);
    assert_eq!(cart.read(MemoryAccess::PpuAccess { address: 0x0000 }), Some(0x80));
    assert_eq!(cart.read(MemoryAccess::PpuAccess { address: 0x2000 }), None);
}

#[test]
fn nrom_ignores_rom_writes_and_keeps_chr_rom() {
    let mut cart = Cartrige::from_bytes(&image(2, 1, 0, 0)).unwrap();
    cart.write(MemoryAccess::CpuAccess { address: 0x8000 }, 0x55);
    cart.write(MemoryAccess::PpuAccess { address: 0x0010 }, 0x55);
    assert_eq!(cart.read(MemoryAccess::CpuAccess { address: 0x8000 }), Some(0));
    assert_eq!(cart.read(MemoryAccess::CpuAccess { address: 0xC000 }), Some(1));
    assert_eq!(cart.read(MemoryAccess::PpuAccess { address: 0x0010 }), Some(0x80));
}

#[test]
fn chr_ram_accepts_writes() {
    let mut cart = Cartrige::from_bytes(&image(1, 0, 0, 0)).unwrap();
    assert_eq!(cart.chr_mem().len(), 8192);
    cart.write(MemoryAccess::PpuAccess { address: 0x1FFF }, 0x5A);
    assert_eq!(cart.read(MemoryAccess::PpuAccess { address: 0x1FFF }), Some(0x5A));
}

#[test]
fn uxrom_switches_the_low_bank() {
    let mut cart = Cartrige::from_bytes(&image(4, 0, 0, 0x20)).unwrap();
    assert_eq!(cart.get_mapper(), Mapper::M002 { selected_bank: 0 });
    assert_eq!(cart.read(MemoryAccess::CpuAccess { address: 0x8000 }), Some(0));
    assert_eq!(cart.read(MemoryAccess::CpuAccess { address: 0xC000 }), Some(3));
    cart.write(MemoryAccess::CpuAccess { address: 0x8000 }, 0xF2);
    assert_eq!(cart.get_mapper(), Mapper::M002 { selected_bank: 2 });
    assert_eq!(cart.read(MemoryAccess::CpuAccess { address: 0xBFFF }), Some(2));
    assert_eq!(cart.read(MemoryAccess::CpuAccess { address: 0xFFFF }), Some(3));
    cart.write(MemoryAccess::CpuAccess { address: 0x8000 }, 0x09);
    assert_eq!(cart.read(MemoryAccess::CpuAccess { address: 0x8000 }), None);
}

#[test]
fn mapper_offsets() {
    let header = *Cartrige::from_bytes(&image(2, 0, 0, 0x20)).unwrap().get_header();
    let m = Mapper::M002 { selected_bank: 1 };
    assert_eq!(m.map_read(&header, MemoryAccess::CpuAccess { address: 0x8123 }), Some(0x4123));
    assert_eq!(m.map_read(&header, MemoryAccess::CpuAccess { address: 0xC123 }), Some(0x4123));
    assert_eq!(Mapper::M000.map_read(&header, MemoryAccess::CpuAccess { address: 0xC123 }), Some(0x4123));
    assert_eq!(Mapper::M000.map_read(&header, MemoryAccess::CpuAccess { address: 0x7FFF }), None);
}

#[test]
fn header_fields() {
    let cart = Cartrige::from_bytes(&image(2, 1, 0x0B, 0x00)).unwrap();
    let h = cart.get_header();
    assert_eq!(h.prg_rom_size(), 2);
    assert_eq!(h.prg_chr_size(), 1);
    assert_eq!(h.prg_rom_size_bytes(), 32768);
    assert_eq!(h.chr_rom_size_bytes(), 8192);
    assert_eq!(h.prg_ram_size_bytes(), 8192);
    assert_eq!(h.get_mapper_id(), 0);
    assert!(h.has_battery_backed_ram());
    assert!(h.has_four_screen_vram());
    assert_eq!(h.mirroring(), Mirroring::FourScreen);
    assert_eq!(h.get_nametable_arrangement(), 1);
    assert!(!h.get_has_trainer());
    assert!(!h.is_vs_unisystem());
    assert!(!h.is_playchoice_10());
    assert!(!h.is_nes_2_0());
    assert_eq!(h.tv_system(), TvSystem::Ntsc);
    assert_eq!(cart.prg_mem().len(), 32768);
}

#[test]
fn header_tv_system_and_nes_2_0() {
    let mut bytes = image(1, 0, 0x01, 0x08);
    bytes[10] = 0x02;
    let cart = Cartrige::from_bytes(&bytes).unwrap();
    let h = cart.get_header();
    assert!(h.is_nes_2_0());
    assert_eq!(h.tv_system(), TvSystem::Pal);
    assert_eq!(h.mirroring(), Mirroring::Vertical);
    let mut bytes = image(1, 0, 0x04, 0x03);
    bytes[8] = 3;
    bytes[9] = 1;
    let cart = Cartrige::from_bytes(&bytes).unwrap();
    let h = cart.get_header();
    assert!(h.get_has_trainer());
    assert!(h.is_vs_unisystem() && h.is_playchoice_10());
    assert_eq!(h.tv_system(), TvSystem::Pal);
    assert_eq!(h.prg_ram_size_bytes(), 3 * 8192);
    assert_eq!(h.mirroring(), Mirroring::Horizontal);
}
