//! The opcode table and the fetch-decode-execute step.
//!
//! One table maps each of the 256 opcode bytes to its operation, addressing
//! mode, base cycle count and two marks; execution and disassembly both read it.
use vstd::prelude::*;
use crate::addressing::{
    operand_len, operand_length, page_differs, resolve, resolve_spec, AddressingMode, Target,
};
use crate::cpu::Cpu;
use crate::cpu_bus::{BusState, CpuBus};
use crate::operations::{branch_destination, branch_taken, execute_spec, Operation};

verus! {

#[derive(Debug, Clone, Copy, PartialEq, Eq, Structural)]
pub struct OpcodeEntry {
    pub operation: Operation,
    pub mode: AddressingMode,
    /// Cycles before any extra.
    pub cycles: u8,
    /// Whether page crossings and taken branches add cycles; stores and
    /// read-modify-write instructions always pay the fixed count.
    pub may_require_extra_cycles: bool,
    pub is_illegal: bool,
}

/// The most cycles one instruction takes, extras included.
pub const MAX_INSTRUCTION_CYCLES: u64 = 11;

pub open spec fn entry(
    operation: Operation,
    mode: AddressingMode,
    cycles: u8,
    may_require_extra_cycles: bool,
    is_illegal: bool,
) -> OpcodeEntry {
    OpcodeEntry { operation, mode, cycles, may_require_extra_cycles, is_illegal }
}

fn make_entry(
    operation: Operation,
    mode: AddressingMode,
    cycles: u8,
    may_require_extra_cycles: bool,
    is_illegal: bool,
) -> (r: OpcodeEntry)
    ensures
        r == entry(operation, mode, cycles, may_require_extra_cycles, is_illegal),
{
    OpcodeEntry { operation, mode, cycles, may_require_extra_cycles, is_illegal }
}

/// The opcode table.
pub open spec fn opcode_entry(opcode: u8) -> OpcodeEntry {
    match opcode {
        0x00 => entry(Operation::Brk, AddressingMode::Implicit, 7, false, false),
        0x01 => entry(Operation::Ora, AddressingMode::IndirectX, 6, false, false),
        0x02 => entry(Operation::Jam, AddressingMode::Implicit, 1, false, true),
        0x03 => entry(Operation::Slo, AddressingMode::IndirectX, 8, false, true),
        0x04 => entry(Operation::Nop, AddressingMode::ZeroPage, 3, false, true),
        0x05 => entry(Operation::Ora, AddressingMode::ZeroPage, 3, false, false),
        0x06 => entry(Operation::Asl, AddressingMode::ZeroPage, 5, false, false),
        0x07 => entry(Operation::Slo, AddressingMode::ZeroPage, 5, false, true),
        0x08 => entry(Operation::Php, AddressingMode::Implicit, 3, false, false),
        0x09 => entry(Operation::Ora, AddressingMode::Immediate, 2, false, false),
        0x0A => entry(Operation::Asl, AddressingMode::Accumulator, 2, false, false),
        0x0B => entry(Operation::Anc, AddressingMode::Immediate, 2, false, true),
        0x0C => entry(Operation::Nop, AddressingMode::Absolute, 4, false, true),
        0x0D => entry(Operation::Ora, AddressingMode::Absolute, 4, false, false),
        0x0E => entry(Operation::Asl, AddressingMode::Absolute, 6, false, false),
        0x0F => entry(Operation::Slo, AddressingMode::Absolute, 6, false, true),
        0x10 => entry(Operation::Bpl, AddressingMode::Relative, 2, true, false),
        0x11 => entry(Operation::Ora, AddressingMode::IndirectY, 5, true, false),
        0x12 => entry(Operation::Jam, AddressingMode::Implicit, 1, false, true),
        0x13 => entry(Operation::Slo, AddressingMode::IndirectY, 8, false, true),
        0x14 => entry(Operation::Nop, AddressingMode::ZeroPageX, 4, false, true),
        0x15 => entry(Operation::Ora, AddressingMode::ZeroPageX, 4, false, false),
        0x16 => entry(Operation::Asl, AddressingMode::ZeroPageX, 6, false, false),
        0x17 => entry(Operation::Slo, AddressingMode::ZeroPageX, 6, false, true),
        0x18 => entry(Operation::Clc, AddressingMode::Implicit, 2, false, false),
        0x19 => entry(Operation::Ora, AddressingMode::AbsoluteY, 4, true, false),
        0x1A => entry(Operation::Nop, AddressingMode::Implicit, 2, false, true),
        0x1B => entry(Operation::Slo, AddressingMode::AbsoluteY, 7, false, true),
        0x1C => entry(Operation::Nop, AddressingMode::AbsoluteX, 4, true, true),
        0x1D => entry(Operation::Ora, AddressingMode::AbsoluteX, 4, true, false),
        0x1E => entry(Operation::Asl, AddressingMode::AbsoluteX, 7, false, false),
        0x1F => entry(Operation::Slo, AddressingMode::AbsoluteX, 7, false, true),
        0x20 => entry(Operation::Jsr, AddressingMode::Absolute, 6, false, false),
        0x21 => entry(Operation::And, AddressingMode::IndirectX, 6, false, false),
        0x22 => entry(Operation::Jam, AddressingMode::Implicit, 1, false, true),
        0x23 => entry(Operation::Rla, AddressingMode::IndirectX, 8, false, true),
        0x24 => entry(Operation::Bit, AddressingMode::ZeroPage, 3, false, false),
        0x25 => entry(Operation::And, AddressingMode::ZeroPage, 3, false, false),
        0x26 => entry(Operation::Rol, AddressingMode::ZeroPage, 5, false, false),
        0x27 => entry(Operation::Rla, AddressingMode::ZeroPage, 5, false, true),
        0x28 => entry(Operation::Plp, AddressingMode::Implicit, 4, false, false),
        0x29 => entry(Operation::And, AddressingMode::Immediate, 2, false, false),
        0x2A => entry(Operation::Rol, AddressingMode::Accumulator, 2, false, false),
        0x2B => entry(Operation::Anc, AddressingMode::Immediate, 2, false, true),
        0x2C => entry(Operation::Bit, AddressingMode::Absolute, 4, false, false),
        0x2D => entry(Operation::And, AddressingMode::Absolute, 4, false, false),
        0x2E => entry(Operation::Rol, AddressingMode::Absolute, 6, false, false),
        0x2F => entry(Operation::Rla, AddressingMode::Absolute, 6, false, true),
        0x30 => entry(Operation::Bmi, AddressingMode::Relative, 2, true, false),
        0x31 => entry(Operation::And, AddressingMode::IndirectY, 5, true, false),
        0x32 => entry(Operation::Jam, AddressingMode::Implicit, 1, false, true),
        0x33 => entry(Operation::Rla, AddressingMode::IndirectY, 8, false, true),
        0x34 => entry(Operation::Nop, AddressingMode::ZeroPageX, 4, false, true),
        0x35 => entry(Operation::And, AddressingMode::ZeroPageX, 4, false, false),
        0x36 => entry(Operation::Rol, AddressingMode::ZeroPageX, 6, false, false),
        0x37 => entry(Operation::Rla, AddressingMode::ZeroPageX, 6, false, true),
        0x38 => entry(Operation::Sec, AddressingMode::Implicit, 2, false, false),
        0x39 => entry(Operation::And, AddressingMode::AbsoluteY, 4, true, false),
        0x3A => entry(Operation::Nop, AddressingMode::Implicit, 2, false, true),
        0x3B => entry(Operation::Rla, AddressingMode::AbsoluteY, 7, false, true),
        0x3C => entry(Operation::Nop, AddressingMode::AbsoluteX, 4, true, true),
        0x3D => entry(Operation::And, AddressingMode::AbsoluteX, 4, true, false),
        0x3E => entry(Operation::Rol, AddressingMode::AbsoluteX, 7, false, false),
        0x3F => entry(Operation::Rla, AddressingMode::AbsoluteX, 7, false, true),
        0x40 => entry(Operation::Rti, AddressingMode::Implicit, 6, false, false),
        0x41 => entry(Operation::Eor, AddressingMode::IndirectX, 6, false, false),
        0x42 => entry(Operation::Jam, AddressingMode::Implicit, 1, false, true),
        0x43 => entry(Operation::Sre, AddressingMode::IndirectX, 8, false, true),
        0x44 => entry(Operation::Nop, AddressingMode::ZeroPage, 3, false, true),
        0x45 => entry(Operation::Eor, AddressingMode::ZeroPage, 3, false, false),
        0x46 => entry(Operation::Lsr, AddressingMode::ZeroPage, 5, false, false),
        0x47 => entry(Operation::Sre, AddressingMode::ZeroPage, 5, false, true),
        0x48 => entry(Operation::Pha, AddressingMode::Implicit, 3, false, false),
        0x49 => entry(Operation::Eor, AddressingMode::Immediate, 2, false, false),
        0x4A => entry(Operation::Lsr, AddressingMode::Accumulator, 2, false, false),
        0x4B => entry(Operation::Alr, AddressingMode::Immediate, 2, false, true),
        0x4C => entry(Operation::Jmp, AddressingMode::Absolute, 3, false, false),
        0x4D => entry(Operation::Eor, AddressingMode::Absolute, 4, false, false),
        0x4E => entry(Operation::Lsr, AddressingMode::Absolute, 6, false, false),
        0x4F => entry(Operation::Sre, AddressingMode::Absolute, 6, false, true),
        0x50 => entry(Operation::Bvc, AddressingMode::Relative, 2, true, false),
        0x51 => entry(Operation::Eor, AddressingMode::IndirectY, 5, true, false),
        0x52 => entry(Operation::Jam, AddressingMode::Implicit, 1, false, true),
        0x53 => entry(Operation::Sre, AddressingMode::IndirectY, 8, false, true),
        0x54 => entry(Operation::Nop, AddressingMode::ZeroPageX, 4, false, true),
        0x55 => entry(Operation::Eor, AddressingMode::ZeroPageX, 4, false, false),
        0x56 => entry(Operation::Lsr, AddressingMode::ZeroPageX, 6, false, false),
        0x57 => entry(Operation::Sre, AddressingMode::ZeroPageX, 6, false, true),
        0x58 => entry(Operation::Cli, AddressingMode::Implicit, 2, false, false),
        0x59 => entry(Operation::Eor, AddressingMode::AbsoluteY, 4, true, false),
        0x5A => entry(Operation::Nop, AddressingMode::Implicit, 2, false, true),
        0x5B => entry(Operation::Sre, AddressingMode::AbsoluteY, 7, false, true),
        0x5C => entry(Operation::Nop, AddressingMode::AbsoluteX, 4, true, true),
        0x5D => entry(Operation::Eor, AddressingMode::AbsoluteX, 4, true, false),
        0x5E => entry(Operation::Lsr, AddressingMode::AbsoluteX, 7, false, false),
        0x5F => entry(Operation::Sre, AddressingMode::AbsoluteX, 7, false, true),
        0x60 => entry(Operation::Rts, AddressingMode::Implicit, 6, false, false),
        0x61 => entry(Operation::Adc, AddressingMode::IndirectX, 6, false, false),
        0x62 => entry(Operation::Jam, AddressingMode::Implicit, 2, false, true),
        0x63 => entry(Operation::Rra, AddressingMode::IndirectX, 8, false, true),
        0x64 => entry(Operation::Nop, AddressingMode::ZeroPage, 3, false, true),
        0x65 => entry(Operation::Adc, AddressingMode::ZeroPage, 3, false, false),
        0x66 => entry(Operation::Ror, AddressingMode::ZeroPage, 5, false, false),
        0x67 => entry(Operation::Rra, AddressingMode::ZeroPage, 5, false, true),
        0x68 => entry(Operation::Pla, AddressingMode::Implicit, 4, false, false),
        0x69 => entry(Operation::Adc, AddressingMode::Immediate, 2, false, false),
        0x6A => entry(Operation::Ror, AddressingMode::Accumulator, 2, false, false),
        0x6B => entry(Operation::Arr, AddressingMode::Immediate, 2, false, true),
        0x6C => entry(Operation::Jmp, AddressingMode::Indirect, 5, false, false),
        0x6D => entry(Operation::Adc, AddressingMode::Absolute, 4, false, false),
        0x6E => entry(Operation::Ror, AddressingMode::Absolute, 6, false, false),
        0x6F => entry(Operation::Rra, AddressingMode::Absolute, 6, false, true),
        0x70 => entry(Operation::Bvs, AddressingMode::Relative, 2, true, false),
        0x71 => entry(Operation::Adc, AddressingMode::IndirectY, 5, true, false),
        0x72 => entry(Operation::Jam, AddressingMode::Implicit, 2, false, true),
        0x73 => entry(Operation::Rra, AddressingMode::IndirectY, 8, false, true),
        0x74 => entry(Operation::Nop, AddressingMode::ZeroPageX, 4, false, true),
        0x75 => entry(Operation::Adc, AddressingMode::ZeroPageX, 4, false, false),
        0x76 => entry(Operation::Ror, AddressingMode::ZeroPageX, 6, false, false),
        0x77 => entry(Operation::Rra, AddressingMode::ZeroPageX, 6, false, true),
        0x78 => entry(Operation::Sei, AddressingMode::Implicit, 2, false, false),
        0x79 => entry(Operation::Adc, AddressingMode::AbsoluteY, 4, true, false),
        0x7A => entry(Operation::Nop, AddressingMode::Implicit, 2, false, true),
        0x7B => entry(Operation::Rra, AddressingMode::AbsoluteY, 7, false, true),
        0x7C => entry(Operation::Nop, AddressingMode::AbsoluteX, 4, true, true),
        0x7D => entry(Operation::Adc, AddressingMode::AbsoluteX, 4, true, false),
        0x7E => entry(Operation::Ror, AddressingMode::AbsoluteX, 7, false, false),
        0x7F => entry(Operation::Rra, AddressingMode::AbsoluteX, 7, false, true),
        0x80 => entry(Operation::Nop, AddressingMode::Immediate, 2, false, true),
        0x81 => entry(Operation::Sta, AddressingMode::IndirectX, 6, false, false),
        0x82 => entry(Operation::Nop, AddressingMode::Immediate, 2, false, true),
        0x83 => entry(Operation::Sax, AddressingMode::IndirectX, 6, false, true),
        0x84 => entry(Operation::Sty, AddressingMode::ZeroPage, 3, false, false),
        0x85 => entry(Operation::Sta, AddressingMode::ZeroPage, 3, false, false),
        0x86 => entry(Operation::Stx, AddressingMode::ZeroPage, 3, false, false),
        0x87 => entry(Operation::Sax, AddressingMode::ZeroPage, 3, false, true),
        0x88 => entry(Operation::Dey, AddressingMode::Implicit, 2, false, false),
        0x89 => entry(Operation::Nop, AddressingMode::Immediate, 2, false, true),
        0x8A => entry(Operation::Txa, AddressingMode::Implicit, 2, false, false),
        0x8B => entry(Operation::Ane, AddressingMode::Immediate, 2, false, true),
        0x8C => entry(Operation::Sty, AddressingMode::Absolute, 4, false, false),
        0x8D => entry(Operation::Sta, AddressingMode::Absolute, 4, false, false),
        0x8E => entry(Operation::Stx, AddressingMode::Absolute, 4, false, false),
        0x8F => entry(Operation::Sax, AddressingMode::Absolute, 4, false, true),
        0x90 => entry(Operation::Bcc, AddressingMode::Relative, 2, true, false),
        0x91 => entry(Operation::Sta, AddressingMode::IndirectY, 6, false, false),
        0x92 => entry(Operation::Jam, AddressingMode::Implicit, 1, false, true),
        0x93 => entry(Operation::Sha, AddressingMode::IndirectY, 6, false, true),
        0x94 => entry(Operation::Sty, AddressingMode::ZeroPageX, 4, false, false),
        0x95 => entry(Operation::Sta, AddressingMode::ZeroPageX, 4, false, false),
        0x96 => entry(Operation::Stx, AddressingMode::ZeroPageY, 4, false, false),
        0x97 => entry(Operation::Sax, AddressingMode::ZeroPageY, 4, false, true),
        0x98 => entry(Operation::Tya, AddressingMode::Implicit, 2, false, false),
        0x99 => entry(Operation::Sta, AddressingMode::AbsoluteY, 5, false, false),
        0x9A => entry(Operation::Txs, AddressingMode::Implicit, 2, false, false),
        0x9B => entry(Operation::Tas, AddressingMode::AbsoluteY, 5, false, true),
        0x9C => entry(Operation::Shy, AddressingMode::AbsoluteX, 5, false, true),
        0x9D => entry(Operation::Sta, AddressingMode::AbsoluteX, 5, false, false),
        0x9E => entry(Operation::Shx, AddressingMode::AbsoluteY, 5, false, true),
        0x9F => entry(Operation::Sha, AddressingMode::AbsoluteY, 5, false, true),
        0xA0 => entry(Operation::Ldy, AddressingMode::Immediate, 2, false, false),
        0xA1 => entry(Operation::Lda, AddressingMode::IndirectX, 6, false, false),
        0xA2 => entry(Operation::Ldx, AddressingMode::Immediate, 2, false, false),
        0xA3 => entry(Operation::Lax, AddressingMode::IndirectX, 6, false, true),
        0xA4 => entry(Operation::Ldy, AddressingMode::ZeroPage, 3, false, false),
        0xA5 => entry(Operation::Lda, AddressingMode::ZeroPage, 3, false, false),
        0xA6 => entry(Operation::Ldx, AddressingMode::ZeroPage, 3, false, false),
        0xA7 => entry(Operation::Lax, AddressingMode::ZeroPage, 3, false, true),
        0xA8 => entry(Operation::Tay, AddressingMode::Implicit, 2, false, false),
        0xA9 => entry(Operation::Lda, AddressingMode::Immediate, 2, false, false),
        0xAA => entry(Operation::Tax, AddressingMode::Implicit, 2, false, false),
        0xAB => entry(Operation::Lxa, AddressingMode::Immediate, 2, false, true),
        0xAC => entry(Operation::Ldy, AddressingMode::Absolute, 4, false, false),
        0xAD => entry(Operation::Lda, AddressingMode::Absolute, 4, false, false),
        0xAE => entry(Operation::Ldx, AddressingMode::Absolute, 4, false, false),
        0xAF => entry(Operation::Lax, AddressingMode::Absolute, 4, false, true),
        0xB0 => entry(Operation::Bcs, AddressingMode::Relative, 2, true, false),
        0xB1 => entry(Operation::Lda, AddressingMode::IndirectY, 5, true, false),
        0xB2 => entry(Operation::Jam, AddressingMode::Implicit, 1, false, true),
        0xB3 => entry(Operation::Lax, AddressingMode::IndirectY, 5, true, true),
        0xB4 => entry(Operation::Ldy, AddressingMode::ZeroPageX, 4, false, false),
        0xB5 => entry(Operation::Lda, AddressingMode::ZeroPageX, 4, false, false),
        0xB6 => entry(Operation::Ldx, AddressingMode::ZeroPageY, 4, false, false),
        0xB7 => entry(Operation::Lax, AddressingMode::ZeroPageY, 4, false, true),
        0xB8 => entry(Operation::Clv, AddressingMode::Implicit, 2, false, false),
        0xB9 => entry(Operation::Lda, AddressingMode::AbsoluteY, 4, true, false),
        0xBA => entry(Operation::Tsx, AddressingMode::Implicit, 2, false, false),
        0xBB => entry(Operation::Las, AddressingMode::AbsoluteY, 4, true, true),
        0xBC => entry(Operation::Ldy, AddressingMode::AbsoluteX, 4, true, false),
        0xBD => entry(Operation::Lda, AddressingMode::AbsoluteX, 4, true, false),
        0xBE => entry(Operation::Ldx, AddressingMode::AbsoluteY, 4, true, false),
        0xBF => entry(Operation::Lax, AddressingMode::AbsoluteY, 4, true, true),
        0xC0 => entry(Operation::Cpy, AddressingMode::Immediate, 2, false, false),
        0xC1 => entry(Operation::Cmp, AddressingMode::IndirectX, 6, false, false),
        0xC2 => entry(Operation::Nop, AddressingMode::Immediate, 2, false, true),
        0xC3 => entry(Operation::Dcp, AddressingMode::IndirectX, 8, false, true),
        0xC4 => entry(Operation::Cpy, AddressingMode::ZeroPage, 3, false, false),
        0xC5 => entry(Operation::Cmp, AddressingMode::ZeroPage, 3, false, false),
        0xC6 => entry(Operation::Dec, AddressingMode::ZeroPage, 5, false, false),
        0xC7 => entry(Operation::Dcp, AddressingMode::ZeroPage, 5, false, true),
        0xC8 => entry(Operation::Iny, AddressingMode::Implicit, 2, false, false),
        0xC9 => entry(Operation::Cmp, AddressingMode::Immediate, 2, false, false),
        0xCA => entry(Operation::Dex, AddressingMode::Implicit, 2, false, false),
        0xCB => entry(Operation::Sbx, AddressingMode::Immediate, 2, false, true),
        0xCC => entry(Operation::Cpy, AddressingMode::Absolute, 4, false, false),
        0xCD => entry(Operation::Cmp, AddressingMode::Absolute, 4, false, false),
        0xCE => entry(Operation::Dec, AddressingMode::Absolute, 6, false, false),
        0xCF => entry(Operation::Dcp, AddressingMode::Absolute, 6, false, true),
        0xD0 => entry(Operation::Bne, AddressingMode::Relative, 2, true, false),
        0xD1 => entry(Operation::Cmp, AddressingMode::IndirectY, 5, true, false),
        0xD2 => entry(Operation::Jam, AddressingMode::Implicit, 1, false, true),
        0xD3 => entry(Operation::Dcp, AddressingMode::IndirectY, 8, false, true),
        0xD4 => entry(Operation::Nop, AddressingMode::ZeroPageX, 4, false, true),
        0xD5 => entry(Operation::Cmp, AddressingMode::ZeroPageX, 4, false, false),
        0xD6 => entry(Operation::Dec, AddressingMode::ZeroPageX, 6, false, false),
        0xD7 => entry(Operation::Dcp, AddressingMode::ZeroPageX, 6, false, true),
        0xD8 => entry(Operation::Cld, AddressingMode::Implicit, 2, false, false),
        0xD9 => entry(Operation::Cmp, AddressingMode::AbsoluteY, 4, true, false),
        0xDA => entry(Operation::Nop, AddressingMode::Implicit, 2, false, true),
        0xDB => entry(Operation::Dcp, AddressingMode::AbsoluteY, 7, false, true),
        0xDC => entry(Operation::Nop, AddressingMode::AbsoluteX, 4, true, true),
        0xDD => entry(Operation::Cmp, AddressingMode::AbsoluteX, 4, true, false),
        0xDE => entry(Operation::Dec, AddressingMode::AbsoluteX, 7, false, false),
        0xDF => entry(Operation::Dcp, AddressingMode::AbsoluteX, 7, false, true),
        0xE0 => entry(Operation::Cpx, AddressingMode::Immediate, 2, false, false),
        0xE1 => entry(Operation::Sbc, AddressingMode::IndirectX, 6, false, false),
        0xE2 => entry(Operation::Nop, AddressingMode::Immediate, 2, false, true),
        0xE3 => entry(Operation::Isb, AddressingMode::IndirectX, 8, false, true),
        0xE4 => entry(Operation::Cpx, AddressingMode::ZeroPage, 3, false, false),
        0xE5 => entry(Operation::Sbc, AddressingMode::ZeroPage, 3, false, false),
        0xE6 => entry(Operation::Inc, AddressingMode::ZeroPage, 5, false, false),
        0xE7 => entry(Operation::Isb, AddressingMode::ZeroPage, 5, false, true),
        0xE8 => entry(Operation::Inx, AddressingMode::Implicit, 2, false, false),
        0xE9 => entry(Operation::Sbc, AddressingMode::Immediate, 2, false, false),
        0xEA => entry(Operation::Nop, AddressingMode::Implicit, 2, false, false),
        0xEB => entry(Operation::Sbc, AddressingMode::Immediate, 2, false, true),
        0xEC => entry(Operation::Cpx, AddressingMode::Absolute, 4, false, false),
        0xED => entry(Operation::Sbc, AddressingMode::Absolute, 4, false, false),
        0xEE => entry(Operation::Inc, AddressingMode::Absolute, 6, false, false),
        0xEF => entry(Operation::Isb, AddressingMode::Absolute, 6, false, true),
        0xF0 => entry(Operation::Beq, AddressingMode::Relative, 2, true, false),
        0xF1 => entry(Operation::Sbc, AddressingMode::IndirectY, 5, true, false),
        0xF2 => entry(Operation::Jam, AddressingMode::Implicit, 1, false, true),
        0xF3 => entry(Operation::Isb, AddressingMode::IndirectY, 8, false, true),
        0xF4 => entry(Operation::Nop, AddressingMode::ZeroPageX, 4, false, true),
        0xF5 => entry(Operation::Sbc, AddressingMode::ZeroPageX, 4, false, false),
        0xF6 => entry(Operation::Inc, AddressingMode::ZeroPageX, 6, false, false),
        0xF7 => entry(Operation::Isb, AddressingMode::ZeroPageX, 6, false, true),
        0xF8 => entry(Operation::Sed, AddressingMode::Implicit, 2, false, false),
        0xF9 => entry(Operation::Sbc, AddressingMode::AbsoluteY, 4, true, false),
        0xFA => entry(Operation::Nop, AddressingMode::Implicit, 2, false, true),
        0xFB => entry(Operation::Isb, AddressingMode::AbsoluteY, 7, false, true),
        0xFC => entry(Operation::Nop, AddressingMode::AbsoluteX, 4, true, true),
        0xFD => entry(Operation::Sbc, AddressingMode::AbsoluteX, 4, true, false),
        0xFE => entry(Operation::Inc, AddressingMode::AbsoluteX, 7, false, false),
        _ => entry(Operation::Isb, AddressingMode::AbsoluteX, 7, false, true),
    }
}

pub fn lookup(opcode: u8) -> (r: OpcodeEntry)
    ensures
        r == opcode_entry(opcode),
{
    match opcode {
        0x00 => make_entry(Operation::Brk, AddressingMode::Implicit, 7, false, false),
        0x01 => make_entry(Operation::Ora, AddressingMode::IndirectX, 6, false, false),
        0x02 => make_entry(Operation::Jam, AddressingMode::Implicit, 1, false, true),
        0x03 => make_entry(Operation::Slo, AddressingMode::IndirectX, 8, false, true),
        0x04 => make_entry(Operation::Nop, AddressingMode::ZeroPage, 3, false, true),
        0x05 => make_entry(Operation::Ora, AddressingMode::ZeroPage, 3, false, false),
        0x06 => make_entry(Operation::Asl, AddressingMode::ZeroPage, 5, false, false),
        0x07 => make_entry(Operation::Slo, AddressingMode::ZeroPage, 5, false, true),
        0x08 => make_entry(Operation::Php, AddressingMode::Implicit, 3, false, false),
        0x09 => make_entry(Operation::Ora, AddressingMode::Immediate, 2, false, false),
        0x0A => make_entry(Operation::Asl, AddressingMode::Accumulator, 2, false, false),
        0x0B => make_entry(Operation::Anc, AddressingMode::Immediate, 2, false, true),
        0x0C => make_entry(Operation::Nop, AddressingMode::Absolute, 4, false, true),
        0x0D => make_entry(Operation::Ora, AddressingMode::Absolute, 4, false, false),
        0x0E => make_entry(Operation::Asl, AddressingMode::Absolute, 6, false, false),
        0x0F => make_entry(Operation::Slo, AddressingMode::Absolute, 6, false, true),
        0x10 => make_entry(Operation::Bpl, AddressingMode::Relative, 2, true, false),
        0x11 => make_entry(Operation::Ora, AddressingMode::IndirectY, 5, true, false),
        0x12 => make_entry(Operation::Jam, AddressingMode::Implicit, 1, false, true),
        0x13 => make_entry(Operation::Slo, AddressingMode::IndirectY, 8, false, true),
        0x14 => make_entry(Operation::Nop, AddressingMode::ZeroPageX, 4, false, true),
        0x15 => make_entry(Operation::Ora, AddressingMode::ZeroPageX, 4, false, false),
        0x16 => make_entry(Operation::Asl, AddressingMode::ZeroPageX, 6, false, false),
        0x17 => make_entry(Operation::Slo, AddressingMode::ZeroPageX, 6, false, true),
        0x18 => make_entry(Operation::Clc, AddressingMode::Implicit, 2, false, false),
        0x19 => make_entry(Operation::Ora, AddressingMode::AbsoluteY, 4, true, false),
        0x1A => make_entry(Operation::Nop, AddressingMode::Implicit, 2, false, true),
        0x1B => make_entry(Operation::Slo, AddressingMode::AbsoluteY, 7, false, true),
        0x1C => make_entry(Operation::Nop, AddressingMode::AbsoluteX, 4, true, true),
        0x1D => make_entry(Operation::Ora, AddressingMode::AbsoluteX, 4, true, false),
        0x1E => make_entry(Operation::Asl, AddressingMode::AbsoluteX, 7, false, false),
        0x1F => make_entry(Operation::Slo, AddressingMode::AbsoluteX, 7, false, true),
        0x20 => make_entry(Operation::Jsr, AddressingMode::Absolute, 6, false, false),
        0x21 => make_entry(Operation::And, AddressingMode::IndirectX, 6, false, false),
        0x22 => make_entry(Operation::Jam, AddressingMode::Implicit, 1, false, true),
        0x23 => make_entry(Operation::Rla, AddressingMode::IndirectX, 8, false, true),
        0x24 => make_entry(Operation::Bit, AddressingMode::ZeroPage, 3, false, false),
        0x25 => make_entry(Operation::And, AddressingMode::ZeroPage, 3, false, false),
        0x26 => make_entry(Operation::Rol, AddressingMode::ZeroPage, 5, false, false),
        0x27 => make_entry(Operation::Rla, AddressingMode::ZeroPage, 5, false, true),
        0x28 => make_entry(Operation::Plp, AddressingMode::Implicit, 4, false, false),
        0x29 => make_entry(Operation::And, AddressingMode::Immediate, 2, false, false),
        0x2A => make_entry(Operation::Rol, AddressingMode::Accumulator, 2, false, false),
        0x2B => make_entry(Operation::Anc, AddressingMode::Immediate, 2, false, true),
        0x2C => make_entry(Operation::Bit, AddressingMode::Absolute, 4, false, false),
        0x2D => make_entry(Operation::And, AddressingMode::Absolute, 4, false, false),
        0x2E => make_entry(Operation::Rol, AddressingMode::Absolute, 6, false, false),
        0x2F => make_entry(Operation::Rla, AddressingMode::Absolute, 6, false, true),
        0x30 => make_entry(Operation::Bmi, AddressingMode::Relative, 2, true, false),
        0x31 => make_entry(Operation::And, AddressingMode::IndirectY, 5, true, false),
        0x32 => make_entry(Operation::Jam, AddressingMode::Implicit, 1, false, true),
        0x33 => make_entry(Operation::Rla, AddressingMode::IndirectY, 8, false, true),
        0x34 => make_entry(Operation::Nop, AddressingMode::ZeroPageX, 4, false, true),
        0x35 => make_entry(Operation::And, AddressingMode::ZeroPageX, 4, false, false),
        0x36 => make_entry(Operation::Rol, AddressingMode::ZeroPageX, 6, false, false),
        0x37 => make_entry(Operation::Rla, AddressingMode::ZeroPageX, 6, false, true),
        0x38 => make_entry(Operation::Sec, AddressingMode::Implicit, 2, false, false),
        0x39 => make_entry(Operation::And, AddressingMode::AbsoluteY, 4, true, false),
        0x3A => make_entry(Operation::Nop, AddressingMode::Implicit, 2, false, true),
        0x3B => make_entry(Operation::Rla, AddressingMode::AbsoluteY, 7, false, true),
        0x3C => make_entry(Operation::Nop, AddressingMode::AbsoluteX, 4, true, true),
        0x3D => make_entry(Operation::And, AddressingMode::AbsoluteX, 4, true, false),
        0x3E => make_entry(Operation::Rol, AddressingMode::AbsoluteX, 7, false, false),
        0x3F => make_entry(Operation::Rla, AddressingMode::AbsoluteX, 7, false, true),
        0x40 => make_entry(Operation::Rti, AddressingMode::Implicit, 6, false, false),
        0x41 => make_entry(Operation::Eor, AddressingMode::IndirectX, 6, false, false),
        0x42 => make_entry(Operation::Jam, AddressingMode::Implicit, 1, false, true),
        0x43 => make_entry(Operation::Sre, AddressingMode::IndirectX, 8, false, true),
        0x44 => make_entry(Operation::Nop, AddressingMode::ZeroPage, 3, false, true),
        0x45 => make_entry(Operation::Eor, AddressingMode::ZeroPage, 3, false, false),
        0x46 => make_entry(Operation::Lsr, AddressingMode::ZeroPage, 5, false, false),
        0x47 => make_entry(Operation::Sre, AddressingMode::ZeroPage, 5, false, true),
        0x48 => make_entry(Operation::Pha, AddressingMode::Implicit, 3, false, false),
        0x49 => make_entry(Operation::Eor, AddressingMode::Immediate, 2, false, false),
        0x4A => make_entry(Operation::Lsr, AddressingMode::Accumulator, 2, false, false),
        0x4B => make_entry(Operation::Alr, AddressingMode::Immediate, 2, false, true),
        0x4C => make_entry(Operation::Jmp, AddressingMode::Absolute, 3, false, false),
        0x4D => make_entry(Operation::Eor, AddressingMode::Absolute, 4, false, false),
        0x4E => make_entry(Operation::Lsr, AddressingMode::Absolute, 6, false, false),
        0x4F => make_entry(Operation::Sre, AddressingMode::Absolute, 6, false, true),
        0x50 => make_entry(Operation::Bvc, AddressingMode::Relative, 2, true, false),
        0x51 => make_entry(Operation::Eor, AddressingMode::IndirectY, 5, true, false),
        0x52 => make_entry(Operation::Jam, AddressingMode::Implicit, 1, false, true),
        0x53 => make_entry(Operation::Sre, AddressingMode::IndirectY, 8, false, true),
        0x54 => make_entry(Operation::Nop, AddressingMode::ZeroPageX, 4, false, true),
        0x55 => make_entry(Operation::Eor, AddressingMode::ZeroPageX, 4, false, false),
        0x56 => make_entry(Operation::Lsr, AddressingMode::ZeroPageX, 6, false, false),
        0x57 => make_entry(Operation::Sre, AddressingMode::ZeroPageX, 6, false, true),
        0x58 => make_entry(Operation::Cli, AddressingMode::Implicit, 2, false, false),
        0x59 => make_entry(Operation::Eor, AddressingMode::AbsoluteY, 4, true, false),
        0x5A => make_entry(Operation::Nop, AddressingMode::Implicit, 2, false, true),
        0x5B => make_entry(Operation::Sre, AddressingMode::AbsoluteY, 7, false, true),
        0x5C => make_entry(Operation::Nop, AddressingMode::AbsoluteX, 4, true, true),
        0x5D => make_entry(Operation::Eor, AddressingMode::AbsoluteX, 4, true, false),
        0x5E => make_entry(Operation::Lsr, AddressingMode::AbsoluteX, 7, false, false),
        0x5F => make_entry(Operation::Sre, AddressingMode::AbsoluteX, 7, false, true),
        0x60 => make_entry(Operation::Rts, AddressingMode::Implicit, 6, false, false),
        0x61 => make_entry(Operation::Adc, AddressingMode::IndirectX, 6, false, false),
        0x62 => make_entry(Operation::Jam, AddressingMode::Implicit, 2, false, true),
        0x63 => make_entry(Operation::Rra, AddressingMode::IndirectX, 8, false, true),
        0x64 => make_entry(Operation::Nop, AddressingMode::ZeroPage, 3, false, true),
        0x65 => make_entry(Operation::Adc, AddressingMode::ZeroPage, 3, false, false),
        0x66 => make_entry(Operation::Ror, AddressingMode::ZeroPage, 5, false, false),
        0x67 => make_entry(Operation::Rra, AddressingMode::ZeroPage, 5, false, true),
        0x68 => make_entry(Operation::Pla, AddressingMode::Implicit, 4, false, false),
        0x69 => make_entry(Operation::Adc, AddressingMode::Immediate, 2, false, false),
        0x6A => make_entry(Operation::Ror, AddressingMode::Accumulator, 2, false, false),
        0x6B => make_entry(Operation::Arr, AddressingMode::Immediate, 2, false, true),
        0x6C => make_entry(Operation::Jmp, AddressingMode::Indirect, 5, false, false),
        0x6D => make_entry(Operation::Adc, AddressingMode::Absolute, 4, false, false),
        0x6E => make_entry(Operation::Ror, AddressingMode::Absolute, 6, false, false),
        0x6F => make_entry(Operation::Rra, AddressingMode::Absolute, 6, false, true),
        0x70 => make_entry(Operation::Bvs, AddressingMode::Relative, 2, true, false),
        0x71 => make_entry(Operation::Adc, AddressingMode::IndirectY, 5, true, false),
        0x72 => make_entry(Operation::Jam, AddressingMode::Implicit, 2, false, true),
        0x73 => make_entry(Operation::Rra, AddressingMode::IndirectY, 8, false, true),
        0x74 => make_entry(Operation::Nop, AddressingMode::ZeroPageX, 4, false, true),
        0x75 => make_entry(Operation::Adc, AddressingMode::ZeroPageX, 4, false, false),
        0x76 => make_entry(Operation::Ror, AddressingMode::ZeroPageX, 6, false, false),
        0x77 => make_entry(Operation::Rra, AddressingMode::ZeroPageX, 6, false, true),
        0x78 => make_entry(Operation::Sei, AddressingMode::Implicit, 2, false, false),
        0x79 => make_entry(Operation::Adc, AddressingMode::AbsoluteY, 4, true, false),
        0x7A => make_entry(Operation::Nop, AddressingMode::Implicit, 2, false, true),
        0x7B => make_entry(Operation::Rra, AddressingMode::AbsoluteY, 7, false, true),
        0x7C => make_entry(Operation::Nop, AddressingMode::AbsoluteX, 4, true, true),
        0x7D => make_entry(Operation::Adc, AddressingMode::AbsoluteX, 4, true, false),
        0x7E => make_entry(Operation::Ror, AddressingMode::AbsoluteX, 7, false, false),
        0x7F => make_entry(Operation::Rra, AddressingMode::AbsoluteX, 7, false, true),
        0x80 => make_entry(Operation::Nop, AddressingMode::Immediate, 2, false, true),
        0x81 => make_entry(Operation::Sta, AddressingMode::IndirectX, 6, false, false),
        0x82 => make_entry(Operation::Nop, AddressingMode::Immediate, 2, false, true),
        0x83 => make_entry(Operation::Sax, AddressingMode::IndirectX, 6, false, true),
        0x84 => make_entry(Operation::Sty, AddressingMode::ZeroPage, 3, false, false),
        0x85 => make_entry(Operation::Sta, AddressingMode::ZeroPage, 3, false, false),
        0x86 => make_entry(Operation::Stx, AddressingMode::ZeroPage, 3, false, false),
        0x87 => make_entry(Operation::Sax, AddressingMode::ZeroPage, 3, false, true),
        0x88 => make_entry(Operation::Dey, AddressingMode::Implicit, 2, false, false),
        0x89 => make_entry(Operation::Nop, AddressingMode::Immediate, 2, false, true),
        0x8A => make_entry(Operation::Txa, AddressingMode::Implicit, 2, false, false),
        0x8B => make_entry(Operation::Ane, AddressingMode::Immediate, 2, false, true),
        0x8C => make_entry(Operation::Sty, AddressingMode::Absolute, 4, false, false),
        0x8D => make_entry(Operation::Sta, AddressingMode::Absolute, 4, false, false),
        0x8E => make_entry(Operation::Stx, AddressingMode::Absolute, 4, false, false),
        0x8F => make_entry(Operation::Sax, AddressingMode::Absolute, 4, false, true),
        0x90 => make_entry(Operation::Bcc, AddressingMode::Relative, 2, true, false),
        0x91 => make_entry(Operation::Sta, AddressingMode::IndirectY, 6, false, false),
        0x92 => make_entry(Operation::Jam, AddressingMode::Implicit, 1, false, true),
        0x93 => make_entry(Operation::Sha, AddressingMode::IndirectY, 6, false, true),
        0x94 => make_entry(Operation::Sty, AddressingMode::ZeroPageX, 4, false, false),
        0x95 => make_entry(Operation::Sta, AddressingMode::ZeroPageX, 4, false, false),
        0x96 => make_entry(Operation::Stx, AddressingMode::ZeroPageY, 4, false, false),
        0x97 => make_entry(Operation::Sax, AddressingMode::ZeroPageY, 4, false, true),
        0x98 => make_entry(Operation::Tya, AddressingMode::Implicit, 2, false, false),
        0x99 => make_entry(Operation::Sta, AddressingMode::AbsoluteY, 5, false, false),
        0x9A => make_entry(Operation::Txs, AddressingMode::Implicit, 2, false, false),
        0x9B => make_entry(Operation::Tas, AddressingMode::AbsoluteY, 5, false, true),
        0x9C => make_entry(Operation::Shy, AddressingMode::AbsoluteX, 5, false, true),
        0x9D => make_entry(Operation::Sta, AddressingMode::AbsoluteX, 5, false, false),
        0x9E => make_entry(Operation::Shx, AddressingMode::AbsoluteY, 5, false, true),
        0x9F => make_entry(Operation::Sha, AddressingMode::AbsoluteY, 5, false, true),
        0xA0 => make_entry(Operation::Ldy, AddressingMode::Immediate, 2, false, false),
        0xA1 => make_entry(Operation::Lda, AddressingMode::IndirectX, 6, false, false),
        0xA2 => make_entry(Operation::Ldx, AddressingMode::Immediate, 2, false, false),
        0xA3 => make_entry(Operation::Lax, AddressingMode::IndirectX, 6, false, true),
        0xA4 => make_entry(Operation::Ldy, AddressingMode::ZeroPage, 3, false, false),
        0xA5 => make_entry(Operation::Lda, AddressingMode::ZeroPage, 3, false, false),
        0xA6 => make_entry(Operation::Ldx, AddressingMode::ZeroPage, 3, false, false),
        0xA7 => make_entry(Operation::Lax, AddressingMode::ZeroPage, 3, false, true),
        0xA8 => make_entry(Operation::Tay, AddressingMode::Implicit, 2, false, false),
        0xA9 => make_entry(Operation::Lda, AddressingMode::Immediate, 2, false, false),
        0xAA => make_entry(Operation::Tax, AddressingMode::Implicit, 2, false, false),
        0xAB => make_entry(Operation::Lxa, AddressingMode::Immediate, 2, false, true),
        0xAC => make_entry(Operation::Ldy, AddressingMode::Absolute, 4, false, false),
        0xAD => make_entry(Operation::Lda, AddressingMode::Absolute, 4, false, false),
        0xAE => make_entry(Operation::Ldx, AddressingMode::Absolute, 4, false, false),
        0xAF => make_entry(Operation::Lax, AddressingMode::Absolute, 4, false, true),
        0xB0 => make_entry(Operation::Bcs, AddressingMode::Relative, 2, true, false),
        0xB1 => make_entry(Operation::Lda, AddressingMode::IndirectY, 5, true, false),
        0xB2 => make_entry(Operation::Jam, AddressingMode::Implicit, 1, false, true),
        0xB3 => make_entry(Operation::Lax, AddressingMode::IndirectY, 5, true, true),
        0xB4 => make_entry(Operation::Ldy, AddressingMode::ZeroPageX, 4, false, false),
        0xB5 => make_entry(Operation::Lda, AddressingMode::ZeroPageX, 4, false, false),
        0xB6 => make_entry(Operation::Ldx, AddressingMode::ZeroPageY, 4, false, false),
        0xB7 => make_entry(Operation::Lax, AddressingMode::ZeroPageY, 4, false, true),
        0xB8 => make_entry(Operation::Clv, AddressingMode::Implicit, 2, false, false),
        0xB9 => make_entry(Operation::Lda, AddressingMode::AbsoluteY, 4, true, false),
        0xBA => make_entry(Operation::Tsx, AddressingMode::Implicit, 2, false, false),
        0xBB => make_entry(Operation::Las, AddressingMode::AbsoluteY, 4, true, true),
        0xBC => make_entry(Operation::Ldy, AddressingMode::AbsoluteX, 4, true, false),
        0xBD => make_entry(Operation::Lda, AddressingMode::AbsoluteX, 4, true, false),
        0xBE => make_entry(Operation::Ldx, AddressingMode::AbsoluteY, 4, true, false),
        0xBF => make_entry(Operation::Lax, AddressingMode::AbsoluteY, 4, true, true),
        0xC0 => make_entry(Operation::Cpy, AddressingMode::Immediate, 2, false, false),
        0xC1 => make_entry(Operation::Cmp, AddressingMode::IndirectX, 6, false, false),
        0xC2 => make_entry(Operation::Nop, AddressingMode::Immediate, 2, false, true),
        0xC3 => make_entry(Operation::Dcp, AddressingMode::IndirectX, 8, false, true),
        0xC4 => make_entry(Operation::Cpy, AddressingMode::ZeroPage, 3, false, false),
        0xC5 => make_entry(Operation::Cmp, AddressingMode::ZeroPage, 3, false, false),
        0xC6 => make_entry(Operation::Dec, AddressingMode::ZeroPage, 5, false, false),
        0xC7 => make_entry(Operation::Dcp, AddressingMode::ZeroPage, 5, false, true),
        0xC8 => make_entry(Operation::Iny, AddressingMode::Implicit, 2, false, false),
        0xC9 => make_entry(Operation::Cmp, AddressingMode::Immediate, 2, false, false),
        0xCA => make_entry(Operation::Dex, AddressingMode::Implicit, 2, false, false),
        0xCB => make_entry(Operation::Sbx, AddressingMode::Immediate, 2, false, true),
        0xCC => make_entry(Operation::Cpy, AddressingMode::Absolute, 4, false, false),
        0xCD => make_entry(Operation::Cmp, AddressingMode::Absolute, 4, false, false),
        0xCE => make_entry(Operation::Dec, AddressingMode::Absolute, 6, false, false),
        0xCF => make_entry(Operation::Dcp, AddressingMode::Absolute, 6, false, true),
        0xD0 => make_entry(Operation::Bne, AddressingMode::Relative, 2, true, false),
        0xD1 => make_entry(Operation::Cmp, AddressingMode::IndirectY, 5, true, false),
        0xD2 => make_entry(Operation::Jam, AddressingMode::Implicit, 1, false, true),
        0xD3 => make_entry(Operation::Dcp, AddressingMode::IndirectY, 8, false, true),
        0xD4 => make_entry(Operation::Nop, AddressingMode::ZeroPageX, 4, false, true),
        0xD5 => make_entry(Operation::Cmp, AddressingMode::ZeroPageX, 4, false, false),
        0xD6 => make_entry(Operation::Dec, AddressingMode::ZeroPageX, 6, false, false),
        0xD7 => make_entry(Operation::Dcp, AddressingMode::ZeroPageX, 6, false, true),
        0xD8 => make_entry(Operation::Cld, AddressingMode::Implicit, 2, false, false),
        0xD9 => make_entry(Operation::Cmp, AddressingMode::AbsoluteY, 4, true, false),
        0xDA => make_entry(Operation::Nop, AddressingMode::Implicit, 2, false, true),
        0xDB => make_entry(Operation::Dcp, AddressingMode::AbsoluteY, 7, false, true),
        0xDC => make_entry(Operation::Nop, AddressingMode::AbsoluteX, 4, true, true),
        0xDD => make_entry(Operation::Cmp, AddressingMode::AbsoluteX, 4, true, false),
        0xDE => make_entry(Operation::Dec, AddressingMode::AbsoluteX, 7, false, false),
        0xDF => make_entry(Operation::Dcp, AddressingMode::AbsoluteX, 7, false, true),
        0xE0 => make_entry(Operation::Cpx, AddressingMode::Immediate, 2, false, false),
        0xE1 => make_entry(Operation::Sbc, AddressingMode::IndirectX, 6, false, false),
        0xE2 => make_entry(Operation::Nop, AddressingMode::Immediate, 2, false, true),
        0xE3 => make_entry(Operation::Isb, AddressingMode::IndirectX, 8, false, true),
        0xE4 => make_entry(Operation::Cpx, AddressingMode::ZeroPage, 3, false, false),
        0xE5 => make_entry(Operation::Sbc, AddressingMode::ZeroPage, 3, false, false),
        0xE6 => make_entry(Operation::Inc, AddressingMode::ZeroPage, 5, false, false),
        0xE7 => make_entry(Operation::Isb, AddressingMode::ZeroPage, 5, false, true),
        0xE8 => make_entry(Operation::Inx, AddressingMode::Implicit, 2, false, false),
        0xE9 => make_entry(Operation::Sbc, AddressingMode::Immediate, 2, false, false),
        0xEA => make_entry(Operation::Nop, AddressingMode::Implicit, 2, false, false),
        0xEB => make_entry(Operation::Sbc, AddressingMode::Immediate, 2, false, true),
        0xEC => make_entry(Operation::Cpx, AddressingMode::Absolute, 4, false, false),
        0xED => make_entry(Operation::Sbc, AddressingMode::Absolute, 4, false, false),
        0xEE => make_entry(Operation::Inc, AddressingMode::Absolute, 6, false, false),
        0xEF => make_entry(Operation::Isb, AddressingMode::Absolute, 6, false, true),
        0xF0 => make_entry(Operation::Beq, AddressingMode::Relative, 2, true, false),
        0xF1 => make_entry(Operation::Sbc, AddressingMode::IndirectY, 5, true, false),
        0xF2 => make_entry(Operation::Jam, AddressingMode::Implicit, 1, false, true),
        0xF3 => make_entry(Operation::Isb, AddressingMode::IndirectY, 8, false, true),
        0xF4 => make_entry(Operation::Nop, AddressingMode::ZeroPageX, 4, false, true),
        0xF5 => make_entry(Operation::Sbc, AddressingMode::ZeroPageX, 4, false, false),
        0xF6 => make_entry(Operation::Inc, AddressingMode::ZeroPageX, 6, false, false),
        0xF7 => make_entry(Operation::Isb, AddressingMode::ZeroPageX, 6, false, true),
        0xF8 => make_entry(Operation::Sed, AddressingMode::Implicit, 2, false, false),
        0xF9 => make_entry(Operation::Sbc, AddressingMode::AbsoluteY, 4, true, false),
        0xFA => make_entry(Operation::Nop, AddressingMode::Implicit, 2, false, true),
        0xFB => make_entry(Operation::Isb, AddressingMode::AbsoluteY, 7, false, true),
        0xFC => make_entry(Operation::Nop, AddressingMode::AbsoluteX, 4, true, true),
        0xFD => make_entry(Operation::Sbc, AddressingMode::AbsoluteX, 4, true, false),
        0xFE => make_entry(Operation::Inc, AddressingMode::AbsoluteX, 7, false, false),
        _ => make_entry(Operation::Isb, AddressingMode::AbsoluteX, 7, false, true),
    }
}

/// The three-letter name of an operation.
pub open spec fn mnemonic(op: Operation) -> Seq<char> {
    match op {
        Operation::Adc => seq!['A', 'D', 'C'],
        Operation::Alr => seq!['A', 'L', 'R'],
        Operation::Anc => seq!['A', 'N', 'C'],
        Operation::And => seq!['A', 'N', 'D'],
        Operation::Ane => seq!['A', 'N', 'E'],
        Operation::Arr => seq!['A', 'R', 'R'],
        Operation::Asl => seq!['A', 'S', 'L'],
        Operation::Bcc => seq!['B', 'C', 'C'],
        Operation::Bcs => seq!['B', 'C', 'S'],
        Operation::Beq => seq!['B', 'E', 'Q'],
        Operation::Bit => seq!['B', 'I', 'T'],
        Operation::Bmi => seq!['B', 'M', 'I'],
        Operation::Bne => seq!['B', 'N', 'E'],
        Operation::Bpl => seq!['B', 'P', 'L'],
        Operation::Brk => seq!['B', 'R', 'K'],
        Operation::Bvc => seq!['B', 'V', 'C'],
        Operation::Bvs => seq!['B', 'V', 'S'],
        Operation::Clc => seq!['C', 'L', 'C'],
        Operation::Cld => seq!['C', 'L', 'D'],
        Operation::Cli => seq!['C', 'L', 'I'],
        Operation::Clv => seq!['C', 'L', 'V'],
        Operation::Cmp => seq!['C', 'M', 'P'],
        Operation::Cpx => seq!['C', 'P', 'X'],
        Operation::Cpy => seq!['C', 'P', 'Y'],
        Operation::Dcp => seq!['D', 'C', 'P'],
        Operation::Dec => seq!['D', 'E', 'C'],
        Operation::Dex => seq!['D', 'E', 'X'],
        Operation::Dey => seq!['D', 'E', 'Y'],
        Operation::Eor => seq!['E', 'O', 'R'],
        Operation::Inc => seq!['I', 'N', 'C'],
        Operation::Inx => seq!['I', 'N', 'X'],
        Operation::Iny => seq!['I', 'N', 'Y'],
        Operation::Isb => seq!['I', 'S', 'B'],
        Operation::Jam => seq!['J', 'A', 'M'],
        Operation::Jmp => seq!['J', 'M', 'P'],
        Operation::Jsr => seq!['J', 'S', 'R'],
        Operation::Las => seq!['L', 'A', 'S'],
        Operation::Lax => seq!['L', 'A', 'X'],
        Operation::Lda => seq!['L', 'D', 'A'],
        Operation::Ldx => seq!['L', 'D', 'X'],
        Operation::Ldy => seq!['L', 'D', 'Y'],
        Operation::Lsr => seq!['L', 'S', 'R'],
        Operation::Lxa => seq!['L', 'X', 'A'],
        Operation::Nop => seq!['N', 'O', 'P'],
        Operation::Ora => seq!['O', 'R', 'A'],
        Operation::Pha => seq!['P', 'H', 'A'],
        Operation::Php => seq!['P', 'H', 'P'],
        Operation::Pla => seq!['P', 'L', 'A'],
        Operation::Plp => seq!['P', 'L', 'P'],
        Operation::Rla => seq!['R', 'L', 'A'],
        Operation::Rol => seq!['R', 'O', 'L'],
        Operation::Ror => seq!['R', 'O', 'R'],
        Operation::Rra => seq!['R', 'R', 'A'],
        Operation::Rti => seq!['R', 'T', 'I'],
        Operation::Rts => seq!['R', 'T', 'S'],
        Operation::Sax => seq!['S', 'A', 'X'],
        Operation::Sbc => seq!['S', 'B', 'C'],
        Operation::Sbx => seq!['S', 'B', 'X'],
        Operation::Sec => seq!['S', 'E', 'C'],
        Operation::Sed => seq!['S', 'E', 'D'],
        Operation::Sei => seq!['S', 'E', 'I'],
        Operation::Sha => seq!['S', 'H', 'A'],
        Operation::Shx => seq!['S', 'H', 'X'],
        Operation::Shy => seq!['S', 'H', 'Y'],
        Operation::Slo => seq!['S', 'L', 'O'],
        Operation::Sre => seq!['S', 'R', 'E'],
        Operation::Sta => seq!['S', 'T', 'A'],
        Operation::Stx => seq!['S', 'T', 'X'],
        Operation::Sty => seq!['S', 'T', 'Y'],
        Operation::Tas => seq!['T', 'A', 'S'],
        Operation::Tax => seq!['T', 'A', 'X'],
        Operation::Tay => seq!['T', 'A', 'Y'],
        Operation::Tsx => seq!['T', 'S', 'X'],
        Operation::Txa => seq!['T', 'X', 'A'],
        Operation::Txs => seq!['T', 'X', 'S'],
        Operation::Tya => seq!['T', 'Y', 'A'],
    }
}

pub fn mnemonic_chars(op: Operation) -> (r: [char; 3])
    ensures
        r@ == mnemonic(op),
{
    let r = match op {
        Operation::Adc => ['A', 'D', 'C'],
        Operation::Alr => ['A', 'L', 'R'],
        Operation::Anc => ['A', 'N', 'C'],
        Operation::And => ['A', 'N', 'D'],
        Operation::Ane => ['A', 'N', 'E'],
        Operation::Arr => ['A', 'R', 'R'],
        Operation::Asl => ['A', 'S', 'L'],
        Operation::Bcc => ['B', 'C', 'C'],
        Operation::Bcs => ['B', 'C', 'S'],
        Operation::Beq => ['B', 'E', 'Q'],
        Operation::Bit => ['B', 'I', 'T'],
        Operation::Bmi => ['B', 'M', 'I'],
        Operation::Bne => ['B', 'N', 'E'],
        Operation::Bpl => ['B', 'P', 'L'],
        Operation::Brk => ['B', 'R', 'K'],
        Operation::Bvc => ['B', 'V', 'C'],
        Operation::Bvs => ['B', 'V', 'S'],
        Operation::Clc => ['C', 'L', 'C'],
        Operation::Cld => ['C', 'L', 'D'],
        Operation::Cli => ['C', 'L', 'I'],
        Operation::Clv => ['C', 'L', 'V'],
        Operation::Cmp => ['C', 'M', 'P'],
        Operation::Cpx => ['C', 'P', 'X'],
        Operation::Cpy => ['C', 'P', 'Y'],
        Operation::Dcp => ['D', 'C', 'P'],
        Operation::Dec => ['D', 'E', 'C'],
        Operation::Dex => ['D', 'E', 'X'],
        Operation::Dey => ['D', 'E', 'Y'],
        Operation::Eor => ['E', 'O', 'R'],
        Operation::Inc => ['I', 'N', 'C'],
        Operation::Inx => ['I', 'N', 'X'],
        Operation::Iny => ['I', 'N', 'Y'],
        Operation::Isb => ['I', 'S', 'B'],
        Operation::Jam => ['J', 'A', 'M'],
        Operation::Jmp => ['J', 'M', 'P'],
        Operation::Jsr => ['J', 'S', 'R'],
        Operation::Las => ['L', 'A', 'S'],
        Operation::Lax => ['L', 'A', 'X'],
        Operation::Lda => ['L', 'D', 'A'],
        Operation::Ldx => ['L', 'D', 'X'],
        Operation::Ldy => ['L', 'D', 'Y'],
        Operation::Lsr => ['L', 'S', 'R'],
        Operation::Lxa => ['L', 'X', 'A'],
        Operation::Nop => ['N', 'O', 'P'],
        Operation::Ora => ['O', 'R', 'A'],
        Operation::Pha => ['P', 'H', 'A'],
        Operation::Php => ['P', 'H', 'P'],
        Operation::Pla => ['P', 'L', 'A'],
        Operation::Plp => ['P', 'L', 'P'],
        Operation::Rla => ['R', 'L', 'A'],
        Operation::Rol => ['R', 'O', 'L'],
        Operation::Ror => ['R', 'O', 'R'],
        Operation::Rra => ['R', 'R', 'A'],
        Operation::Rti => ['R', 'T', 'I'],
        Operation::Rts => ['R', 'T', 'S'],
        Operation::Sax => ['S', 'A', 'X'],
        Operation::Sbc => ['S', 'B', 'C'],
        Operation::Sbx => ['S', 'B', 'X'],
        Operation::Sec => ['S', 'E', 'C'],
        Operation::Sed => ['S', 'E', 'D'],
        Operation::Sei => ['S', 'E', 'I'],
        Operation::Sha => ['S', 'H', 'A'],
        Operation::Shx => ['S', 'H', 'X'],
        Operation::Shy => ['S', 'H', 'Y'],
        Operation::Slo => ['S', 'L', 'O'],
        Operation::Sre => ['S', 'R', 'E'],
        Operation::Sta => ['S', 'T', 'A'],
        Operation::Stx => ['S', 'T', 'X'],
        Operation::Sty => ['S', 'T', 'Y'],
        Operation::Tas => ['T', 'A', 'S'],
        Operation::Tax => ['T', 'A', 'X'],
        Operation::Tay => ['T', 'A', 'Y'],
        Operation::Tsx => ['T', 'S', 'X'],
        Operation::Txa => ['T', 'X', 'A'],
        Operation::Txs => ['T', 'X', 'S'],
        Operation::Tya => ['T', 'Y', 'A'],
    };
    assert(r@ =~= mnemonic(op));
    r
}

#[verifier::rlimit(100)]
pub proof fn lemma_cycles_bounded(opcode: u8)
    ensures
        1 <= opcode_entry(opcode).cycles <= 8,
{
}

/// The cycles an instruction takes: its base count, plus the page-cross cycle
/// and the cycles its operation added, where the entry allows extras.
pub open spec fn instruction_cycles(e: OpcodeEntry, page_crossed: bool, op_extra: u8) -> int {
    e.cycles + if e.may_require_extra_cycles {
        (if page_crossed {
            1int
        } else {
            0
        }) + op_extra
    } else {
        0
    }
}

/// Fetch, decode and execute the instruction at PC: the CPU, the bus and the
/// number of cycles it takes.
pub open spec fn step_spec(c: Cpu, b: BusState) -> (Cpu, BusState, int) {
    let opcode = b.read_value(c.program_counter);
    let e = opcode_entry(opcode);
    let c1 = Cpu { program_counter: c.program_counter.wrapping_add(1), ..c };
    let (r, b2) = resolve_spec(c1, b.after_read(c.program_counter), e.mode);
    let c2 = Cpu { program_counter: c1.program_counter.wrapping_add(operand_length(e.mode)), ..c1 };
    let (c3, b3, extra) = execute_spec(c2, b2, e.operation, r.target);
    (c3, b3, instruction_cycles(e, r.page_crossed, extra))
}

/// One clock: nothing when jammed; drain a pending cycle; or run the next
/// instruction, counting the fetch as its first cycle.
pub open spec fn tick_spec(c: Cpu, b: BusState) -> (Cpu, BusState) {
    if c.is_jammed {
        (c, b)
    } else if c.cycles_left > 0 {
        (Cpu { is_resetting: false, cycles_left: (c.cycles_left - 1) as u8, ..c }, b)
    } else {
        let (c3, b3, n) = step_spec(Cpu { is_resetting: false, ..c }, b);
        (Cpu { cycles_left: (n - 1) as u8, total_cycles: (c.total_cycles + n) as u64, ..c3 }, b3)
    }
}

pub open spec fn is_branch(op: Operation) -> bool {
    match op {
        Operation::Bcc | Operation::Bcs | Operation::Beq | Operation::Bne | Operation::Bmi
        | Operation::Bpl | Operation::Bvc | Operation::Bvs => true,
        _ => false,
    }
}

/// Operations that set PC themselves.
pub open spec fn changes_control_flow(op: Operation) -> bool {
    is_branch(op) || op == Operation::Jmp || op == Operation::Jsr || op == Operation::Rts
        || op == Operation::Rti || op == Operation::Brk
}

#[verifier::rlimit(100)]
proof fn lemma_branch_entries(opcode: u8)
    ensures
        is_branch(opcode_entry(opcode).operation) ==> {
            &&& opcode_entry(opcode).mode == AddressingMode::Relative
            &&& opcode_entry(opcode).cycles == 2
            &&& opcode_entry(opcode).may_require_extra_cycles
        },
{
}

proof fn lemma_execute_extra(c: Cpu, b: BusState, op: Operation, t: Target)
    ensures
        execute_spec(c, b, op, t).2 <= 2,
        !is_branch(op) ==> execute_spec(c, b, op, t).2 == 0,
        !changes_control_flow(op) ==> execute_spec(c, b, op, t).0.program_counter
            == c.program_counter,
        execute_spec(c, b, op, t).0.cycles_left == c.cycles_left,
        execute_spec(c, b, op, t).0.total_cycles == c.total_cycles,
{
}

/// An instruction takes between one and `MAX_INSTRUCTION_CYCLES` cycles.
pub proof fn step_cycles_bounded(c: Cpu, b: BusState)
    ensures
        1 <= step_spec(c, b).2 <= MAX_INSTRUCTION_CYCLES,
        step_spec(c, b).0.cycles_left == c.cycles_left,
        step_spec(c, b).0.total_cycles == c.total_cycles,
{
    let opcode = b.read_value(c.program_counter);
    let e = opcode_entry(opcode);
    let c1 = Cpu { program_counter: c.program_counter.wrapping_add(1), ..c };
    let (r, b2) = resolve_spec(c1, b.after_read(c.program_counter), e.mode);
    let c2 = Cpu { program_counter: c1.program_counter.wrapping_add(operand_length(e.mode)), ..c1 };
    lemma_cycles_bounded(opcode);
    lemma_execute_extra(c2, b2, e.operation, r.target);
}

/// A tick that starts an instruction adds exactly that instruction's cycles to
/// the counter (its base count plus the extras its entry allows) and leaves
/// that count less one to drain; a draining tick adds nothing.
pub proof fn tick_cycle_count(c: Cpu, b: BusState)
    requires
        !c.is_jammed,
        c.total_cycles <= u64::MAX - MAX_INSTRUCTION_CYCLES,
    ensures
        c.cycles_left > 0 ==> tick_spec(c, b).0.total_cycles == c.total_cycles
            && tick_spec(c, b).0.cycles_left == c.cycles_left - 1,
        c.cycles_left == 0 ==> ({
            let n = step_spec(Cpu { is_resetting: false, ..c }, b).2;
            &&& tick_spec(c, b).0.total_cycles == c.total_cycles + n
            &&& tick_spec(c, b).0.cycles_left == n - 1
        }),
{
    step_cycles_bounded(Cpu { is_resetting: false, ..c }, b);
}

/// Branch timing: two cycles when not taken, three when taken within the
/// page, four when the destination is on another page; PC ends at the
/// destination or right after the branch.
pub proof fn branch_cycle_count(c: Cpu, b: BusState)
    requires
        !c.is_jammed,
        c.cycles_left == 0,
        c.total_cycles <= u64::MAX - MAX_INSTRUCTION_CYCLES,
        is_branch(opcode_entry(b.read_value(c.program_counter)).operation),
    ensures
        ({
            let pc = c.program_counter;
            let op = opcode_entry(b.read_value(pc)).operation;
            let after = pc.wrapping_add(1).wrapping_add(1);
            let offset = b.after_read(pc).read_value(pc.wrapping_add(1));
            let dest = branch_destination(after, offset);
            let (c2, b2) = tick_spec(c, b);
            &&& c2.total_cycles == c.total_cycles + if !branch_taken(op, c) {
                2int
            } else if page_differs(dest, after) {
                4int
            } else {
                3int
            }
            &&& c2.program_counter == if branch_taken(op, c) {
                dest
            } else {
                after
            }
        }),
{
    lemma_branch_entries(b.read_value(c.program_counter));
    step_cycles_bounded(Cpu { is_resetting: false, ..c }, b);
}

/// Outside jumps, calls, returns, BRK and branches, an instruction leaves PC
/// right after its operand bytes.
pub proof fn program_counter_advance(c: Cpu, b: BusState)
    requires
        !c.is_jammed,
        c.cycles_left == 0,
        c.total_cycles <= u64::MAX - MAX_INSTRUCTION_CYCLES,
        !changes_control_flow(opcode_entry(b.read_value(c.program_counter)).operation),
    ensures
        tick_spec(c, b).0.program_counter == c.program_counter.wrapping_add(1).wrapping_add(
            operand_length(opcode_entry(b.read_value(c.program_counter)).mode),
        ),
{
    let c0 = Cpu { is_resetting: false, ..c };
    let opcode = b.read_value(c.program_counter);
    let e = opcode_entry(opcode);
    let c1 = Cpu { program_counter: c0.program_counter.wrapping_add(1), ..c0 };
    let (r, b2) = resolve_spec(c1, b.after_read(c.program_counter), e.mode);
    let c2 = Cpu { program_counter: c1.program_counter.wrapping_add(operand_length(e.mode)), ..c1 };
    lemma_execute_extra(c2, b2, e.operation, r.target);
    step_cycles_bounded(c0, b);
}

impl Cpu {
    fn step(&mut self, bus: &mut CpuBus) -> (n: u8)
        requires
            old(bus).wf(),
        ensures
            final(bus).wf(),
            (*final(self), final(bus)@, n as int) == step_spec(*old(self), old(bus)@),
            1 <= n <= MAX_INSTRUCTION_CYCLES,
    {
        let opcode = bus.read(self.program_counter);
        let e = lookup(opcode);
        proof {
            lemma_cycles_bounded(opcode);
        }
        self.program_counter = self.program_counter.wrapping_add(1);
        let r = resolve(self, bus, e.mode);
        self.program_counter = self.program_counter.wrapping_add(operand_len(e.mode));
        let ghost before = *self;
        let ghost b2 = bus@;
        let extra = self.execute(bus, e.operation, r.target);
        proof {
            lemma_execute_extra(before, b2, e.operation, r.target);
        }
        if e.may_require_extra_cycles {
            let page: u8 = if r.page_crossed {
                1
            } else {
                0
            };
            e.cycles + page + extra
        } else {
            e.cycles
        }
    }

    /// Advances the CPU by one clock.
    pub fn tick(&mut self, bus: &mut CpuBus)
        requires
            old(bus).wf(),
            old(self).total_cycles <= u64::MAX - MAX_INSTRUCTION_CYCLES,
        ensures
            final(bus).wf(),
            (*final(self), final(bus)@) == tick_spec(*old(self), old(bus)@),
    {
        if self.is_jammed {
            return ;
        }
        self.is_resetting = false;
        if self.cycles_left > 0 {
            self.cycles_left = self.cycles_left - 1;
            return ;
        }
        let n = self.step(bus);
        self.cycles_left = n - 1;
        self.total_cycles = self.total_cycles + n as u64;
    }
}

} // verus!
