//! Decoded instructions rendered as text: the short assembler form used by the
//! disassembler, and the conformance-trace line (the nestest log format).
use vstd::prelude::*;
use crate::addressing::{operand_len, operand_length, pointer_high_address, AddressingMode};
use crate::cpu::Cpu;
use crate::cpu_bus::{BusState, CpuBus};
use crate::instructions::{lookup, mnemonic, mnemonic_chars, opcode_entry, OpcodeEntry};
use crate::operations::Operation;
use crate::text::{
    chars_to_string, decimal, hex2, hex4, pad_right, push_chars, push_decimal, push_hex2,
    push_hex4, push_padding, spaces,
};

verus! {

/// An instruction as it stands in memory: its address, opcode, the two bytes
/// after the opcode, and its table entry.
#[derive(Debug, Clone, Copy, PartialEq, Eq, Structural)]
pub struct Instruction {
    pub address: u16,
    pub opcode: u8,
    pub operand_low: u8,
    pub operand_high: u8,
    pub entry: OpcodeEntry,
}

pub open spec fn decoded(address: u16, opcode: u8, low: u8, high: u8) -> Instruction {
    Instruction {
        address,
        opcode,
        operand_low: low,
        operand_high: high,
        entry: opcode_entry(opcode),
    }
}

/// The instruction at `address` as the bus shows it.
pub open spec fn decoded_at(b: BusState, address: u16) -> Instruction {
    decoded(
        address,
        b.read_value(address),
        b.read_value(address.wrapping_add(1)),
        b.read_value(address.wrapping_add(2)),
    )
}

impl Instruction {
    pub open spec fn word(self) -> u16 {
        (self.operand_high as u16) << 8u16 | self.operand_low as u16
    }

    pub fn decode(address: u16, opcode: u8, low: u8, high: u8) -> (r: Instruction)
        ensures
            r == decoded(address, opcode, low, high),
    {
        Instruction { address, opcode, operand_low: low, operand_high: high, entry: lookup(opcode) }
    }

    /// How far the program counter moves past the opcode byte.
    pub fn next_instruction_offset(&self) -> (r: u16)
        ensures
            r == operand_length(self.entry.mode),
    {
        operand_len(self.entry.mode)
    }

    /// The short assembler form, e.g. `LDA $00,X` or `BCC *-$08`.
    pub fn disassemble_instruction(&self) -> (r: String)
        ensures
            r@ == listing_line(*self),
    {
        let mut out: Vec<char> = Vec::new();
        push_listing_line(&mut out, self);
        chars_to_string(out)
    }
}

/// A branch offset relative to the branch's own address, as `*+$hh` or `*-$hh`.
pub open spec fn relative_text(offset: u8) -> Seq<char> {
    let d = (offset as i8) as int + 2;
    if d < 0 {
        seq!['*', '-', '$'] + hex2((-d) as u8)
    } else {
        seq!['*', '+', '$'] + hex2(d as u8)
    }
}

/// The operand in assembler syntax.
pub open spec fn operand_text(ins: Instruction) -> Seq<char> {
    let lo = ins.operand_low;
    match ins.entry.mode {
        AddressingMode::Implicit => Seq::empty(),
        AddressingMode::Accumulator => seq!['A'],
        AddressingMode::Immediate => seq!['#', '$'] + hex2(lo),
        AddressingMode::ZeroPage => seq!['$'] + hex2(lo),
        AddressingMode::ZeroPageX => seq!['$'] + hex2(lo) + seq![',', 'X'],
        AddressingMode::ZeroPageY => seq!['$'] + hex2(lo) + seq![',', 'Y'],
        AddressingMode::Absolute => seq!['$'] + hex4(ins.word()),
        AddressingMode::AbsoluteX => seq!['$'] + hex4(ins.word()) + seq![',', 'X'],
        AddressingMode::AbsoluteY => seq!['$'] + hex4(ins.word()) + seq![',', 'Y'],
        AddressingMode::Indirect => seq!['(', '$'] + hex4(ins.word()) + seq![')'],
        AddressingMode::IndirectX => seq!['(', '$'] + hex2(lo) + seq![',', 'X', ')'],
        AddressingMode::IndirectY => seq!['(', '$'] + hex2(lo) + seq![')', ',', 'Y'],
        AddressingMode::Relative => relative_text(lo),
    }
}

/// Name (marked `*` when illegal), then the operand after one space.
pub open spec fn listing_line(ins: Instruction) -> Seq<char> {
    let name = (if ins.entry.is_illegal {
        seq!['*']
    } else {
        Seq::empty()
    }) + mnemonic(ins.entry.operation);
    if ins.entry.mode == AddressingMode::Implicit {
        name
    } else {
        name + seq![' '] + operand_text(ins)
    }
}

fn push_mnemonic(out: &mut Vec<char>, op: Operation)
    ensures
        final(out)@ == old(out)@ + mnemonic(op),
{
    let name = mnemonic_chars(op);
    push_chars(out, &name);
}

fn push_relative(out: &mut Vec<char>, offset: u8)
    ensures
        final(out)@ == old(out)@ + relative_text(offset),
{
    let d: i16 = (offset as i8) as i16 + 2;
    if d < 0 {
        push_chars(out, &['*', '-', '$']);
        push_hex2(out, (-d) as u8);
    } else {
        push_chars(out, &['*', '+', '$']);
        push_hex2(out, d as u8);
    }
    assert(out@ =~= old(out)@ + relative_text(offset));
}

fn push_operand_text(out: &mut Vec<char>, ins: &Instruction)
    ensures
        final(out)@ == old(out)@ + operand_text(*ins),
{
    let lo = ins.operand_low;
    let word = (ins.operand_high as u16) << 8u16 | lo as u16;
    match ins.entry.mode {
        AddressingMode::Implicit => {},
        AddressingMode::Accumulator => out.push('A'),
        AddressingMode::Immediate => {
            push_chars(out, &['#', '$']);
            push_hex2(out, lo);
        },
        AddressingMode::ZeroPage => {
            out.push('$');
            push_hex2(out, lo);
        },
        AddressingMode::ZeroPageX => {
            out.push('$');
            push_hex2(out, lo);
            push_chars(out, &[',', 'X']);
        },
        AddressingMode::ZeroPageY => {
            out.push('$');
            push_hex2(out, lo);
            push_chars(out, &[',', 'Y']);
        },
        AddressingMode::Absolute => {
            out.push('$');
            push_hex4(out, word);
        },
        AddressingMode::AbsoluteX => {
            out.push('$');
            push_hex4(out, word);
            push_chars(out, &[',', 'X']);
        },
        AddressingMode::AbsoluteY => {
            out.push('$');
            push_hex4(out, word);
            push_chars(out, &[',', 'Y']);
        },
        AddressingMode::Indirect => {
            push_chars(out, &['(', '$']);
            push_hex4(out, word);
            out.push(')');
        },
        AddressingMode::IndirectX => {
            push_chars(out, &['(', '$']);
            push_hex2(out, lo);
            push_chars(out, &[',', 'X', ')']);
        },
        AddressingMode::IndirectY => {
            push_chars(out, &['(', '$']);
            push_hex2(out, lo);
            push_chars(out, &[')', ',', 'Y']);
        },
        AddressingMode::Relative => push_relative(out, lo),
    }
    assert(out@ =~= old(out)@ + operand_text(*ins));
}

fn push_listing_line(out: &mut Vec<char>, ins: &Instruction)
    ensures
        final(out)@ == old(out)@ + listing_line(*ins),
{
    if ins.entry.is_illegal {
        out.push('*');
    }
    push_mnemonic(out, ins.entry.operation);
    if let AddressingMode::Implicit = ins.entry.mode {
    } else {
        out.push(' ');
        push_operand_text(out, ins);
    }
    assert(out@ =~= old(out)@ + listing_line(*ins));
}


/// The 16-bit pointer at `ptr`, high byte fetched with the page-wrap rule.
pub open spec fn peek_pointer(b: BusState, ptr: u16) -> u16 {
    (b.read_value(pointer_high_address(ptr)) as u16) << 8u16 | b.read_value(ptr) as u16
}

/// ` = VV`: the byte that an operand address holds.
pub open spec fn value_text(b: BusState, address: u16) -> Seq<char> {
    seq![' ', '=', ' '] + hex2(b.read_value(address))
}

pub open spec fn is_jump(op: Operation) -> bool {
    op == Operation::Jmp || op == Operation::Jsr
}

/// The operand as the conformance trace shows it: resolved addresses after
/// ` @ `, the byte there after ` = `, branch targets as absolute addresses.
pub open spec fn trace_operand(ins: Instruction, c: Cpu, b: BusState) -> Seq<char> {
    let lo = ins.operand_low;
    let word = ins.word();
    match ins.entry.mode {
        AddressingMode::Implicit => Seq::empty(),
        AddressingMode::Accumulator => seq!['A'],
        AddressingMode::Immediate => seq!['#', '$'] + hex2(lo),
        AddressingMode::ZeroPage => seq!['$'] + hex2(lo) + value_text(b, lo as u16),
        AddressingMode::ZeroPageX => {
            let a = lo.wrapping_add(c.x);
            seq!['$'] + hex2(lo) + seq![',', 'X', ' ', '@', ' '] + hex2(a) + value_text(b, a as u16)
        },
        AddressingMode::ZeroPageY => {
            let a = lo.wrapping_add(c.y);
            seq!['$'] + hex2(lo) + seq![',', 'Y', ' ', '@', ' '] + hex2(a) + value_text(b, a as u16)
        },
        AddressingMode::Absolute => if is_jump(ins.entry.operation) {
            seq!['$'] + hex4(word)
        } else {
            seq!['$'] + hex4(word) + value_text(b, word)
        },
        AddressingMode::AbsoluteX => {
            let a = word.wrapping_add(c.x as u16);
            seq!['$'] + hex4(word) + seq![',', 'X', ' ', '@', ' '] + hex4(a) + value_text(b, a)
        },
        AddressingMode::AbsoluteY => {
            let a = word.wrapping_add(c.y as u16);
            seq!['$'] + hex4(word) + seq![',', 'Y', ' ', '@', ' '] + hex4(a) + value_text(b, a)
        },
        AddressingMode::Indirect => seq!['(', '$'] + hex4(word) + seq![')', ' ', '=', ' '] + hex4(
            peek_pointer(b, word),
        ),
        AddressingMode::IndirectX => {
            let zp = lo.wrapping_add(c.x);
            let a = peek_pointer(b, zp as u16);
            seq!['(', '$'] + hex2(lo) + seq![',', 'X', ')', ' ', '@', ' '] + hex2(zp) + seq![
                ' ',
                '=',
                ' ',
            ] + hex4(a) + value_text(b, a)
        },
        AddressingMode::IndirectY => {
            let base = peek_pointer(b, lo as u16);
            let a = base.wrapping_add(c.y as u16);
            seq!['(', '$'] + hex2(lo) + seq![')', ',', 'Y', ' ', '=', ' '] + hex4(base) + seq![
                ' ',
                '@',
                ' ',
            ] + hex4(a) + value_text(b, a)
        },
        AddressingMode::Relative => seq!['$'] + hex4(
            ins.address.wrapping_add(2).wrapping_add((lo as i8) as u16),
        ),
    }
}

/// The instruction's bytes in hex, padded to the width of three.
pub open spec fn bytes_text(ins: Instruction) -> Seq<char> {
    let len = operand_length(ins.entry.mode);
    if len == 0 {
        hex2(ins.opcode) + spaces(6)
    } else if len == 1 {
        hex2(ins.opcode) + seq![' '] + hex2(ins.operand_low) + spaces(3)
    } else {
        hex2(ins.opcode) + seq![' '] + hex2(ins.operand_low) + seq![' '] + hex2(ins.operand_high)
    }
}

/// `*` for an illegal opcode or a space, the name, a space, the operand.
pub open spec fn trace_disassembly(ins: Instruction, c: Cpu, b: BusState) -> Seq<char> {
    seq![if ins.entry.is_illegal { '*' } else { ' ' }] + mnemonic(ins.entry.operation) + seq![' ']
        + trace_operand(ins, c, b)
}

/// Width of the disassembly column of a trace line.
pub const DISASSEMBLY_WIDTH: usize = 33;

/// `PPPP  BB BB BB  MMM OPERAND...  A:AA X:XX Y:YY P:PP SP:SS CYC:N` for the
/// instruction at PC, before it runs.
pub open spec fn trace_line_spec(c: Cpu, b: BusState) -> Seq<char> {
    let ins = decoded_at(b, c.program_counter);
    hex4(c.program_counter) + seq![' ', ' '] + bytes_text(ins) + seq![' '] + pad_right(
        trace_disassembly(ins, c, b),
        DISASSEMBLY_WIDTH as nat,
    ) + registers_text(c)
}

/// `A:AA X:XX Y:YY P:PP SP:SS CYC:N`.
pub open spec fn registers_text(c: Cpu) -> Seq<char> {
    seq!['A', ':'] + hex2(c.accumulator) + seq![' ', 'X', ':'] + hex2(c.x) + seq![' ', 'Y', ':']
        + hex2(c.y) + seq![' ', 'P', ':'] + hex2(c.status) + seq![' ', 'S', 'P', ':'] + hex2(
        c.stack_pointer,
    ) + seq![' ', 'C', 'Y', 'C', ':'] + decimal(c.total_cycles as nat)
}

fn push_registers(out: &mut Vec<char>, c: &Cpu)
    ensures
        final(out)@ == old(out)@ + registers_text(*c),
{
    push_chars(out, &['A', ':']);
    push_hex2(out, c.accumulator);
    push_chars(out, &[' ', 'X', ':']);
    push_hex2(out, c.x);
    push_chars(out, &[' ', 'Y', ':']);
    push_hex2(out, c.y);
    push_chars(out, &[' ', 'P', ':']);
    push_hex2(out, c.status);
    push_chars(out, &[' ', 'S', 'P', ':']);
    push_hex2(out, c.stack_pointer);
    push_chars(out, &[' ', 'C', 'Y', 'C', ':']);
    push_decimal(out, c.total_cycles);
    assert(out@ =~= old(out)@ + registers_text(*c));
}

fn push_trace_disassembly(out: &mut Vec<char>, ins: &Instruction, cpu: &Cpu, bus: &CpuBus)
    requires
        bus.wf(),
    ensures
        final(out)@ == old(out)@ + trace_disassembly(*ins, *cpu, bus@),
{
    out.push(if ins.entry.is_illegal {
        '*'
    } else {
        ' '
    });
    push_mnemonic(out, ins.entry.operation);
    out.push(' ');
    push_trace_operand(out, ins, cpu, bus);
    assert(out@ =~= old(out)@ + trace_disassembly(*ins, *cpu, bus@));
}

fn peek_pointer_exec(bus: &CpuBus, ptr: u16) -> (r: u16)
    requires
        bus.wf(),
    ensures
        r == peek_pointer(bus@, ptr),
{
    let high = bus.peek((ptr & 0xFF00) | (ptr.wrapping_add(1) & 0x00FF)) as u16;
    let low = bus.peek(ptr) as u16;
    high << 8u16 | low
}

fn push_value_text(out: &mut Vec<char>, bus: &CpuBus, address: u16)
    requires
        bus.wf(),
    ensures
        final(out)@ == old(out)@ + value_text(bus@, address),
{
    push_chars(out, &[' ', '=', ' ']);
    push_hex2(out, bus.peek(address));
    assert(out@ =~= old(out)@ + value_text(bus@, address));
}

fn push_trace_operand(out: &mut Vec<char>, ins: &Instruction, cpu: &Cpu, bus: &CpuBus)
    requires
        bus.wf(),
    ensures
        final(out)@ == old(out)@ + trace_operand(*ins, *cpu, bus@),
{
    let lo = ins.operand_low;
    let word = (ins.operand_high as u16) << 8u16 | lo as u16;
    match ins.entry.mode {
        AddressingMode::Implicit => {},
        AddressingMode::Accumulator => out.push('A'),
        AddressingMode::Immediate => {
            push_chars(out, &['#', '$']);
            push_hex2(out, lo);
        },
        AddressingMode::ZeroPage => {
            out.push('$');
            push_hex2(out, lo);
            push_value_text(out, bus, lo as u16);
        },
        AddressingMode::ZeroPageX => {
            let a = lo.wrapping_add(cpu.x);
            out.push('$');
            push_hex2(out, lo);
            push_chars(out, &[',', 'X', ' ', '@', ' ']);
            push_hex2(out, a);
            push_value_text(out, bus, a as u16);
        },
        AddressingMode::ZeroPageY => {
            let a = lo.wrapping_add(cpu.y);
            out.push('$');
            push_hex2(out, lo);
            push_chars(out, &[',', 'Y', ' ', '@', ' ']);
            push_hex2(out, a);
            push_value_text(out, bus, a as u16);
        },
        AddressingMode::Absolute => {
            out.push('$');
            push_hex4(out, word);
            match ins.entry.operation {
                Operation::Jmp | Operation::Jsr => {},
                _ => push_value_text(out, bus, word),
            }
        },
        AddressingMode::AbsoluteX => {
            let a = word.wrapping_add(cpu.x as u16);
            out.push('$');
            push_hex4(out, word);
            push_chars(out, &[',', 'X', ' ', '@', ' ']);
            push_hex4(out, a);
            push_value_text(out, bus, a);
        },
        AddressingMode::AbsoluteY => {
            let a = word.wrapping_add(cpu.y as u16);
            out.push('$');
            push_hex4(out, word);
            push_chars(out, &[',', 'Y', ' ', '@', ' ']);
            push_hex4(out, a);
            push_value_text(out, bus, a);
        },
        AddressingMode::Indirect => {
            push_chars(out, &['(', '$']);
            push_hex4(out, word);
            push_chars(out, &[')', ' ', '=', ' ']);
            push_hex4(out, peek_pointer_exec(bus, word));
        },
        AddressingMode::IndirectX => {
            let zp = lo.wrapping_add(cpu.x);
            let a = peek_pointer_exec(bus, zp as u16);
            push_chars(out, &['(', '$']);
            push_hex2(out, lo);
            push_chars(out, &[',', 'X', ')', ' ', '@', ' ']);
            push_hex2(out, zp);
            push_chars(out, &[' ', '=', ' ']);
            push_hex4(out, a);
            push_value_text(out, bus, a);
        },
        AddressingMode::IndirectY => {
            let base = peek_pointer_exec(bus, lo as u16);
            let a = base.wrapping_add(cpu.y as u16);
            push_chars(out, &['(', '$']);
            push_hex2(out, lo);
            push_chars(out, &[')', ',', 'Y', ' ', '=', ' ']);
            push_hex4(out, base);
            push_chars(out, &[' ', '@', ' ']);
            push_hex4(out, a);
            push_value_text(out, bus, a);
        },
        AddressingMode::Relative => {
            out.push('$');
            push_hex4(out, ins.address.wrapping_add(2).wrapping_add((lo as i8) as u16));
        },
    }
    assert(out@ =~= old(out)@ + trace_operand(*ins, *cpu, bus@));
}

fn push_bytes_text(out: &mut Vec<char>, ins: &Instruction)
    ensures
        final(out)@ == old(out)@ + bytes_text(*ins),
{
    let len = operand_len(ins.entry.mode);
    push_hex2(out, ins.opcode);
    if len == 0 {
        push_chars(out, &[' ', ' ', ' ', ' ', ' ', ' ']);
        assert(seq![' ', ' ', ' ', ' ', ' ', ' '] =~= spaces(6));
    } else if len == 1 {
        out.push(' ');
        push_hex2(out, ins.operand_low);
        push_chars(out, &[' ', ' ', ' ']);
        assert(seq![' ', ' ', ' '] =~= spaces(3));
    } else {
        out.push(' ');
        push_hex2(out, ins.operand_low);
        out.push(' ');
        push_hex2(out, ins.operand_high);
    }
    assert(out@ =~= old(out)@ + bytes_text(*ins));
}

fn peek_instruction(bus: &CpuBus, address: u16) -> (r: Instruction)
    requires
        bus.wf(),
    ensures
        r == decoded_at(bus@, address),
{
    Instruction::decode(
        address,
        bus.peek(address),
        bus.peek(address.wrapping_add(1)),
        bus.peek(address.wrapping_add(2)),
    )
}

impl Cpu {
    /// Decodes the instruction at PC and moves PC past it, without running it.
    pub fn get_next_instruction(&mut self, bus: &CpuBus) -> (r: Instruction)
        requires
            bus.wf(),
        ensures
            r == decoded_at(bus@, old(self).program_counter),
            *final(self) == (Cpu {
                program_counter: old(self).program_counter.wrapping_add(1).wrapping_add(
                    operand_length(r.entry.mode),
                ),
                ..*old(self)
            }),
    {
        let ins = peek_instruction(bus, self.program_counter);
        self.program_counter = self.program_counter.wrapping_add(1).wrapping_add(
            ins.next_instruction_offset(),
        );
        ins
    }

    /// The trace line of the instruction at PC, as the next instruction fetch
    /// would log it. Reads through `peek`, so the open-bus latch is untouched.
    pub fn trace_line(&self, bus: &CpuBus) -> (r: String)
        requires
            bus.wf(),
        ensures
            r@ == trace_line_spec(*self, bus@),
    {
        let ins = peek_instruction(bus, self.program_counter);
        let mut out: Vec<char> = Vec::new();
        push_hex4(&mut out, self.program_counter);
        push_chars(&mut out, &[' ', ' ']);
        push_bytes_text(&mut out, &ins);
        out.push(' ');
        let start = out.len();
        let ghost before = out@;
        push_trace_disassembly(&mut out, &ins, self, bus);
        assert(out@.subrange(0, start as int) =~= before);
        assert(out@.subrange(start as int, out@.len() as int) =~= trace_disassembly(
            ins,
            *self,
            bus@,
        ));
        push_padding(&mut out, start, DISASSEMBLY_WIDTH);
        push_registers(&mut out, self);
        assert(out@ =~= trace_line_spec(*self, bus@));
        chars_to_string(out)
    }
}


/// Byte `i` of a buffer; zero past its end.
pub open spec fn byte_at(m: Seq<u8>, i: int) -> u8 {
    if 0 <= i < m.len() {
        m[i]
    } else {
        0
    }
}

/// The instruction at offset `off` of a buffer loaded at `start`.
pub open spec fn instruction_in(m: Seq<u8>, start: u16, off: int) -> Instruction {
    decoded((start + off) as u16, byte_at(m, off), byte_at(m, off + 1), byte_at(m, off + 2))
}

/// The listing from offset `off` on: one line per instruction, stepping by
/// instruction length, until an instruction reaches the end of the buffer.
pub open spec fn listing(m: Seq<u8>, start: u16, off: nat) -> Seq<char>
    decreases m.len() - off,
{
    let ins = instruction_in(m, start, off as int);
    let next = off + 1 + operand_length(ins.entry.mode);
    if next >= m.len() {
        listing_line(ins)
    } else {
        listing_line(ins) + seq!['\n'] + listing(m, start, next as nat)
    }
}

/// A linear disassembler over a program loaded at a start address.
pub struct Dissasembler {
    start: u16,
    memory: Vec<u8>,
}

impl View for Dissasembler {
    type V = (u16, Seq<u8>);

    closed spec fn view(&self) -> (u16, Seq<u8>) {
        (self.start, self.memory@)
    }
}

impl Dissasembler {
    /// The program fits the address space above its start.
    pub open spec fn wf(&self) -> bool {
        self@.0 + self@.1.len() <= 0x10000
    }

    pub fn new(start: u16, memory: &[u8]) -> (r: Dissasembler)
        requires
            start + memory@.len() <= 0x10000,
        ensures
            r.wf(),
            r@ == (start, memory@),
    {
        let n = memory.len();
        let mut copy: Vec<u8> = Vec::with_capacity(n);
        let mut i: usize = 0;
        while i < n
            invariant
                n == memory@.len(),
                i <= n,
                copy@ == memory@.subrange(0, i as int),
            decreases n - i,
        {
            copy.push(memory[i]);
            i = i + 1;
            assert(copy@ =~= memory@.subrange(0, i as int));
        }
        assert(memory@.subrange(0, n as int) =~= memory@);
        Dissasembler { start, memory: copy }
    }

    fn byte(&self, i: usize) -> (r: u8)
        ensures
            r == byte_at(self@.1, i as int),
    {
        if i < self.memory.len() {
            self.memory[i]
        } else {
            0
        }
    }

    /// One line per instruction from the start address to the end of the
    /// program, lines separated by newlines.
    pub fn disassemble(&self) -> (r: String)
        requires
            self.wf(),
        ensures
            r@ == listing(self@.1, self@.0, 0),
    {
        let n = self.memory.len();
        let ghost m = self@.1;
        let ghost start = self@.0;
        let mut out: Vec<char> = Vec::new();
        let mut off: usize = 0;
        loop
            invariant_except_break
                n == m.len(),
                start + n <= 0x10000,
                m == self@.1,
                start == self@.0,
                off == 0 || off < n,
                out@ + listing(m, start, off as nat) == listing(m, start, 0),
            ensures
                out@ == listing(m, start, 0),
            decreases n - off,
        {
            let ins = Instruction::decode(
                self.start.wrapping_add(off as u16),
                self.byte(off),
                self.byte(off + 1),
                self.byte(off + 2),
            );
            assert(ins == instruction_in(m, start, off as int));
            let ghost before = out@;
            push_listing_line(&mut out, &ins);
            let next = off + 1 + ins.next_instruction_offset() as usize;
            if next >= n {
                assert(listing(m, start, off as nat) == listing_line(ins));
                assert(out@ =~= before + listing(m, start, off as nat));
                break ;
            }
            out.push('\n');
            assert(listing(m, start, off as nat) == listing_line(ins) + seq!['\n'] + listing(
                m,
                start,
                next as nat,
            ));
            assert(out@ + listing(m, start, next as nat) =~= before + listing(m, start, off as nat));
            off = next;
        }
        chars_to_string(out)
    }
}

} // verus!
