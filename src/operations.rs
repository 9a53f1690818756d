//! Instruction semantics: what each operation does to the registers and the
//! bus once its operand has been resolved.
//!
//! Decimal mode is ignored, as on the NES's 2A03: ADC and SBC are binary.
use vstd::prelude::*;
use crate::addressing::{page_differs, Target};
use crate::cpu::{
    pop_spec, pop_u16_spec, push_spec, push_u16_spec, with_flag, with_zn, Cpu, CARRY, BREAK,
    DECIMAL_MODE, INTERRUPT_DISABLE, IRQ_VECTOR, NEGATIVE, OVERFLOW, UNUSED, ZERO,
};
use crate::cpu_bus::{lemma_ram_index, BusState, CpuBus};
use crate::cpu::stack_address;

verus! {

#[derive(Debug, Clone, Copy, PartialEq, Eq, Structural)]
pub enum Operation {
    Adc, Alr, Anc, And, Ane, Arr, Asl, Bcc, Bcs, Beq, Bit, Bmi, Bne, Bpl, Brk, Bvc,
    Bvs, Clc, Cld, Cli, Clv, Cmp, Cpx, Cpy, Dcp, Dec, Dex, Dey, Eor, Inc, Inx, Iny,
    Isb, Jam, Jmp, Jsr, Las, Lax, Lda, Ldx, Ldy, Lsr, Lxa, Nop, Ora, Pha, Php, Pla,
    Plp, Rla, Rol, Ror, Rra, Rti, Rts, Sax, Sbc, Sbx, Sec, Sed, Sei, Sha, Shx, Shy,
    Slo, Sre, Sta, Stx, Sty, Tas, Tax, Tay, Tsx, Txa, Txs, Tya,
}

pub open spec fn carry_in(c: Cpu) -> int {
    if c.flag(CARRY) {
        1
    } else {
        0
    }
}

/// `A + M + C`: C is the carry out of bit 7, V the signed overflow.
pub open spec fn adc_spec(c: Cpu, m: u8) -> Cpu {
    let sum = c.accumulator + m + carry_in(c);
    let r = sum as u8;
    let p = with_flag(c.status, CARRY, sum > 0xFF);
    let p = with_flag(p, OVERFLOW, (r ^ c.accumulator) & (r ^ m) & 0x80 != 0);
    Cpu { accumulator: r, status: with_zn(p, r), ..c }
}

/// SBC is ADC of the one's complement of M.
pub open spec fn sbc_spec(c: Cpu, m: u8) -> Cpu {
    adc_spec(c, !m)
}

/// CMP, CPX, CPY: flags of `reg - M`; C when `reg >= M`.
pub open spec fn compare_spec(c: Cpu, reg: u8, m: u8) -> Cpu {
    let p = with_flag(c.status, CARRY, reg >= m);
    let p = with_flag(p, ZERO, reg == m);
    Cpu { status: with_flag(p, NEGATIVE, reg.wrapping_sub(m) & 0x80 != 0), ..c }
}

/// A receives `r`; Z and N describe it.
pub open spec fn load_a(c: Cpu, r: u8) -> Cpu {
    Cpu { accumulator: r, status: with_zn(c.status, r), ..c }
}

/// Operations that touch neither operand nor bus.
pub open spec fn register_spec(op: Operation, c: Cpu) -> Cpu {
    match op {
        Operation::Clc => Cpu { status: with_flag(c.status, CARRY, false), ..c },
        Operation::Cld => Cpu { status: with_flag(c.status, DECIMAL_MODE, false), ..c },
        Operation::Cli => Cpu { status: with_flag(c.status, INTERRUPT_DISABLE, false), ..c },
        Operation::Clv => Cpu { status: with_flag(c.status, OVERFLOW, false), ..c },
        Operation::Sec => Cpu { status: with_flag(c.status, CARRY, true), ..c },
        Operation::Sed => Cpu { status: with_flag(c.status, DECIMAL_MODE, true), ..c },
        Operation::Sei => Cpu { status: with_flag(c.status, INTERRUPT_DISABLE, true), ..c },
        Operation::Dex => {
            let r = c.x.wrapping_sub(1);
            Cpu { x: r, status: with_zn(c.status, r), ..c }
        },
        Operation::Dey => {
            let r = c.y.wrapping_sub(1);
            Cpu { y: r, status: with_zn(c.status, r), ..c }
        },
        Operation::Inx => {
            let r = c.x.wrapping_add(1);
            Cpu { x: r, status: with_zn(c.status, r), ..c }
        },
        Operation::Iny => {
            let r = c.y.wrapping_add(1);
            Cpu { y: r, status: with_zn(c.status, r), ..c }
        },
        Operation::Tax => Cpu { x: c.accumulator, status: with_zn(c.status, c.accumulator), ..c },
        Operation::Tay => Cpu { y: c.accumulator, status: with_zn(c.status, c.accumulator), ..c },
        Operation::Tsx => Cpu { x: c.stack_pointer, status: with_zn(c.status, c.stack_pointer), ..c },
        Operation::Txa => load_a(c, c.x),
        Operation::Tya => load_a(c, c.y),
        Operation::Txs => Cpu { stack_pointer: c.x, ..c },
        Operation::Jam => Cpu { is_jammed: true, ..c },
        _ => c,
    }
}

/// Operations that read their operand `m` and change only registers.
pub open spec fn read_spec(op: Operation, c: Cpu, m: u8) -> Cpu {
    let a = c.accumulator;
    match op {
        Operation::Adc => adc_spec(c, m),
        Operation::Sbc => sbc_spec(c, m),
        Operation::And => load_a(c, a & m),
        Operation::Ora => load_a(c, a | m),
        Operation::Eor => load_a(c, a ^ m),
        Operation::Anc => {
            let r = a & m;
            Cpu { accumulator: r, status: with_flag(with_zn(c.status, r), CARRY, r & 0x80 != 0), ..c }
        },
        Operation::Alr => {
            let t = a & m;
            let r = t >> 1u8;
            Cpu { accumulator: r, status: with_zn(with_flag(c.status, CARRY, t & 1 != 0), r), ..c }
        },
        Operation::Arr => {
            let t = a & m;
            let r = (t >> 1u8) | (if c.flag(CARRY) { 0x80u8 } else { 0u8 });
            let p = with_flag(with_zn(c.status, r), CARRY, r & 0x40 != 0);
            Cpu {
                accumulator: r,
                status: with_flag(p, OVERFLOW, ((r >> 6u8) & 1) ^ ((r >> 5u8) & 1) != 0),
                ..c
            }
        },
        Operation::Bit => {
            let p = with_flag(c.status, ZERO, a & m == 0);
            let p = with_flag(p, NEGATIVE, m & 0x80 != 0);
            Cpu { status: with_flag(p, OVERFLOW, m & 0x40 != 0), ..c }
        },
        Operation::Cmp => compare_spec(c, a, m),
        Operation::Cpx => compare_spec(c, c.x, m),
        Operation::Cpy => compare_spec(c, c.y, m),
        Operation::Las => {
            let r = m & c.stack_pointer;
            Cpu { accumulator: r, x: r, stack_pointer: r, status: with_zn(c.status, r), ..c }
        },
        Operation::Lax => Cpu { accumulator: m, x: m, status: with_zn(c.status, m), ..c },
        Operation::Lda => load_a(c, m),
        Operation::Ldx => Cpu { x: m, status: with_zn(c.status, m), ..c },
        Operation::Ldy => Cpu { y: m, status: with_zn(c.status, m), ..c },
        Operation::Sbx => {
            let r = (a & c.x).wrapping_sub(m);
            Cpu { x: r, status: with_zn(with_flag(c.status, CARRY, (a & c.x) >= m), r), ..c }
        },
        _ => c,
    }
}

/// Shifts, rotates, increments and decrements: the value written back and the CPU after.
pub open spec fn modify_spec(op: Operation, c: Cpu, m: u8) -> (u8, Cpu) {
    let (w, carry) = match op {
        Operation::Asl => (m << 1u8, Some(m & 0x80 != 0)),
        Operation::Lsr => (m >> 1u8, Some(m & 1 != 0)),
        Operation::Rol => (
            (m << 1u8) | (if c.flag(CARRY) { 1u8 } else { 0u8 }),
            Some(m & 0x80 != 0),
        ),
        Operation::Ror => (
            (m >> 1u8) | (if c.flag(CARRY) { 0x80u8 } else { 0u8 }),
            Some(m & 1 != 0),
        ),
        Operation::Inc => (m.wrapping_add(1), None),
        _ => (m.wrapping_sub(1), None),
    };
    let p = match carry {
        Some(on) => with_flag(c.status, CARRY, on),
        None => c.status,
    };
    (w, Cpu { status: with_zn(p, w), ..c })
}

/// The modify step that each read-modify-write operation starts with.
pub open spec fn modify_step(op: Operation) -> Operation {
    match op {
        Operation::Slo => Operation::Asl,
        Operation::Rla => Operation::Rol,
        Operation::Sre => Operation::Lsr,
        Operation::Rra => Operation::Ror,
        Operation::Dcp => Operation::Dec,
        Operation::Isb => Operation::Inc,
        _ => op,
    }
}

/// Read-modify-write: the modify step, then for the combined illegal opcodes
/// the second operation on the value written.
pub open spec fn rmw_spec(op: Operation, c: Cpu, m: u8) -> (u8, Cpu) {
    let (w, c1) = modify_spec(modify_step(op), c, m);
    let c2 = match op {
        Operation::Slo => load_a(c1, c1.accumulator | w),
        Operation::Rla => load_a(c1, c1.accumulator & w),
        Operation::Sre => load_a(c1, c1.accumulator ^ w),
        Operation::Rra => adc_spec(c1, w),
        Operation::Dcp => compare_spec(c1, c1.accumulator, w),
        Operation::Isb => sbc_spec(c1, w),
        _ => c1,
    };
    (w, c2)
}

/// The byte a store operation writes to `address`.
pub open spec fn store_value_spec(op: Operation, c: Cpu, address: u16) -> u8 {
    let high = ((address >> 8u16) as u8).wrapping_add(1);
    match op {
        Operation::Sta => c.accumulator,
        Operation::Stx => c.x,
        Operation::Sty => c.y,
        Operation::Sax => c.accumulator & c.x,
        Operation::Shy => c.accumulator & c.y & high,
        _ => c.accumulator & c.x & high,
    }
}

pub open spec fn target_address(t: Target) -> u16 {
    match t {
        Target::Memory(address) => address,
        _ => 0,
    }
}

/// Reading the operand: A, or a byte through the bus.
pub open spec fn load_spec(c: Cpu, b: BusState, t: Target) -> (u8, BusState) {
    match t {
        Target::Accumulator => (c.accumulator, b),
        Target::Memory(address) => (b.read_value(address), b.after_read(address)),
        Target::Implied => (0, b),
    }
}

pub open spec fn store_spec(c: Cpu, b: BusState, t: Target, v: u8) -> (Cpu, BusState) {
    match t {
        Target::Accumulator => (Cpu { accumulator: v, ..c }, b),
        Target::Memory(address) => (c, b.after_write(address, v)),
        Target::Implied => (c, b),
    }
}

pub open spec fn branch_taken(op: Operation, c: Cpu) -> bool {
    match op {
        Operation::Bcc => !c.flag(CARRY),
        Operation::Bcs => c.flag(CARRY),
        Operation::Beq => c.flag(ZERO),
        Operation::Bne => !c.flag(ZERO),
        Operation::Bmi => c.flag(NEGATIVE),
        Operation::Bpl => !c.flag(NEGATIVE),
        Operation::Bvc => !c.flag(OVERFLOW),
        _ => c.flag(OVERFLOW),
    }
}

/// The destination of a branch with offset byte `m`, taken after the operand.
pub open spec fn branch_destination(pc: u16, m: u8) -> u16 {
    pc.wrapping_add((m as i8) as u16)
}

/// A branch: one extra cycle when taken, one more when it lands on another page.
pub open spec fn branch_spec(op: Operation, c: Cpu, b: BusState, t: Target) -> (Cpu, BusState, u8) {
    let (m, b1) = load_spec(c, b, t);
    if branch_taken(op, c) {
        let dest = branch_destination(c.program_counter, m);
        (
            Cpu { program_counter: dest, ..c },
            b1,
            if page_differs(dest, c.program_counter) {
                2
            } else {
                1
            },
        )
    } else {
        (c, b1, 0)
    }
}

/// Status as pulled from the stack: B cleared, U set.
pub open spec fn pulled_status(v: u8) -> u8 {
    (v & !BREAK) | UNUSED
}

/// Status as pushed by PHP and BRK: B and U set.
pub open spec fn pushed_status(p: u8) -> u8 {
    p | BREAK | UNUSED
}

/// Jumps, subroutine calls and returns, interrupts and the stack operations.
pub open spec fn control_spec(op: Operation, c: Cpu, b: BusState, t: Target) -> (Cpu, BusState) {
    match op {
        Operation::Brk => {
            let c1 = Cpu { is_resetting: true, program_counter: c.program_counter.wrapping_add(1), ..c };
            let (c2, b2) = push_u16_spec(c1, b, c1.program_counter);
            let (c3, b3) = push_spec(c2, b2, pushed_status(c2.status));
            let (dest, b4) = b3.read_u16_spec(IRQ_VECTOR);
            (
                Cpu {
                    program_counter: dest,
                    status: with_flag(c3.status, INTERRUPT_DISABLE, true),
                    ..c3
                },
                b4,
            )
        },
        Operation::Jmp => (Cpu { program_counter: target_address(t), ..c }, b),
        Operation::Jsr => {
            let (c1, b1) = push_u16_spec(c, b, c.program_counter.wrapping_sub(1));
            (Cpu { program_counter: target_address(t), ..c1 }, b1)
        },
        Operation::Rti => {
            let (p, c1, b1) = pop_spec(c, b);
            let (pc, c2, b2) = pop_u16_spec(Cpu { status: pulled_status(p), ..c1 }, b1);
            (Cpu { program_counter: pc, ..c2 }, b2)
        },
        Operation::Rts => {
            let (pc, c1, b1) = pop_u16_spec(c, b);
            (Cpu { program_counter: pc.wrapping_add(1), ..c1 }, b1)
        },
        Operation::Pha => push_spec(c, b, c.accumulator),
        Operation::Php => push_spec(c, b, pushed_status(c.status)),
        Operation::Pla => {
            let (v, c1, b1) = pop_spec(c, b);
            (load_a(c1, v), b1)
        },
        Operation::Plp => {
            let (v, c1, b1) = pop_spec(c, b);
            (Cpu { status: pulled_status(v), ..c1 }, b1)
        },
        _ => (c, b),
    }
}

/// One operation on a resolved target: the CPU, the bus, and the cycles it adds.
pub open spec fn execute_spec(c: Cpu, b: BusState, op: Operation, t: Target) -> (Cpu, BusState, u8) {
    match op {
        Operation::Adc | Operation::Sbc | Operation::And | Operation::Ora | Operation::Eor
        | Operation::Anc | Operation::Alr | Operation::Arr | Operation::Bit | Operation::Cmp
        | Operation::Cpx | Operation::Cpy | Operation::Las | Operation::Lax | Operation::Lda
        | Operation::Ldx | Operation::Ldy | Operation::Sbx => {
            let (m, b1) = load_spec(c, b, t);
            (read_spec(op, c, m), b1, 0)
        },
        Operation::Asl | Operation::Lsr | Operation::Rol | Operation::Ror | Operation::Inc
        | Operation::Dec | Operation::Slo | Operation::Rla | Operation::Sre | Operation::Rra
        | Operation::Dcp | Operation::Isb => {
            let (m, b1) = load_spec(c, b, t);
            let (w, c1) = rmw_spec(op, c, m);
            let (c2, b2) = store_spec(c1, b1, t, w);
            (c2, b2, 0)
        },
        Operation::Sta | Operation::Stx | Operation::Sty | Operation::Sax | Operation::Sha
        | Operation::Shx | Operation::Shy | Operation::Tas => {
            let c1 = if op == Operation::Tas {
                Cpu { stack_pointer: c.accumulator & c.x, ..c }
            } else {
                c
            };
            let (c2, b1) = store_spec(c1, b, t, store_value_spec(op, c1, target_address(t)));
            (c2, b1, 0)
        },
        Operation::Bcc | Operation::Bcs | Operation::Beq | Operation::Bne | Operation::Bmi
        | Operation::Bpl | Operation::Bvc | Operation::Bvs => branch_spec(op, c, b, t),
        Operation::Brk | Operation::Jmp | Operation::Jsr | Operation::Rti | Operation::Rts
        | Operation::Pha | Operation::Php | Operation::Pla | Operation::Plp => {
            let (c1, b1) = control_spec(op, c, b, t);
            (c1, b1, 0)
        },
        _ => (register_spec(op, c), b, 0),
    }
}


proof fn lemma_zn_bits(p: u8, r: u8)
    by (bit_vector)
    ensures
        (((if r == 0 { p | 0x02 } else { p & !0x02u8 }) | 0x80) & 0x02 != 0) == (r == 0),
        (((if r == 0 { p | 0x02 } else { p & !0x02u8 }) & !0x80u8) & 0x02 != 0) == (r == 0),
        (((if r == 0 { p | 0x02 } else { p & !0x02u8 }) | 0x80) & 0x80 != 0),
        (((if r == 0 { p | 0x02 } else { p & !0x02u8 }) & !0x80u8) & 0x80 == 0),
{
}

/// Z and N as `with_zn` leaves them describe the result.
pub proof fn lemma_zn(p: u8, r: u8)
    ensures
        (with_zn(p, r) & ZERO != 0) == (r == 0),
        (with_zn(p, r) & NEGATIVE != 0) == (r & 0x80 != 0),
{
    lemma_zn_bits(p, r);
}

proof fn lemma_compare_bits(p: u8, ge: bool, eq: bool, neg: bool)
    by (bit_vector)
    ensures
        ({
            let with_c = if ge { p | 0x01 } else { p & !0x01u8 };
            let with_z = if eq { with_c | 0x02 } else { with_c & !0x02u8 };
            let with_n = if neg { with_z | 0x80 } else { with_z & !0x80u8 };
            (with_n & 0x02 != 0) == eq && (with_n & 0x80 != 0) == neg
        }),
{
}

proof fn lemma_compare_flags(c: Cpu, reg: u8, m: u8)
    ensures
        compare_spec(c, reg, m).flag(ZERO) == (reg.wrapping_sub(m) == 0),
        compare_spec(c, reg, m).flag(NEGATIVE) == (reg.wrapping_sub(m) & 0x80 != 0),
{
    lemma_compare_bits(c.status, reg >= m, reg == m, reg.wrapping_sub(m) & 0x80 != 0);
}

/// Arithmetic sets Z exactly when the 8-bit result is zero and N exactly when
/// its bit 7 is set: ADC and SBC (result in A), CMP, CPX and CPY (result
/// `reg - M`), INC and DEC (the byte written), INX, DEX, INY, DEY.
pub proof fn arithmetic_flags(c: Cpu, m: u8)
    ensures
        ({
            let r = read_spec(Operation::Adc, c, m);
            r.flag(ZERO) == (r.accumulator == 0) && r.flag(NEGATIVE) == (r.accumulator & 0x80 != 0)
        }),
        ({
            let r = read_spec(Operation::Sbc, c, m);
            r.flag(ZERO) == (r.accumulator == 0) && r.flag(NEGATIVE) == (r.accumulator & 0x80 != 0)
        }),
        ({
            let r = read_spec(Operation::Cmp, c, m);
            let d = c.accumulator.wrapping_sub(m);
            r.flag(ZERO) == (d == 0) && r.flag(NEGATIVE) == (d & 0x80 != 0)
        }),
        ({
            let r = read_spec(Operation::Cpx, c, m);
            let d = c.x.wrapping_sub(m);
            r.flag(ZERO) == (d == 0) && r.flag(NEGATIVE) == (d & 0x80 != 0)
        }),
        ({
            let r = read_spec(Operation::Cpy, c, m);
            let d = c.y.wrapping_sub(m);
            r.flag(ZERO) == (d == 0) && r.flag(NEGATIVE) == (d & 0x80 != 0)
        }),
        ({
            let (w, r) = rmw_spec(Operation::Inc, c, m);
            r.flag(ZERO) == (w == 0) && r.flag(NEGATIVE) == (w & 0x80 != 0)
        }),
        ({
            let (w, r) = rmw_spec(Operation::Dec, c, m);
            r.flag(ZERO) == (w == 0) && r.flag(NEGATIVE) == (w & 0x80 != 0)
        }),
        ({
            let r = register_spec(Operation::Inx, c);
            r.flag(ZERO) == (r.x == 0) && r.flag(NEGATIVE) == (r.x & 0x80 != 0)
        }),
        ({
            let r = register_spec(Operation::Dex, c);
            r.flag(ZERO) == (r.x == 0) && r.flag(NEGATIVE) == (r.x & 0x80 != 0)
        }),
        ({
            let r = register_spec(Operation::Iny, c);
            r.flag(ZERO) == (r.y == 0) && r.flag(NEGATIVE) == (r.y & 0x80 != 0)
        }),
        ({
            let r = register_spec(Operation::Dey, c);
            r.flag(ZERO) == (r.y == 0) && r.flag(NEGATIVE) == (r.y & 0x80 != 0)
        }),
{
    let adc = adc_spec(c, m);
    let sum = c.accumulator + m + carry_in(c);
    let adc_cv = with_flag(
        with_flag(c.status, CARRY, sum > 0xFF),
        OVERFLOW,
        (adc.accumulator ^ c.accumulator) & (adc.accumulator ^ m) & 0x80 != 0,
    );
    lemma_zn(adc_cv, adc.accumulator);
    let sbc = adc_spec(c, !m);
    let sum2 = c.accumulator + !m + carry_in(c);
    let sbc_cv = with_flag(
        with_flag(c.status, CARRY, sum2 > 0xFF),
        OVERFLOW,
        (sbc.accumulator ^ c.accumulator) & (sbc.accumulator ^ !m) & 0x80 != 0,
    );
    lemma_zn(sbc_cv, sbc.accumulator);
    lemma_compare_flags(c, c.accumulator, m);
    lemma_compare_flags(c, c.x, m);
    lemma_compare_flags(c, c.y, m);
    lemma_zn(c.status, m.wrapping_add(1));
    lemma_zn(c.status, m.wrapping_sub(1));
    lemma_zn(c.status, c.x.wrapping_add(1));
    lemma_zn(c.status, c.x.wrapping_sub(1));
    lemma_zn(c.status, c.y.wrapping_add(1));
    lemma_zn(c.status, c.y.wrapping_sub(1));
}

/// A pull right after a push returns the pushed byte and restores SP.
pub proof fn lemma_pull_after_push(c: Cpu, b: BusState, value: u8)
    requires
        b.wf(),
    ensures
        ({
            let (c1, b1) = push_spec(c, b, value);
            let (v, c2, b2) = pop_spec(c1, b1);
            v == value && c2 == c && b2.wf()
        }),
{
    let (c1, b1) = push_spec(c, b, value);
    assert(c.stack_pointer.wrapping_sub(1).wrapping_add(1) == c.stack_pointer);
    let a = stack_address(c.stack_pointer);
    assert(a < 0x2000);
    lemma_ram_index(a);
}

/// `PHA; PLA` gives back A and SP; of P only Z and N change, describing A.
pub proof fn push_pull_accumulator(c: Cpu, b: BusState)
    requires
        b.wf(),
    ensures
        ({
            let (c1, b1, _) = execute_spec(c, b, Operation::Pha, Target::Implied);
            let (c2, b2, _) = execute_spec(c1, b1, Operation::Pla, Target::Implied);
            c2 == Cpu { status: with_zn(c.status, c.accumulator), ..c }
        }),
{
    lemma_pull_after_push(c, b, c.accumulator);
}

proof fn lemma_pulled_pushed_bits(p: u8)
    by (bit_vector)
    ensures
        ((((p | 0x10) | 0x20) & !0x10u8) | 0x20) & 0x10 == 0,
        ((((p | 0x10) | 0x20) & !0x10u8) | 0x20) & 0x20 != 0,
        ((((p | 0x10) | 0x20) & !0x10u8) | 0x20) & 0xCF == p & 0xCF,
{
}

/// `PHP; PLP` restores SP; the pulled P has B clear and U set, and every
/// other flag as it was.
pub proof fn push_pull_status(c: Cpu, b: BusState)
    requires
        b.wf(),
    ensures
        ({
            let (c1, b1, _) = execute_spec(c, b, Operation::Php, Target::Implied);
            let (c2, b2, _) = execute_spec(c1, b1, Operation::Plp, Target::Implied);
            &&& c2.stack_pointer == c.stack_pointer
            &&& !c2.flag(BREAK)
            &&& c2.flag(UNUSED)
            &&& c2.status & 0xCF == c.status & 0xCF
            &&& c2 == Cpu { status: c2.status, ..c }
        }),
{
    lemma_pull_after_push(c, b, pushed_status(c.status));
    lemma_pulled_pushed_bits(c.status);
}

impl Cpu {
    pub fn adc(&mut self, m: u8)
        ensures
            *final(self) == adc_spec(*old(self), m),
    {
        let carry: u16 = if self.get_flag(CARRY) {
            1
        } else {
            0
        };
        let sum: u16 = self.accumulator as u16 + m as u16 + carry;
        let r = sum as u8;
        self.set_flag(CARRY, sum > 0xFF);
        self.set_flag(OVERFLOW, (r ^ self.accumulator) & (r ^ m) & 0x80 != 0);
        self.set_zn(r);
        self.accumulator = r;
    }

    pub fn sbc(&mut self, m: u8)
        ensures
            *final(self) == sbc_spec(*old(self), m),
    {
        self.adc(!m);
    }

    pub fn compare(&mut self, reg: u8, m: u8)
        ensures
            *final(self) == compare_spec(*old(self), reg, m),
    {
        self.set_flag(CARRY, reg >= m);
        self.set_flag(ZERO, reg == m);
        self.set_flag(NEGATIVE, reg.wrapping_sub(m) & 0x80 != 0);
    }

    fn load_accumulator(&mut self, r: u8)
        ensures
            *final(self) == load_a(*old(self), r),
    {
        self.set_zn(r);
        self.accumulator = r;
    }

    fn apply_register(&mut self, op: Operation)
        ensures
            *final(self) == register_spec(op, *old(self)),
    {
        match op {
            Operation::Clc => self.set_flag(CARRY, false),
            Operation::Cld => self.set_flag(DECIMAL_MODE, false),
            Operation::Cli => self.set_flag(INTERRUPT_DISABLE, false),
            Operation::Clv => self.set_flag(OVERFLOW, false),
            Operation::Sec => self.set_flag(CARRY, true),
            Operation::Sed => self.set_flag(DECIMAL_MODE, true),
            Operation::Sei => self.set_flag(INTERRUPT_DISABLE, true),
            Operation::Dex => {
                let r = self.x.wrapping_sub(1);
                self.set_zn(r);
                self.x = r;
            },
            Operation::Dey => {
                let r = self.y.wrapping_sub(1);
                self.set_zn(r);
                self.y = r;
            },
            Operation::Inx => {
                let r = self.x.wrapping_add(1);
                self.set_zn(r);
                self.x = r;
            },
            Operation::Iny => {
                let r = self.y.wrapping_add(1);
                self.set_zn(r);
                self.y = r;
            },
            Operation::Tax => {
                let r = self.accumulator;
                self.set_zn(r);
                self.x = r;
            },
            Operation::Tay => {
                let r = self.accumulator;
                self.set_zn(r);
                self.y = r;
            },
            Operation::Tsx => {
                let r = self.stack_pointer;
                self.set_zn(r);
                self.x = r;
            },
            Operation::Txa => {
                let r = self.x;
                self.load_accumulator(r);
            },
            Operation::Tya => {
                let r = self.y;
                self.load_accumulator(r);
            },
            Operation::Txs => self.stack_pointer = self.x,
            Operation::Jam => self.is_jammed = true,
            _ => {},
        }
    }

    fn apply_read(&mut self, op: Operation, m: u8)
        ensures
            *final(self) == read_spec(op, *old(self), m),
    {
        let a = self.accumulator;
        match op {
            Operation::Adc => self.adc(m),
            Operation::Sbc => self.sbc(m),
            Operation::And => self.load_accumulator(a & m),
            Operation::Ora => self.load_accumulator(a | m),
            Operation::Eor => self.load_accumulator(a ^ m),
            Operation::Anc => {
                let r = a & m;
                self.set_zn(r);
                self.set_flag(CARRY, r & 0x80 != 0);
                self.accumulator = r;
            },
            Operation::Alr => {
                let t = a & m;
                let r = t >> 1u8;
                self.set_flag(CARRY, t & 1 != 0);
                self.set_zn(r);
                self.accumulator = r;
            },
            Operation::Arr => {
                let t = a & m;
                let r = (t >> 1u8) | (if self.get_flag(CARRY) {
                    0x80u8
                } else {
                    0u8
                });
                self.set_zn(r);
                self.set_flag(CARRY, r & 0x40 != 0);
                self.set_flag(OVERFLOW, ((r >> 6u8) & 1) ^ ((r >> 5u8) & 1) != 0);
                self.accumulator = r;
            },
            Operation::Bit => {
                self.set_flag(ZERO, a & m == 0);
                self.set_flag(NEGATIVE, m & 0x80 != 0);
                self.set_flag(OVERFLOW, m & 0x40 != 0);
            },
            Operation::Cmp => self.compare(a, m),
            Operation::Cpx => {
                let x = self.x;
                self.compare(x, m);
            },
            Operation::Cpy => {
                let y = self.y;
                self.compare(y, m);
            },
            Operation::Las => {
                let r = m & self.stack_pointer;
                self.set_zn(r);
                self.accumulator = r;
                self.x = r;
                self.stack_pointer = r;
            },
            Operation::Lax => {
                self.set_zn(m);
                self.accumulator = m;
                self.x = m;
            },
            Operation::Lda => self.load_accumulator(m),
            Operation::Ldx => {
                self.set_zn(m);
                self.x = m;
            },
            Operation::Ldy => {
                self.set_zn(m);
                self.y = m;
            },
            Operation::Sbx => {
                let ax = a & self.x;
                let r = ax.wrapping_sub(m);
                self.set_flag(CARRY, ax >= m);
                self.set_zn(r);
                self.x = r;
            },
            _ => {},
        }
    }

    fn apply_modify(&mut self, op: Operation, m: u8) -> (w: u8)
        ensures
            (w, *final(self)) == modify_spec(op, *old(self), m),
    {
        let w = match op {
            Operation::Asl => {
                self.set_flag(CARRY, m & 0x80 != 0);
                m << 1u8
            },
            Operation::Lsr => {
                self.set_flag(CARRY, m & 1 != 0);
                m >> 1u8
            },
            Operation::Rol => {
                let w = (m << 1u8) | (if self.get_flag(CARRY) {
                    1u8
                } else {
                    0u8
                });
                self.set_flag(CARRY, m & 0x80 != 0);
                w
            },
            Operation::Ror => {
                let w = (m >> 1u8) | (if self.get_flag(CARRY) {
                    0x80u8
                } else {
                    0u8
                });
                self.set_flag(CARRY, m & 1 != 0);
                w
            },
            Operation::Inc => m.wrapping_add(1),
            _ => m.wrapping_sub(1),
        };
        self.set_zn(w);
        w
    }

    fn apply_rmw(&mut self, op: Operation, m: u8) -> (w: u8)
        ensures
            (w, *final(self)) == rmw_spec(op, *old(self), m),
    {
        let step = match op {
            Operation::Slo => Operation::Asl,
            Operation::Rla => Operation::Rol,
            Operation::Sre => Operation::Lsr,
            Operation::Rra => Operation::Ror,
            Operation::Dcp => Operation::Dec,
            Operation::Isb => Operation::Inc,
            _ => op,
        };
        let w = self.apply_modify(step, m);
        let a = self.accumulator;
        match op {
            Operation::Slo => self.load_accumulator(a | w),
            Operation::Rla => self.load_accumulator(a & w),
            Operation::Sre => self.load_accumulator(a ^ w),
            Operation::Rra => self.adc(w),
            Operation::Dcp => self.compare(a, w),
            Operation::Isb => self.sbc(w),
            _ => {},
        }
        w
    }

    fn store_value(&self, op: Operation, address: u16) -> (r: u8)
        ensures
            r == store_value_spec(op, *self, address),
    {
        let high = ((address >> 8u16) as u8).wrapping_add(1);
        match op {
            Operation::Sta => self.accumulator,
            Operation::Stx => self.x,
            Operation::Sty => self.y,
            Operation::Sax => self.accumulator & self.x,
            Operation::Shy => self.accumulator & self.y & high,
            _ => self.accumulator & self.x & high,
        }
    }

    fn load(&self, bus: &mut CpuBus, t: Target) -> (r: u8)
        requires
            old(bus).wf(),
        ensures
            final(bus).wf(),
            (r, final(bus)@) == load_spec(*self, old(bus)@, t),
    {
        match t {
            Target::Accumulator => self.accumulator,
            Target::Memory(address) => bus.read(address),
            Target::Implied => 0,
        }
    }

    fn store(&mut self, bus: &mut CpuBus, t: Target, v: u8)
        requires
            old(bus).wf(),
        ensures
            final(bus).wf(),
            (*final(self), final(bus)@) == store_spec(*old(self), old(bus)@, t, v),
    {
        match t {
            Target::Accumulator => self.accumulator = v,
            Target::Memory(address) => bus.write(address, v),
            Target::Implied => {},
        }
    }

    fn branch(&mut self, bus: &mut CpuBus, op: Operation, t: Target) -> (extra: u8)
        requires
            old(bus).wf(),
        ensures
            final(bus).wf(),
            (*final(self), final(bus)@, extra) == branch_spec(op, *old(self), old(bus)@, t),
    {
        let m = self.load(bus, t);
        let taken = match op {
            Operation::Bcc => !self.get_flag(CARRY),
            Operation::Bcs => self.get_flag(CARRY),
            Operation::Beq => self.get_flag(ZERO),
            Operation::Bne => !self.get_flag(ZERO),
            Operation::Bmi => self.get_flag(NEGATIVE),
            Operation::Bpl => !self.get_flag(NEGATIVE),
            Operation::Bvc => !self.get_flag(OVERFLOW),
            _ => self.get_flag(OVERFLOW),
        };
        if taken {
            let pc = self.program_counter;
            let dest = pc.wrapping_add((m as i8) as u16);
            self.program_counter = dest;
            if dest & 0xFF00 != pc & 0xFF00 {
                2
            } else {
                1
            }
        } else {
            0
        }
    }

    fn control(&mut self, bus: &mut CpuBus, op: Operation, t: Target)
        requires
            old(bus).wf(),
        ensures
            final(bus).wf(),
            (*final(self), final(bus)@) == control_spec(op, *old(self), old(bus)@, t),
    {
        match op {
            Operation::Brk => {
                self.is_resetting = true;
                self.program_counter = self.program_counter.wrapping_add(1);
                let pc = self.program_counter;
                self.push_stack_u16(pc, bus);
                let status = self.status | BREAK | UNUSED;
                self.push_stack(status, bus);
                self.program_counter = bus.read_u16(IRQ_VECTOR);
                self.set_flag(INTERRUPT_DISABLE, true);
            },
            Operation::Jmp => self.program_counter = target_address_of(t),
            Operation::Jsr => {
                let ret = self.program_counter.wrapping_sub(1);
                self.push_stack_u16(ret, bus);
                self.program_counter = target_address_of(t);
            },
            Operation::Rti => {
                let p = self.pop_stack(bus);
                self.status = (p & !BREAK) | UNUSED;
                self.program_counter = self.pop_stack_u16(bus);
            },
            Operation::Rts => {
                let pc = self.pop_stack_u16(bus);
                self.program_counter = pc.wrapping_add(1);
            },
            Operation::Pha => {
                let a = self.accumulator;
                self.push_stack(a, bus);
            },
            Operation::Php => {
                let status = self.status | BREAK | UNUSED;
                self.push_stack(status, bus);
            },
            Operation::Pla => {
                let v = self.pop_stack(bus);
                self.load_accumulator(v);
            },
            Operation::Plp => {
                let v = self.pop_stack(bus);
                self.status = (v & !BREAK) | UNUSED;
            },
            _ => {},
        }
    }

    /// Runs `op` on a resolved target; returns the cycles that it adds.
    pub fn execute(&mut self, bus: &mut CpuBus, op: Operation, t: Target) -> (extra: u8)
        requires
            old(bus).wf(),
        ensures
            final(bus).wf(),
            (*final(self), final(bus)@, extra) == execute_spec(*old(self), old(bus)@, op, t),
    {
        match op {
            Operation::Adc | Operation::Sbc | Operation::And | Operation::Ora | Operation::Eor
            | Operation::Anc | Operation::Alr | Operation::Arr | Operation::Bit | Operation::Cmp
            | Operation::Cpx | Operation::Cpy | Operation::Las | Operation::Lax | Operation::Lda
            | Operation::Ldx | Operation::Ldy | Operation::Sbx => {
                let m = self.load(bus, t);
                self.apply_read(op, m);
                0
            },
            Operation::Asl | Operation::Lsr | Operation::Rol | Operation::Ror | Operation::Inc
            | Operation::Dec | Operation::Slo | Operation::Rla | Operation::Sre | Operation::Rra
            | Operation::Dcp | Operation::Isb => {
                let m = self.load(bus, t);
                let w = self.apply_rmw(op, m);
                self.store(bus, t, w);
                0
            },
            Operation::Sta | Operation::Stx | Operation::Sty | Operation::Sax | Operation::Sha
            | Operation::Shx | Operation::Shy | Operation::Tas => {
                if let Operation::Tas = op {
                    self.stack_pointer = self.accumulator & self.x;
                }
                let v = self.store_value(op, target_address_of(t));
                self.store(bus, t, v);
                0
            },
            Operation::Bcc | Operation::Bcs | Operation::Beq | Operation::Bne | Operation::Bmi
            | Operation::Bpl | Operation::Bvc | Operation::Bvs => self.branch(bus, op, t),
            Operation::Brk | Operation::Jmp | Operation::Jsr | Operation::Rti | Operation::Rts
            | Operation::Pha | Operation::Php | Operation::Pla | Operation::Plp => {
                self.control(bus, op, t);
                0
            },
            _ => {
                self.apply_register(op);
                0
            },
        }
    }
}

fn target_address_of(t: Target) -> (r: u16)
    ensures
        r == target_address(t),
{
    match t {
        Target::Memory(address) => address,
        _ => 0,
    }
}

} // verus!
