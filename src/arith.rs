//! Arithmetic handlers: increment and decrement, the accumulator ALU, 16-bit
//! additions, decimal adjustment and the flag-only instructions.
use vstd::prelude::*;

use crate::alu::{
    add16_flags, add8, add8_flags, add_carry_set_flags, add_set_flags, add_u16_u16, and_flags,
    or_flags, sub8, sub8_flags, sub_carry_set_flags, sub_set_flags, with_f,
};
use crate::cpu::{regs_only, stores, w16, w8, Cpu, Reg8, Registers};
use crate::flags::{carry_of, half_of, pack, sub_of};

verus! {

/// Flags after an 8-bit increment of `x`: Carry is kept from `f`.
pub open spec fn inc_flags(x: u8, f: u8) -> u8 {
    pack(w8(x + 1) == 0, false, x % 16 == 15, carry_of(f))
}

/// Flags after an 8-bit decrement of `x`: Carry is kept from `f`.
pub open spec fn dec_flags(x: u8, f: u8) -> u8 {
    pack(w8(x - 1) == 0, true, x % 16 == 0, carry_of(f))
}

/// Registers after incrementing register `r`.
pub open spec fn inc_regs(reg: Registers, r: Reg8) -> Registers {
    with_f(reg.set8(r, w8(reg.get8(r) + 1)), inc_flags(reg.get8(r), reg.f))
}

/// Registers after decrementing register `r`.
pub open spec fn dec_regs(reg: Registers, r: Reg8) -> Registers {
    with_f(reg.set8(r, w8(reg.get8(r) - 1)), dec_flags(reg.get8(r), reg.f))
}

/// The eight accumulator operations.
#[derive(Clone, Copy, Debug, PartialEq, Eq, Structural)]
pub enum AluOp {
    Add,
    Adc,
    Sub,
    Sbc,
    And,
    Xor,
    Or,
    Cp,
}

/// Registers after applying `op` to A and `x`.
pub open spec fn alu_regs(reg: Registers, op: AluOp, x: u8) -> Registers {
    match op {
        AluOp::Add => Registers { a: add8(reg.a, x, false), f: add8_flags(reg.a, x, false), ..reg },
        AluOp::Adc => Registers {
            a: add8(reg.a, x, reg.carry()),
            f: add8_flags(reg.a, x, reg.carry()),
            ..reg
        },
        AluOp::Sub => Registers { a: sub8(reg.a, x, false), f: sub8_flags(reg.a, x, false), ..reg },
        AluOp::Sbc => Registers {
            a: sub8(reg.a, x, reg.carry()),
            f: sub8_flags(reg.a, x, reg.carry()),
            ..reg
        },
        AluOp::And => Registers { a: reg.a & x, f: and_flags(reg.a & x), ..reg },
        AluOp::Xor => Registers { a: reg.a ^ x, f: or_flags(reg.a ^ x), ..reg },
        AluOp::Or => Registers { a: reg.a | x, f: or_flags(reg.a | x), ..reg },
        AluOp::Cp => Registers { f: sub8_flags(reg.a, x, false), ..reg },
    }
}

/// Registers after adding `x` to HL.
pub open spec fn add_hl_regs(reg: Registers, x: u16) -> Registers {
    with_f(reg, add16_flags(reg.hl(), x, reg.f)).with_hl(w16(reg.hl() + x))
}

/// A byte read as a two's-complement signed value.
pub open spec fn sx(d: u8) -> int {
    if d < 128 {
        d as int
    } else {
        d - 256
    }
}

/// `base` moved by the signed byte `d`, wrapping around.
pub open spec fn displaced(base: u16, d: u8) -> u16 {
    w16(base + sx(d))
}

/// Flags after adding a signed byte to SP: half-carry and carry are those of
/// the unsigned low-byte sum, out of bit 3 and bit 7.
pub open spec fn sp_offset_flags(sp: u16, d: u8) -> u8 {
    pack(false, false, sp % 16 + d % 16 > 15, sp % 256 + d > 255)
}

/// Whether decimal adjustment corrects the low digit.
pub open spec fn daa_low(a: u8, f: u8) -> bool {
    half_of(f) || (!sub_of(f) && a % 16 > 9)
}

/// Whether decimal adjustment corrects the high digit; this is the new Carry.
pub open spec fn daa_high(a: u8, f: u8) -> bool {
    carry_of(f) || (!sub_of(f) && a > 0x99)
}

/// The accumulator after decimal adjustment.
pub open spec fn daa_value(a: u8, f: u8) -> u8 {
    let adjust = (if daa_low(a, f) {
        0x06int
    } else {
        0
    }) + (if daa_high(a, f) {
        0x60int
    } else {
        0
    });
    if sub_of(f) {
        w8(a - adjust)
    } else {
        w8(a + adjust)
    }
}

/// Registers after decimal adjustment: Subtract kept, HalfCarry cleared.
pub open spec fn daa_regs(reg: Registers) -> Registers {
    let v = daa_value(reg.a, reg.f);
    Registers { a: v, f: pack(v == 0, reg.sub(), false, daa_high(reg.a, reg.f)), ..reg }
}

/// `base` moved by the signed byte `d`, wrapping around.
pub fn displace(base: u16, d: u8) -> (r: u16)
    ensures
        r == displaced(base, d),
{
    let offset: u16 = if d < 0x80 {
        d as u16
    } else {
        d as u16 + 0xff00
    };
    base.wrapping_add(offset)
}

/// Increments an 8-bit register; Carry is kept.
pub fn inc_r8(cpu: &mut Cpu, r: Reg8)
    requires
        old(cpu).wf(),
    ensures
        regs_only(*old(cpu), *final(cpu), inc_regs(old(cpu).reg, r)),
{
    let x = cpu.r8(r);
    let value = x.wrapping_add(1);
    let carry = cpu.get_carry();
    cpu.set_r8(r, value);
    cpu.set_flags(value == 0, false, x % 16 == 15, carry);
}

/// Decrements an 8-bit register; Carry is kept.
pub fn dec_r8(cpu: &mut Cpu, r: Reg8)
    requires
        old(cpu).wf(),
    ensures
        regs_only(*old(cpu), *final(cpu), dec_regs(old(cpu).reg, r)),
{
    let x = cpu.r8(r);
    let value = x.wrapping_sub(1);
    let carry = cpu.get_carry();
    cpu.set_r8(r, value);
    cpu.set_flags(value == 0, true, x % 16 == 0, carry);
}

/// Applies `op` to A and `x`, storing the result in A (but for CP) and setting
/// the flags.
pub fn alu_a(cpu: &mut Cpu, op: AluOp, x: u8)
    requires
        old(cpu).wf(),
    ensures
        regs_only(*old(cpu), *final(cpu), alu_regs(old(cpu).reg, op, x)),
{
    let a = cpu.reg.a;
    match op {
        AluOp::Add => {
            let r = add_set_flags(cpu, a, x);
            cpu.reg.a = r;
        },
        AluOp::Adc => {
            let r = add_carry_set_flags(cpu, a, x);
            cpu.reg.a = r;
        },
        AluOp::Sub => {
            let r = sub_set_flags(cpu, a, x);
            cpu.reg.a = r;
        },
        AluOp::Sbc => {
            let r = sub_carry_set_flags(cpu, a, x);
            cpu.reg.a = r;
        },
        AluOp::And => {
            let r = a & x;
            cpu.reg.a = r;
            cpu.set_flags(r == 0, false, true, false);
        },
        AluOp::Xor => {
            let r = a ^ x;
            cpu.reg.a = r;
            cpu.set_flags(r == 0, false, false, false);
        },
        AluOp::Or => {
            let r = a | x;
            cpu.reg.a = r;
            cpu.set_flags(r == 0, false, false, false);
        },
        AluOp::Cp => {
            sub_set_flags(cpu, a, x);
        },
    }
}

/// Adds `x` to HL; Zero is kept.
pub fn add_hl(cpu: &mut Cpu, x: u16)
    requires
        old(cpu).wf(),
    ensures
        regs_only(*old(cpu), *final(cpu), add_hl_regs(old(cpu).reg, x)),
{
    let hl = cpu.hl();
    let value = add_u16_u16(cpu, hl, x);
    cpu.set_hl(value);
}

/// Reads a signed byte operand and returns SP moved by it, setting the flags.
fn sp_plus_i8(cpu: &mut Cpu) -> (r: u16)
    requires
        old(cpu).wf(),
    ensures
        r == displaced(old(cpu).reg.sp, old(cpu).imm8()),
        regs_only(*old(cpu), *final(cpu), (Registers {
            f: sp_offset_flags(old(cpu).reg.sp, old(cpu).imm8()),
            pc: w16(old(cpu).reg.pc + 1),
            ..old(cpu).reg
        })),
{
    let byte = cpu.read_u8();
    let sp = cpu.reg.sp;
    let result = displace(sp, byte);
    cpu.set_flags(false, false, sp % 16 + (byte % 16) as u16 > 15, sp % 256 + byte as u16 > 255);
    result
}

/// INC B
pub fn inc_b(cpu: &mut Cpu)
    requires
        old(cpu).wf(),
    ensures
        regs_only(*old(cpu), *final(cpu), inc_regs(old(cpu).reg, Reg8::B)),
{
    inc_r8(cpu, Reg8::B);
}

/// DEC B
pub fn dec_b(cpu: &mut Cpu)
    requires
        old(cpu).wf(),
    ensures
        regs_only(*old(cpu), *final(cpu), dec_regs(old(cpu).reg, Reg8::B)),
{
    dec_r8(cpu, Reg8::B);
}

/// INC C
pub fn inc_c(cpu: &mut Cpu)
    requires
        old(cpu).wf(),
    ensures
        regs_only(*old(cpu), *final(cpu), inc_regs(old(cpu).reg, Reg8::C)),
{
    inc_r8(cpu, Reg8::C);
}

/// DEC C
pub fn dec_c(cpu: &mut Cpu)
    requires
        old(cpu).wf(),
    ensures
        regs_only(*old(cpu), *final(cpu), dec_regs(old(cpu).reg, Reg8::C)),
{
    dec_r8(cpu, Reg8::C);
}

/// INC D
pub fn inc_d(cpu: &mut Cpu)
    requires
        old(cpu).wf(),
    ensures
        regs_only(*old(cpu), *final(cpu), inc_regs(old(cpu).reg, Reg8::D)),
{
    inc_r8(cpu, Reg8::D);
}

/// DEC D
pub fn dec_d(cpu: &mut Cpu)
    requires
        old(cpu).wf(),
    ensures
        regs_only(*old(cpu), *final(cpu), dec_regs(old(cpu).reg, Reg8::D)),
{
    dec_r8(cpu, Reg8::D);
}

/// INC E
pub fn inc_e(cpu: &mut Cpu)
    requires
        old(cpu).wf(),
    ensures
        regs_only(*old(cpu), *final(cpu), inc_regs(old(cpu).reg, Reg8::E)),
{
    inc_r8(cpu, Reg8::E);
}

/// DEC E
pub fn dec_e(cpu: &mut Cpu)
    requires
        old(cpu).wf(),
    ensures
        regs_only(*old(cpu), *final(cpu), dec_regs(old(cpu).reg, Reg8::E)),
{
    dec_r8(cpu, Reg8::E);
}

/// INC H
pub fn inc_h(cpu: &mut Cpu)
    requires
        old(cpu).wf(),
    ensures
        regs_only(*old(cpu), *final(cpu), inc_regs(old(cpu).reg, Reg8::H)),
{
    inc_r8(cpu, Reg8::H);
}

/// DEC H
pub fn dec_h(cpu: &mut Cpu)
    requires
        old(cpu).wf(),
    ensures
        regs_only(*old(cpu), *final(cpu), dec_regs(old(cpu).reg, Reg8::H)),
{
    dec_r8(cpu, Reg8::H);
}

/// INC L
pub fn inc_l(cpu: &mut Cpu)
    requires
        old(cpu).wf(),
    ensures
        regs_only(*old(cpu), *final(cpu), inc_regs(old(cpu).reg, Reg8::L)),
{
    inc_r8(cpu, Reg8::L);
}

/// DEC L
pub fn dec_l(cpu: &mut Cpu)
    requires
        old(cpu).wf(),
    ensures
        regs_only(*old(cpu), *final(cpu), dec_regs(old(cpu).reg, Reg8::L)),
{
    dec_r8(cpu, Reg8::L);
}

/// INC A
pub fn inc_a(cpu: &mut Cpu)
    requires
        old(cpu).wf(),
    ensures
        regs_only(*old(cpu), *final(cpu), inc_regs(old(cpu).reg, Reg8::A)),
{
    inc_r8(cpu, Reg8::A);
}

/// DEC A
pub fn dec_a(cpu: &mut Cpu)
    requires
        old(cpu).wf(),
    ensures
        regs_only(*old(cpu), *final(cpu), dec_regs(old(cpu).reg, Reg8::A)),
{
    dec_r8(cpu, Reg8::A);
}

/// INC [HL]; Carry is kept.
pub fn inc_mhl(cpu: &mut Cpu)
    requires
        old(cpu).wf(),
    ensures
        stores(
            *old(cpu),
            *final(cpu),
            with_f(old(cpu).reg, inc_flags(old(cpu).mem_hl(), old(cpu).reg.f)),
            old(cpu).reg.hl(),
            w8(old(cpu).mem_hl() + 1),
        ),
{
    let hl = cpu.hl();
    let byte = cpu.mmu.read(hl);
    let value = byte.wrapping_add(1);
    let carry = cpu.get_carry();
    cpu.set_flags(value == 0, false, byte % 16 == 15, carry);
    cpu.mmu.write(hl, value);
}

/// DEC [HL]; Carry is kept.
pub fn dec_mhl(cpu: &mut Cpu)
    requires
        old(cpu).wf(),
    ensures
        stores(
            *old(cpu),
            *final(cpu),
            with_f(old(cpu).reg, dec_flags(old(cpu).mem_hl(), old(cpu).reg.f)),
            old(cpu).reg.hl(),
            w8(old(cpu).mem_hl() - 1),
        ),
{
    let hl = cpu.hl();
    let byte = cpu.mmu.read(hl);
    let value = byte.wrapping_sub(1);
    let carry = cpu.get_carry();
    cpu.set_flags(value == 0, true, byte % 16 == 0, carry);
    cpu.mmu.write(hl, value);
}

/// INC BC; no flag changes.
pub fn inc_bc(cpu: &mut Cpu)
    requires
        old(cpu).wf(),
    ensures
        regs_only(*old(cpu), *final(cpu), old(cpu).reg.with_bc(w16(old(cpu).reg.bc() + 1))),
{
    let v = cpu.bc();
    cpu.set_bc(v.wrapping_add(1));
}

/// DEC BC; no flag changes.
pub fn dec_bc(cpu: &mut Cpu)
    requires
        old(cpu).wf(),
    ensures
        regs_only(*old(cpu), *final(cpu), old(cpu).reg.with_bc(w16(old(cpu).reg.bc() - 1))),
{
    let v = cpu.bc();
    cpu.set_bc(v.wrapping_sub(1));
}

/// INC DE; no flag changes.
pub fn inc_de(cpu: &mut Cpu)
    requires
        old(cpu).wf(),
    ensures
        regs_only(*old(cpu), *final(cpu), old(cpu).reg.with_de(w16(old(cpu).reg.de() + 1))),
{
    let v = cpu.de();
    cpu.set_de(v.wrapping_add(1));
}

/// DEC DE; no flag changes.
pub fn dec_de(cpu: &mut Cpu)
    requires
        old(cpu).wf(),
    ensures
        regs_only(*old(cpu), *final(cpu), old(cpu).reg.with_de(w16(old(cpu).reg.de() - 1))),
{
    let v = cpu.de();
    cpu.set_de(v.wrapping_sub(1));
}

/// INC HL; no flag changes.
pub fn inc_hl(cpu: &mut Cpu)
    requires
        old(cpu).wf(),
    ensures
        regs_only(*old(cpu), *final(cpu), old(cpu).reg.with_hl(w16(old(cpu).reg.hl() + 1))),
{
    let v = cpu.hl();
    cpu.set_hl(v.wrapping_add(1));
}

/// DEC HL; no flag changes.
pub fn dec_hl(cpu: &mut Cpu)
    requires
        old(cpu).wf(),
    ensures
        regs_only(*old(cpu), *final(cpu), old(cpu).reg.with_hl(w16(old(cpu).reg.hl() - 1))),
{
    let v = cpu.hl();
    cpu.set_hl(v.wrapping_sub(1));
}

/// INC SP
pub fn inc_sp(cpu: &mut Cpu)
    requires
        old(cpu).wf(),
    ensures
        regs_only(
            *old(cpu),
            *final(cpu),
            (Registers { sp: w16(old(cpu).reg.sp + 1), ..old(cpu).reg }),
        ),
{
    cpu.reg.sp = cpu.reg.sp.wrapping_add(1);
}

/// DEC SP
pub fn dec_sp(cpu: &mut Cpu)
    requires
        old(cpu).wf(),
    ensures
        regs_only(
            *old(cpu),
            *final(cpu),
            (Registers { sp: w16(old(cpu).reg.sp - 1), ..old(cpu).reg }),
        ),
{
    cpu.reg.sp = cpu.reg.sp.wrapping_sub(1);
}

/// ADD HL, BC
pub fn add_hl_bc(cpu: &mut Cpu)
    requires
        old(cpu).wf(),
    ensures
        regs_only(*old(cpu), *final(cpu), add_hl_regs(old(cpu).reg, old(cpu).reg.bc())),
{
    let x = cpu.bc();
    add_hl(cpu, x);
}

/// ADD HL, DE
pub fn add_hl_de(cpu: &mut Cpu)
    requires
        old(cpu).wf(),
    ensures
        regs_only(*old(cpu), *final(cpu), add_hl_regs(old(cpu).reg, old(cpu).reg.de())),
{
    let x = cpu.de();
    add_hl(cpu, x);
}

/// ADD HL, HL
pub fn add_hl_hl(cpu: &mut Cpu)
    requires
        old(cpu).wf(),
    ensures
        regs_only(*old(cpu), *final(cpu), add_hl_regs(old(cpu).reg, old(cpu).reg.hl())),
{
    let x = cpu.hl();
    add_hl(cpu, x);
}

/// ADD HL, SP
pub fn add_hl_sp(cpu: &mut Cpu)
    requires
        old(cpu).wf(),
    ensures
        regs_only(*old(cpu), *final(cpu), add_hl_regs(old(cpu).reg, old(cpu).reg.sp)),
{
    let x = cpu.sp();
    add_hl(cpu, x);
}

/// ADD A, B
pub fn add_a_b(cpu: &mut Cpu)
    requires
        old(cpu).wf(),
    ensures
        regs_only(*old(cpu), *final(cpu), alu_regs(old(cpu).reg, AluOp::Add, old(cpu).reg.b)),
{
    let x = cpu.reg.b;
    alu_a(cpu, AluOp::Add, x);
}

/// ADD A, C
pub fn add_a_c(cpu: &mut Cpu)
    requires
        old(cpu).wf(),
    ensures
        regs_only(*old(cpu), *final(cpu), alu_regs(old(cpu).reg, AluOp::Add, old(cpu).reg.c)),
{
    let x = cpu.reg.c;
    alu_a(cpu, AluOp::Add, x);
}

/// ADD A, D
pub fn add_a_d(cpu: &mut Cpu)
    requires
        old(cpu).wf(),
    ensures
        regs_only(*old(cpu), *final(cpu), alu_regs(old(cpu).reg, AluOp::Add, old(cpu).reg.d)),
{
    let x = cpu.reg.d;
    alu_a(cpu, AluOp::Add, x);
}

/// ADD A, E
pub fn add_a_e(cpu: &mut Cpu)
    requires
        old(cpu).wf(),
    ensures
        regs_only(*old(cpu), *final(cpu), alu_regs(old(cpu).reg, AluOp::Add, old(cpu).reg.e)),
{
    let x = cpu.reg.e;
    alu_a(cpu, AluOp::Add, x);
}

/// ADD A, H
pub fn add_a_h(cpu: &mut Cpu)
    requires
        old(cpu).wf(),
    ensures
        regs_only(*old(cpu), *final(cpu), alu_regs(old(cpu).reg, AluOp::Add, old(cpu).reg.h)),
{
    let x = cpu.reg.h;
    alu_a(cpu, AluOp::Add, x);
}

/// ADD A, L
pub fn add_a_l(cpu: &mut Cpu)
    requires
        old(cpu).wf(),
    ensures
        regs_only(*old(cpu), *final(cpu), alu_regs(old(cpu).reg, AluOp::Add, old(cpu).reg.l)),
{
    let x = cpu.reg.l;
    alu_a(cpu, AluOp::Add, x);
}

/// ADD A, [HL]
pub fn add_a_mhl(cpu: &mut Cpu)
    requires
        old(cpu).wf(),
    ensures
        regs_only(*old(cpu), *final(cpu), alu_regs(old(cpu).reg, AluOp::Add, old(cpu).mem_hl())),
{
    let byte = cpu.mmu.read(cpu.hl());
    alu_a(cpu, AluOp::Add, byte);
}

/// ADD A, A
pub fn add_a_a(cpu: &mut Cpu)
    requires
        old(cpu).wf(),
    ensures
        regs_only(*old(cpu), *final(cpu), alu_regs(old(cpu).reg, AluOp::Add, old(cpu).reg.a)),
{
    let x = cpu.reg.a;
    alu_a(cpu, AluOp::Add, x);
}

/// ADD A, u8
pub fn add_a_u8(cpu: &mut Cpu)
    requires
        old(cpu).wf(),
    ensures
        regs_only(
            *old(cpu),
            *final(cpu),
            alu_regs(
                (Registers { pc: w16(old(cpu).reg.pc + 1), ..old(cpu).reg }),
                AluOp::Add,
                old(cpu).imm8(),
            ),
        ),
{
    let byte = cpu.read_u8();
    alu_a(cpu, AluOp::Add, byte);
}

/// ADC A, B
pub fn adc_a_b(cpu: &mut Cpu)
    requires
        old(cpu).wf(),
    ensures
        regs_only(*old(cpu), *final(cpu), alu_regs(old(cpu).reg, AluOp::Adc, old(cpu).reg.b)),
{
    let x = cpu.reg.b;
    alu_a(cpu, AluOp::Adc, x);
}

/// ADC A, C
pub fn adc_a_c(cpu: &mut Cpu)
    requires
        old(cpu).wf(),
    ensures
        regs_only(*old(cpu), *final(cpu), alu_regs(old(cpu).reg, AluOp::Adc, old(cpu).reg.c)),
{
    let x = cpu.reg.c;
    alu_a(cpu, AluOp::Adc, x);
}

/// ADC A, D
pub fn adc_a_d(cpu: &mut Cpu)
    requires
        old(cpu).wf(),
    ensures
        regs_only(*old(cpu), *final(cpu), alu_regs(old(cpu).reg, AluOp::Adc, old(cpu).reg.d)),
{
    let x = cpu.reg.d;
    alu_a(cpu, AluOp::Adc, x);
}

/// ADC A, E
pub fn adc_a_e(cpu: &mut Cpu)
    requires
        old(cpu).wf(),
    ensures
        regs_only(*old(cpu), *final(cpu), alu_regs(old(cpu).reg, AluOp::Adc, old(cpu).reg.e)),
{
    let x = cpu.reg.e;
    alu_a(cpu, AluOp::Adc, x);
}

/// ADC A, H
pub fn adc_a_h(cpu: &mut Cpu)
    requires
        old(cpu).wf(),
    ensures
        regs_only(*old(cpu), *final(cpu), alu_regs(old(cpu).reg, AluOp::Adc, old(cpu).reg.h)),
{
    let x = cpu.reg.h;
    alu_a(cpu, AluOp::Adc, x);
}

/// ADC A, L
pub fn adc_a_l(cpu: &mut Cpu)
    requires
        old(cpu).wf(),
    ensures
        regs_only(*old(cpu), *final(cpu), alu_regs(old(cpu).reg, AluOp::Adc, old(cpu).reg.l)),
{
    let x = cpu.reg.l;
    alu_a(cpu, AluOp::Adc, x);
}

/// ADC A, [HL]
pub fn adc_a_mhl(cpu: &mut Cpu)
    requires
        old(cpu).wf(),
    ensures
        regs_only(*old(cpu), *final(cpu), alu_regs(old(cpu).reg, AluOp::Adc, old(cpu).mem_hl())),
{
    let byte = cpu.mmu.read(cpu.hl());
    alu_a(cpu, AluOp::Adc, byte);
}

/// ADC A, A
pub fn adc_a_a(cpu: &mut Cpu)
    requires
        old(cpu).wf(),
    ensures
        regs_only(*old(cpu), *final(cpu), alu_regs(old(cpu).reg, AluOp::Adc, old(cpu).reg.a)),
{
    let x = cpu.reg.a;
    alu_a(cpu, AluOp::Adc, x);
}

/// ADC A, u8
pub fn adc_a_u8(cpu: &mut Cpu)
    requires
        old(cpu).wf(),
    ensures
        regs_only(
            *old(cpu),
            *final(cpu),
            alu_regs(
                (Registers { pc: w16(old(cpu).reg.pc + 1), ..old(cpu).reg }),
                AluOp::Adc,
                old(cpu).imm8(),
            ),
        ),
{
    let byte = cpu.read_u8();
    alu_a(cpu, AluOp::Adc, byte);
}

/// SUB A, B
pub fn sub_a_b(cpu: &mut Cpu)
    requires
        old(cpu).wf(),
    ensures
        regs_only(*old(cpu), *final(cpu), alu_regs(old(cpu).reg, AluOp::Sub, old(cpu).reg.b)),
{
    let x = cpu.reg.b;
    alu_a(cpu, AluOp::Sub, x);
}

/// SUB A, C
pub fn sub_a_c(cpu: &mut Cpu)
    requires
        old(cpu).wf(),
    ensures
        regs_only(*old(cpu), *final(cpu), alu_regs(old(cpu).reg, AluOp::Sub, old(cpu).reg.c)),
{
    let x = cpu.reg.c;
    alu_a(cpu, AluOp::Sub, x);
}

/// SUB A, D
pub fn sub_a_d(cpu: &mut Cpu)
    requires
        old(cpu).wf(),
    ensures
        regs_only(*old(cpu), *final(cpu), alu_regs(old(cpu).reg, AluOp::Sub, old(cpu).reg.d)),
{
    let x = cpu.reg.d;
    alu_a(cpu, AluOp::Sub, x);
}

/// SUB A, E
pub fn sub_a_e(cpu: &mut Cpu)
    requires
        old(cpu).wf(),
    ensures
        regs_only(*old(cpu), *final(cpu), alu_regs(old(cpu).reg, AluOp::Sub, old(cpu).reg.e)),
{
    let x = cpu.reg.e;
    alu_a(cpu, AluOp::Sub, x);
}

/// SUB A, H
pub fn sub_a_h(cpu: &mut Cpu)
    requires
        old(cpu).wf(),
    ensures
        regs_only(*old(cpu), *final(cpu), alu_regs(old(cpu).reg, AluOp::Sub, old(cpu).reg.h)),
{
    let x = cpu.reg.h;
    alu_a(cpu, AluOp::Sub, x);
}

/// SUB A, L
pub fn sub_a_l(cpu: &mut Cpu)
    requires
        old(cpu).wf(),
    ensures
        regs_only(*old(cpu), *final(cpu), alu_regs(old(cpu).reg, AluOp::Sub, old(cpu).reg.l)),
{
    let x = cpu.reg.l;
    alu_a(cpu, AluOp::Sub, x);
}

/// SUB A, [HL]
pub fn sub_a_mhl(cpu: &mut Cpu)
    requires
        old(cpu).wf(),
    ensures
        regs_only(*old(cpu), *final(cpu), alu_regs(old(cpu).reg, AluOp::Sub, old(cpu).mem_hl())),
{
    let byte = cpu.mmu.read(cpu.hl());
    alu_a(cpu, AluOp::Sub, byte);
}

/// SUB A, A
pub fn sub_a_a(cpu: &mut Cpu)
    requires
        old(cpu).wf(),
    ensures
        regs_only(*old(cpu), *final(cpu), alu_regs(old(cpu).reg, AluOp::Sub, old(cpu).reg.a)),
{
    let x = cpu.reg.a;
    alu_a(cpu, AluOp::Sub, x);
}

/// SUB A, u8
pub fn sub_a_u8(cpu: &mut Cpu)
    requires
        old(cpu).wf(),
    ensures
        regs_only(
            *old(cpu),
            *final(cpu),
            alu_regs(
                (Registers { pc: w16(old(cpu).reg.pc + 1), ..old(cpu).reg }),
                AluOp::Sub,
                old(cpu).imm8(),
            ),
        ),
{
    let byte = cpu.read_u8();
    alu_a(cpu, AluOp::Sub, byte);
}

/// SBC A, B
pub fn sbc_a_b(cpu: &mut Cpu)
    requires
        old(cpu).wf(),
    ensures
        regs_only(*old(cpu), *final(cpu), alu_regs(old(cpu).reg, AluOp::Sbc, old(cpu).reg.b)),
{
    let x = cpu.reg.b;
    alu_a(cpu, AluOp::Sbc, x);
}

/// SBC A, C
pub fn sbc_a_c(cpu: &mut Cpu)
    requires
        old(cpu).wf(),
    ensures
        regs_only(*old(cpu), *final(cpu), alu_regs(old(cpu).reg, AluOp::Sbc, old(cpu).reg.c)),
{
    let x = cpu.reg.c;
    alu_a(cpu, AluOp::Sbc, x);
}

/// SBC A, D
pub fn sbc_a_d(cpu: &mut Cpu)
    requires
        old(cpu).wf(),
    ensures
        regs_only(*old(cpu), *final(cpu), alu_regs(old(cpu).reg, AluOp::Sbc, old(cpu).reg.d)),
{
    let x = cpu.reg.d;
    alu_a(cpu, AluOp::Sbc, x);
}

/// SBC A, E
pub fn sbc_a_e(cpu: &mut Cpu)
    requires
        old(cpu).wf(),
    ensures
        regs_only(*old(cpu), *final(cpu), alu_regs(old(cpu).reg, AluOp::Sbc, old(cpu).reg.e)),
{
    let x = cpu.reg.e;
    alu_a(cpu, AluOp::Sbc, x);
}

/// SBC A, H
pub fn sbc_a_h(cpu: &mut Cpu)
    requires
        old(cpu).wf(),
    ensures
        regs_only(*old(cpu), *final(cpu), alu_regs(old(cpu).reg, AluOp::Sbc, old(cpu).reg.h)),
{
    let x = cpu.reg.h;
    alu_a(cpu, AluOp::Sbc, x);
}

/// SBC A, L
pub fn sbc_a_l(cpu: &mut Cpu)
    requires
        old(cpu).wf(),
    ensures
        regs_only(*old(cpu), *final(cpu), alu_regs(old(cpu).reg, AluOp::Sbc, old(cpu).reg.l)),
{
    let x = cpu.reg.l;
    alu_a(cpu, AluOp::Sbc, x);
}

/// SBC A, [HL]
pub fn sbc_a_mhl(cpu: &mut Cpu)
    requires
        old(cpu).wf(),
    ensures
        regs_only(*old(cpu), *final(cpu), alu_regs(old(cpu).reg, AluOp::Sbc, old(cpu).mem_hl())),
{
    let byte = cpu.mmu.read(cpu.hl());
    alu_a(cpu, AluOp::Sbc, byte);
}

/// SBC A, A
pub fn sbc_a_a(cpu: &mut Cpu)
    requires
        old(cpu).wf(),
    ensures
        regs_only(*old(cpu), *final(cpu), alu_regs(old(cpu).reg, AluOp::Sbc, old(cpu).reg.a)),
{
    let x = cpu.reg.a;
    alu_a(cpu, AluOp::Sbc, x);
}

/// SBC A, u8
pub fn sbc_a_u8(cpu: &mut Cpu)
    requires
        old(cpu).wf(),
    ensures
        regs_only(
            *old(cpu),
            *final(cpu),
            alu_regs(
                (Registers { pc: w16(old(cpu).reg.pc + 1), ..old(cpu).reg }),
                AluOp::Sbc,
                old(cpu).imm8(),
            ),
        ),
{
    let byte = cpu.read_u8();
    alu_a(cpu, AluOp::Sbc, byte);
}

/// AND A, B
pub fn and_a_b(cpu: &mut Cpu)
    requires
        old(cpu).wf(),
    ensures
        regs_only(*old(cpu), *final(cpu), alu_regs(old(cpu).reg, AluOp::And, old(cpu).reg.b)),
{
    let x = cpu.reg.b;
    alu_a(cpu, AluOp::And, x);
}

/// AND A, C
pub fn and_a_c(cpu: &mut Cpu)
    requires
        old(cpu).wf(),
    ensures
        regs_only(*old(cpu), *final(cpu), alu_regs(old(cpu).reg, AluOp::And, old(cpu).reg.c)),
{
    let x = cpu.reg.c;
    alu_a(cpu, AluOp::And, x);
}

/// AND A, D
pub fn and_a_d(cpu: &mut Cpu)
    requires
        old(cpu).wf(),
    ensures
        regs_only(*old(cpu), *final(cpu), alu_regs(old(cpu).reg, AluOp::And, old(cpu).reg.d)),
{
    let x = cpu.reg.d;
    alu_a(cpu, AluOp::And, x);
}

/// AND A, E
pub fn and_a_e(cpu: &mut Cpu)
    requires
        old(cpu).wf(),
    ensures
        regs_only(*old(cpu), *final(cpu), alu_regs(old(cpu).reg, AluOp::And, old(cpu).reg.e)),
{
    let x = cpu.reg.e;
    alu_a(cpu, AluOp::And, x);
}

/// AND A, H
pub fn and_a_h(cpu: &mut Cpu)
    requires
        old(cpu).wf(),
    ensures
        regs_only(*old(cpu), *final(cpu), alu_regs(old(cpu).reg, AluOp::And, old(cpu).reg.h)),
{
    let x = cpu.reg.h;
    alu_a(cpu, AluOp::And, x);
}

/// AND A, L
pub fn and_a_l(cpu: &mut Cpu)
    requires
        old(cpu).wf(),
    ensures
        regs_only(*old(cpu), *final(cpu), alu_regs(old(cpu).reg, AluOp::And, old(cpu).reg.l)),
{
    let x = cpu.reg.l;
    alu_a(cpu, AluOp::And, x);
}

/// AND A, [HL]
pub fn and_a_mhl(cpu: &mut Cpu)
    requires
        old(cpu).wf(),
    ensures
        regs_only(*old(cpu), *final(cpu), alu_regs(old(cpu).reg, AluOp::And, old(cpu).mem_hl())),
{
    let byte = cpu.mmu.read(cpu.hl());
    alu_a(cpu, AluOp::And, byte);
}

/// AND A, A
pub fn and_a_a(cpu: &mut Cpu)
    requires
        old(cpu).wf(),
    ensures
        regs_only(*old(cpu), *final(cpu), alu_regs(old(cpu).reg, AluOp::And, old(cpu).reg.a)),
{
    let x = cpu.reg.a;
    alu_a(cpu, AluOp::And, x);
}

/// AND A, u8
pub fn and_a_u8(cpu: &mut Cpu)
    requires
        old(cpu).wf(),
    ensures
        regs_only(
            *old(cpu),
            *final(cpu),
            alu_regs(
                (Registers { pc: w16(old(cpu).reg.pc + 1), ..old(cpu).reg }),
                AluOp::And,
                old(cpu).imm8(),
            ),
        ),
{
    let byte = cpu.read_u8();
    alu_a(cpu, AluOp::And, byte);
}

/// XOR A, B
pub fn xor_a_b(cpu: &mut Cpu)
    requires
        old(cpu).wf(),
    ensures
        regs_only(*old(cpu), *final(cpu), alu_regs(old(cpu).reg, AluOp::Xor, old(cpu).reg.b)),
{
    let x = cpu.reg.b;
    alu_a(cpu, AluOp::Xor, x);
}

/// XOR A, C
pub fn xor_a_c(cpu: &mut Cpu)
    requires
        old(cpu).wf(),
    ensures
        regs_only(*old(cpu), *final(cpu), alu_regs(old(cpu).reg, AluOp::Xor, old(cpu).reg.c)),
{
    let x = cpu.reg.c;
    alu_a(cpu, AluOp::Xor, x);
}

/// XOR A, D
pub fn xor_a_d(cpu: &mut Cpu)
    requires
        old(cpu).wf(),
    ensures
        regs_only(*old(cpu), *final(cpu), alu_regs(old(cpu).reg, AluOp::Xor, old(cpu).reg.d)),
{
    let x = cpu.reg.d;
    alu_a(cpu, AluOp::Xor, x);
}

/// XOR A, E
pub fn xor_a_e(cpu: &mut Cpu)
    requires
        old(cpu).wf(),
    ensures
        regs_only(*old(cpu), *final(cpu), alu_regs(old(cpu).reg, AluOp::Xor, old(cpu).reg.e)),
{
    let x = cpu.reg.e;
    alu_a(cpu, AluOp::Xor, x);
}

/// XOR A, H
pub fn xor_a_h(cpu: &mut Cpu)
    requires
        old(cpu).wf(),
    ensures
        regs_only(*old(cpu), *final(cpu), alu_regs(old(cpu).reg, AluOp::Xor, old(cpu).reg.h)),
{
    let x = cpu.reg.h;
    alu_a(cpu, AluOp::Xor, x);
}

/// XOR A, L
pub fn xor_a_l(cpu: &mut Cpu)
    requires
        old(cpu).wf(),
    ensures
        regs_only(*old(cpu), *final(cpu), alu_regs(old(cpu).reg, AluOp::Xor, old(cpu).reg.l)),
{
    let x = cpu.reg.l;
    alu_a(cpu, AluOp::Xor, x);
}

/// XOR A, [HL]
pub fn xor_a_mhl(cpu: &mut Cpu)
    requires
        old(cpu).wf(),
    ensures
        regs_only(*old(cpu), *final(cpu), alu_regs(old(cpu).reg, AluOp::Xor, old(cpu).mem_hl())),
{
    let byte = cpu.mmu.read(cpu.hl());
    alu_a(cpu, AluOp::Xor, byte);
}

/// XOR A, A
pub fn xor_a_a(cpu: &mut Cpu)
    requires
        old(cpu).wf(),
    ensures
        regs_only(*old(cpu), *final(cpu), alu_regs(old(cpu).reg, AluOp::Xor, old(cpu).reg.a)),
{
    let x = cpu.reg.a;
    alu_a(cpu, AluOp::Xor, x);
}

/// XOR A, u8
pub fn xor_a_u8(cpu: &mut Cpu)
    requires
        old(cpu).wf(),
    ensures
        regs_only(
            *old(cpu),
            *final(cpu),
            alu_regs(
                (Registers { pc: w16(old(cpu).reg.pc + 1), ..old(cpu).reg }),
                AluOp::Xor,
                old(cpu).imm8(),
            ),
        ),
{
    let byte = cpu.read_u8();
    alu_a(cpu, AluOp::Xor, byte);
}

/// OR A, B
pub fn or_a_b(cpu: &mut Cpu)
    requires
        old(cpu).wf(),
    ensures
        regs_only(*old(cpu), *final(cpu), alu_regs(old(cpu).reg, AluOp::Or, old(cpu).reg.b)),
{
    let x = cpu.reg.b;
    alu_a(cpu, AluOp::Or, x);
}

/// OR A, C
pub fn or_a_c(cpu: &mut Cpu)
    requires
        old(cpu).wf(),
    ensures
        regs_only(*old(cpu), *final(cpu), alu_regs(old(cpu).reg, AluOp::Or, old(cpu).reg.c)),
{
    let x = cpu.reg.c;
    alu_a(cpu, AluOp::Or, x);
}

/// OR A, D
pub fn or_a_d(cpu: &mut Cpu)
    requires
        old(cpu).wf(),
    ensures
        regs_only(*old(cpu), *final(cpu), alu_regs(old(cpu).reg, AluOp::Or, old(cpu).reg.d)),
{
    let x = cpu.reg.d;
    alu_a(cpu, AluOp::Or, x);
}

/// OR A, E
pub fn or_a_e(cpu: &mut Cpu)
    requires
        old(cpu).wf(),
    ensures
        regs_only(*old(cpu), *final(cpu), alu_regs(old(cpu).reg, AluOp::Or, old(cpu).reg.e)),
{
    let x = cpu.reg.e;
    alu_a(cpu, AluOp::Or, x);
}

/// OR A, H
pub fn or_a_h(cpu: &mut Cpu)
    requires
        old(cpu).wf(),
    ensures
        regs_only(*old(cpu), *final(cpu), alu_regs(old(cpu).reg, AluOp::Or, old(cpu).reg.h)),
{
    let x = cpu.reg.h;
    alu_a(cpu, AluOp::Or, x);
}

/// OR A, L
pub fn or_a_l(cpu: &mut Cpu)
    requires
        old(cpu).wf(),
    ensures
        regs_only(*old(cpu), *final(cpu), alu_regs(old(cpu).reg, AluOp::Or, old(cpu).reg.l)),
{
    let x = cpu.reg.l;
    alu_a(cpu, AluOp::Or, x);
}

/// OR A, [HL]
pub fn or_a_mhl(cpu: &mut Cpu)
    requires
        old(cpu).wf(),
    ensures
        regs_only(*old(cpu), *final(cpu), alu_regs(old(cpu).reg, AluOp::Or, old(cpu).mem_hl())),
{
    let byte = cpu.mmu.read(cpu.hl());
    alu_a(cpu, AluOp::Or, byte);
}

/// OR A, A
pub fn or_a_a(cpu: &mut Cpu)
    requires
        old(cpu).wf(),
    ensures
        regs_only(*old(cpu), *final(cpu), alu_regs(old(cpu).reg, AluOp::Or, old(cpu).reg.a)),
{
    let x = cpu.reg.a;
    alu_a(cpu, AluOp::Or, x);
}

/// OR A, u8
pub fn or_a_u8(cpu: &mut Cpu)
    requires
        old(cpu).wf(),
    ensures
        regs_only(
            *old(cpu),
            *final(cpu),
            alu_regs(
                (Registers { pc: w16(old(cpu).reg.pc + 1), ..old(cpu).reg }),
                AluOp::Or,
                old(cpu).imm8(),
            ),
        ),
{
    let byte = cpu.read_u8();
    alu_a(cpu, AluOp::Or, byte);
}

/// CP A, B
pub fn cp_a_b(cpu: &mut Cpu)
    requires
        old(cpu).wf(),
    ensures
        regs_only(*old(cpu), *final(cpu), alu_regs(old(cpu).reg, AluOp::Cp, old(cpu).reg.b)),
{
    let x = cpu.reg.b;
    alu_a(cpu, AluOp::Cp, x);
}

/// CP A, C
pub fn cp_a_c(cpu: &mut Cpu)
    requires
        old(cpu).wf(),
    ensures
        regs_only(*old(cpu), *final(cpu), alu_regs(old(cpu).reg, AluOp::Cp, old(cpu).reg.c)),
{
    let x = cpu.reg.c;
    alu_a(cpu, AluOp::Cp, x);
}

/// CP A, D
pub fn cp_a_d(cpu: &mut Cpu)
    requires
        old(cpu).wf(),
    ensures
        regs_only(*old(cpu), *final(cpu), alu_regs(old(cpu).reg, AluOp::Cp, old(cpu).reg.d)),
{
    let x = cpu.reg.d;
    alu_a(cpu, AluOp::Cp, x);
}

/// CP A, E
pub fn cp_a_e(cpu: &mut Cpu)
    requires
        old(cpu).wf(),
    ensures
        regs_only(*old(cpu), *final(cpu), alu_regs(old(cpu).reg, AluOp::Cp, old(cpu).reg.e)),
{
    let x = cpu.reg.e;
    alu_a(cpu, AluOp::Cp, x);
}

/// CP A, H
pub fn cp_a_h(cpu: &mut Cpu)
    requires
        old(cpu).wf(),
    ensures
        regs_only(*old(cpu), *final(cpu), alu_regs(old(cpu).reg, AluOp::Cp, old(cpu).reg.h)),
{
    let x = cpu.reg.h;
    alu_a(cpu, AluOp::Cp, x);
}

/// CP A, L
pub fn cp_a_l(cpu: &mut Cpu)
    requires
        old(cpu).wf(),
    ensures
        regs_only(*old(cpu), *final(cpu), alu_regs(old(cpu).reg, AluOp::Cp, old(cpu).reg.l)),
{
    let x = cpu.reg.l;
    alu_a(cpu, AluOp::Cp, x);
}

/// CP A, [HL]
pub fn cp_a_mhl(cpu: &mut Cpu)
    requires
        old(cpu).wf(),
    ensures
        regs_only(*old(cpu), *final(cpu), alu_regs(old(cpu).reg, AluOp::Cp, old(cpu).mem_hl())),
{
    let byte = cpu.mmu.read(cpu.hl());
    alu_a(cpu, AluOp::Cp, byte);
}

/// CP A, A
pub fn cp_a_a(cpu: &mut Cpu)
    requires
        old(cpu).wf(),
    ensures
        regs_only(*old(cpu), *final(cpu), alu_regs(old(cpu).reg, AluOp::Cp, old(cpu).reg.a)),
{
    let x = cpu.reg.a;
    alu_a(cpu, AluOp::Cp, x);
}

/// CP A, u8
pub fn cp_a_u8(cpu: &mut Cpu)
    requires
        old(cpu).wf(),
    ensures
        regs_only(
            *old(cpu),
            *final(cpu),
            alu_regs(
                (Registers { pc: w16(old(cpu).reg.pc + 1), ..old(cpu).reg }),
                AluOp::Cp,
                old(cpu).imm8(),
            ),
        ),
{
    let byte = cpu.read_u8();
    alu_a(cpu, AluOp::Cp, byte);
}

/// ADD SP, i8
pub fn add_sp_i8(cpu: &mut Cpu)
    requires
        old(cpu).wf(),
    ensures
        regs_only(
            *old(cpu),
            *final(cpu),
            (Registers {
                sp: displaced(old(cpu).reg.sp, old(cpu).imm8()),
                f: sp_offset_flags(old(cpu).reg.sp, old(cpu).imm8()),
                pc: w16(old(cpu).reg.pc + 1),
                ..old(cpu).reg
            }),
        ),
{
    let sp = sp_plus_i8(cpu);
    cpu.reg.sp = sp;
}

/// LD HL, SP+i8
pub fn ld_hl_spi8(cpu: &mut Cpu)
    requires
        old(cpu).wf(),
    ensures
        regs_only(
            *old(cpu),
            *final(cpu),
            (Registers {
                f: sp_offset_flags(old(cpu).reg.sp, old(cpu).imm8()),
                pc: w16(old(cpu).reg.pc + 1),
                ..old(cpu).reg
            }).with_hl(displaced(old(cpu).reg.sp, old(cpu).imm8())),
        ),
{
    let value = sp_plus_i8(cpu);
    cpu.set_hl(value);
}

/// DAA: decimal adjustment of A after an addition or subtraction.
pub fn daa(cpu: &mut Cpu)
    requires
        old(cpu).wf(),
    ensures
        regs_only(*old(cpu), *final(cpu), daa_regs(old(cpu).reg)),
{
    let a = cpu.reg.a;
    let sub = cpu.get_sub();
    let mut adjust: u8 = 0;

    if cpu.get_half_carry() || (!sub && a % 16 > 9) {
        adjust = adjust + 0x06;
    }
    let high = cpu.get_carry() || (!sub && a > 0x99);
    if high {
        adjust = adjust + 0x60;
    }

    let res = if sub {
        a.wrapping_sub(adjust)
    } else {
        a.wrapping_add(adjust)
    };
    cpu.reg.a = res;
    cpu.set_flags(res == 0, sub, false, high);
}

/// CPL: complements A.
pub fn cpl(cpu: &mut Cpu)
    requires
        old(cpu).wf(),
    ensures
        regs_only(
            *old(cpu),
            *final(cpu),
            (Registers {
                a: !old(cpu).reg.a,
                f: pack(old(cpu).reg.zero(), true, true, old(cpu).reg.carry()),
                ..old(cpu).reg
            }),
        ),
{
    cpu.reg.a = !cpu.reg.a;
    let (z, c) = (cpu.get_zero(), cpu.get_carry());
    cpu.set_flags(z, true, true, c);
}

/// SCF: sets Carry.
pub fn scf(cpu: &mut Cpu)
    requires
        old(cpu).wf(),
    ensures
        regs_only(
            *old(cpu),
            *final(cpu),
            old(cpu).reg.with_flags(old(cpu).reg.zero(), false, false, true),
        ),
{
    let z = cpu.get_zero();
    cpu.set_flags(z, false, false, true);
}

/// CCF: complements Carry.
pub fn ccf(cpu: &mut Cpu)
    requires
        old(cpu).wf(),
    ensures
        regs_only(
            *old(cpu),
            *final(cpu),
            old(cpu).reg.with_flags(old(cpu).reg.zero(), false, false, !old(cpu).reg.carry()),
        ),
{
    let (z, c) = (cpu.get_zero(), cpu.get_carry());
    cpu.set_flags(z, false, false, !c);
}

} // verus!