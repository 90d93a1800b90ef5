//! Arithmetic and logic primitives shared by the opcode handlers. Each one
//! computes a value and sets the flags in `F`.
use vstd::prelude::*;

use crate::cpu::{regs_only, w16, w8, Cpu, Registers};
use crate::flags::{lemma_pack, pack, zero_of};

verus! {

/// A carry flag as a number.
pub open spec fn cv(c: bool) -> int {
    if c {
        1
    } else {
        0
    }
}

/// 8-bit sum with carry-in.
pub open spec fn add8(a: u8, b: u8, c: bool) -> u8 {
    w8(a + b + cv(c))
}

/// Flags after an 8-bit addition: half-carry out of bit 3, carry out of bit 7.
pub open spec fn add8_flags(a: u8, b: u8, c: bool) -> u8 {
    pack(add8(a, b, c) == 0, false, a % 16 + b % 16 + cv(c) > 15, a + b + cv(c) > 255)
}

/// 8-bit difference with borrow-in.
pub open spec fn sub8(a: u8, b: u8, c: bool) -> u8 {
    w8(a - b - cv(c))
}

/// Flags after an 8-bit subtraction: half-carry is a borrow from bit 4, carry a
/// borrow from bit 8.
pub open spec fn sub8_flags(a: u8, b: u8, c: bool) -> u8 {
    pack(sub8(a, b, c) == 0, true, a % 16 < b % 16 + cv(c), a < b + cv(c))
}

/// Flags after a 16-bit register-pair addition: Zero kept from `f`, half-carry
/// out of bit 11, carry out of bit 15.
pub open spec fn add16_flags(a: u16, b: u16, f: u8) -> u8 {
    pack(zero_of(f), false, a % 4096 + b % 4096 > 4095, a + b > 65535)
}

/// Flags after AND.
pub open spec fn and_flags(r: u8) -> u8 {
    pack(r == 0, false, true, false)
}

/// Flags after XOR or OR.
pub open spec fn or_flags(r: u8) -> u8 {
    pack(r == 0, false, false, false)
}

pub open spec fn top_bit(v: u8) -> bool {
    v & 0x80 == 0x80
}

pub open spec fn low_bit(v: u8) -> bool {
    v & 0x01 == 0x01
}

pub open spec fn rlc_value(v: u8) -> u8 {
    (v << 1u8) | (v >> 7u8)
}

pub open spec fn rrc_value(v: u8) -> u8 {
    (v >> 1u8) | (v << 7u8)
}

pub open spec fn rl_value(v: u8, c: bool) -> u8 {
    (v << 1u8) | (if c {
        1u8
    } else {
        0u8
    })
}

pub open spec fn rr_value(v: u8, c: bool) -> u8 {
    (v >> 1u8) | (if c {
        0x80u8
    } else {
        0u8
    })
}

pub open spec fn sla_value(v: u8) -> u8 {
    v << 1u8
}

pub open spec fn srl_value(v: u8) -> u8 {
    v >> 1u8
}

pub open spec fn swap_value(v: u8) -> u8 {
    (v << 4u8) | (v >> 4u8)
}

/// Flags after a rotate or shift of the full table: Zero from the result,
/// Carry the bit moved out.
pub open spec fn shift_flags(r: u8, out: bool) -> u8 {
    pack(r == 0, false, false, out)
}

/// `F` replaced by `f`, every other register kept.
pub open spec fn with_f(reg: Registers, f: u8) -> Registers {
    Registers { f, ..reg }
}

/// Adds two bytes, sets the flags, returns the sum.
pub fn add_set_flags(cpu: &mut Cpu, first: u8, second: u8) -> (r: u8)
    requires
        old(cpu).wf(),
    ensures
        r == add8(first, second, false),
        regs_only(*old(cpu), *final(cpu), with_f(old(cpu).reg, add8_flags(first, second, false))),
        r == (first + second) % 256,
        final(cpu).reg.zero() == (r == 0),
        !final(cpu).reg.sub(),
        final(cpu).reg.half() == (first % 16 + second % 16 > 15),
        final(cpu).reg.carry() == (first + second > 255),
{
    let wide = first as u16 + second as u16;
    let result = (wide % 256) as u8;
    cpu.set_flags(result == 0, false, first % 16 + second % 16 > 15, wide > 255);
    proof {
        lemma_pack(result == 0, false, first % 16 + second % 16 > 15, wide > 255);
    }
    result
}

/// Adds two bytes and the Carry flag, sets the flags, returns the sum.
pub fn add_carry_set_flags(cpu: &mut Cpu, first: u8, second: u8) -> (r: u8)
    requires
        old(cpu).wf(),
    ensures
        r == add8(first, second, old(cpu).reg.carry()),
        regs_only(
            *old(cpu),
            *final(cpu),
            with_f(old(cpu).reg, add8_flags(first, second, old(cpu).reg.carry())),
        ),
{
    let carry: u8 = if cpu.get_carry() {
        1
    } else {
        0
    };
    let wide = first as u16 + second as u16 + carry as u16;
    let result = (wide % 256) as u8;
    cpu.set_flags(result == 0, false, first % 16 + second % 16 + carry > 15, wide > 255);
    result
}

/// Subtracts `second` from `first`, sets the flags, returns the difference.
pub fn sub_set_flags(cpu: &mut Cpu, first: u8, second: u8) -> (r: u8)
    requires
        old(cpu).wf(),
    ensures
        r == sub8(first, second, false),
        regs_only(*old(cpu), *final(cpu), with_f(old(cpu).reg, sub8_flags(first, second, false))),
{
    let result = first.wrapping_sub(second);
    cpu.set_flags(result == 0, true, first % 16 < second % 16, first < second);
    result
}

/// Subtracts `second` and the Carry flag from `first`, sets the flags, returns
/// the difference.
pub fn sub_carry_set_flags(cpu: &mut Cpu, first: u8, second: u8) -> (r: u8)
    requires
        old(cpu).wf(),
    ensures
        r == sub8(first, second, old(cpu).reg.carry()),
        regs_only(
            *old(cpu),
            *final(cpu),
            with_f(old(cpu).reg, sub8_flags(first, second, old(cpu).reg.carry())),
        ),
{
    let carry: u8 = if cpu.get_carry() {
        1
    } else {
        0
    };
    let result = first.wrapping_sub(second).wrapping_sub(carry);
    cpu.set_flags(
        result == 0,
        true,
        first % 16 < second % 16 + carry,
        (first as u16) < second as u16 + carry as u16,
    );
    result
}

/// Adds two 16-bit values, sets Subtract, HalfCarry and Carry, keeps Zero,
/// returns the sum.
pub fn add_u16_u16(cpu: &mut Cpu, first: u16, second: u16) -> (r: u16)
    requires
        old(cpu).wf(),
    ensures
        r == w16(first + second),
        regs_only(
            *old(cpu),
            *final(cpu),
            with_f(old(cpu).reg, add16_flags(first, second, old(cpu).reg.f)),
        ),
        final(cpu).reg.zero() == old(cpu).reg.zero(),
{
    let wide = first as u32 + second as u32;
    let zero = cpu.get_zero();
    cpu.set_flags(zero, false, first % 4096 + second % 4096 > 4095, wide > 65535);
    proof {
        lemma_pack(zero, false, first % 4096 + second % 4096 > 4095, wide > 65535);
    }
    (wide % 65536) as u16
}

/// Rotates left through Carry.
pub fn rl(cpu: &mut Cpu, value: u8) -> (r: u8)
    requires
        old(cpu).wf(),
    ensures
        r == rl_value(value, old(cpu).reg.carry()),
        regs_only(*old(cpu), *final(cpu), with_f(old(cpu).reg, shift_flags(r, top_bit(value)))),
{
    let carry = cpu.get_carry();
    let result = (value << 1) | (if carry {
        1
    } else {
        0
    });
    cpu.set_flags(result == 0, false, false, value & 0x80 == 0x80);
    result
}

/// Rotates left; bit 7 goes to bit 0 and to Carry.
pub fn rlc(cpu: &mut Cpu, value: u8) -> (r: u8)
    requires
        old(cpu).wf(),
    ensures
        r == rlc_value(value),
        regs_only(*old(cpu), *final(cpu), with_f(old(cpu).reg, shift_flags(r, top_bit(value)))),
{
    let result = (value << 1) | (value >> 7);
    cpu.set_flags(result == 0, false, false, value & 0x80 == 0x80);
    result
}

/// Rotates right through Carry.
pub fn rr(cpu: &mut Cpu, value: u8) -> (r: u8)
    requires
        old(cpu).wf(),
    ensures
        r == rr_value(value, old(cpu).reg.carry()),
        regs_only(*old(cpu), *final(cpu), with_f(old(cpu).reg, shift_flags(r, low_bit(value)))),
{
    let carry = cpu.get_carry();
    let result = (value >> 1) | (if carry {
        0x80
    } else {
        0
    });
    cpu.set_flags(result == 0, false, false, value & 0x01 == 0x01);
    result
}

/// Rotates right; bit 0 goes to bit 7 and to Carry.
pub fn rrc(cpu: &mut Cpu, value: u8) -> (r: u8)
    requires
        old(cpu).wf(),
    ensures
        r == rrc_value(value),
        regs_only(*old(cpu), *final(cpu), with_f(old(cpu).reg, shift_flags(r, low_bit(value)))),
{
    let result = (value >> 1) | (value << 7);
    cpu.set_flags(result == 0, false, false, value & 0x01 == 0x01);
    result
}

/// Shifts left; bit 7 goes to Carry, bit 0 becomes 0.
pub fn sla(cpu: &mut Cpu, value: u8) -> (r: u8)
    requires
        old(cpu).wf(),
    ensures
        r == sla_value(value),
        regs_only(*old(cpu), *final(cpu), with_f(old(cpu).reg, shift_flags(r, top_bit(value)))),
{
    let result = value << 1;
    cpu.set_flags(result == 0, false, false, value & 0x80 == 0x80);
    result
}

/// Shifts right; bit 0 goes to Carry, bit 7 becomes 0.
pub fn srl(cpu: &mut Cpu, value: u8) -> (r: u8)
    requires
        old(cpu).wf(),
    ensures
        r == srl_value(value),
        regs_only(*old(cpu), *final(cpu), with_f(old(cpu).reg, shift_flags(r, low_bit(value)))),
{
    let result = value >> 1;
    cpu.set_flags(result == 0, false, false, value & 0x01 == 0x01);
    result
}

/// Exchanges the two nibbles; Carry is cleared.
pub fn swap(cpu: &mut Cpu, value: u8) -> (r: u8)
    requires
        old(cpu).wf(),
    ensures
        r == swap_value(value),
        regs_only(*old(cpu), *final(cpu), with_f(old(cpu).reg, shift_flags(r, false))),
{
    let result = (value << 4) | (value >> 4);
    assert(((value << 4u8) | (value >> 4u8) == 0) == (value == 0)) by (bit_vector);
    cpu.set_flags(result == 0, false, false, false);
    result
}

/// `value` with bit `bit` set.
pub fn set(value: u8, bit: u8) -> (r: u8)
    requires
        bit < 8,
    ensures
        r == value | (1u8 << bit),
{
    value | (1u8 << bit)
}

/// `value` with bit `bit` cleared.
pub fn res(value: u8, bit: u8) -> (r: u8)
    requires
        bit < 8,
    ensures
        r == value & !(1u8 << bit),
{
    value & !(1u8 << bit)
}

/// Whether bit `bit` of `val` is 0.
pub fn bit_zero(val: u8, bit: u8) -> (r: bool)
    requires
        bit < 8,
    ensures
        r == (val & (1u8 << bit) == 0),
{
    (val & (1u8 << bit)) == 0
}

} // verus!
