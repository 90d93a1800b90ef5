//! Rotate, shift and single-bit handlers: the four accumulator rotates of the
//! primary table and the handlers of the prefixed table.
use vstd::prelude::*;

use crate::alu::{
    bit_zero, low_bit, res, rl, rl_value, rlc, rlc_value, rr, rr_value, rrc, rrc_value, shift_flags,
    sla, sla_value, srl, srl_value, swap, swap_value, top_bit, with_f,
};
use crate::cpu::{regs_only, stores, Cpu, Reg8, Registers};
use crate::flags::{carry_of, pack};

verus! {

/// The rotate and shift operations of the prefixed table.
#[derive(Clone, Copy, Debug, PartialEq, Eq, Structural)]
pub enum Shift {
    Rlc,
    Rrc,
    Rl,
    Rr,
    Sla,
    Srl,
    Swap,
}

/// The result of `op` on `v` with Carry `c`.
pub open spec fn shift_value(op: Shift, v: u8, c: bool) -> u8 {
    match op {
        Shift::Rlc => rlc_value(v),
        Shift::Rrc => rrc_value(v),
        Shift::Rl => rl_value(v, c),
        Shift::Rr => rr_value(v, c),
        Shift::Sla => sla_value(v),
        Shift::Srl => srl_value(v),
        Shift::Swap => swap_value(v),
    }
}

/// The bit that `op` moves out of `v` into Carry.
pub open spec fn shift_out(op: Shift, v: u8) -> bool {
    match op {
        Shift::Rlc | Shift::Rl | Shift::Sla => top_bit(v),
        Shift::Rrc | Shift::Rr | Shift::Srl => low_bit(v),
        Shift::Swap => false,
    }
}

/// Flags after `op` on `v` with Carry `c`.
pub open spec fn shift_f(op: Shift, v: u8, c: bool) -> u8 {
    shift_flags(shift_value(op, v, c), shift_out(op, v))
}

/// Registers after `op` on register `r`.
pub open spec fn shift_regs(reg: Registers, op: Shift, r: Reg8) -> Registers {
    with_f(
        reg.set8(r, shift_value(op, reg.get8(r), reg.carry())),
        shift_f(op, reg.get8(r), reg.carry()),
    )
}

/// Registers after an accumulator rotate of the primary table: like the
/// prefixed form but Zero is always cleared.
pub open spec fn acc_rotate_regs(reg: Registers, op: Shift) -> Registers {
    Registers {
        a: shift_value(op, reg.a, reg.carry()),
        f: pack(false, false, false, shift_out(op, reg.a)),
        ..reg
    }
}

/// Flags after testing bit `bit` of `v`: Zero when the bit is 0; Carry kept.
pub open spec fn bit_flags(v: u8, bit: u8, f: u8) -> u8 {
    pack(v & (1u8 << bit) == 0, false, true, carry_of(f))
}

/// Applies `op` to `value`, setting the flags.
pub fn shift_by(cpu: &mut Cpu, op: Shift, value: u8) -> (r: u8)
    requires
        old(cpu).wf(),
    ensures
        r == shift_value(op, value, old(cpu).reg.carry()),
        regs_only(
            *old(cpu),
            *final(cpu),
            with_f(old(cpu).reg, shift_f(op, value, old(cpu).reg.carry())),
        ),
{
    match op {
        Shift::Rlc => rlc(cpu, value),
        Shift::Rrc => rrc(cpu, value),
        Shift::Rl => rl(cpu, value),
        Shift::Rr => rr(cpu, value),
        Shift::Sla => sla(cpu, value),
        Shift::Srl => srl(cpu, value),
        Shift::Swap => swap(cpu, value),
    }
}

/// Applies `op` to register `r`.
pub fn shift_r8(cpu: &mut Cpu, op: Shift, r: Reg8)
    requires
        old(cpu).wf(),
    ensures
        regs_only(*old(cpu), *final(cpu), shift_regs(old(cpu).reg, op, r)),
{
    let value = cpu.r8(r);
    let result = shift_by(cpu, op, value);
    cpu.set_r8(r, result);
}

/// Applies `op` to the byte at HL.
pub fn shift_mhl(cpu: &mut Cpu, op: Shift)
    requires
        old(cpu).wf(),
    ensures
        stores(
            *old(cpu),
            *final(cpu),
            with_f(old(cpu).reg, shift_f(op, old(cpu).mem_hl(), old(cpu).reg.carry())),
            old(cpu).reg.hl(),
            shift_value(op, old(cpu).mem_hl(), old(cpu).reg.carry()),
        ),
{
    let hl = cpu.hl();
    let byte = cpu.mmu.read(hl);
    let result = shift_by(cpu, op, byte);
    cpu.mmu.write(hl, result);
}

/// Tests bit `bit` of D.
pub fn bit_d(cpu: &mut Cpu, bit: u8)
    requires
        old(cpu).wf(),
        bit < 8,
    ensures
        regs_only(
            *old(cpu),
            *final(cpu),
            with_f(old(cpu).reg, bit_flags(old(cpu).reg.d, bit, old(cpu).reg.f)),
        ),
{
    let c = cpu.get_carry();
    let z = bit_zero(cpu.reg.d, bit);
    cpu.set_flags(z, false, true, c);
}

/// Tests bit `bit` of H.
pub fn bit_h(cpu: &mut Cpu, bit: u8)
    requires
        old(cpu).wf(),
        bit < 8,
    ensures
        regs_only(
            *old(cpu),
            *final(cpu),
            with_f(old(cpu).reg, bit_flags(old(cpu).reg.h, bit, old(cpu).reg.f)),
        ),
{
    let c = cpu.get_carry();
    let z = bit_zero(cpu.reg.h, bit);
    cpu.set_flags(z, false, true, c);
}

/// RLCA: rotates A left; Zero is cleared.
pub fn rlca(cpu: &mut Cpu)
    requires
        old(cpu).wf(),
    ensures
        regs_only(*old(cpu), *final(cpu), acc_rotate_regs(old(cpu).reg, Shift::Rlc)),
{
    let a = cpu.reg.a;
    cpu.reg.a = (a << 1) | (a >> 7);
    cpu.set_flags(false, false, false, a & 0x80 == 0x80);
}

/// RRCA: rotates A right; Zero is cleared.
pub fn rrca(cpu: &mut Cpu)
    requires
        old(cpu).wf(),
    ensures
        regs_only(*old(cpu), *final(cpu), acc_rotate_regs(old(cpu).reg, Shift::Rrc)),
{
    let a = cpu.reg.a;
    cpu.reg.a = (a >> 1) | (a << 7);
    cpu.set_flags(false, false, false, a & 0x01 == 0x01);
}

/// RLA: rotates A left through Carry; Zero is cleared.
pub fn rla(cpu: &mut Cpu)
    requires
        old(cpu).wf(),
    ensures
        regs_only(*old(cpu), *final(cpu), acc_rotate_regs(old(cpu).reg, Shift::Rl)),
{
    let a = cpu.reg.a;
    let carry = cpu.get_carry();
    cpu.reg.a = (a << 1) | (if carry {
        1
    } else {
        0
    });
    cpu.set_flags(false, false, false, a & 0x80 == 0x80);
}

/// RRA: rotates A right through Carry; Zero is cleared.
pub fn rra(cpu: &mut Cpu)
    requires
        old(cpu).wf(),
    ensures
        regs_only(*old(cpu), *final(cpu), acc_rotate_regs(old(cpu).reg, Shift::Rr)),
{
    let a = cpu.reg.a;
    let carry = cpu.get_carry();
    cpu.reg.a = (a >> 1) | (if carry {
        0x80
    } else {
        0
    });
    cpu.set_flags(false, false, false, a & 0x01 == 0x01);
}

/// RLC B
pub fn rlc_b(cpu: &mut Cpu)
    requires
        old(cpu).wf(),
    ensures
        regs_only(*old(cpu), *final(cpu), shift_regs(old(cpu).reg, Shift::Rlc, Reg8::B)),
{
    shift_r8(cpu, Shift::Rlc, Reg8::B);
}

/// RLC C
pub fn rlc_c(cpu: &mut Cpu)
    requires
        old(cpu).wf(),
    ensures
        regs_only(*old(cpu), *final(cpu), shift_regs(old(cpu).reg, Shift::Rlc, Reg8::C)),
{
    shift_r8(cpu, Shift::Rlc, Reg8::C);
}

/// RLC D
pub fn rlc_d(cpu: &mut Cpu)
    requires
        old(cpu).wf(),
    ensures
        regs_only(*old(cpu), *final(cpu), shift_regs(old(cpu).reg, Shift::Rlc, Reg8::D)),
{
    shift_r8(cpu, Shift::Rlc, Reg8::D);
}

/// RLC E
pub fn rlc_e(cpu: &mut Cpu)
    requires
        old(cpu).wf(),
    ensures
        regs_only(*old(cpu), *final(cpu), shift_regs(old(cpu).reg, Shift::Rlc, Reg8::E)),
{
    shift_r8(cpu, Shift::Rlc, Reg8::E);
}

/// RLC H
pub fn rlc_h(cpu: &mut Cpu)
    requires
        old(cpu).wf(),
    ensures
        regs_only(*old(cpu), *final(cpu), shift_regs(old(cpu).reg, Shift::Rlc, Reg8::H)),
{
    shift_r8(cpu, Shift::Rlc, Reg8::H);
}

/// RLC L
pub fn rlc_l(cpu: &mut Cpu)
    requires
        old(cpu).wf(),
    ensures
        regs_only(*old(cpu), *final(cpu), shift_regs(old(cpu).reg, Shift::Rlc, Reg8::L)),
{
    shift_r8(cpu, Shift::Rlc, Reg8::L);
}

/// RLC [HL]
pub fn rlc_mhl(cpu: &mut Cpu)
    requires
        old(cpu).wf(),
    ensures
        stores(
            *old(cpu),
            *final(cpu),
            with_f(old(cpu).reg, shift_f(Shift::Rlc, old(cpu).mem_hl(), old(cpu).reg.carry())),
            old(cpu).reg.hl(),
            shift_value(Shift::Rlc, old(cpu).mem_hl(), old(cpu).reg.carry()),
        ),
{
    shift_mhl(cpu, Shift::Rlc);
}

/// RLC A
pub fn rlc_a(cpu: &mut Cpu)
    requires
        old(cpu).wf(),
    ensures
        regs_only(*old(cpu), *final(cpu), shift_regs(old(cpu).reg, Shift::Rlc, Reg8::A)),
{
    shift_r8(cpu, Shift::Rlc, Reg8::A);
}

/// RRC B
pub fn rrc_b(cpu: &mut Cpu)
    requires
        old(cpu).wf(),
    ensures
        regs_only(*old(cpu), *final(cpu), shift_regs(old(cpu).reg, Shift::Rrc, Reg8::B)),
{
    shift_r8(cpu, Shift::Rrc, Reg8::B);
}

/// RRC C
pub fn rrc_c(cpu: &mut Cpu)
    requires
        old(cpu).wf(),
    ensures
        regs_only(*old(cpu), *final(cpu), shift_regs(old(cpu).reg, Shift::Rrc, Reg8::C)),
{
    shift_r8(cpu, Shift::Rrc, Reg8::C);
}

/// RRC D
pub fn rrc_d(cpu: &mut Cpu)
    requires
        old(cpu).wf(),
    ensures
        regs_only(*old(cpu), *final(cpu), shift_regs(old(cpu).reg, Shift::Rrc, Reg8::D)),
{
    shift_r8(cpu, Shift::Rrc, Reg8::D);
}

/// RRC E
pub fn rrc_e(cpu: &mut Cpu)
    requires
        old(cpu).wf(),
    ensures
        regs_only(*old(cpu), *final(cpu), shift_regs(old(cpu).reg, Shift::Rrc, Reg8::E)),
{
    shift_r8(cpu, Shift::Rrc, Reg8::E);
}

/// RRC H
pub fn rrc_h(cpu: &mut Cpu)
    requires
        old(cpu).wf(),
    ensures
        regs_only(*old(cpu), *final(cpu), shift_regs(old(cpu).reg, Shift::Rrc, Reg8::H)),
{
    shift_r8(cpu, Shift::Rrc, Reg8::H);
}

/// RRC L
pub fn rrc_l(cpu: &mut Cpu)
    requires
        old(cpu).wf(),
    ensures
        regs_only(*old(cpu), *final(cpu), shift_regs(old(cpu).reg, Shift::Rrc, Reg8::L)),
{
    shift_r8(cpu, Shift::Rrc, Reg8::L);
}

/// RRC [HL]
pub fn rrc_mhl(cpu: &mut Cpu)
    requires
        old(cpu).wf(),
    ensures
        stores(
            *old(cpu),
            *final(cpu),
            with_f(old(cpu).reg, shift_f(Shift::Rrc, old(cpu).mem_hl(), old(cpu).reg.carry())),
            old(cpu).reg.hl(),
            shift_value(Shift::Rrc, old(cpu).mem_hl(), old(cpu).reg.carry()),
        ),
{
    shift_mhl(cpu, Shift::Rrc);
}

/// RRC A
pub fn rrc_a(cpu: &mut Cpu)
    requires
        old(cpu).wf(),
    ensures
        regs_only(*old(cpu), *final(cpu), shift_regs(old(cpu).reg, Shift::Rrc, Reg8::A)),
{
    shift_r8(cpu, Shift::Rrc, Reg8::A);
}

/// RL B
pub fn rl_b(cpu: &mut Cpu)
    requires
        old(cpu).wf(),
    ensures
        regs_only(*old(cpu), *final(cpu), shift_regs(old(cpu).reg, Shift::Rl, Reg8::B)),
{
    shift_r8(cpu, Shift::Rl, Reg8::B);
}

/// RL C
pub fn rl_c(cpu: &mut Cpu)
    requires
        old(cpu).wf(),
    ensures
        regs_only(*old(cpu), *final(cpu), shift_regs(old(cpu).reg, Shift::Rl, Reg8::C)),
{
    shift_r8(cpu, Shift::Rl, Reg8::C);
}

/// RL D
pub fn rl_d(cpu: &mut Cpu)
    requires
        old(cpu).wf(),
    ensures
        regs_only(*old(cpu), *final(cpu), shift_regs(old(cpu).reg, Shift::Rl, Reg8::D)),
{
    shift_r8(cpu, Shift::Rl, Reg8::D);
}

/// RL E
pub fn rl_e(cpu: &mut Cpu)
    requires
        old(cpu).wf(),
    ensures
        regs_only(*old(cpu), *final(cpu), shift_regs(old(cpu).reg, Shift::Rl, Reg8::E)),
{
    shift_r8(cpu, Shift::Rl, Reg8::E);
}

/// RL H
pub fn rl_h(cpu: &mut Cpu)
    requires
        old(cpu).wf(),
    ensures
        regs_only(*old(cpu), *final(cpu), shift_regs(old(cpu).reg, Shift::Rl, Reg8::H)),
{
    shift_r8(cpu, Shift::Rl, Reg8::H);
}

/// RL L
pub fn rl_l(cpu: &mut Cpu)
    requires
        old(cpu).wf(),
    ensures
        regs_only(*old(cpu), *final(cpu), shift_regs(old(cpu).reg, Shift::Rl, Reg8::L)),
{
    shift_r8(cpu, Shift::Rl, Reg8::L);
}

/// RL [HL]
pub fn rl_mhl(cpu: &mut Cpu)
    requires
        old(cpu).wf(),
    ensures
        stores(
            *old(cpu),
            *final(cpu),
            with_f(old(cpu).reg, shift_f(Shift::Rl, old(cpu).mem_hl(), old(cpu).reg.carry())),
            old(cpu).reg.hl(),
            shift_value(Shift::Rl, old(cpu).mem_hl(), old(cpu).reg.carry()),
        ),
{
    shift_mhl(cpu, Shift::Rl);
}

/// RL A
pub fn rl_a(cpu: &mut Cpu)
    requires
        old(cpu).wf(),
    ensures
        regs_only(*old(cpu), *final(cpu), shift_regs(old(cpu).reg, Shift::Rl, Reg8::A)),
{
    shift_r8(cpu, Shift::Rl, Reg8::A);
}

/// RR B
pub fn rr_b(cpu: &mut Cpu)
    requires
        old(cpu).wf(),
    ensures
        regs_only(*old(cpu), *final(cpu), shift_regs(old(cpu).reg, Shift::Rr, Reg8::B)),
{
    shift_r8(cpu, Shift::Rr, Reg8::B);
}

/// RR C
pub fn rr_c(cpu: &mut Cpu)
    requires
        old(cpu).wf(),
    ensures
        regs_only(*old(cpu), *final(cpu), shift_regs(old(cpu).reg, Shift::Rr, Reg8::C)),
{
    shift_r8(cpu, Shift::Rr, Reg8::C);
}

/// RR D
pub fn rr_d(cpu: &mut Cpu)
    requires
        old(cpu).wf(),
    ensures
        regs_only(*old(cpu), *final(cpu), shift_regs(old(cpu).reg, Shift::Rr, Reg8::D)),
{
    shift_r8(cpu, Shift::Rr, Reg8::D);
}

/// RR E
pub fn rr_e(cpu: &mut Cpu)
    requires
        old(cpu).wf(),
    ensures
        regs_only(*old(cpu), *final(cpu), shift_regs(old(cpu).reg, Shift::Rr, Reg8::E)),
{
    shift_r8(cpu, Shift::Rr, Reg8::E);
}

/// RR H
pub fn rr_h(cpu: &mut Cpu)
    requires
        old(cpu).wf(),
    ensures
        regs_only(*old(cpu), *final(cpu), shift_regs(old(cpu).reg, Shift::Rr, Reg8::H)),
{
    shift_r8(cpu, Shift::Rr, Reg8::H);
}

/// RR L
pub fn rr_l(cpu: &mut Cpu)
    requires
        old(cpu).wf(),
    ensures
        regs_only(*old(cpu), *final(cpu), shift_regs(old(cpu).reg, Shift::Rr, Reg8::L)),
{
    shift_r8(cpu, Shift::Rr, Reg8::L);
}

/// RR [HL]
pub fn rr_mhl(cpu: &mut Cpu)
    requires
        old(cpu).wf(),
    ensures
        stores(
            *old(cpu),
            *final(cpu),
            with_f(old(cpu).reg, shift_f(Shift::Rr, old(cpu).mem_hl(), old(cpu).reg.carry())),
            old(cpu).reg.hl(),
            shift_value(Shift::Rr, old(cpu).mem_hl(), old(cpu).reg.carry()),
        ),
{
    shift_mhl(cpu, Shift::Rr);
}

/// RR A
pub fn rr_a(cpu: &mut Cpu)
    requires
        old(cpu).wf(),
    ensures
        regs_only(*old(cpu), *final(cpu), shift_regs(old(cpu).reg, Shift::Rr, Reg8::A)),
{
    shift_r8(cpu, Shift::Rr, Reg8::A);
}

/// SLA B
pub fn sla_b(cpu: &mut Cpu)
    requires
        old(cpu).wf(),
    ensures
        regs_only(*old(cpu), *final(cpu), shift_regs(old(cpu).reg, Shift::Sla, Reg8::B)),
{
    shift_r8(cpu, Shift::Sla, Reg8::B);
}

/// SLA C
pub fn sla_c(cpu: &mut Cpu)
    requires
        old(cpu).wf(),
    ensures
        regs_only(*old(cpu), *final(cpu), shift_regs(old(cpu).reg, Shift::Sla, Reg8::C)),
{
    shift_r8(cpu, Shift::Sla, Reg8::C);
}

/// SLA D
pub fn sla_d(cpu: &mut Cpu)
    requires
        old(cpu).wf(),
    ensures
        regs_only(*old(cpu), *final(cpu), shift_regs(old(cpu).reg, Shift::Sla, Reg8::D)),
{
    shift_r8(cpu, Shift::Sla, Reg8::D);
}

/// SLA E
pub fn sla_e(cpu: &mut Cpu)
    requires
        old(cpu).wf(),
    ensures
        regs_only(*old(cpu), *final(cpu), shift_regs(old(cpu).reg, Shift::Sla, Reg8::E)),
{
    shift_r8(cpu, Shift::Sla, Reg8::E);
}

/// SLA H
pub fn sla_h(cpu: &mut Cpu)
    requires
        old(cpu).wf(),
    ensures
        regs_only(*old(cpu), *final(cpu), shift_regs(old(cpu).reg, Shift::Sla, Reg8::H)),
{
    shift_r8(cpu, Shift::Sla, Reg8::H);
}

/// SLA L
pub fn sla_l(cpu: &mut Cpu)
    requires
        old(cpu).wf(),
    ensures
        regs_only(*old(cpu), *final(cpu), shift_regs(old(cpu).reg, Shift::Sla, Reg8::L)),
{
    shift_r8(cpu, Shift::Sla, Reg8::L);
}

/// SLA [HL]
pub fn sla_mhl(cpu: &mut Cpu)
    requires
        old(cpu).wf(),
    ensures
        stores(
            *old(cpu),
            *final(cpu),
            with_f(old(cpu).reg, shift_f(Shift::Sla, old(cpu).mem_hl(), old(cpu).reg.carry())),
            old(cpu).reg.hl(),
            shift_value(Shift::Sla, old(cpu).mem_hl(), old(cpu).reg.carry()),
        ),
{
    shift_mhl(cpu, Shift::Sla);
}

/// SLA A
pub fn sla_a(cpu: &mut Cpu)
    requires
        old(cpu).wf(),
    ensures
        regs_only(*old(cpu), *final(cpu), shift_regs(old(cpu).reg, Shift::Sla, Reg8::A)),
{
    shift_r8(cpu, Shift::Sla, Reg8::A);
}

/// SWAP A
pub fn swap_a(cpu: &mut Cpu)
    requires
        old(cpu).wf(),
    ensures
        regs_only(*old(cpu), *final(cpu), shift_regs(old(cpu).reg, Shift::Swap, Reg8::A)),
{
    shift_r8(cpu, Shift::Swap, Reg8::A);
}

/// SRL B
pub fn srl_b(cpu: &mut Cpu)
    requires
        old(cpu).wf(),
    ensures
        regs_only(*old(cpu), *final(cpu), shift_regs(old(cpu).reg, Shift::Srl, Reg8::B)),
{
    shift_r8(cpu, Shift::Srl, Reg8::B);
}

/// BIT 0, D
pub fn bit_0_d(cpu: &mut Cpu)
    requires
        old(cpu).wf(),
    ensures
        regs_only(
            *old(cpu),
            *final(cpu),
            with_f(old(cpu).reg, bit_flags(old(cpu).reg.d, 0, old(cpu).reg.f)),
        ),
{
    bit_d(cpu, 0);
}

/// BIT 7, H
pub fn bit_7_h(cpu: &mut Cpu)
    requires
        old(cpu).wf(),
    ensures
        regs_only(
            *old(cpu),
            *final(cpu),
            with_f(old(cpu).reg, bit_flags(old(cpu).reg.h, 7, old(cpu).reg.f)),
        ),
{
    bit_h(cpu, 7);
}

/// RES 0, A
pub fn res_0_a(cpu: &mut Cpu)
    requires
        old(cpu).wf(),
    ensures
        regs_only(
            *old(cpu),
            *final(cpu),
            (Registers { a: old(cpu).reg.a & !(1u8 << 0u8), ..old(cpu).reg }),
        ),
{
    cpu.reg.a = res(cpu.reg.a, 0);
}

/// SET 4, A
pub fn set_4_a(cpu: &mut Cpu)
    requires
        old(cpu).wf(),
    ensures
        regs_only(
            *old(cpu),
            *final(cpu),
            (Registers { a: old(cpu).reg.a | (1u8 << 4u8), ..old(cpu).reg }),
        ),
{
    cpu.reg.a = crate::alu::set(cpu.reg.a, 4);
}

/// RES 7, [HL]
pub fn res_7_mhl(cpu: &mut Cpu)
    requires
        old(cpu).wf(),
    ensures
        stores(
            *old(cpu),
            *final(cpu),
            old(cpu).reg,
            old(cpu).reg.hl(),
            old(cpu).mem_hl() & !(1u8 << 7u8),
        ),
{
    let hl = cpu.hl();
    let byte = cpu.mmu.read(hl);
    let value = res(byte, 7);
    cpu.mmu.write(hl, value);
}

/// SET 3, [HL]
pub fn set_3_mhl(cpu: &mut Cpu)
    requires
        old(cpu).wf(),
    ensures
        stores(
            *old(cpu),
            *final(cpu),
            old(cpu).reg,
            old(cpu).reg.hl(),
            old(cpu).mem_hl() | (1u8 << 3u8),
        ),
{
    let hl = cpu.hl();
    let byte = cpu.mmu.read(hl);
    let value = crate::alu::set(byte, 3);
    cpu.mmu.write(hl, value);
}

} // verus!