//! Load and store handlers: moves between registers, memory and immediates.
use vstd::prelude::*;

use crate::cpu::{hi, lo, moves, regs_only, stores, w16, Cpu, Registers};

verus! {

/// Base of the high page that the FF00 addressing modes reach.
pub const HIGH_PAGE: u16 = 0xff00;

/// LD B, B
pub fn ld_b_b(cpu: &mut Cpu)
    requires
        old(cpu).wf(),
    ensures
        regs_only(*old(cpu), *final(cpu), (Registers { b: old(cpu).reg.b, ..old(cpu).reg })),
{
    cpu.reg.b = cpu.reg.b;
}

/// LD B, C
pub fn ld_b_c(cpu: &mut Cpu)
    requires
        old(cpu).wf(),
    ensures
        regs_only(*old(cpu), *final(cpu), (Registers { b: old(cpu).reg.c, ..old(cpu).reg })),
{
    cpu.reg.b = cpu.reg.c;
}

/// LD B, D
pub fn ld_b_d(cpu: &mut Cpu)
    requires
        old(cpu).wf(),
    ensures
        regs_only(*old(cpu), *final(cpu), (Registers { b: old(cpu).reg.d, ..old(cpu).reg })),
{
    cpu.reg.b = cpu.reg.d;
}

/// LD B, E
pub fn ld_b_e(cpu: &mut Cpu)
    requires
        old(cpu).wf(),
    ensures
        regs_only(*old(cpu), *final(cpu), (Registers { b: old(cpu).reg.e, ..old(cpu).reg })),
{
    cpu.reg.b = cpu.reg.e;
}

/// LD B, H
pub fn ld_b_h(cpu: &mut Cpu)
    requires
        old(cpu).wf(),
    ensures
        regs_only(*old(cpu), *final(cpu), (Registers { b: old(cpu).reg.h, ..old(cpu).reg })),
{
    cpu.reg.b = cpu.reg.h;
}

/// LD B, L
pub fn ld_b_l(cpu: &mut Cpu)
    requires
        old(cpu).wf(),
    ensures
        regs_only(*old(cpu), *final(cpu), (Registers { b: old(cpu).reg.l, ..old(cpu).reg })),
{
    cpu.reg.b = cpu.reg.l;
}

/// LD B, A
pub fn ld_b_a(cpu: &mut Cpu)
    requires
        old(cpu).wf(),
    ensures
        regs_only(*old(cpu), *final(cpu), (Registers { b: old(cpu).reg.a, ..old(cpu).reg })),
{
    cpu.reg.b = cpu.reg.a;
}

/// LD B, [HL]
pub fn ld_b_mhl(cpu: &mut Cpu)
    requires
        old(cpu).wf(),
    ensures
        regs_only(*old(cpu), *final(cpu), (Registers { b: old(cpu).mem_hl(), ..old(cpu).reg })),
{
    let byte = cpu.mmu.read(cpu.hl());
    cpu.reg.b = byte;
}

/// LD [HL], B
pub fn ld_mhl_b(cpu: &mut Cpu)
    requires
        old(cpu).wf(),
    ensures
        stores(*old(cpu), *final(cpu), old(cpu).reg, old(cpu).reg.hl(), old(cpu).reg.b),
{
    let hl = cpu.hl();
    cpu.mmu.write(hl, cpu.reg.b);
}

/// LD B, u8
pub fn ld_b_u8(cpu: &mut Cpu)
    requires
        old(cpu).wf(),
    ensures
        regs_only(
            *old(cpu),
            *final(cpu),
            (Registers { b: old(cpu).imm8(), pc: w16(old(cpu).reg.pc + 1), ..old(cpu).reg }),
        ),
{
    let byte = cpu.read_u8();
    cpu.reg.b = byte;
}

/// LD C, B
pub fn ld_c_b(cpu: &mut Cpu)
    requires
        old(cpu).wf(),
    ensures
        regs_only(*old(cpu), *final(cpu), (Registers { c: old(cpu).reg.b, ..old(cpu).reg })),
{
    cpu.reg.c = cpu.reg.b;
}

/// LD C, C
pub fn ld_c_c(cpu: &mut Cpu)
    requires
        old(cpu).wf(),
    ensures
        regs_only(*old(cpu), *final(cpu), (Registers { c: old(cpu).reg.c, ..old(cpu).reg })),
{
    cpu.reg.c = cpu.reg.c;
}

/// LD C, D
pub fn ld_c_d(cpu: &mut Cpu)
    requires
        old(cpu).wf(),
    ensures
        regs_only(*old(cpu), *final(cpu), (Registers { c: old(cpu).reg.d, ..old(cpu).reg })),
{
    cpu.reg.c = cpu.reg.d;
}

/// LD C, E
pub fn ld_c_e(cpu: &mut Cpu)
    requires
        old(cpu).wf(),
    ensures
        regs_only(*old(cpu), *final(cpu), (Registers { c: old(cpu).reg.e, ..old(cpu).reg })),
{
    cpu.reg.c = cpu.reg.e;
}

/// LD C, H
pub fn ld_c_h(cpu: &mut Cpu)
    requires
        old(cpu).wf(),
    ensures
        regs_only(*old(cpu), *final(cpu), (Registers { c: old(cpu).reg.h, ..old(cpu).reg })),
{
    cpu.reg.c = cpu.reg.h;
}

/// LD C, L
pub fn ld_c_l(cpu: &mut Cpu)
    requires
        old(cpu).wf(),
    ensures
        regs_only(*old(cpu), *final(cpu), (Registers { c: old(cpu).reg.l, ..old(cpu).reg })),
{
    cpu.reg.c = cpu.reg.l;
}

/// LD C, A
pub fn ld_c_a(cpu: &mut Cpu)
    requires
        old(cpu).wf(),
    ensures
        regs_only(*old(cpu), *final(cpu), (Registers { c: old(cpu).reg.a, ..old(cpu).reg })),
{
    cpu.reg.c = cpu.reg.a;
}

/// LD C, [HL]
pub fn ld_c_mhl(cpu: &mut Cpu)
    requires
        old(cpu).wf(),
    ensures
        regs_only(*old(cpu), *final(cpu), (Registers { c: old(cpu).mem_hl(), ..old(cpu).reg })),
{
    let byte = cpu.mmu.read(cpu.hl());
    cpu.reg.c = byte;
}

/// LD [HL], C
pub fn ld_mhl_c(cpu: &mut Cpu)
    requires
        old(cpu).wf(),
    ensures
        stores(*old(cpu), *final(cpu), old(cpu).reg, old(cpu).reg.hl(), old(cpu).reg.c),
{
    let hl = cpu.hl();
    cpu.mmu.write(hl, cpu.reg.c);
}

/// LD C, u8
pub fn ld_c_u8(cpu: &mut Cpu)
    requires
        old(cpu).wf(),
    ensures
        regs_only(
            *old(cpu),
            *final(cpu),
            (Registers { c: old(cpu).imm8(), pc: w16(old(cpu).reg.pc + 1), ..old(cpu).reg }),
        ),
{
    let byte = cpu.read_u8();
    cpu.reg.c = byte;
}

/// LD D, B
pub fn ld_d_b(cpu: &mut Cpu)
    requires
        old(cpu).wf(),
    ensures
        regs_only(*old(cpu), *final(cpu), (Registers { d: old(cpu).reg.b, ..old(cpu).reg })),
{
    cpu.reg.d = cpu.reg.b;
}

/// LD D, C
pub fn ld_d_c(cpu: &mut Cpu)
    requires
        old(cpu).wf(),
    ensures
        regs_only(*old(cpu), *final(cpu), (Registers { d: old(cpu).reg.c, ..old(cpu).reg })),
{
    cpu.reg.d = cpu.reg.c;
}

/// LD D, D
pub fn ld_d_d(cpu: &mut Cpu)
    requires
        old(cpu).wf(),
    ensures
        regs_only(*old(cpu), *final(cpu), (Registers { d: old(cpu).reg.d, ..old(cpu).reg })),
{
    cpu.reg.d = cpu.reg.d;
}

/// LD D, E
pub fn ld_d_e(cpu: &mut Cpu)
    requires
        old(cpu).wf(),
    ensures
        regs_only(*old(cpu), *final(cpu), (Registers { d: old(cpu).reg.e, ..old(cpu).reg })),
{
    cpu.reg.d = cpu.reg.e;
}

/// LD D, H
pub fn ld_d_h(cpu: &mut Cpu)
    requires
        old(cpu).wf(),
    ensures
        regs_only(*old(cpu), *final(cpu), (Registers { d: old(cpu).reg.h, ..old(cpu).reg })),
{
    cpu.reg.d = cpu.reg.h;
}

/// LD D, L
pub fn ld_d_l(cpu: &mut Cpu)
    requires
        old(cpu).wf(),
    ensures
        regs_only(*old(cpu), *final(cpu), (Registers { d: old(cpu).reg.l, ..old(cpu).reg })),
{
    cpu.reg.d = cpu.reg.l;
}

/// LD D, A
pub fn ld_d_a(cpu: &mut Cpu)
    requires
        old(cpu).wf(),
    ensures
        regs_only(*old(cpu), *final(cpu), (Registers { d: old(cpu).reg.a, ..old(cpu).reg })),
{
    cpu.reg.d = cpu.reg.a;
}

/// LD D, [HL]
pub fn ld_d_mhl(cpu: &mut Cpu)
    requires
        old(cpu).wf(),
    ensures
        regs_only(*old(cpu), *final(cpu), (Registers { d: old(cpu).mem_hl(), ..old(cpu).reg })),
{
    let byte = cpu.mmu.read(cpu.hl());
    cpu.reg.d = byte;
}

/// LD [HL], D
pub fn ld_mhl_d(cpu: &mut Cpu)
    requires
        old(cpu).wf(),
    ensures
        stores(*old(cpu), *final(cpu), old(cpu).reg, old(cpu).reg.hl(), old(cpu).reg.d),
{
    let hl = cpu.hl();
    cpu.mmu.write(hl, cpu.reg.d);
}

/// LD D, u8
pub fn ld_d_u8(cpu: &mut Cpu)
    requires
        old(cpu).wf(),
    ensures
        regs_only(
            *old(cpu),
            *final(cpu),
            (Registers { d: old(cpu).imm8(), pc: w16(old(cpu).reg.pc + 1), ..old(cpu).reg }),
        ),
{
    let byte = cpu.read_u8();
    cpu.reg.d = byte;
}

/// LD E, B
pub fn ld_e_b(cpu: &mut Cpu)
    requires
        old(cpu).wf(),
    ensures
        regs_only(*old(cpu), *final(cpu), (Registers { e: old(cpu).reg.b, ..old(cpu).reg })),
{
    cpu.reg.e = cpu.reg.b;
}

/// LD E, C
pub fn ld_e_c(cpu: &mut Cpu)
    requires
        old(cpu).wf(),
    ensures
        regs_only(*old(cpu), *final(cpu), (Registers { e: old(cpu).reg.c, ..old(cpu).reg })),
{
    cpu.reg.e = cpu.reg.c;
}

/// LD E, D
pub fn ld_e_d(cpu: &mut Cpu)
    requires
        old(cpu).wf(),
    ensures
        regs_only(*old(cpu), *final(cpu), (Registers { e: old(cpu).reg.d, ..old(cpu).reg })),
{
    cpu.reg.e = cpu.reg.d;
}

/// LD E, E
pub fn ld_e_e(cpu: &mut Cpu)
    requires
        old(cpu).wf(),
    ensures
        regs_only(*old(cpu), *final(cpu), (Registers { e: old(cpu).reg.e, ..old(cpu).reg })),
{
    cpu.reg.e = cpu.reg.e;
}

/// LD E, H
pub fn ld_e_h(cpu: &mut Cpu)
    requires
        old(cpu).wf(),
    ensures
        regs_only(*old(cpu), *final(cpu), (Registers { e: old(cpu).reg.h, ..old(cpu).reg })),
{
    cpu.reg.e = cpu.reg.h;
}

/// LD E, L
pub fn ld_e_l(cpu: &mut Cpu)
    requires
        old(cpu).wf(),
    ensures
        regs_only(*old(cpu), *final(cpu), (Registers { e: old(cpu).reg.l, ..old(cpu).reg })),
{
    cpu.reg.e = cpu.reg.l;
}

/// LD E, A
pub fn ld_e_a(cpu: &mut Cpu)
    requires
        old(cpu).wf(),
    ensures
        regs_only(*old(cpu), *final(cpu), (Registers { e: old(cpu).reg.a, ..old(cpu).reg })),
{
    cpu.reg.e = cpu.reg.a;
}

/// LD E, [HL]
pub fn ld_e_mhl(cpu: &mut Cpu)
    requires
        old(cpu).wf(),
    ensures
        regs_only(*old(cpu), *final(cpu), (Registers { e: old(cpu).mem_hl(), ..old(cpu).reg })),
{
    let byte = cpu.mmu.read(cpu.hl());
    cpu.reg.e = byte;
}

/// LD [HL], E
pub fn ld_mhl_e(cpu: &mut Cpu)
    requires
        old(cpu).wf(),
    ensures
        stores(*old(cpu), *final(cpu), old(cpu).reg, old(cpu).reg.hl(), old(cpu).reg.e),
{
    let hl = cpu.hl();
    cpu.mmu.write(hl, cpu.reg.e);
}

/// LD E, u8
pub fn ld_e_u8(cpu: &mut Cpu)
    requires
        old(cpu).wf(),
    ensures
        regs_only(
            *old(cpu),
            *final(cpu),
            (Registers { e: old(cpu).imm8(), pc: w16(old(cpu).reg.pc + 1), ..old(cpu).reg }),
        ),
{
    let byte = cpu.read_u8();
    cpu.reg.e = byte;
}

/// LD H, B
pub fn ld_h_b(cpu: &mut Cpu)
    requires
        old(cpu).wf(),
    ensures
        regs_only(*old(cpu), *final(cpu), (Registers { h: old(cpu).reg.b, ..old(cpu).reg })),
{
    cpu.reg.h = cpu.reg.b;
}

/// LD H, C
pub fn ld_h_c(cpu: &mut Cpu)
    requires
        old(cpu).wf(),
    ensures
        regs_only(*old(cpu), *final(cpu), (Registers { h: old(cpu).reg.c, ..old(cpu).reg })),
{
    cpu.reg.h = cpu.reg.c;
}

/// LD H, D
pub fn ld_h_d(cpu: &mut Cpu)
    requires
        old(cpu).wf(),
    ensures
        regs_only(*old(cpu), *final(cpu), (Registers { h: old(cpu).reg.d, ..old(cpu).reg })),
{
    cpu.reg.h = cpu.reg.d;
}

/// LD H, E
pub fn ld_h_e(cpu: &mut Cpu)
    requires
        old(cpu).wf(),
    ensures
        regs_only(*old(cpu), *final(cpu), (Registers { h: old(cpu).reg.e, ..old(cpu).reg })),
{
    cpu.reg.h = cpu.reg.e;
}

/// LD H, H
pub fn ld_h_h(cpu: &mut Cpu)
    requires
        old(cpu).wf(),
    ensures
        regs_only(*old(cpu), *final(cpu), (Registers { h: old(cpu).reg.h, ..old(cpu).reg })),
{
    cpu.reg.h = cpu.reg.h;
}

/// LD H, L
pub fn ld_h_l(cpu: &mut Cpu)
    requires
        old(cpu).wf(),
    ensures
        regs_only(*old(cpu), *final(cpu), (Registers { h: old(cpu).reg.l, ..old(cpu).reg })),
{
    cpu.reg.h = cpu.reg.l;
}

/// LD H, A
pub fn ld_h_a(cpu: &mut Cpu)
    requires
        old(cpu).wf(),
    ensures
        regs_only(*old(cpu), *final(cpu), (Registers { h: old(cpu).reg.a, ..old(cpu).reg })),
{
    cpu.reg.h = cpu.reg.a;
}

/// LD H, [HL]
pub fn ld_h_mhl(cpu: &mut Cpu)
    requires
        old(cpu).wf(),
    ensures
        regs_only(*old(cpu), *final(cpu), (Registers { h: old(cpu).mem_hl(), ..old(cpu).reg })),
{
    let byte = cpu.mmu.read(cpu.hl());
    cpu.reg.h = byte;
}

/// LD [HL], H
pub fn ld_mhl_h(cpu: &mut Cpu)
    requires
        old(cpu).wf(),
    ensures
        stores(*old(cpu), *final(cpu), old(cpu).reg, old(cpu).reg.hl(), old(cpu).reg.h),
{
    let hl = cpu.hl();
    cpu.mmu.write(hl, cpu.reg.h);
}

/// LD H, u8
pub fn ld_h_u8(cpu: &mut Cpu)
    requires
        old(cpu).wf(),
    ensures
        regs_only(
            *old(cpu),
            *final(cpu),
            (Registers { h: old(cpu).imm8(), pc: w16(old(cpu).reg.pc + 1), ..old(cpu).reg }),
        ),
{
    let byte = cpu.read_u8();
    cpu.reg.h = byte;
}

/// LD L, B
pub fn ld_l_b(cpu: &mut Cpu)
    requires
        old(cpu).wf(),
    ensures
        regs_only(*old(cpu), *final(cpu), (Registers { l: old(cpu).reg.b, ..old(cpu).reg })),
{
    cpu.reg.l = cpu.reg.b;
}

/// LD L, C
pub fn ld_l_c(cpu: &mut Cpu)
    requires
        old(cpu).wf(),
    ensures
        regs_only(*old(cpu), *final(cpu), (Registers { l: old(cpu).reg.c, ..old(cpu).reg })),
{
    cpu.reg.l = cpu.reg.c;
}

/// LD L, D
pub fn ld_l_d(cpu: &mut Cpu)
    requires
        old(cpu).wf(),
    ensures
        regs_only(*old(cpu), *final(cpu), (Registers { l: old(cpu).reg.d, ..old(cpu).reg })),
{
    cpu.reg.l = cpu.reg.d;
}

/// LD L, E
pub fn ld_l_e(cpu: &mut Cpu)
    requires
        old(cpu).wf(),
    ensures
        regs_only(*old(cpu), *final(cpu), (Registers { l: old(cpu).reg.e, ..old(cpu).reg })),
{
    cpu.reg.l = cpu.reg.e;
}

/// LD L, H
pub fn ld_l_h(cpu: &mut Cpu)
    requires
        old(cpu).wf(),
    ensures
        regs_only(*old(cpu), *final(cpu), (Registers { l: old(cpu).reg.h, ..old(cpu).reg })),
{
    cpu.reg.l = cpu.reg.h;
}

/// LD L, L
pub fn ld_l_l(cpu: &mut Cpu)
    requires
        old(cpu).wf(),
    ensures
        regs_only(*old(cpu), *final(cpu), (Registers { l: old(cpu).reg.l, ..old(cpu).reg })),
{
    cpu.reg.l = cpu.reg.l;
}

/// LD L, A
pub fn ld_l_a(cpu: &mut Cpu)
    requires
        old(cpu).wf(),
    ensures
        regs_only(*old(cpu), *final(cpu), (Registers { l: old(cpu).reg.a, ..old(cpu).reg })),
{
    cpu.reg.l = cpu.reg.a;
}

/// LD L, [HL]
pub fn ld_l_mhl(cpu: &mut Cpu)
    requires
        old(cpu).wf(),
    ensures
        regs_only(*old(cpu), *final(cpu), (Registers { l: old(cpu).mem_hl(), ..old(cpu).reg })),
{
    let byte = cpu.mmu.read(cpu.hl());
    cpu.reg.l = byte;
}

/// LD [HL], L
pub fn ld_mhl_l(cpu: &mut Cpu)
    requires
        old(cpu).wf(),
    ensures
        stores(*old(cpu), *final(cpu), old(cpu).reg, old(cpu).reg.hl(), old(cpu).reg.l),
{
    let hl = cpu.hl();
    cpu.mmu.write(hl, cpu.reg.l);
}

/// LD L, u8
pub fn ld_l_u8(cpu: &mut Cpu)
    requires
        old(cpu).wf(),
    ensures
        regs_only(
            *old(cpu),
            *final(cpu),
            (Registers { l: old(cpu).imm8(), pc: w16(old(cpu).reg.pc + 1), ..old(cpu).reg }),
        ),
{
    let byte = cpu.read_u8();
    cpu.reg.l = byte;
}

/// LD A, B
pub fn ld_a_b(cpu: &mut Cpu)
    requires
        old(cpu).wf(),
    ensures
        regs_only(*old(cpu), *final(cpu), (Registers { a: old(cpu).reg.b, ..old(cpu).reg })),
{
    cpu.reg.a = cpu.reg.b;
}

/// LD A, C
pub fn ld_a_c(cpu: &mut Cpu)
    requires
        old(cpu).wf(),
    ensures
        regs_only(*old(cpu), *final(cpu), (Registers { a: old(cpu).reg.c, ..old(cpu).reg })),
{
    cpu.reg.a = cpu.reg.c;
}

/// LD A, D
pub fn ld_a_d(cpu: &mut Cpu)
    requires
        old(cpu).wf(),
    ensures
        regs_only(*old(cpu), *final(cpu), (Registers { a: old(cpu).reg.d, ..old(cpu).reg })),
{
    cpu.reg.a = cpu.reg.d;
}

/// LD A, E
pub fn ld_a_e(cpu: &mut Cpu)
    requires
        old(cpu).wf(),
    ensures
        regs_only(*old(cpu), *final(cpu), (Registers { a: old(cpu).reg.e, ..old(cpu).reg })),
{
    cpu.reg.a = cpu.reg.e;
}

/// LD A, H
pub fn ld_a_h(cpu: &mut Cpu)
    requires
        old(cpu).wf(),
    ensures
        regs_only(*old(cpu), *final(cpu), (Registers { a: old(cpu).reg.h, ..old(cpu).reg })),
{
    cpu.reg.a = cpu.reg.h;
}

/// LD A, L
pub fn ld_a_l(cpu: &mut Cpu)
    requires
        old(cpu).wf(),
    ensures
        regs_only(*old(cpu), *final(cpu), (Registers { a: old(cpu).reg.l, ..old(cpu).reg })),
{
    cpu.reg.a = cpu.reg.l;
}

/// LD A, A
pub fn ld_a_a(cpu: &mut Cpu)
    requires
        old(cpu).wf(),
    ensures
        regs_only(*old(cpu), *final(cpu), (Registers { a: old(cpu).reg.a, ..old(cpu).reg })),
{
    cpu.reg.a = cpu.reg.a;
}

/// LD A, [HL]
pub fn ld_a_mhl(cpu: &mut Cpu)
    requires
        old(cpu).wf(),
    ensures
        regs_only(*old(cpu), *final(cpu), (Registers { a: old(cpu).mem_hl(), ..old(cpu).reg })),
{
    let byte = cpu.mmu.read(cpu.hl());
    cpu.reg.a = byte;
}

/// LD [HL], A
pub fn ld_mhl_a(cpu: &mut Cpu)
    requires
        old(cpu).wf(),
    ensures
        stores(*old(cpu), *final(cpu), old(cpu).reg, old(cpu).reg.hl(), old(cpu).reg.a),
{
    let hl = cpu.hl();
    cpu.mmu.write(hl, cpu.reg.a);
}

/// LD A, u8
pub fn ld_a_u8(cpu: &mut Cpu)
    requires
        old(cpu).wf(),
    ensures
        regs_only(
            *old(cpu),
            *final(cpu),
            (Registers { a: old(cpu).imm8(), pc: w16(old(cpu).reg.pc + 1), ..old(cpu).reg }),
        ),
{
    let byte = cpu.read_u8();
    cpu.reg.a = byte;
}

/// LD [HL], u8
pub fn ld_mhl_u8(cpu: &mut Cpu)
    requires
        old(cpu).wf(),
    ensures
        stores(
            *old(cpu),
            *final(cpu),
            (Registers { pc: w16(old(cpu).reg.pc + 1), ..old(cpu).reg }),
            old(cpu).reg.hl(),
            old(cpu).imm8(),
        ),
{
    let byte = cpu.read_u8();
    let hl = cpu.hl();
    cpu.mmu.write(hl, byte);
}

/// LD BC, u16
pub fn ld_bc_u16(cpu: &mut Cpu)
    requires
        old(cpu).wf(),
    ensures
        regs_only(
            *old(cpu),
            *final(cpu),
            (Registers { pc: w16(old(cpu).reg.pc + 2), ..old(cpu).reg }).with_bc(old(cpu).imm16()),
        ),
{
    let word = cpu.read_u16();
    cpu.set_bc(word);
}

/// LD DE, u16
pub fn ld_de_u16(cpu: &mut Cpu)
    requires
        old(cpu).wf(),
    ensures
        regs_only(
            *old(cpu),
            *final(cpu),
            (Registers { pc: w16(old(cpu).reg.pc + 2), ..old(cpu).reg }).with_de(old(cpu).imm16()),
        ),
{
    let word = cpu.read_u16();
    cpu.set_de(word);
}

/// LD HL, u16
pub fn ld_hl_u16(cpu: &mut Cpu)
    requires
        old(cpu).wf(),
    ensures
        regs_only(
            *old(cpu),
            *final(cpu),
            (Registers { pc: w16(old(cpu).reg.pc + 2), ..old(cpu).reg }).with_hl(old(cpu).imm16()),
        ),
{
    let word = cpu.read_u16();
    cpu.set_hl(word);
}

/// LD SP, u16
pub fn ld_sp_u16(cpu: &mut Cpu)
    requires
        old(cpu).wf(),
    ensures
        regs_only(
            *old(cpu),
            *final(cpu),
            (Registers { sp: old(cpu).imm16(), pc: w16(old(cpu).reg.pc + 2), ..old(cpu).reg }),
        ),
{
    cpu.reg.sp = cpu.read_u16();
}

/// LD [BC], A
pub fn ld_mbc_a(cpu: &mut Cpu)
    requires
        old(cpu).wf(),
    ensures
        stores(*old(cpu), *final(cpu), old(cpu).reg, old(cpu).reg.bc(), old(cpu).reg.a),
{
    let addr = cpu.bc();
    cpu.mmu.write(addr, cpu.reg.a);
}

/// LD A, [BC]
pub fn ld_a_mbc(cpu: &mut Cpu)
    requires
        old(cpu).wf(),
    ensures
        regs_only(
            *old(cpu),
            *final(cpu),
            (Registers { a: old(cpu).mem(old(cpu).reg.bc()), ..old(cpu).reg }),
        ),
{
    let byte = cpu.mmu.read(cpu.bc());
    cpu.reg.a = byte;
}

/// LD [DE], A
pub fn ld_mde_a(cpu: &mut Cpu)
    requires
        old(cpu).wf(),
    ensures
        stores(*old(cpu), *final(cpu), old(cpu).reg, old(cpu).reg.de(), old(cpu).reg.a),
{
    let addr = cpu.de();
    cpu.mmu.write(addr, cpu.reg.a);
}

/// LD A, [DE]
pub fn ld_a_mde(cpu: &mut Cpu)
    requires
        old(cpu).wf(),
    ensures
        regs_only(
            *old(cpu),
            *final(cpu),
            (Registers { a: old(cpu).mem(old(cpu).reg.de()), ..old(cpu).reg }),
        ),
{
    let byte = cpu.mmu.read(cpu.de());
    cpu.reg.a = byte;
}

/// LD [HL+], A: stores A at HL, then increments HL.
pub fn ld_mhli_a(cpu: &mut Cpu)
    requires
        old(cpu).wf(),
    ensures
        stores(
            *old(cpu),
            *final(cpu),
            old(cpu).reg.with_hl(w16(old(cpu).reg.hl() + 1)),
            old(cpu).reg.hl(),
            old(cpu).reg.a,
        ),
{
    let hl = cpu.hl();
    cpu.mmu.write(hl, cpu.reg.a);
    cpu.set_hl(hl.wrapping_add(1));
}

/// LD A, [HL+]: loads A from HL, then increments HL.
pub fn ld_a_mhli(cpu: &mut Cpu)
    requires
        old(cpu).wf(),
    ensures
        regs_only(
            *old(cpu),
            *final(cpu),
            (Registers { a: old(cpu).mem_hl(), ..old(cpu).reg }).with_hl(
                w16(old(cpu).reg.hl() + 1),
            ),
        ),
{
    let hl = cpu.hl();
    cpu.reg.a = cpu.mmu.read(hl);
    cpu.set_hl(hl.wrapping_add(1));
}

/// LD [HL-], A: stores A at HL, then decrements HL.
pub fn ld_mhld_a(cpu: &mut Cpu)
    requires
        old(cpu).wf(),
    ensures
        stores(
            *old(cpu),
            *final(cpu),
            old(cpu).reg.with_hl(w16(old(cpu).reg.hl() - 1)),
            old(cpu).reg.hl(),
            old(cpu).reg.a,
        ),
{
    let hl = cpu.hl();
    cpu.mmu.write(hl, cpu.reg.a);
    cpu.set_hl(hl.wrapping_sub(1));
}

/// LD A, [HL-]: loads A from HL, then decrements HL.
pub fn ld_a_mhld(cpu: &mut Cpu)
    requires
        old(cpu).wf(),
    ensures
        regs_only(
            *old(cpu),
            *final(cpu),
            (Registers { a: old(cpu).mem_hl(), ..old(cpu).reg }).with_hl(
                w16(old(cpu).reg.hl() - 1),
            ),
        ),
{
    let hl = cpu.hl();
    cpu.reg.a = cpu.mmu.read(hl);
    cpu.set_hl(hl.wrapping_sub(1));
}

/// LD [u16], SP: stores SP little-endian at the operand address.
pub fn ld_mu16_sp(cpu: &mut Cpu)
    requires
        old(cpu).wf(),
    ensures
        moves(
            *old(cpu),
            *final(cpu),
            (Registers { pc: w16(old(cpu).reg.pc + 2), ..old(cpu).reg }),
            old(cpu).mmu@.update(old(cpu).imm16() as int, lo(old(cpu).reg.sp)).update(
                w16(old(cpu).imm16() + 1) as int,
                hi(old(cpu).reg.sp),
            ),
            0,
        ),
{
    let word = cpu.read_u16();
    cpu.mmu.write(word, (cpu.reg.sp % 0x100) as u8);
    cpu.mmu.write(word.wrapping_add(1), (cpu.reg.sp / 0x100) as u8);
}

/// LD [u16], A
pub fn ld_mu16_a(cpu: &mut Cpu)
    requires
        old(cpu).wf(),
    ensures
        stores(
            *old(cpu),
            *final(cpu),
            (Registers { pc: w16(old(cpu).reg.pc + 2), ..old(cpu).reg }),
            old(cpu).imm16(),
            old(cpu).reg.a,
        ),
{
    let word = cpu.read_u16();
    cpu.mmu.write(word, cpu.reg.a);
}

/// LD A, [u16]
pub fn ld_a_mu16(cpu: &mut Cpu)
    requires
        old(cpu).wf(),
    ensures
        regs_only(
            *old(cpu),
            *final(cpu),
            (Registers {
                a: old(cpu).mem(old(cpu).imm16()),
                pc: w16(old(cpu).reg.pc + 2),
                ..old(cpu).reg
            }),
        ),
{
    let word = cpu.read_u16();
    let byte = cpu.mmu.read(word);
    cpu.reg.a = byte;
}

/// LD [FF00+u8], A: stores A in the high page at the byte operand.
pub fn ld_mff00u8_a(cpu: &mut Cpu)
    requires
        old(cpu).wf(),
    ensures
        stores(
            *old(cpu),
            *final(cpu),
            (Registers { pc: w16(old(cpu).reg.pc + 1), ..old(cpu).reg }),
            (0xff00 + old(cpu).imm8()) as u16,
            old(cpu).reg.a,
        ),
{
    let byte = cpu.read_u8();
    cpu.mmu.write(HIGH_PAGE + byte as u16, cpu.reg.a);
}

/// LD [FF00+C], A
pub fn ld_mff00c_a(cpu: &mut Cpu)
    requires
        old(cpu).wf(),
    ensures
        stores(
            *old(cpu),
            *final(cpu),
            old(cpu).reg,
            (0xff00 + old(cpu).reg.c) as u16,
            old(cpu).reg.a,
        ),
{
    cpu.mmu.write(HIGH_PAGE + cpu.reg.c as u16, cpu.reg.a);
}

/// LD A, [FF00+u8]
pub fn ld_a_mff00u8(cpu: &mut Cpu)
    requires
        old(cpu).wf(),
    ensures
        regs_only(
            *old(cpu),
            *final(cpu),
            (Registers {
                a: old(cpu).mem((0xff00 + old(cpu).imm8()) as u16),
                pc: w16(old(cpu).reg.pc + 1),
                ..old(cpu).reg
            }),
        ),
{
    let byte = cpu.read_u8();
    cpu.reg.a = cpu.mmu.read(HIGH_PAGE + byte as u16);
}

/// LD A, [FF00+C]
pub fn ld_a_mff00c(cpu: &mut Cpu)
    requires
        old(cpu).wf(),
    ensures
        regs_only(
            *old(cpu),
            *final(cpu),
            (Registers { a: old(cpu).mem((0xff00 + old(cpu).reg.c) as u16), ..old(cpu).reg }),
        ),
{
    cpu.reg.a = cpu.mmu.read(HIGH_PAGE + cpu.reg.c as u16);
}

/// LD SP, HL
pub fn ld_sp_hl(cpu: &mut Cpu)
    requires
        old(cpu).wf(),
    ensures
        regs_only(*old(cpu), *final(cpu), (Registers { sp: old(cpu).reg.hl(), ..old(cpu).reg })),
{
    cpu.reg.sp = cpu.hl();
}

} // verus!