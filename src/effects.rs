//! What each opcode does: for each opcode the postcondition that its handler
//! proves, relating the processor before the handler (`pre`, with the opcode
//! bytes fetched) to the processor after it (`post`).
use vstd::prelude::*;

use crate::alu::with_f;
use crate::arith::{
    AluOp, add_hl_regs, alu_regs, daa_regs, dec_flags, dec_regs, displaced, inc_flags, inc_regs,
    sp_offset_flags,
};
use crate::bits::{Shift, acc_rotate_regs, bit_flags, shift_f, shift_regs, shift_value};
use crate::control::{
    CALL_TAKEN_TICKS, Cond, JUMP_TAKEN_TICKS, call_mem, call_regs, holds, jp_regs, jr_regs,
    ret_regs, surcharge,
};
use crate::cpu::{
    Cpu, Reg8, Registers, RunState, controls, hi, lo, moves, pushed, regs_only, stores, w16, w8,
    word_at,
};
use crate::flags::pack;

verus! {

/// The effect of primary operation `op`. The illegal encodings and the escape
/// byte change nothing.
#[verifier::opaque]
pub open spec fn primary_effect(op: u8, pre: Cpu, post: Cpu) -> bool {
    match op {
        0x00 => regs_only(pre, post, pre.reg),
        0x01 => regs_only(
            pre,
            post,
            (Registers { pc: w16(pre.reg.pc + 2), ..pre.reg }).with_bc(pre.imm16()),
        ),
        0x02 => stores(pre, post, pre.reg, pre.reg.bc(), pre.reg.a),
        0x03 => regs_only(pre, post, pre.reg.with_bc(w16(pre.reg.bc() + 1))),
        0x04 => regs_only(pre, post, inc_regs(pre.reg, Reg8::B)),
        0x05 => regs_only(pre, post, dec_regs(pre.reg, Reg8::B)),
        0x06 => regs_only(
            pre,
            post,
            (Registers { b: pre.imm8(), pc: w16(pre.reg.pc + 1), ..pre.reg }),
        ),
        0x07 => regs_only(pre, post, acc_rotate_regs(pre.reg, Shift::Rlc)),
        0x08 => moves(
            pre,
            post,
            (Registers { pc: w16(pre.reg.pc + 2), ..pre.reg }),
            pre.mmu@.update(pre.imm16() as int, lo(pre.reg.sp)).update(
                w16(pre.imm16() + 1) as int,
                hi(pre.reg.sp),
            ),
            0,
        ),
        0x09 => regs_only(pre, post, add_hl_regs(pre.reg, pre.reg.bc())),
        0x0a => regs_only(pre, post, (Registers { a: pre.mem(pre.reg.bc()), ..pre.reg })),
        0x0b => regs_only(pre, post, pre.reg.with_bc(w16(pre.reg.bc() - 1))),
        0x0c => regs_only(pre, post, inc_regs(pre.reg, Reg8::C)),
        0x0d => regs_only(pre, post, dec_regs(pre.reg, Reg8::C)),
        0x0e => regs_only(
            pre,
            post,
            (Registers { c: pre.imm8(), pc: w16(pre.reg.pc + 1), ..pre.reg }),
        ),
        0x0f => regs_only(pre, post, acc_rotate_regs(pre.reg, Shift::Rrc)),
        0x10 => controls(pre, post, RunState::Stopped, pre.ime),
        0x11 => regs_only(
            pre,
            post,
            (Registers { pc: w16(pre.reg.pc + 2), ..pre.reg }).with_de(pre.imm16()),
        ),
        0x12 => stores(pre, post, pre.reg, pre.reg.de(), pre.reg.a),
        0x13 => regs_only(pre, post, pre.reg.with_de(w16(pre.reg.de() + 1))),
        0x14 => regs_only(pre, post, inc_regs(pre.reg, Reg8::D)),
        0x15 => regs_only(pre, post, dec_regs(pre.reg, Reg8::D)),
        0x16 => regs_only(
            pre,
            post,
            (Registers { d: pre.imm8(), pc: w16(pre.reg.pc + 1), ..pre.reg }),
        ),
        0x17 => regs_only(pre, post, acc_rotate_regs(pre.reg, Shift::Rl)),
        0x18 => regs_only(pre, post, jr_regs(pre, true)),
        0x19 => regs_only(pre, post, add_hl_regs(pre.reg, pre.reg.de())),
        0x1a => regs_only(pre, post, (Registers { a: pre.mem(pre.reg.de()), ..pre.reg })),
        0x1b => regs_only(pre, post, pre.reg.with_de(w16(pre.reg.de() - 1))),
        0x1c => regs_only(pre, post, inc_regs(pre.reg, Reg8::E)),
        0x1d => regs_only(pre, post, dec_regs(pre.reg, Reg8::E)),
        0x1e => regs_only(
            pre,
            post,
            (Registers { e: pre.imm8(), pc: w16(pre.reg.pc + 1), ..pre.reg }),
        ),
        0x1f => regs_only(pre, post, acc_rotate_regs(pre.reg, Shift::Rr)),
        0x20 => moves(
            pre,
            post,
            jr_regs(pre, holds(Cond::NZ, pre.reg.f)),
            pre.mmu@,
            surcharge(holds(Cond::NZ, pre.reg.f), JUMP_TAKEN_TICKS),
        ),
        0x21 => regs_only(
            pre,
            post,
            (Registers { pc: w16(pre.reg.pc + 2), ..pre.reg }).with_hl(pre.imm16()),
        ),
        0x22 => stores(pre, post, pre.reg.with_hl(w16(pre.reg.hl() + 1)), pre.reg.hl(), pre.reg.a),
        0x23 => regs_only(pre, post, pre.reg.with_hl(w16(pre.reg.hl() + 1))),
        0x24 => regs_only(pre, post, inc_regs(pre.reg, Reg8::H)),
        0x25 => regs_only(pre, post, dec_regs(pre.reg, Reg8::H)),
        0x26 => regs_only(
            pre,
            post,
            (Registers { h: pre.imm8(), pc: w16(pre.reg.pc + 1), ..pre.reg }),
        ),
        0x27 => regs_only(pre, post, daa_regs(pre.reg)),
        0x28 => moves(
            pre,
            post,
            jr_regs(pre, holds(Cond::Z, pre.reg.f)),
            pre.mmu@,
            surcharge(holds(Cond::Z, pre.reg.f), JUMP_TAKEN_TICKS),
        ),
        0x29 => regs_only(pre, post, add_hl_regs(pre.reg, pre.reg.hl())),
        0x2a => regs_only(
            pre,
            post,
            (Registers { a: pre.mem_hl(), ..pre.reg }).with_hl(w16(pre.reg.hl() + 1)),
        ),
        0x2b => regs_only(pre, post, pre.reg.with_hl(w16(pre.reg.hl() - 1))),
        0x2c => regs_only(pre, post, inc_regs(pre.reg, Reg8::L)),
        0x2d => regs_only(pre, post, dec_regs(pre.reg, Reg8::L)),
        0x2e => regs_only(
            pre,
            post,
            (Registers { l: pre.imm8(), pc: w16(pre.reg.pc + 1), ..pre.reg }),
        ),
        0x2f => regs_only(
            pre,
            post,
            (Registers {
                a: !pre.reg.a,
                f: pack(pre.reg.zero(), true, true, pre.reg.carry()),
                ..pre.reg
            }),
        ),
        0x30 => moves(
            pre,
            post,
            jr_regs(pre, holds(Cond::NC, pre.reg.f)),
            pre.mmu@,
            surcharge(holds(Cond::NC, pre.reg.f), JUMP_TAKEN_TICKS),
        ),
        0x31 => regs_only(
            pre,
            post,
            (Registers { sp: pre.imm16(), pc: w16(pre.reg.pc + 2), ..pre.reg }),
        ),
        0x32 => stores(pre, post, pre.reg.with_hl(w16(pre.reg.hl() - 1)), pre.reg.hl(), pre.reg.a),
        0x33 => regs_only(pre, post, (Registers { sp: w16(pre.reg.sp + 1), ..pre.reg })),
        0x34 => stores(
            pre,
            post,
            with_f(pre.reg, inc_flags(pre.mem_hl(), pre.reg.f)),
            pre.reg.hl(),
            w8(pre.mem_hl() + 1),
        ),
        0x35 => stores(
            pre,
            post,
            with_f(pre.reg, dec_flags(pre.mem_hl(), pre.reg.f)),
            pre.reg.hl(),
            w8(pre.mem_hl() - 1),
        ),
        0x36 => stores(
            pre,
            post,
            (Registers { pc: w16(pre.reg.pc + 1), ..pre.reg }),
            pre.reg.hl(),
            pre.imm8(),
        ),
        0x37 => regs_only(pre, post, pre.reg.with_flags(pre.reg.zero(), false, false, true)),
        0x38 => moves(
            pre,
            post,
            jr_regs(pre, holds(Cond::C, pre.reg.f)),
            pre.mmu@,
            surcharge(holds(Cond::C, pre.reg.f), JUMP_TAKEN_TICKS),
        ),
        0x39 => regs_only(pre, post, add_hl_regs(pre.reg, pre.reg.sp)),
        0x3a => regs_only(
            pre,
            post,
            (Registers { a: pre.mem_hl(), ..pre.reg }).with_hl(w16(pre.reg.hl() - 1)),
        ),
        0x3b => regs_only(pre, post, (Registers { sp: w16(pre.reg.sp - 1), ..pre.reg })),
        0x3c => regs_only(pre, post, inc_regs(pre.reg, Reg8::A)),
        0x3d => regs_only(pre, post, dec_regs(pre.reg, Reg8::A)),
        0x3e => regs_only(
            pre,
            post,
            (Registers { a: pre.imm8(), pc: w16(pre.reg.pc + 1), ..pre.reg }),
        ),
        0x3f => regs_only(
            pre,
            post,
            pre.reg.with_flags(pre.reg.zero(), false, false, !pre.reg.carry()),
        ),
        0x40 => regs_only(pre, post, (Registers { b: pre.reg.b, ..pre.reg })),
        0x41 => regs_only(pre, post, (Registers { b: pre.reg.c, ..pre.reg })),
        0x42 => regs_only(pre, post, (Registers { b: pre.reg.d, ..pre.reg })),
        0x43 => regs_only(pre, post, (Registers { b: pre.reg.e, ..pre.reg })),
        0x44 => regs_only(pre, post, (Registers { b: pre.reg.h, ..pre.reg })),
        0x45 => regs_only(pre, post, (Registers { b: pre.reg.l, ..pre.reg })),
        0x46 => regs_only(pre, post, (Registers { b: pre.mem_hl(), ..pre.reg })),
        0x47 => regs_only(pre, post, (Registers { b: pre.reg.a, ..pre.reg })),
        0x48 => regs_only(pre, post, (Registers { c: pre.reg.b, ..pre.reg })),
        0x49 => regs_only(pre, post, (Registers { c: pre.reg.c, ..pre.reg })),
        0x4a => regs_only(pre, post, (Registers { c: pre.reg.d, ..pre.reg })),
        0x4b => regs_only(pre, post, (Registers { c: pre.reg.e, ..pre.reg })),
        0x4c => regs_only(pre, post, (Registers { c: pre.reg.h, ..pre.reg })),
        0x4d => regs_only(pre, post, (Registers { c: pre.reg.l, ..pre.reg })),
        0x4e => regs_only(pre, post, (Registers { c: pre.mem_hl(), ..pre.reg })),
        0x4f => regs_only(pre, post, (Registers { c: pre.reg.a, ..pre.reg })),
        0x50 => regs_only(pre, post, (Registers { d: pre.reg.b, ..pre.reg })),
        0x51 => regs_only(pre, post, (Registers { d: pre.reg.c, ..pre.reg })),
        0x52 => regs_only(pre, post, (Registers { d: pre.reg.d, ..pre.reg })),
        0x53 => regs_only(pre, post, (Registers { d: pre.reg.e, ..pre.reg })),
        0x54 => regs_only(pre, post, (Registers { d: pre.reg.h, ..pre.reg })),
        0x55 => regs_only(pre, post, (Registers { d: pre.reg.l, ..pre.reg })),
        0x56 => regs_only(pre, post, (Registers { d: pre.mem_hl(), ..pre.reg })),
        0x57 => regs_only(pre, post, (Registers { d: pre.reg.a, ..pre.reg })),
        0x58 => regs_only(pre, post, (Registers { e: pre.reg.b, ..pre.reg })),
        0x59 => regs_only(pre, post, (Registers { e: pre.reg.c, ..pre.reg })),
        0x5a => regs_only(pre, post, (Registers { e: pre.reg.d, ..pre.reg })),
        0x5b => regs_only(pre, post, (Registers { e: pre.reg.e, ..pre.reg })),
        0x5c => regs_only(pre, post, (Registers { e: pre.reg.h, ..pre.reg })),
        0x5d => regs_only(pre, post, (Registers { e: pre.reg.l, ..pre.reg })),
        0x5e => regs_only(pre, post, (Registers { e: pre.mem_hl(), ..pre.reg })),
        0x5f => regs_only(pre, post, (Registers { e: pre.reg.a, ..pre.reg })),
        0x60 => regs_only(pre, post, (Registers { h: pre.reg.b, ..pre.reg })),
        0x61 => regs_only(pre, post, (Registers { h: pre.reg.c, ..pre.reg })),
        0x62 => regs_only(pre, post, (Registers { h: pre.reg.d, ..pre.reg })),
        0x63 => regs_only(pre, post, (Registers { h: pre.reg.e, ..pre.reg })),
        0x64 => regs_only(pre, post, (Registers { h: pre.reg.h, ..pre.reg })),
        0x65 => regs_only(pre, post, (Registers { h: pre.reg.l, ..pre.reg })),
        0x66 => regs_only(pre, post, (Registers { h: pre.mem_hl(), ..pre.reg })),
        0x67 => regs_only(pre, post, (Registers { h: pre.reg.a, ..pre.reg })),
        0x68 => regs_only(pre, post, (Registers { l: pre.reg.b, ..pre.reg })),
        0x69 => regs_only(pre, post, (Registers { l: pre.reg.c, ..pre.reg })),
        0x6a => regs_only(pre, post, (Registers { l: pre.reg.d, ..pre.reg })),
        0x6b => regs_only(pre, post, (Registers { l: pre.reg.e, ..pre.reg })),
        0x6c => regs_only(pre, post, (Registers { l: pre.reg.h, ..pre.reg })),
        0x6d => regs_only(pre, post, (Registers { l: pre.reg.l, ..pre.reg })),
        0x6e => regs_only(pre, post, (Registers { l: pre.mem_hl(), ..pre.reg })),
        0x6f => regs_only(pre, post, (Registers { l: pre.reg.a, ..pre.reg })),
        0x70 => stores(pre, post, pre.reg, pre.reg.hl(), pre.reg.b),
        0x71 => stores(pre, post, pre.reg, pre.reg.hl(), pre.reg.c),
        0x72 => stores(pre, post, pre.reg, pre.reg.hl(), pre.reg.d),
        0x73 => stores(pre, post, pre.reg, pre.reg.hl(), pre.reg.e),
        0x74 => stores(pre, post, pre.reg, pre.reg.hl(), pre.reg.h),
        0x75 => stores(pre, post, pre.reg, pre.reg.hl(), pre.reg.l),
        0x76 => controls(pre, post, RunState::Halted, pre.ime),
        0x77 => stores(pre, post, pre.reg, pre.reg.hl(), pre.reg.a),
        0x78 => regs_only(pre, post, (Registers { a: pre.reg.b, ..pre.reg })),
        0x79 => regs_only(pre, post, (Registers { a: pre.reg.c, ..pre.reg })),
        0x7a => regs_only(pre, post, (Registers { a: pre.reg.d, ..pre.reg })),
        0x7b => regs_only(pre, post, (Registers { a: pre.reg.e, ..pre.reg })),
        0x7c => regs_only(pre, post, (Registers { a: pre.reg.h, ..pre.reg })),
        0x7d => regs_only(pre, post, (Registers { a: pre.reg.l, ..pre.reg })),
        0x7e => regs_only(pre, post, (Registers { a: pre.mem_hl(), ..pre.reg })),
        0x7f => regs_only(pre, post, (Registers { a: pre.reg.a, ..pre.reg })),
        0x80 => regs_only(pre, post, alu_regs(pre.reg, AluOp::Add, pre.reg.b)),
        0x81 => regs_only(pre, post, alu_regs(pre.reg, AluOp::Add, pre.reg.c)),
        0x82 => regs_only(pre, post, alu_regs(pre.reg, AluOp::Add, pre.reg.d)),
        0x83 => regs_only(pre, post, alu_regs(pre.reg, AluOp::Add, pre.reg.e)),
        0x84 => regs_only(pre, post, alu_regs(pre.reg, AluOp::Add, pre.reg.h)),
        0x85 => regs_only(pre, post, alu_regs(pre.reg, AluOp::Add, pre.reg.l)),
        0x86 => regs_only(pre, post, alu_regs(pre.reg, AluOp::Add, pre.mem_hl())),
        0x87 => regs_only(pre, post, alu_regs(pre.reg, AluOp::Add, pre.reg.a)),
        0x88 => regs_only(pre, post, alu_regs(pre.reg, AluOp::Adc, pre.reg.b)),
        0x89 => regs_only(pre, post, alu_regs(pre.reg, AluOp::Adc, pre.reg.c)),
        0x8a => regs_only(pre, post, alu_regs(pre.reg, AluOp::Adc, pre.reg.d)),
        0x8b => regs_only(pre, post, alu_regs(pre.reg, AluOp::Adc, pre.reg.e)),
        0x8c => regs_only(pre, post, alu_regs(pre.reg, AluOp::Adc, pre.reg.h)),
        0x8d => regs_only(pre, post, alu_regs(pre.reg, AluOp::Adc, pre.reg.l)),
        0x8e => regs_only(pre, post, alu_regs(pre.reg, AluOp::Adc, pre.mem_hl())),
        0x8f => regs_only(pre, post, alu_regs(pre.reg, AluOp::Adc, pre.reg.a)),
        0x90 => regs_only(pre, post, alu_regs(pre.reg, AluOp::Sub, pre.reg.b)),
        0x91 => regs_only(pre, post, alu_regs(pre.reg, AluOp::Sub, pre.reg.c)),
        0x92 => regs_only(pre, post, alu_regs(pre.reg, AluOp::Sub, pre.reg.d)),
        0x93 => regs_only(pre, post, alu_regs(pre.reg, AluOp::Sub, pre.reg.e)),
        0x94 => regs_only(pre, post, alu_regs(pre.reg, AluOp::Sub, pre.reg.h)),
        0x95 => regs_only(pre, post, alu_regs(pre.reg, AluOp::Sub, pre.reg.l)),
        0x96 => regs_only(pre, post, alu_regs(pre.reg, AluOp::Sub, pre.mem_hl())),
        0x97 => regs_only(pre, post, alu_regs(pre.reg, AluOp::Sub, pre.reg.a)),
        0x98 => regs_only(pre, post, alu_regs(pre.reg, AluOp::Sbc, pre.reg.b)),
        0x99 => regs_only(pre, post, alu_regs(pre.reg, AluOp::Sbc, pre.reg.c)),
        0x9a => regs_only(pre, post, alu_regs(pre.reg, AluOp::Sbc, pre.reg.d)),
        0x9b => regs_only(pre, post, alu_regs(pre.reg, AluOp::Sbc, pre.reg.e)),
        0x9c => regs_only(pre, post, alu_regs(pre.reg, AluOp::Sbc, pre.reg.h)),
        0x9d => regs_only(pre, post, alu_regs(pre.reg, AluOp::Sbc, pre.reg.l)),
        0x9e => regs_only(pre, post, alu_regs(pre.reg, AluOp::Sbc, pre.mem_hl())),
        0x9f => regs_only(pre, post, alu_regs(pre.reg, AluOp::Sbc, pre.reg.a)),
        0xa0 => regs_only(pre, post, alu_regs(pre.reg, AluOp::And, pre.reg.b)),
        0xa1 => regs_only(pre, post, alu_regs(pre.reg, AluOp::And, pre.reg.c)),
        0xa2 => regs_only(pre, post, alu_regs(pre.reg, AluOp::And, pre.reg.d)),
        0xa3 => regs_only(pre, post, alu_regs(pre.reg, AluOp::And, pre.reg.e)),
        0xa4 => regs_only(pre, post, alu_regs(pre.reg, AluOp::And, pre.reg.h)),
        0xa5 => regs_only(pre, post, alu_regs(pre.reg, AluOp::And, pre.reg.l)),
        0xa6 => regs_only(pre, post, alu_regs(pre.reg, AluOp::And, pre.mem_hl())),
        0xa7 => regs_only(pre, post, alu_regs(pre.reg, AluOp::And, pre.reg.a)),
        0xa8 => regs_only(pre, post, alu_regs(pre.reg, AluOp::Xor, pre.reg.b)),
        0xa9 => regs_only(pre, post, alu_regs(pre.reg, AluOp::Xor, pre.reg.c)),
        0xaa => regs_only(pre, post, alu_regs(pre.reg, AluOp::Xor, pre.reg.d)),
        0xab => regs_only(pre, post, alu_regs(pre.reg, AluOp::Xor, pre.reg.e)),
        0xac => regs_only(pre, post, alu_regs(pre.reg, AluOp::Xor, pre.reg.h)),
        0xad => regs_only(pre, post, alu_regs(pre.reg, AluOp::Xor, pre.reg.l)),
        0xae => regs_only(pre, post, alu_regs(pre.reg, AluOp::Xor, pre.mem_hl())),
        0xaf => regs_only(pre, post, alu_regs(pre.reg, AluOp::Xor, pre.reg.a)),
        0xb0 => regs_only(pre, post, alu_regs(pre.reg, AluOp::Or, pre.reg.b)),
        0xb1 => regs_only(pre, post, alu_regs(pre.reg, AluOp::Or, pre.reg.c)),
        0xb2 => regs_only(pre, post, alu_regs(pre.reg, AluOp::Or, pre.reg.d)),
        0xb3 => regs_only(pre, post, alu_regs(pre.reg, AluOp::Or, pre.reg.e)),
        0xb4 => regs_only(pre, post, alu_regs(pre.reg, AluOp::Or, pre.reg.h)),
        0xb5 => regs_only(pre, post, alu_regs(pre.reg, AluOp::Or, pre.reg.l)),
        0xb6 => regs_only(pre, post, alu_regs(pre.reg, AluOp::Or, pre.mem_hl())),
        0xb7 => regs_only(pre, post, alu_regs(pre.reg, AluOp::Or, pre.reg.a)),
        0xb8 => regs_only(pre, post, alu_regs(pre.reg, AluOp::Cp, pre.reg.b)),
        0xb9 => regs_only(pre, post, alu_regs(pre.reg, AluOp::Cp, pre.reg.c)),
        0xba => regs_only(pre, post, alu_regs(pre.reg, AluOp::Cp, pre.reg.d)),
        0xbb => regs_only(pre, post, alu_regs(pre.reg, AluOp::Cp, pre.reg.e)),
        0xbc => regs_only(pre, post, alu_regs(pre.reg, AluOp::Cp, pre.reg.h)),
        0xbd => regs_only(pre, post, alu_regs(pre.reg, AluOp::Cp, pre.reg.l)),
        0xbe => regs_only(pre, post, alu_regs(pre.reg, AluOp::Cp, pre.mem_hl())),
        0xbf => regs_only(pre, post, alu_regs(pre.reg, AluOp::Cp, pre.reg.a)),
        0xc0 => moves(
            pre,
            post,
            ret_regs(pre, holds(Cond::NZ, pre.reg.f)),
            pre.mmu@,
            surcharge(holds(Cond::NZ, pre.reg.f), CALL_TAKEN_TICKS),
        ),
        0xc1 => regs_only(
            pre,
            post,
            (Registers { sp: w16(pre.reg.sp + 2), ..pre.reg }).with_bc(
                word_at(pre.mmu@, pre.reg.sp),
            ),
        ),
        0xc2 => moves(
            pre,
            post,
            jp_regs(pre, holds(Cond::NZ, pre.reg.f)),
            pre.mmu@,
            surcharge(holds(Cond::NZ, pre.reg.f), JUMP_TAKEN_TICKS),
        ),
        0xc3 => regs_only(pre, post, jp_regs(pre, true)),
        0xc4 => moves(
            pre,
            post,
            call_regs(pre, holds(Cond::NZ, pre.reg.f)),
            call_mem(pre, holds(Cond::NZ, pre.reg.f)),
            surcharge(holds(Cond::NZ, pre.reg.f), CALL_TAKEN_TICKS),
        ),
        0xc5 => moves(
            pre,
            post,
            (Registers { sp: w16(pre.reg.sp - 2), ..pre.reg }),
            pushed(pre.mmu@, pre.reg.sp, pre.reg.bc()),
            0,
        ),
        0xc6 => regs_only(
            pre,
            post,
            alu_regs(
                (Registers { pc: w16(pre.reg.pc + 1), ..pre.reg }),
                AluOp::Add,
                pre.imm8(),
            ),
        ),
        0xc7 => moves(
            pre,
            post,
            (Registers { pc: 0x00, sp: w16(pre.reg.sp - 2), ..pre.reg }),
            pushed(pre.mmu@, pre.reg.sp, pre.reg.pc),
            0,
        ),
        0xc8 => moves(
            pre,
            post,
            ret_regs(pre, holds(Cond::Z, pre.reg.f)),
            pre.mmu@,
            surcharge(holds(Cond::Z, pre.reg.f), CALL_TAKEN_TICKS),
        ),
        0xc9 => regs_only(pre, post, ret_regs(pre, true)),
        0xca => moves(
            pre,
            post,
            jp_regs(pre, holds(Cond::Z, pre.reg.f)),
            pre.mmu@,
            surcharge(holds(Cond::Z, pre.reg.f), JUMP_TAKEN_TICKS),
        ),
        0xcc => moves(
            pre,
            post,
            call_regs(pre, holds(Cond::Z, pre.reg.f)),
            call_mem(pre, holds(Cond::Z, pre.reg.f)),
            surcharge(holds(Cond::Z, pre.reg.f), CALL_TAKEN_TICKS),
        ),
        0xcd => moves(pre, post, call_regs(pre, true), call_mem(pre, true), 0),
        0xce => regs_only(
            pre,
            post,
            alu_regs(
                (Registers { pc: w16(pre.reg.pc + 1), ..pre.reg }),
                AluOp::Adc,
                pre.imm8(),
            ),
        ),
        0xcf => moves(
            pre,
            post,
            (Registers { pc: 0x08, sp: w16(pre.reg.sp - 2), ..pre.reg }),
            pushed(pre.mmu@, pre.reg.sp, pre.reg.pc),
            0,
        ),
        0xd0 => moves(
            pre,
            post,
            ret_regs(pre, holds(Cond::NC, pre.reg.f)),
            pre.mmu@,
            surcharge(holds(Cond::NC, pre.reg.f), CALL_TAKEN_TICKS),
        ),
        0xd1 => regs_only(
            pre,
            post,
            (Registers { sp: w16(pre.reg.sp + 2), ..pre.reg }).with_de(
                word_at(pre.mmu@, pre.reg.sp),
            ),
        ),
        0xd2 => moves(
            pre,
            post,
            jp_regs(pre, holds(Cond::NC, pre.reg.f)),
            pre.mmu@,
            surcharge(holds(Cond::NC, pre.reg.f), JUMP_TAKEN_TICKS),
        ),
        0xd4 => moves(
            pre,
            post,
            call_regs(pre, holds(Cond::NC, pre.reg.f)),
            call_mem(pre, holds(Cond::NC, pre.reg.f)),
            surcharge(holds(Cond::NC, pre.reg.f), CALL_TAKEN_TICKS),
        ),
        0xd5 => moves(
            pre,
            post,
            (Registers { sp: w16(pre.reg.sp - 2), ..pre.reg }),
            pushed(pre.mmu@, pre.reg.sp, pre.reg.de()),
            0,
        ),
        0xd6 => regs_only(
            pre,
            post,
            alu_regs(
                (Registers { pc: w16(pre.reg.pc + 1), ..pre.reg }),
                AluOp::Sub,
                pre.imm8(),
            ),
        ),
        0xd7 => moves(
            pre,
            post,
            (Registers { pc: 0x10, sp: w16(pre.reg.sp - 2), ..pre.reg }),
            pushed(pre.mmu@, pre.reg.sp, pre.reg.pc),
            0,
        ),
        0xd8 => moves(
            pre,
            post,
            ret_regs(pre, holds(Cond::C, pre.reg.f)),
            pre.mmu@,
            surcharge(holds(Cond::C, pre.reg.f), CALL_TAKEN_TICKS),
        ),
        0xd9 => {
            &&& post.wf()
            &&& post.reg == ret_regs(pre, true)
            &&& post.mmu@ == pre.mmu@
            &&& post.ticks == pre.ticks
            &&& post.ime
            &&& post.state == pre.state
        },
        0xda => moves(
            pre,
            post,
            jp_regs(pre, holds(Cond::C, pre.reg.f)),
            pre.mmu@,
            surcharge(holds(Cond::C, pre.reg.f), JUMP_TAKEN_TICKS),
        ),
        0xdc => moves(
            pre,
            post,
            call_regs(pre, holds(Cond::C, pre.reg.f)),
            call_mem(pre, holds(Cond::C, pre.reg.f)),
            surcharge(holds(Cond::C, pre.reg.f), CALL_TAKEN_TICKS),
        ),
        0xde => regs_only(
            pre,
            post,
            alu_regs(
                (Registers { pc: w16(pre.reg.pc + 1), ..pre.reg }),
                AluOp::Sbc,
                pre.imm8(),
            ),
        ),
        0xdf => moves(
            pre,
            post,
            (Registers { pc: 0x18, sp: w16(pre.reg.sp - 2), ..pre.reg }),
            pushed(pre.mmu@, pre.reg.sp, pre.reg.pc),
            0,
        ),
        0xe0 => stores(
            pre,
            post,
            (Registers { pc: w16(pre.reg.pc + 1), ..pre.reg }),
            (0xff00 + pre.imm8()) as u16,
            pre.reg.a,
        ),
        0xe1 => regs_only(
            pre,
            post,
            (Registers { sp: w16(pre.reg.sp + 2), ..pre.reg }).with_hl(
                word_at(pre.mmu@, pre.reg.sp),
            ),
        ),
        0xe2 => stores(pre, post, pre.reg, (0xff00 + pre.reg.c) as u16, pre.reg.a),
        0xe5 => moves(
            pre,
            post,
            (Registers { sp: w16(pre.reg.sp - 2), ..pre.reg }),
            pushed(pre.mmu@, pre.reg.sp, pre.reg.hl()),
            0,
        ),
        0xe6 => regs_only(
            pre,
            post,
            alu_regs(
                (Registers { pc: w16(pre.reg.pc + 1), ..pre.reg }),
                AluOp::And,
                pre.imm8(),
            ),
        ),
        0xe7 => moves(
            pre,
            post,
            (Registers { pc: 0x20, sp: w16(pre.reg.sp - 2), ..pre.reg }),
            pushed(pre.mmu@, pre.reg.sp, pre.reg.pc),
            0,
        ),
        0xe8 => regs_only(
            pre,
            post,
            (Registers {
                sp: displaced(pre.reg.sp, pre.imm8()),
                f: sp_offset_flags(pre.reg.sp, pre.imm8()),
                pc: w16(pre.reg.pc + 1),
                ..pre.reg
            }),
        ),
        0xe9 => regs_only(pre, post, (Registers { pc: pre.reg.hl(), ..pre.reg })),
        0xea => stores(
            pre,
            post,
            (Registers { pc: w16(pre.reg.pc + 2), ..pre.reg }),
            pre.imm16(),
            pre.reg.a,
        ),
        0xee => regs_only(
            pre,
            post,
            alu_regs(
                (Registers { pc: w16(pre.reg.pc + 1), ..pre.reg }),
                AluOp::Xor,
                pre.imm8(),
            ),
        ),
        0xef => moves(
            pre,
            post,
            (Registers { pc: 0x28, sp: w16(pre.reg.sp - 2), ..pre.reg }),
            pushed(pre.mmu@, pre.reg.sp, pre.reg.pc),
            0,
        ),
        0xf0 => regs_only(
            pre,
            post,
            (Registers {
                a: pre.mem((0xff00 + pre.imm8()) as u16),
                pc: w16(pre.reg.pc + 1),
                ..pre.reg
            }),
        ),
        0xf1 => regs_only(
            pre,
            post,
            (Registers { sp: w16(pre.reg.sp + 2), ..pre.reg }).with_af(
                word_at(pre.mmu@, pre.reg.sp),
            ),
        ),
        0xf2 => regs_only(
            pre,
            post,
            (Registers { a: pre.mem((0xff00 + pre.reg.c) as u16), ..pre.reg }),
        ),
        0xf3 => controls(pre, post, pre.state, false),
        0xf5 => moves(
            pre,
            post,
            (Registers { sp: w16(pre.reg.sp - 2), ..pre.reg }),
            pushed(pre.mmu@, pre.reg.sp, pre.reg.af()),
            0,
        ),
        0xf6 => regs_only(
            pre,
            post,
            alu_regs(
                (Registers { pc: w16(pre.reg.pc + 1), ..pre.reg }),
                AluOp::Or,
                pre.imm8(),
            ),
        ),
        0xf7 => moves(
            pre,
            post,
            (Registers { pc: 0x30, sp: w16(pre.reg.sp - 2), ..pre.reg }),
            pushed(pre.mmu@, pre.reg.sp, pre.reg.pc),
            0,
        ),
        0xf8 => regs_only(
            pre,
            post,
            (Registers {
                f: sp_offset_flags(pre.reg.sp, pre.imm8()),
                pc: w16(pre.reg.pc + 1),
                ..pre.reg
            }).with_hl(displaced(pre.reg.sp, pre.imm8())),
        ),
        0xf9 => regs_only(pre, post, (Registers { sp: pre.reg.hl(), ..pre.reg })),
        0xfa => regs_only(
            pre,
            post,
            (Registers { a: pre.mem(pre.imm16()), pc: w16(pre.reg.pc + 2), ..pre.reg }),
        ),
        0xfb => controls(pre, post, pre.state, true),
        0xfe => regs_only(
            pre,
            post,
            alu_regs(
                (Registers { pc: w16(pre.reg.pc + 1), ..pre.reg }),
                AluOp::Cp,
                pre.imm8(),
            ),
        ),
        0xff => moves(
            pre,
            post,
            (Registers { pc: 0x38, sp: w16(pre.reg.sp - 2), ..pre.reg }),
            pushed(pre.mmu@, pre.reg.sp, pre.reg.pc),
            0,
        ),
        _ => post == pre,
    }
}

/// The effect of prefixed operation `op`. The operations this core does not
/// carry out change nothing.
#[verifier::opaque]
pub open spec fn prefixed_effect(op: u8, pre: Cpu, post: Cpu) -> bool {
    match op {
        0x00 => regs_only(pre, post, shift_regs(pre.reg, Shift::Rlc, Reg8::B)),
        0x01 => regs_only(pre, post, shift_regs(pre.reg, Shift::Rlc, Reg8::C)),
        0x02 => regs_only(pre, post, shift_regs(pre.reg, Shift::Rlc, Reg8::D)),
        0x03 => regs_only(pre, post, shift_regs(pre.reg, Shift::Rlc, Reg8::E)),
        0x04 => regs_only(pre, post, shift_regs(pre.reg, Shift::Rlc, Reg8::H)),
        0x05 => regs_only(pre, post, shift_regs(pre.reg, Shift::Rlc, Reg8::L)),
        0x06 => stores(
            pre,
            post,
            with_f(pre.reg, shift_f(Shift::Rlc, pre.mem_hl(), pre.reg.carry())),
            pre.reg.hl(),
            shift_value(Shift::Rlc, pre.mem_hl(), pre.reg.carry()),
        ),
        0x07 => regs_only(pre, post, shift_regs(pre.reg, Shift::Rlc, Reg8::A)),
        0x08 => regs_only(pre, post, shift_regs(pre.reg, Shift::Rrc, Reg8::B)),
        0x09 => regs_only(pre, post, shift_regs(pre.reg, Shift::Rrc, Reg8::C)),
        0x0a => regs_only(pre, post, shift_regs(pre.reg, Shift::Rrc, Reg8::D)),
        0x0b => regs_only(pre, post, shift_regs(pre.reg, Shift::Rrc, Reg8::E)),
        0x0c => regs_only(pre, post, shift_regs(pre.reg, Shift::Rrc, Reg8::H)),
        0x0d => regs_only(pre, post, shift_regs(pre.reg, Shift::Rrc, Reg8::L)),
        0x0e => stores(
            pre,
            post,
            with_f(pre.reg, shift_f(Shift::Rrc, pre.mem_hl(), pre.reg.carry())),
            pre.reg.hl(),
            shift_value(Shift::Rrc, pre.mem_hl(), pre.reg.carry()),
        ),
        0x0f => regs_only(pre, post, shift_regs(pre.reg, Shift::Rrc, Reg8::A)),
        0x10 => regs_only(pre, post, shift_regs(pre.reg, Shift::Rl, Reg8::B)),
        0x11 => regs_only(pre, post, shift_regs(pre.reg, Shift::Rl, Reg8::C)),
        0x12 => regs_only(pre, post, shift_regs(pre.reg, Shift::Rl, Reg8::D)),
        0x13 => regs_only(pre, post, shift_regs(pre.reg, Shift::Rl, Reg8::E)),
        0x14 => regs_only(pre, post, shift_regs(pre.reg, Shift::Rl, Reg8::H)),
        0x15 => regs_only(pre, post, shift_regs(pre.reg, Shift::Rl, Reg8::L)),
        0x16 => stores(
            pre,
            post,
            with_f(pre.reg, shift_f(Shift::Rl, pre.mem_hl(), pre.reg.carry())),
            pre.reg.hl(),
            shift_value(Shift::Rl, pre.mem_hl(), pre.reg.carry()),
        ),
        0x17 => regs_only(pre, post, shift_regs(pre.reg, Shift::Rl, Reg8::A)),
        0x18 => regs_only(pre, post, shift_regs(pre.reg, Shift::Rr, Reg8::B)),
        0x19 => regs_only(pre, post, shift_regs(pre.reg, Shift::Rr, Reg8::C)),
        0x1a => regs_only(pre, post, shift_regs(pre.reg, Shift::Rr, Reg8::D)),
        0x1b => regs_only(pre, post, shift_regs(pre.reg, Shift::Rr, Reg8::E)),
        0x1c => regs_only(pre, post, shift_regs(pre.reg, Shift::Rr, Reg8::H)),
        0x1d => regs_only(pre, post, shift_regs(pre.reg, Shift::Rr, Reg8::L)),
        0x1e => stores(
            pre,
            post,
            with_f(pre.reg, shift_f(Shift::Rr, pre.mem_hl(), pre.reg.carry())),
            pre.reg.hl(),
            shift_value(Shift::Rr, pre.mem_hl(), pre.reg.carry()),
        ),
        0x1f => regs_only(pre, post, shift_regs(pre.reg, Shift::Rr, Reg8::A)),
        0x20 => regs_only(pre, post, shift_regs(pre.reg, Shift::Sla, Reg8::B)),
        0x21 => regs_only(pre, post, shift_regs(pre.reg, Shift::Sla, Reg8::C)),
        0x22 => regs_only(pre, post, shift_regs(pre.reg, Shift::Sla, Reg8::D)),
        0x23 => regs_only(pre, post, shift_regs(pre.reg, Shift::Sla, Reg8::E)),
        0x24 => regs_only(pre, post, shift_regs(pre.reg, Shift::Sla, Reg8::H)),
        0x25 => regs_only(pre, post, shift_regs(pre.reg, Shift::Sla, Reg8::L)),
        0x26 => stores(
            pre,
            post,
            with_f(pre.reg, shift_f(Shift::Sla, pre.mem_hl(), pre.reg.carry())),
            pre.reg.hl(),
            shift_value(Shift::Sla, pre.mem_hl(), pre.reg.carry()),
        ),
        0x27 => regs_only(pre, post, shift_regs(pre.reg, Shift::Sla, Reg8::A)),
        0x37 => regs_only(pre, post, shift_regs(pre.reg, Shift::Swap, Reg8::A)),
        0x38 => regs_only(pre, post, shift_regs(pre.reg, Shift::Srl, Reg8::B)),
        0x42 => regs_only(pre, post, with_f(pre.reg, bit_flags(pre.reg.d, 0, pre.reg.f))),
        0x7c => regs_only(pre, post, with_f(pre.reg, bit_flags(pre.reg.h, 7, pre.reg.f))),
        0x87 => regs_only(pre, post, (Registers { a: pre.reg.a & !(1u8 << 0u8), ..pre.reg })),
        0xbe => stores(pre, post, pre.reg, pre.reg.hl(), pre.mem_hl() & !(1u8 << 7u8)),
        0xde => stores(pre, post, pre.reg, pre.reg.hl(), pre.mem_hl() | (1u8 << 3u8)),
        0xe7 => regs_only(pre, post, (Registers { a: pre.reg.a | (1u8 << 4u8), ..pre.reg })),
        _ => post == pre,
    }
}

} // verus!
