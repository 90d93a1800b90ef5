//! Control-flow and machine-control handlers: jumps, calls, returns,
//! restarts, the stack, halt/stop and the interrupt-master-enable.
use vstd::prelude::*;

use crate::arith::{displace, displaced};
use crate::cpu::{controls, moves, pushed, regs_only, w16, word_at, Cpu, Registers, RunState};
use crate::flags::{carry_of, zero_of};

verus! {

/// Extra ticks charged when a conditional relative or absolute jump is taken.
pub const JUMP_TAKEN_TICKS: u64 = 4;

/// Extra ticks charged when a conditional call or return is taken.
pub const CALL_TAKEN_TICKS: u64 = 12;

/// The branch conditions.
#[derive(Clone, Copy, Debug, PartialEq, Eq, Structural)]
pub enum Cond {
    /// Zero clear.
    NZ,
    /// Zero set.
    Z,
    /// Carry clear.
    NC,
    /// Carry set.
    C,
}

/// Whether condition `c` holds under flag byte `f`.
pub open spec fn holds(c: Cond, f: u8) -> bool {
    match c {
        Cond::NZ => !zero_of(f),
        Cond::Z => zero_of(f),
        Cond::NC => !carry_of(f),
        Cond::C => carry_of(f),
    }
}

/// Ticks added on top of the base cost: `n` when taken.
pub open spec fn surcharge(taken: bool, n: u64) -> int {
    if taken {
        n as int
    } else {
        0
    }
}

/// Registers after a relative jump whose displacement byte is at PC: PC
/// points past the operand and moves by it when taken.
pub open spec fn jr_regs(c: Cpu, taken: bool) -> Registers {
    let next = w16(c.reg.pc + 1);
    Registers {
        pc: if taken {
            displaced(next, c.imm8())
        } else {
            next
        },
        ..c.reg
    }
}

/// Registers after an absolute jump whose target is at PC.
pub open spec fn jp_regs(c: Cpu, taken: bool) -> Registers {
    Registers {
        pc: if taken {
            c.imm16()
        } else {
            w16(c.reg.pc + 2)
        },
        ..c.reg
    }
}

/// Registers after a call whose target is at PC.
pub open spec fn call_regs(c: Cpu, taken: bool) -> Registers {
    if taken {
        Registers { pc: c.imm16(), sp: w16(c.reg.sp - 2), ..c.reg }
    } else {
        Registers { pc: w16(c.reg.pc + 2), ..c.reg }
    }
}

/// Memory after a call whose target is at PC: the return address, past the
/// operand, is pushed when taken.
pub open spec fn call_mem(c: Cpu, taken: bool) -> Seq<u8> {
    if taken {
        pushed(c.mmu@, c.reg.sp, w16(c.reg.pc + 2))
    } else {
        c.mmu@
    }
}

/// Registers after a return: PC popped from the stack when taken.
pub open spec fn ret_regs(c: Cpu, taken: bool) -> Registers {
    if taken {
        Registers { pc: word_at(c.mmu@, c.reg.sp), sp: w16(c.reg.sp + 2), ..c.reg }
    } else {
        c.reg
    }
}

/// Reads a displacement byte and, when `taken`, jumps by it and charges the
/// surcharge.
pub fn jr_if(cpu: &mut Cpu, taken: bool)
    requires
        old(cpu).wf(),
    ensures
        moves(
            *old(cpu),
            *final(cpu),
            jr_regs(*old(cpu), taken),
            old(cpu).mmu@,
            surcharge(taken, JUMP_TAKEN_TICKS),
        ),
{
    let byte = cpu.read_u8();
    if !taken {
        return;
    }
    cpu.reg.pc = displace(cpu.reg.pc, byte);
    cpu.add_ticks(JUMP_TAKEN_TICKS);
}

/// Reads a target address and, when `taken`, jumps to it and charges the
/// surcharge.
pub fn jp_if(cpu: &mut Cpu, taken: bool)
    requires
        old(cpu).wf(),
    ensures
        moves(
            *old(cpu),
            *final(cpu),
            jp_regs(*old(cpu), taken),
            old(cpu).mmu@,
            surcharge(taken, JUMP_TAKEN_TICKS),
        ),
{
    let word = cpu.read_u16();
    if !taken {
        return;
    }
    cpu.reg.pc = word;
    cpu.add_ticks(JUMP_TAKEN_TICKS);
}

/// Reads a target address and, when `taken`, pushes the return address, jumps
/// and charges the surcharge.
pub fn call_if(cpu: &mut Cpu, taken: bool)
    requires
        old(cpu).wf(),
    ensures
        moves(
            *old(cpu),
            *final(cpu),
            call_regs(*old(cpu), taken),
            call_mem(*old(cpu), taken),
            surcharge(taken, CALL_TAKEN_TICKS),
        ),
{
    let word = cpu.read_u16();
    if !taken {
        return;
    }
    let pc = cpu.reg.pc;
    cpu.push_word(pc);
    cpu.reg.pc = word;
    cpu.add_ticks(CALL_TAKEN_TICKS);
}

/// When `taken`, pops PC and charges the surcharge.
pub fn ret_if(cpu: &mut Cpu, taken: bool)
    requires
        old(cpu).wf(),
    ensures
        moves(
            *old(cpu),
            *final(cpu),
            ret_regs(*old(cpu), taken),
            old(cpu).mmu@,
            surcharge(taken, CALL_TAKEN_TICKS),
        ),
{
    if !taken {
        return;
    }
    cpu.reg.pc = cpu.pop_word();
    cpu.add_ticks(CALL_TAKEN_TICKS);
}

/// Pushes PC and jumps to `addr`.
pub fn rst(cpu: &mut Cpu, addr: u16)
    requires
        old(cpu).wf(),
    ensures
        moves(
            *old(cpu),
            *final(cpu),
            (Registers { pc: addr, sp: w16(old(cpu).reg.sp - 2), ..old(cpu).reg }),
            pushed(old(cpu).mmu@, old(cpu).reg.sp, old(cpu).reg.pc),
            0,
        ),
{
    let pc = cpu.reg.pc;
    cpu.push_word(pc);
    cpu.reg.pc = addr;
}

/// NOP
pub fn nop(_cpu: &mut Cpu)
    requires
        old(_cpu).wf(),
    ensures
        regs_only(*old(_cpu), *final(_cpu), old(_cpu).reg),
{
}

/// JR i8: relative jump by the signed operand.
pub fn jr_i8(cpu: &mut Cpu)
    requires
        old(cpu).wf(),
    ensures
        regs_only(*old(cpu), *final(cpu), jr_regs(*old(cpu), true)),
{
    let byte = cpu.read_u8();
    cpu.reg.pc = displace(cpu.reg.pc, byte);
}

/// JP u16
pub fn jp_u16(cpu: &mut Cpu)
    requires
        old(cpu).wf(),
    ensures
        regs_only(*old(cpu), *final(cpu), jp_regs(*old(cpu), true)),
{
    let word = cpu.read_u16();
    cpu.reg.pc = word;
}

/// JP HL
pub fn jp_hl(cpu: &mut Cpu)
    requires
        old(cpu).wf(),
    ensures
        regs_only(*old(cpu), *final(cpu), (Registers { pc: old(cpu).reg.hl(), ..old(cpu).reg })),
{
    cpu.reg.pc = cpu.hl();
}

/// CALL u16: pushes the address after the operand and jumps.
pub fn call_u16(cpu: &mut Cpu)
    requires
        old(cpu).wf(),
    ensures
        moves(*old(cpu), *final(cpu), call_regs(*old(cpu), true), call_mem(*old(cpu), true), 0),
{
    let word = cpu.read_u16();
    let pc = cpu.reg.pc;
    cpu.push_word(pc);
    cpu.reg.pc = word;
}

/// RET
pub fn ret(cpu: &mut Cpu)
    requires
        old(cpu).wf(),
    ensures
        regs_only(*old(cpu), *final(cpu), ret_regs(*old(cpu), true)),
{
    cpu.reg.pc = cpu.pop_word();
}

/// RETI: returns and enables interrupts.
pub fn reti(cpu: &mut Cpu)
    requires
        old(cpu).wf(),
    ensures
        final(cpu).wf(),
        final(cpu).reg == ret_regs(*old(cpu), true),
        final(cpu).mmu@ == old(cpu).mmu@,
        final(cpu).ticks == old(cpu).ticks,
        final(cpu).ime,
        final(cpu).state == old(cpu).state,
{
    cpu.reg.pc = cpu.pop_word();
    cpu.enable_int();
}

/// JR NZ, i8
pub fn jr_nz_i8(cpu: &mut Cpu)
    requires
        old(cpu).wf(),
    ensures
        moves(
            *old(cpu),
            *final(cpu),
            jr_regs(*old(cpu), holds(Cond::NZ, old(cpu).reg.f)),
            old(cpu).mmu@,
            surcharge(holds(Cond::NZ, old(cpu).reg.f), JUMP_TAKEN_TICKS),
        ),
{
    let taken = !cpu.get_zero();
    jr_if(cpu, taken);
}

/// JP NZ, u16
pub fn jp_nz_u16(cpu: &mut Cpu)
    requires
        old(cpu).wf(),
    ensures
        moves(
            *old(cpu),
            *final(cpu),
            jp_regs(*old(cpu), holds(Cond::NZ, old(cpu).reg.f)),
            old(cpu).mmu@,
            surcharge(holds(Cond::NZ, old(cpu).reg.f), JUMP_TAKEN_TICKS),
        ),
{
    let taken = !cpu.get_zero();
    jp_if(cpu, taken);
}

/// CALL NZ, u16
pub fn call_nz_u16(cpu: &mut Cpu)
    requires
        old(cpu).wf(),
    ensures
        moves(
            *old(cpu),
            *final(cpu),
            call_regs(*old(cpu), holds(Cond::NZ, old(cpu).reg.f)),
            call_mem(*old(cpu), holds(Cond::NZ, old(cpu).reg.f)),
            surcharge(holds(Cond::NZ, old(cpu).reg.f), CALL_TAKEN_TICKS),
        ),
{
    let taken = !cpu.get_zero();
    call_if(cpu, taken);
}

/// RET NZ
pub fn ret_nz(cpu: &mut Cpu)
    requires
        old(cpu).wf(),
    ensures
        moves(
            *old(cpu),
            *final(cpu),
            ret_regs(*old(cpu), holds(Cond::NZ, old(cpu).reg.f)),
            old(cpu).mmu@,
            surcharge(holds(Cond::NZ, old(cpu).reg.f), CALL_TAKEN_TICKS),
        ),
{
    let taken = !cpu.get_zero();
    ret_if(cpu, taken);
}

/// JR Z, i8
pub fn jr_z_i8(cpu: &mut Cpu)
    requires
        old(cpu).wf(),
    ensures
        moves(
            *old(cpu),
            *final(cpu),
            jr_regs(*old(cpu), holds(Cond::Z, old(cpu).reg.f)),
            old(cpu).mmu@,
            surcharge(holds(Cond::Z, old(cpu).reg.f), JUMP_TAKEN_TICKS),
        ),
{
    let taken = cpu.get_zero();
    jr_if(cpu, taken);
}

/// JP Z, u16
pub fn jp_z_u16(cpu: &mut Cpu)
    requires
        old(cpu).wf(),
    ensures
        moves(
            *old(cpu),
            *final(cpu),
            jp_regs(*old(cpu), holds(Cond::Z, old(cpu).reg.f)),
            old(cpu).mmu@,
            surcharge(holds(Cond::Z, old(cpu).reg.f), JUMP_TAKEN_TICKS),
        ),
{
    let taken = cpu.get_zero();
    jp_if(cpu, taken);
}

/// CALL Z, u16
pub fn call_z_u16(cpu: &mut Cpu)
    requires
        old(cpu).wf(),
    ensures
        moves(
            *old(cpu),
            *final(cpu),
            call_regs(*old(cpu), holds(Cond::Z, old(cpu).reg.f)),
            call_mem(*old(cpu), holds(Cond::Z, old(cpu).reg.f)),
            surcharge(holds(Cond::Z, old(cpu).reg.f), CALL_TAKEN_TICKS),
        ),
{
    let taken = cpu.get_zero();
    call_if(cpu, taken);
}

/// RET Z
pub fn ret_z(cpu: &mut Cpu)
    requires
        old(cpu).wf(),
    ensures
        moves(
            *old(cpu),
            *final(cpu),
            ret_regs(*old(cpu), holds(Cond::Z, old(cpu).reg.f)),
            old(cpu).mmu@,
            surcharge(holds(Cond::Z, old(cpu).reg.f), CALL_TAKEN_TICKS),
        ),
{
    let taken = cpu.get_zero();
    ret_if(cpu, taken);
}

/// JR NC, i8
pub fn jr_nc_i8(cpu: &mut Cpu)
    requires
        old(cpu).wf(),
    ensures
        moves(
            *old(cpu),
            *final(cpu),
            jr_regs(*old(cpu), holds(Cond::NC, old(cpu).reg.f)),
            old(cpu).mmu@,
            surcharge(holds(Cond::NC, old(cpu).reg.f), JUMP_TAKEN_TICKS),
        ),
{
    let taken = !cpu.get_carry();
    jr_if(cpu, taken);
}

/// JP NC, u16
pub fn jp_nc_u16(cpu: &mut Cpu)
    requires
        old(cpu).wf(),
    ensures
        moves(
            *old(cpu),
            *final(cpu),
            jp_regs(*old(cpu), holds(Cond::NC, old(cpu).reg.f)),
            old(cpu).mmu@,
            surcharge(holds(Cond::NC, old(cpu).reg.f), JUMP_TAKEN_TICKS),
        ),
{
    let taken = !cpu.get_carry();
    jp_if(cpu, taken);
}

/// CALL NC, u16
pub fn call_nc_u16(cpu: &mut Cpu)
    requires
        old(cpu).wf(),
    ensures
        moves(
            *old(cpu),
            *final(cpu),
            call_regs(*old(cpu), holds(Cond::NC, old(cpu).reg.f)),
            call_mem(*old(cpu), holds(Cond::NC, old(cpu).reg.f)),
            surcharge(holds(Cond::NC, old(cpu).reg.f), CALL_TAKEN_TICKS),
        ),
{
    let taken = !cpu.get_carry();
    call_if(cpu, taken);
}

/// RET NC
pub fn ret_nc(cpu: &mut Cpu)
    requires
        old(cpu).wf(),
    ensures
        moves(
            *old(cpu),
            *final(cpu),
            ret_regs(*old(cpu), holds(Cond::NC, old(cpu).reg.f)),
            old(cpu).mmu@,
            surcharge(holds(Cond::NC, old(cpu).reg.f), CALL_TAKEN_TICKS),
        ),
{
    let taken = !cpu.get_carry();
    ret_if(cpu, taken);
}

/// JR C, i8
pub fn jr_c_i8(cpu: &mut Cpu)
    requires
        old(cpu).wf(),
    ensures
        moves(
            *old(cpu),
            *final(cpu),
            jr_regs(*old(cpu), holds(Cond::C, old(cpu).reg.f)),
            old(cpu).mmu@,
            surcharge(holds(Cond::C, old(cpu).reg.f), JUMP_TAKEN_TICKS),
        ),
{
    let taken = cpu.get_carry();
    jr_if(cpu, taken);
}

/// JP C, u16
pub fn jp_c_u16(cpu: &mut Cpu)
    requires
        old(cpu).wf(),
    ensures
        moves(
            *old(cpu),
            *final(cpu),
            jp_regs(*old(cpu), holds(Cond::C, old(cpu).reg.f)),
            old(cpu).mmu@,
            surcharge(holds(Cond::C, old(cpu).reg.f), JUMP_TAKEN_TICKS),
        ),
{
    let taken = cpu.get_carry();
    jp_if(cpu, taken);
}

/// CALL C, u16
pub fn call_c_u16(cpu: &mut Cpu)
    requires
        old(cpu).wf(),
    ensures
        moves(
            *old(cpu),
            *final(cpu),
            call_regs(*old(cpu), holds(Cond::C, old(cpu).reg.f)),
            call_mem(*old(cpu), holds(Cond::C, old(cpu).reg.f)),
            surcharge(holds(Cond::C, old(cpu).reg.f), CALL_TAKEN_TICKS),
        ),
{
    let taken = cpu.get_carry();
    call_if(cpu, taken);
}

/// RET C
pub fn ret_c(cpu: &mut Cpu)
    requires
        old(cpu).wf(),
    ensures
        moves(
            *old(cpu),
            *final(cpu),
            ret_regs(*old(cpu), holds(Cond::C, old(cpu).reg.f)),
            old(cpu).mmu@,
            surcharge(holds(Cond::C, old(cpu).reg.f), CALL_TAKEN_TICKS),
        ),
{
    let taken = cpu.get_carry();
    ret_if(cpu, taken);
}

/// RST 00h
pub fn rst_00h(cpu: &mut Cpu)
    requires
        old(cpu).wf(),
    ensures
        moves(
            *old(cpu),
            *final(cpu),
            (Registers { pc: 0x00, sp: w16(old(cpu).reg.sp - 2), ..old(cpu).reg }),
            pushed(old(cpu).mmu@, old(cpu).reg.sp, old(cpu).reg.pc),
            0,
        ),
{
    rst(cpu, 0x0000);
}

/// RST 08h
pub fn rst_08h(cpu: &mut Cpu)
    requires
        old(cpu).wf(),
    ensures
        moves(
            *old(cpu),
            *final(cpu),
            (Registers { pc: 0x08, sp: w16(old(cpu).reg.sp - 2), ..old(cpu).reg }),
            pushed(old(cpu).mmu@, old(cpu).reg.sp, old(cpu).reg.pc),
            0,
        ),
{
    rst(cpu, 0x0008);
}

/// RST 10h
pub fn rst_10h(cpu: &mut Cpu)
    requires
        old(cpu).wf(),
    ensures
        moves(
            *old(cpu),
            *final(cpu),
            (Registers { pc: 0x10, sp: w16(old(cpu).reg.sp - 2), ..old(cpu).reg }),
            pushed(old(cpu).mmu@, old(cpu).reg.sp, old(cpu).reg.pc),
            0,
        ),
{
    rst(cpu, 0x0010);
}

/// RST 18h
pub fn rst_18h(cpu: &mut Cpu)
    requires
        old(cpu).wf(),
    ensures
        moves(
            *old(cpu),
            *final(cpu),
            (Registers { pc: 0x18, sp: w16(old(cpu).reg.sp - 2), ..old(cpu).reg }),
            pushed(old(cpu).mmu@, old(cpu).reg.sp, old(cpu).reg.pc),
            0,
        ),
{
    rst(cpu, 0x0018);
}

/// RST 20h
pub fn rst_20h(cpu: &mut Cpu)
    requires
        old(cpu).wf(),
    ensures
        moves(
            *old(cpu),
            *final(cpu),
            (Registers { pc: 0x20, sp: w16(old(cpu).reg.sp - 2), ..old(cpu).reg }),
            pushed(old(cpu).mmu@, old(cpu).reg.sp, old(cpu).reg.pc),
            0,
        ),
{
    rst(cpu, 0x0020);
}

/// RST 28h
pub fn rst_28h(cpu: &mut Cpu)
    requires
        old(cpu).wf(),
    ensures
        moves(
            *old(cpu),
            *final(cpu),
            (Registers { pc: 0x28, sp: w16(old(cpu).reg.sp - 2), ..old(cpu).reg }),
            pushed(old(cpu).mmu@, old(cpu).reg.sp, old(cpu).reg.pc),
            0,
        ),
{
    rst(cpu, 0x0028);
}

/// RST 30h
pub fn rst_30h(cpu: &mut Cpu)
    requires
        old(cpu).wf(),
    ensures
        moves(
            *old(cpu),
            *final(cpu),
            (Registers { pc: 0x30, sp: w16(old(cpu).reg.sp - 2), ..old(cpu).reg }),
            pushed(old(cpu).mmu@, old(cpu).reg.sp, old(cpu).reg.pc),
            0,
        ),
{
    rst(cpu, 0x0030);
}

/// RST 38h
pub fn rst_38h(cpu: &mut Cpu)
    requires
        old(cpu).wf(),
    ensures
        moves(
            *old(cpu),
            *final(cpu),
            (Registers { pc: 0x38, sp: w16(old(cpu).reg.sp - 2), ..old(cpu).reg }),
            pushed(old(cpu).mmu@, old(cpu).reg.sp, old(cpu).reg.pc),
            0,
        ),
{
    rst(cpu, 0x0038);
}

/// PUSH BC
pub fn push_bc(cpu: &mut Cpu)
    requires
        old(cpu).wf(),
    ensures
        moves(
            *old(cpu),
            *final(cpu),
            (Registers { sp: w16(old(cpu).reg.sp - 2), ..old(cpu).reg }),
            pushed(old(cpu).mmu@, old(cpu).reg.sp, old(cpu).reg.bc()),
            0,
        ),
{
    let v = cpu.bc();
    cpu.push_word(v);
}

/// POP BC
pub fn pop_bc(cpu: &mut Cpu)
    requires
        old(cpu).wf(),
    ensures
        regs_only(
            *old(cpu),
            *final(cpu),
            (Registers { sp: w16(old(cpu).reg.sp + 2), ..old(cpu).reg }).with_bc(
                word_at(old(cpu).mmu@, old(cpu).reg.sp),
            ),
        ),
{
    let word = cpu.pop_word();
    cpu.set_bc(word);
}

/// PUSH DE
pub fn push_de(cpu: &mut Cpu)
    requires
        old(cpu).wf(),
    ensures
        moves(
            *old(cpu),
            *final(cpu),
            (Registers { sp: w16(old(cpu).reg.sp - 2), ..old(cpu).reg }),
            pushed(old(cpu).mmu@, old(cpu).reg.sp, old(cpu).reg.de()),
            0,
        ),
{
    let v = cpu.de();
    cpu.push_word(v);
}

/// POP DE
pub fn pop_de(cpu: &mut Cpu)
    requires
        old(cpu).wf(),
    ensures
        regs_only(
            *old(cpu),
            *final(cpu),
            (Registers { sp: w16(old(cpu).reg.sp + 2), ..old(cpu).reg }).with_de(
                word_at(old(cpu).mmu@, old(cpu).reg.sp),
            ),
        ),
{
    let word = cpu.pop_word();
    cpu.set_de(word);
}

/// PUSH HL
pub fn push_hl(cpu: &mut Cpu)
    requires
        old(cpu).wf(),
    ensures
        moves(
            *old(cpu),
            *final(cpu),
            (Registers { sp: w16(old(cpu).reg.sp - 2), ..old(cpu).reg }),
            pushed(old(cpu).mmu@, old(cpu).reg.sp, old(cpu).reg.hl()),
            0,
        ),
{
    let v = cpu.hl();
    cpu.push_word(v);
}

/// POP HL
pub fn pop_hl(cpu: &mut Cpu)
    requires
        old(cpu).wf(),
    ensures
        regs_only(
            *old(cpu),
            *final(cpu),
            (Registers { sp: w16(old(cpu).reg.sp + 2), ..old(cpu).reg }).with_hl(
                word_at(old(cpu).mmu@, old(cpu).reg.sp),
            ),
        ),
{
    let word = cpu.pop_word();
    cpu.set_hl(word);
}

/// PUSH AF
pub fn push_af(cpu: &mut Cpu)
    requires
        old(cpu).wf(),
    ensures
        moves(
            *old(cpu),
            *final(cpu),
            (Registers { sp: w16(old(cpu).reg.sp - 2), ..old(cpu).reg }),
            pushed(old(cpu).mmu@, old(cpu).reg.sp, old(cpu).reg.af()),
            0,
        ),
{
    let v = cpu.af();
    cpu.push_word(v);
}

/// POP AF; the low nibble of F stays zero.
pub fn pop_af(cpu: &mut Cpu)
    requires
        old(cpu).wf(),
    ensures
        regs_only(
            *old(cpu),
            *final(cpu),
            (Registers { sp: w16(old(cpu).reg.sp + 2), ..old(cpu).reg }).with_af(
                word_at(old(cpu).mmu@, old(cpu).reg.sp),
            ),
        ),
{
    let word = cpu.pop_word();
    cpu.set_af(word);
}

/// HALT
pub fn halt(cpu: &mut Cpu)
    requires
        old(cpu).wf(),
    ensures
        controls(*old(cpu), *final(cpu), RunState::Halted, old(cpu).ime),
{
    cpu.halt();
}

/// STOP
pub fn stop(cpu: &mut Cpu)
    requires
        old(cpu).wf(),
    ensures
        controls(*old(cpu), *final(cpu), RunState::Stopped, old(cpu).ime),
{
    cpu.stop();
}

/// DI
pub fn di(cpu: &mut Cpu)
    requires
        old(cpu).wf(),
    ensures
        controls(*old(cpu), *final(cpu), old(cpu).state, false),
{
    cpu.disable_int();
}

/// EI; takes effect at once.
pub fn ei(cpu: &mut Cpu)
    requires
        old(cpu).wf(),
    ensures
        controls(*old(cpu), *final(cpu), old(cpu).state, true),
{
    cpu.enable_int();
}

} // verus!