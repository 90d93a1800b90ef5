//! Properties that relate several operations or hold of every input.
use vstd::prelude::*;

use crate::alu::{rlc_value, top_bit};
use crate::arith::{add_hl_regs, alu_regs, daa_high, daa_low, daa_regs, AluOp};
use crate::bits::{acc_rotate_regs, Shift};
use crate::control::holds;
use crate::cpu::{pushed, w16, word_at, Cpu, Registers, RunState};
use crate::dispatch::{branch_cond, branch_surcharge, primary_cost, step_result, Fault};
use crate::flags::{flags_valid, lemma_pack};

verus! {

/// Adding a register pair to HL leaves the Zero flag as it was, whatever its
/// value and the operands.
pub proof fn lemma_add_hl_keeps_zero(reg: Registers, x: u16)
    ensures
        add_hl_regs(reg, x).zero() == reg.zero(),
{
    lemma_pack(reg.zero(), false, reg.hl() % 4096 + x % 4096 > 4095, reg.hl() + x > 65535);
}

/// Pushing a value and popping it again gives the value back and restores the
/// stack pointer, for every stack pointer (the address space wraps around).
pub proof fn lemma_push_pop(m: Seq<u8>, sp: u16, v: u16)
    requires
        m.len() == 0x10000,
    ensures
        word_at(pushed(m, sp, v), w16(sp - 2)) == v,
        w16(w16(sp - 2) + 2) == sp,
{
}

/// The registers after `n` RLCA operations.
pub open spec fn rlca_times(reg: Registers, n: nat) -> Registers
    decreases n,
{
    if n == 0 {
        reg
    } else {
        acc_rotate_regs(rlca_times(reg, (n - 1) as nat), Shift::Rlc)
    }
}

/// Eight RLCA operations give A back, and each one sets Carry to the bit it
/// rotated out of A.
pub proof fn lemma_rlca_eight(reg: Registers)
    ensures
        rlca_times(reg, 8).a == reg.a,
        forall|i: nat|
            1 <= i <= 8 ==> #[trigger] rlca_times(reg, i).carry() == top_bit(
                rlca_times(reg, (i - 1) as nat).a,
            ),
{
    reveal_with_fuel(rlca_times, 9);
    let v = reg.a;
    assert(rlc_value(rlc_value(rlc_value(rlc_value(rlc_value(rlc_value(rlc_value(rlc_value(v))))))))
        == v) by (bit_vector);
    assert forall|i: nat| 1 <= i <= 8 implies #[trigger] rlca_times(reg, i).carry() == top_bit(
        rlca_times(reg, (i - 1) as nat).a,
    ) by {
        lemma_pack(false, false, false, top_bit(rlca_times(reg, (i - 1) as nat).a));
    }
}

/// A step on a conditional branch costs the table's base cost when the
/// condition fails, and the base cost plus the branch surcharge when it holds.
pub proof fn lemma_branch_cost(pre: Cpu, post: Cpu, r: Result<u64, Fault>)
    requires
        pre.state == RunState::Running,
        branch_cond(pre.imm8()) is Some,
        step_result(pre, post, r),
    ensures
        holds(branch_cond(pre.imm8())->0, pre.reg.f) ==> r == Ok::<u64, Fault>(
            (primary_cost(pre.imm8()) + branch_surcharge(pre.imm8())) as u64,
        ),
        !holds(branch_cond(pre.imm8())->0, pre.reg.f) ==> r == Ok::<u64, Fault>(
            primary_cost(pre.imm8()) as u64,
        ),
{
}

/// A byte whose two nibbles are decimal digits.
pub open spec fn is_bcd(x: u8) -> bool {
    x % 16 <= 9 && x / 16 <= 9
}

/// The number that a packed-BCD byte stands for.
pub open spec fn bcd_value(x: u8) -> int {
    10 * (x / 16) + x % 16
}

proof fn lemma_bcd_digits(x: u16, y: u16, s: u16, v: u16, low: u16, high: u16)
    by (bit_vector)
    requires
        x % 16 <= 9,
        x / 16 <= 9,
        y % 16 <= 9,
        y / 16 <= 9,
        s == ((x + y) % 256) as u16,
        ((x % 16 + y % 16) as u16 > 15 || s % 16 > 9) ==> low == 6,
        !((x % 16 + y % 16) as u16 > 15 || s % 16 > 9) ==> low == 0,
        ((x + y) as u16 > 255 || s > 0x99) ==> high == 0x60,
        !((x + y) as u16 > 255 || s > 0x99) ==> high == 0,
        v == ((s + low + high) % 256) as u16,
    ensures
        v % 16 <= 9,
        v / 16 <= 9,
        (10 * (v / 16) + v % 16) as u16 ==
            ((10 * (x / 16) + x % 16 + 10 * (y / 16) + y % 16) % 100) as u16,
        (high == 0x60) == ((10 * (x / 16) + x % 16 + 10 * (y / 16) + y % 16) as u16 > 99),
{
}

/// Adding two packed-BCD bytes and adjusting gives the packed-BCD sum modulo
/// 100, with Carry set exactly when the sum exceeds 99.
pub proof fn lemma_daa_after_add(reg: Registers, y: u8)
    requires
        flags_valid(reg.f),
        is_bcd(reg.a),
        is_bcd(y),
    ensures
        is_bcd(daa_regs(alu_regs(reg, AluOp::Add, y)).a),
        bcd_value(daa_regs(alu_regs(reg, AluOp::Add, y)).a) ==
            (bcd_value(reg.a) + bcd_value(y)) % 100,
        daa_regs(alu_regs(reg, AluOp::Add, y)).carry() == (bcd_value(reg.a) + bcd_value(y) > 99),
{
    let x = reg.a;
    let sum = alu_regs(reg, AluOp::Add, y);
    let h = x % 16 + y % 16 > 15;
    let c = x + y > 255;
    lemma_pack(sum.a == 0, false, h, c);
    let low = daa_low(sum.a, sum.f);
    let high = daa_high(sum.a, sum.f);
    let d = daa_regs(sum);
    lemma_pack(d.a == 0, false, false, high);
    lemma_bcd_digits(
        x as u16,
        y as u16,
        sum.a as u16,
        d.a as u16,
        if low {
            6
        } else {
            0
        },
        if high {
            0x60
        } else {
            0
        },
    );
}

} // verus!
