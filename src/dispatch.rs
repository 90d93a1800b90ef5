//! Opcode tables, dispatch and the fetch-execute step.
use vstd::prelude::*;

use crate::arith::{
    adc_a_a, adc_a_b, adc_a_c, adc_a_d, adc_a_e, adc_a_h, adc_a_l, adc_a_mhl, adc_a_u8, add_a_a,
    add_a_b, add_a_c, add_a_d, add_a_e, add_a_h, add_a_l, add_a_mhl, add_a_u8, add_hl_bc, add_hl_de,
    add_hl_hl, add_hl_sp, add_sp_i8, and_a_a, and_a_b, and_a_c, and_a_d, and_a_e, and_a_h, and_a_l,
    and_a_mhl, and_a_u8, ccf, cp_a_a, cp_a_b, cp_a_c, cp_a_d, cp_a_e, cp_a_h, cp_a_l, cp_a_mhl,
    cp_a_u8, cpl, daa, dec_a, dec_b, dec_bc, dec_c, dec_d, dec_de, dec_e, dec_h, dec_hl, dec_l,
    dec_mhl, dec_sp, inc_a, inc_b, inc_bc, inc_c, inc_d, inc_de, inc_e, inc_h, inc_hl, inc_l,
    inc_mhl, inc_sp, ld_hl_spi8, or_a_a, or_a_b, or_a_c, or_a_d, or_a_e, or_a_h, or_a_l, or_a_mhl,
    or_a_u8, sbc_a_a, sbc_a_b, sbc_a_c, sbc_a_d, sbc_a_e, sbc_a_h, sbc_a_l, sbc_a_mhl, sbc_a_u8,
    scf, sub_a_a, sub_a_b, sub_a_c, sub_a_d, sub_a_e, sub_a_h, sub_a_l, sub_a_mhl, sub_a_u8,
    xor_a_a, xor_a_b, xor_a_c, xor_a_d, xor_a_e, xor_a_h, xor_a_l, xor_a_mhl, xor_a_u8,
};
use crate::bits::{
    bit_0_d, bit_7_h, res_0_a, res_7_mhl, rl_a, rl_b, rl_c, rl_d, rl_e, rl_h, rl_l, rl_mhl, rla,
    rlc_a, rlc_b, rlc_c, rlc_d, rlc_e, rlc_h, rlc_l, rlc_mhl, rlca, rr_a, rr_b, rr_c, rr_d, rr_e,
    rr_h, rr_l, rr_mhl, rra, rrc_a, rrc_b, rrc_c, rrc_d, rrc_e, rrc_h, rrc_l, rrc_mhl, rrca,
    set_3_mhl, set_4_a, sla_a, sla_b, sla_c, sla_d, sla_e, sla_h, sla_l, sla_mhl, srl_b, swap_a,
};
use crate::control::{
    CALL_TAKEN_TICKS, Cond, JUMP_TAKEN_TICKS, call_c_u16, call_nc_u16, call_nz_u16, call_u16,
    call_z_u16, di, ei, halt, holds, jp_c_u16, jp_hl, jp_nc_u16, jp_nz_u16, jp_u16, jp_z_u16,
    jr_c_i8, jr_i8, jr_nc_i8, jr_nz_i8, jr_z_i8, nop, pop_af, pop_bc, pop_de, pop_hl, push_af,
    push_bc, push_de, push_hl, ret, ret_c, ret_nc, ret_nz, ret_z, reti, rst_00h, rst_08h, rst_10h,
    rst_18h, rst_20h, rst_28h, rst_30h, rst_38h, stop, surcharge,
};
use crate::cpu::{moves, regs_only, w16, w64, Cpu, Registers, RunState};
use crate::effects::{prefixed_effect, primary_effect};
use crate::load::{
    ld_a_a, ld_a_b, ld_a_c, ld_a_d, ld_a_e, ld_a_h, ld_a_l, ld_a_mbc, ld_a_mde, ld_a_mff00c,
    ld_a_mff00u8, ld_a_mhl, ld_a_mhld, ld_a_mhli, ld_a_mu16, ld_a_u8, ld_b_a, ld_b_b, ld_b_c,
    ld_b_d, ld_b_e, ld_b_h, ld_b_l, ld_b_mhl, ld_b_u8, ld_bc_u16, ld_c_a, ld_c_b, ld_c_c, ld_c_d,
    ld_c_e, ld_c_h, ld_c_l, ld_c_mhl, ld_c_u8, ld_d_a, ld_d_b, ld_d_c, ld_d_d, ld_d_e, ld_d_h,
    ld_d_l, ld_d_mhl, ld_d_u8, ld_de_u16, ld_e_a, ld_e_b, ld_e_c, ld_e_d, ld_e_e, ld_e_h, ld_e_l,
    ld_e_mhl, ld_e_u8, ld_h_a, ld_h_b, ld_h_c, ld_h_d, ld_h_e, ld_h_h, ld_h_l, ld_h_mhl, ld_h_u8,
    ld_hl_u16, ld_l_a, ld_l_b, ld_l_c, ld_l_d, ld_l_e, ld_l_h, ld_l_l, ld_l_mhl, ld_l_u8, ld_mbc_a,
    ld_mde_a, ld_mff00c_a, ld_mff00u8_a, ld_mhl_a, ld_mhl_b, ld_mhl_c, ld_mhl_d, ld_mhl_e, ld_mhl_h,
    ld_mhl_l, ld_mhl_u8, ld_mhld_a, ld_mhli_a, ld_mu16_a, ld_mu16_sp, ld_sp_hl, ld_sp_u16,
};

verus! {

/// The escape byte that selects the prefixed table.
pub const PREFIX: u8 = 0xcb;

/// Ticks charged for a step while halted or stopped.
pub const IDLE_TICKS: u64 = 4;

/// Why execution cannot go on.
#[derive(Clone, Copy, Debug, PartialEq, Eq, Structural)]
pub enum Fault {
    /// An encoding with no meaning on the hardware.
    IllegalOpcode,
    /// A prefixed operation that this core does not carry out.
    UnimplementedOpcode,
}

/// What a table entry stands for.
#[derive(Clone, Copy, Debug, PartialEq, Eq, Structural)]
pub enum OpKind {
    Implemented,
    Illegal,
    Unimplemented,
    Prefix,
}

/// One entry of an opcode table.
#[derive(Clone, Copy, Debug)]
pub struct OpEntry {
    pub kind: OpKind,
    /// Base cost in ticks.
    pub cost: u8,
    pub mnemonic: &'static str,
}

/// The primary encodings with no meaning on the hardware.
pub open spec fn is_illegal(op: u8) -> bool {
    op == 0xd3 || op == 0xdb || op == 0xdd || op == 0xe3 || op == 0xe4 || op == 0xeb || op == 0xec
        || op == 0xed || op == 0xf4 || op == 0xfc || op == 0xfd
}

pub open spec fn primary_kind(op: u8) -> OpKind {
    if op == PREFIX {
        OpKind::Prefix
    } else if is_illegal(op) {
        OpKind::Illegal
    } else {
        OpKind::Implemented
    }
}

/// The prefixed operations that this core carries out.
pub open spec fn is_implemented_prefixed(op: u8) -> bool {
    op < 0x28 || op == 0x37 || op == 0x38 || op == 0x42 || op == 0x7c || op == 0x87 || op == 0xbe
        || op == 0xde || op == 0xe7
}

pub open spec fn prefixed_kind(op: u8) -> OpKind {
    if is_implemented_prefixed(op) {
        OpKind::Implemented
    } else {
        OpKind::Unimplemented
    }
}

/// Base cost of a prefixed operation, the escape byte included: 16 on the byte
/// at HL, 8 on a register, 4 where the core faults.
pub open spec fn prefixed_cost(op: u8) -> u8 {
    if !is_implemented_prefixed(op) {
        4
    } else if op % 8 == 6 {
        16
    } else {
        8
    }
}

/// Base cost of a primary operation. In the register rows a move or ALU
/// operation costs 4 and one on the byte at HL 8, except HALT and AND A, [HL];
/// elsewhere the costs are listed.
pub open spec fn primary_cost(op: u8) -> u8 {
    if 0x40 <= op < 0xc0 {
        if op == 0x76 || op == 0xa6 {
            4
        } else if 0x70 <= op < 0x78 || op % 8 == 6 {
            8
        } else {
            4
        }
    } else {
        match op {
            0x00 | 0x04 | 0x05 | 0x07 | 0x0c | 0x0d | 0x0f | 0x10 | 0x14 | 0x15
        | 0x17 | 0x1c | 0x1d | 0x1f | 0x24 | 0x25 | 0x27 | 0x2c | 0x2d | 0x2f
        | 0x37 | 0x3c | 0x3d | 0x3f | 0xcb | 0xd3 | 0xdb | 0xdd | 0xe3 | 0xe4
        | 0xe9 | 0xeb | 0xec | 0xed | 0xf3 | 0xf4 | 0xfb | 0xfc | 0xfd => 4,
            0x01 | 0x11 | 0x18 | 0x21 | 0x31 | 0x34 | 0x35 | 0x36 | 0xc1 | 0xc2
        | 0xc4 | 0xca | 0xcc | 0xd1 | 0xd2 | 0xd4 | 0xda | 0xdc | 0xe0 | 0xe1
        | 0xf0 | 0xf1 | 0xf8 => 12,
            0xc3 | 0xc5 | 0xc7 | 0xc9 | 0xcf | 0xd5 | 0xd7 | 0xd9 | 0xdf | 0xe5
        | 0xe7 | 0xe8 | 0xea | 0xef | 0xf5 | 0xf7 | 0xfa | 0xff => 16,
            0x08 => 20,
            0xcd => 24,
            _ => 8,
        }
    }
}

/// The condition of a conditional branch, `None` for any other operation.
pub open spec fn branch_cond(op: u8) -> Option<Cond> {
    match op {
        0x20 | 0xc2 | 0xc4 | 0xc0 => Some(Cond::NZ),
        0x28 | 0xca | 0xcc | 0xc8 => Some(Cond::Z),
        0x30 | 0xd2 | 0xd4 | 0xd0 => Some(Cond::NC),
        0x38 | 0xda | 0xdc | 0xd8 => Some(Cond::C),
        _ => None,
    }
}

/// Surcharge of a conditional branch when taken: relative and absolute jumps
/// pay less than calls and returns.
pub open spec fn branch_surcharge(op: u8) -> u64 {
    if op == 0x20 || op == 0x28 || op == 0x30 || op == 0x38 || op == 0xc2 || op == 0xca
        || op == 0xd2 || op == 0xda {
        JUMP_TAKEN_TICKS
    } else {
        CALL_TAKEN_TICKS
    }
}

/// Ticks a primary operation adds to its base cost under flag byte `f`: the
/// surcharge of a conditional branch whose condition holds.
pub open spec fn branch_extra(op: u8, f: u8) -> int {
    match branch_cond(op) {
        Some(c) => surcharge(holds(c, f), branch_surcharge(op)),
        None => 0,
    }
}

/// Run state after a primary operation.
pub open spec fn state_after(op: u8, s: RunState) -> RunState {
    if op == 0x76 {
        RunState::Halted
    } else if op == 0x10 {
        RunState::Stopped
    } else {
        s
    }
}

/// Interrupt-master-enable after a primary operation.
pub open spec fn ime_after(op: u8, ime: bool) -> bool {
    if op == 0xf3 {
        false
    } else if op == 0xfb || op == 0xd9 {
        true
    } else {
        ime
    }
}

/// Mnemonic of a primary operation.
pub open spec fn primary_mnemonic(op: u8) -> &'static str {
    match op {
        0x00 => "NOP",
        0x01 => "LD BC, u16",
        0x02 => "LD [BC], A",
        0x03 => "INC BC",
        0x04 => "INC B",
        0x05 => "DEC B",
        0x06 => "LD B, u8",
        0x07 => "RLCA",
        0x08 => "LD [u16], SP",
        0x09 => "ADD HL, BC",
        0x0a => "LD A, [BC]",
        0x0b => "DEC BC",
        0x0c => "INC C",
        0x0d => "DEC C",
        0x0e => "LD C, u8",
        0x0f => "RRCA",
        0x10 => "STOP",
        0x11 => "LD DE, u16",
        0x12 => "LD [DE], A",
        0x13 => "INC DE",
        0x14 => "INC D",
        0x15 => "DEC D",
        0x16 => "LD D, u8",
        0x17 => "RLA",
        0x18 => "JR i8",
        0x19 => "ADD HL, DE",
        0x1a => "LD A, [DE]",
        0x1b => "DEC DE",
        0x1c => "INC E",
        0x1d => "DEC E",
        0x1e => "LD E, u8",
        0x1f => "RRA",
        0x20 => "JR NZ, i8",
        0x21 => "LD HL, u16",
        0x22 => "LD [HL+], A",
        0x23 => "INC HL",
        0x24 => "INC H",
        0x25 => "DEC H",
        0x26 => "LD H, u8",
        0x27 => "DAA",
        0x28 => "JR Z, i8",
        0x29 => "ADD HL, HL",
        0x2a => "LD A, [HL+]",
        0x2b => "DEC HL",
        0x2c => "INC L",
        0x2d => "DEC L",
        0x2e => "LD L, u8",
        0x2f => "CPL",
        0x30 => "JR NC, i8",
        0x31 => "LD SP, u16",
        0x32 => "LD [HL-], A",
        0x33 => "INC SP",
        0x34 => "INC [HL]",
        0x35 => "DEC [HL]",
        0x36 => "LD [HL], u8",
        0x37 => "SCF",
        0x38 => "JR C, i8",
        0x39 => "ADD HL, SP",
        0x3a => "LD A, [HL-]",
        0x3b => "DEC SP",
        0x3c => "INC A",
        0x3d => "DEC A",
        0x3e => "LD A, u8",
        0x3f => "CCF",
        0x40 => "LD B, B",
        0x41 => "LD B, C",
        0x42 => "LD B, D",
        0x43 => "LD B, E",
        0x44 => "LD B, H",
        0x45 => "LD B, L",
        0x46 => "LD B, [HL]",
        0x47 => "LD B, A",
        0x48 => "LD C, B",
        0x49 => "LD C, C",
        0x4a => "LD C, D",
        0x4b => "LD C, E",
        0x4c => "LD C, H",
        0x4d => "LD C, L",
        0x4e => "LD C, [HL]",
        0x4f => "LD C, A",
        0x50 => "LD D, B",
        0x51 => "LD D, C",
        0x52 => "LD D, D",
        0x53 => "LD D, E",
        0x54 => "LD D, H",
        0x55 => "LD D, L",
        0x56 => "LD D, [HL]",
        0x57 => "LD D, A",
        0x58 => "LD E, B",
        0x59 => "LD E, C",
        0x5a => "LD E, D",
        0x5b => "LD E, E",
        0x5c => "LD E, H",
        0x5d => "LD E, L",
        0x5e => "LD E, [HL]",
        0x5f => "LD E, A",
        0x60 => "LD H, B",
        0x61 => "LD H, C",
        0x62 => "LD H, D",
        0x63 => "LD H, E",
        0x64 => "LD H, H",
        0x65 => "LD H, L",
        0x66 => "LD H, [HL]",
        0x67 => "LD H, A",
        0x68 => "LD L, B",
        0x69 => "LD L, C",
        0x6a => "LD L, D",
        0x6b => "LD L, E",
        0x6c => "LD L, H",
        0x6d => "LD L, L",
        0x6e => "LD L, [HL]",
        0x6f => "LD L, A",
        0x70 => "LD [HL], B",
        0x71 => "LD [HL], C",
        0x72 => "LD [HL], D",
        0x73 => "LD [HL], E",
        0x74 => "LD [HL], H",
        0x75 => "LD [HL], L",
        0x76 => "HALT",
        0x77 => "LD [HL], A",
        0x78 => "LD A, B",
        0x79 => "LD A, C",
        0x7a => "LD A, D",
        0x7b => "LD A, E",
        0x7c => "LD A, H",
        0x7d => "LD A, L",
        0x7e => "LD A, [HL]",
        0x7f => "LD A, A",
        0x80 => "ADD A, B",
        0x81 => "ADD A, C",
        0x82 => "ADD A, D",
        0x83 => "ADD A, E",
        0x84 => "ADD A, H",
        0x85 => "ADD A, L",
        0x86 => "ADD A, [HL]",
        0x87 => "ADD A, A",
        0x88 => "ADC A, B",
        0x89 => "ADC A, C",
        0x8a => "ADC A, D",
        0x8b => "ADC A, E",
        0x8c => "ADC A, H",
        0x8d => "ADC A, L",
        0x8e => "ADC A, [HL]",
        0x8f => "ADC A, A",
        0x90 => "SUB A, B",
        0x91 => "SUB A, C",
        0x92 => "SUB A, D",
        0x93 => "SUB A, E",
        0x94 => "SUB A, H",
        0x95 => "SUB A, L",
        0x96 => "SUB A, [HL]",
        0x97 => "SUB A, A",
        0x98 => "SBC A, B",
        0x99 => "SBC A, C",
        0x9a => "SBC A, D",
        0x9b => "SBC A, E",
        0x9c => "SBC A, H",
        0x9d => "SBC A, L",
        0x9e => "SBC A, [HL]",
        0x9f => "SBC A, A",
        0xa0 => "AND A, B",
        0xa1 => "AND A, C",
        0xa2 => "AND A, D",
        0xa3 => "AND A, E",
        0xa4 => "AND A, H",
        0xa5 => "AND A, L",
        0xa6 => "AND A, [HL]",
        0xa7 => "AND A, A",
        0xa8 => "XOR A, B",
        0xa9 => "XOR A, C",
        0xaa => "XOR A, D",
        0xab => "XOR A, E",
        0xac => "XOR A, H",
        0xad => "XOR A, L",
        0xae => "XOR A, [HL]",
        0xaf => "XOR A, A",
        0xb0 => "OR A, B",
        0xb1 => "OR A, C",
        0xb2 => "OR A, D",
        0xb3 => "OR A, E",
        0xb4 => "OR A, H",
        0xb5 => "OR A, L",
        0xb6 => "OR A, [HL]",
        0xb7 => "OR A, A",
        0xb8 => "CP A, B",
        0xb9 => "CP A, C",
        0xba => "CP A, D",
        0xbb => "CP A, E",
        0xbc => "CP A, H",
        0xbd => "CP A, L",
        0xbe => "CP A, [HL]",
        0xbf => "CP A, A",
        0xc0 => "RET NZ",
        0xc1 => "POP BC",
        0xc2 => "JP NZ, u16",
        0xc3 => "JP u16",
        0xc4 => "CALL NZ, u16",
        0xc5 => "PUSH BC",
        0xc6 => "ADD A, u8",
        0xc7 => "RST 00h",
        0xc8 => "RET Z",
        0xc9 => "RET",
        0xca => "JP Z, u16",
        0xcb => "PREFIX CB",
        0xcc => "CALL Z, u16",
        0xcd => "CALL u16",
        0xce => "ADC A, u8",
        0xcf => "RST 08h",
        0xd0 => "RET NC",
        0xd1 => "POP DE",
        0xd2 => "JP NC, u16",
        0xd3 => "ILLEGAL",
        0xd4 => "CALL NC, u16",
        0xd5 => "PUSH DE",
        0xd6 => "SUB A, u8",
        0xd7 => "RST 10h",
        0xd8 => "RET C",
        0xd9 => "RETI",
        0xda => "JP C, u16",
        0xdb => "ILLEGAL",
        0xdc => "CALL C, u16",
        0xdd => "ILLEGAL",
        0xde => "SBC A, u8",
        0xdf => "RST 18h",
        0xe0 => "LD [FF00+u8], A",
        0xe1 => "POP HL",
        0xe2 => "LD [FF00+C], A",
        0xe3 => "ILLEGAL",
        0xe4 => "ILLEGAL",
        0xe5 => "PUSH HL",
        0xe6 => "AND A, u8",
        0xe7 => "RST 20h",
        0xe8 => "ADD SP, i8",
        0xe9 => "JP HL",
        0xea => "LD [u16], A",
        0xeb => "ILLEGAL",
        0xec => "ILLEGAL",
        0xed => "ILLEGAL",
        0xee => "XOR A, u8",
        0xef => "RST 28h",
        0xf0 => "LD A, [FF00+u8]",
        0xf1 => "POP AF",
        0xf2 => "LD A, [FF00+C]",
        0xf3 => "DI",
        0xf4 => "ILLEGAL",
        0xf5 => "PUSH AF",
        0xf6 => "OR A, u8",
        0xf7 => "RST 30h",
        0xf8 => "LD HL, SP+i8",
        0xf9 => "LD SP, HL",
        0xfa => "LD A [u16]",
        0xfb => "EI",
        0xfc => "ILLEGAL",
        0xfd => "ILLEGAL",
        0xfe => "CP A, u8",
        0xff => "RST 38h",
    }
}

/// Mnemonic of a prefixed operation.
pub open spec fn prefixed_mnemonic(op: u8) -> &'static str {
    match op {
        0x00 => "RLC B",
        0x01 => "RLC C",
        0x02 => "RLC D",
        0x03 => "RLC E",
        0x04 => "RLC H",
        0x05 => "RLC L",
        0x06 => "RLC [HL]",
        0x07 => "RLC A",
        0x08 => "RRC B",
        0x09 => "RRC C",
        0x0a => "RRC D",
        0x0b => "RRC E",
        0x0c => "RRC H",
        0x0d => "RRC L",
        0x0e => "RRC [HL]",
        0x0f => "RRC A",
        0x10 => "RL B",
        0x11 => "RL C",
        0x12 => "RL D",
        0x13 => "RL E",
        0x14 => "RL H",
        0x15 => "RL L",
        0x16 => "RL [HL]",
        0x17 => "RL A",
        0x18 => "RR B",
        0x19 => "RR C",
        0x1a => "RR D",
        0x1b => "RR E",
        0x1c => "RR H",
        0x1d => "RR L",
        0x1e => "RR [HL]",
        0x1f => "RR A",
        0x20 => "SLA B",
        0x21 => "SLA C",
        0x22 => "SLA D",
        0x23 => "SLA E",
        0x24 => "SLA H",
        0x25 => "SLA L",
        0x26 => "SLA [HL]",
        0x27 => "SLA A",
        0x37 => "SWAP A",
        0x38 => "SRL B",
        0x42 => "BIT 0, D",
        0x7c => "BIT 7, H",
        0x87 => "RES 0, A",
        0xbe => "RES 7, [HL]",
        0xde => "SET 3, [HL]",
        0xe7 => "SET 4, A",
        _ => "UNIMPLEMENTED",
    }
}
/// Handler of the illegal encodings: faults at once and changes nothing.
pub fn illegal(_cpu: &mut Cpu) -> (r: Result<(), Fault>)
    ensures
        r == Err::<(), Fault>(Fault::IllegalOpcode),
        *final(_cpu) == *old(_cpu),
{
    Err(Fault::IllegalOpcode)
}

/// Handler of the prefixed operations that are not carried out: faults and
/// changes nothing.
pub fn noimpl(_cpu: &mut Cpu) -> (r: Result<(), Fault>)
    ensures
        r == Err::<(), Fault>(Fault::UnimplementedOpcode),
        *final(_cpu) == *old(_cpu),
{
    Err(Fault::UnimplementedOpcode)
}

/// The primary table entry of `op`.
pub fn instruction(op: u8) -> (r: OpEntry)
    ensures
        r.kind == primary_kind(op),
        r.cost == primary_cost(op),
        r.mnemonic == primary_mnemonic(op),
{
    let (kind, cost, mnemonic) = match op {
        0x00 => (OpKind::Implemented, 4, "NOP"),
        0x01 => (OpKind::Implemented, 12, "LD BC, u16"),
        0x02 => (OpKind::Implemented, 8, "LD [BC], A"),
        0x03 => (OpKind::Implemented, 8, "INC BC"),
        0x04 => (OpKind::Implemented, 4, "INC B"),
        0x05 => (OpKind::Implemented, 4, "DEC B"),
        0x06 => (OpKind::Implemented, 8, "LD B, u8"),
        0x07 => (OpKind::Implemented, 4, "RLCA"),
        0x08 => (OpKind::Implemented, 20, "LD [u16], SP"),
        0x09 => (OpKind::Implemented, 8, "ADD HL, BC"),
        0x0a => (OpKind::Implemented, 8, "LD A, [BC]"),
        0x0b => (OpKind::Implemented, 8, "DEC BC"),
        0x0c => (OpKind::Implemented, 4, "INC C"),
        0x0d => (OpKind::Implemented, 4, "DEC C"),
        0x0e => (OpKind::Implemented, 8, "LD C, u8"),
        0x0f => (OpKind::Implemented, 4, "RRCA"),
        0x10 => (OpKind::Implemented, 4, "STOP"),
        0x11 => (OpKind::Implemented, 12, "LD DE, u16"),
        0x12 => (OpKind::Implemented, 8, "LD [DE], A"),
        0x13 => (OpKind::Implemented, 8, "INC DE"),
        0x14 => (OpKind::Implemented, 4, "INC D"),
        0x15 => (OpKind::Implemented, 4, "DEC D"),
        0x16 => (OpKind::Implemented, 8, "LD D, u8"),
        0x17 => (OpKind::Implemented, 4, "RLA"),
        0x18 => (OpKind::Implemented, 12, "JR i8"),
        0x19 => (OpKind::Implemented, 8, "ADD HL, DE"),
        0x1a => (OpKind::Implemented, 8, "LD A, [DE]"),
        0x1b => (OpKind::Implemented, 8, "DEC DE"),
        0x1c => (OpKind::Implemented, 4, "INC E"),
        0x1d => (OpKind::Implemented, 4, "DEC E"),
        0x1e => (OpKind::Implemented, 8, "LD E, u8"),
        0x1f => (OpKind::Implemented, 4, "RRA"),
        0x20 => (OpKind::Implemented, 8, "JR NZ, i8"),
        0x21 => (OpKind::Implemented, 12, "LD HL, u16"),
        0x22 => (OpKind::Implemented, 8, "LD [HL+], A"),
        0x23 => (OpKind::Implemented, 8, "INC HL"),
        0x24 => (OpKind::Implemented, 4, "INC H"),
        0x25 => (OpKind::Implemented, 4, "DEC H"),
        0x26 => (OpKind::Implemented, 8, "LD H, u8"),
        0x27 => (OpKind::Implemented, 4, "DAA"),
        0x28 => (OpKind::Implemented, 8, "JR Z, i8"),
        0x29 => (OpKind::Implemented, 8, "ADD HL, HL"),
        0x2a => (OpKind::Implemented, 8, "LD A, [HL+]"),
        0x2b => (OpKind::Implemented, 8, "DEC HL"),
        0x2c => (OpKind::Implemented, 4, "INC L"),
        0x2d => (OpKind::Implemented, 4, "DEC L"),
        0x2e => (OpKind::Implemented, 8, "LD L, u8"),
        0x2f => (OpKind::Implemented, 4, "CPL"),
        0x30 => (OpKind::Implemented, 8, "JR NC, i8"),
        0x31 => (OpKind::Implemented, 12, "LD SP, u16"),
        0x32 => (OpKind::Implemented, 8, "LD [HL-], A"),
        0x33 => (OpKind::Implemented, 8, "INC SP"),
        0x34 => (OpKind::Implemented, 12, "INC [HL]"),
        0x35 => (OpKind::Implemented, 12, "DEC [HL]"),
        0x36 => (OpKind::Implemented, 12, "LD [HL], u8"),
        0x37 => (OpKind::Implemented, 4, "SCF"),
        0x38 => (OpKind::Implemented, 8, "JR C, i8"),
        0x39 => (OpKind::Implemented, 8, "ADD HL, SP"),
        0x3a => (OpKind::Implemented, 8, "LD A, [HL-]"),
        0x3b => (OpKind::Implemented, 8, "DEC SP"),
        0x3c => (OpKind::Implemented, 4, "INC A"),
        0x3d => (OpKind::Implemented, 4, "DEC A"),
        0x3e => (OpKind::Implemented, 8, "LD A, u8"),
        0x3f => (OpKind::Implemented, 4, "CCF"),
        0x40 => (OpKind::Implemented, 4, "LD B, B"),
        0x41 => (OpKind::Implemented, 4, "LD B, C"),
        0x42 => (OpKind::Implemented, 4, "LD B, D"),
        0x43 => (OpKind::Implemented, 4, "LD B, E"),
        0x44 => (OpKind::Implemented, 4, "LD B, H"),
        0x45 => (OpKind::Implemented, 4, "LD B, L"),
        0x46 => (OpKind::Implemented, 8, "LD B, [HL]"),
        0x47 => (OpKind::Implemented, 4, "LD B, A"),
        0x48 => (OpKind::Implemented, 4, "LD C, B"),
        0x49 => (OpKind::Implemented, 4, "LD C, C"),
        0x4a => (OpKind::Implemented, 4, "LD C, D"),
        0x4b => (OpKind::Implemented, 4, "LD C, E"),
        0x4c => (OpKind::Implemented, 4, "LD C, H"),
        0x4d => (OpKind::Implemented, 4, "LD C, L"),
        0x4e => (OpKind::Implemented, 8, "LD C, [HL]"),
        0x4f => (OpKind::Implemented, 4, "LD C, A"),
        0x50 => (OpKind::Implemented, 4, "LD D, B"),
        0x51 => (OpKind::Implemented, 4, "LD D, C"),
        0x52 => (OpKind::Implemented, 4, "LD D, D"),
        0x53 => (OpKind::Implemented, 4, "LD D, E"),
        0x54 => (OpKind::Implemented, 4, "LD D, H"),
        0x55 => (OpKind::Implemented, 4, "LD D, L"),
        0x56 => (OpKind::Implemented, 8, "LD D, [HL]"),
        0x57 => (OpKind::Implemented, 4, "LD D, A"),
        0x58 => (OpKind::Implemented, 4, "LD E, B"),
        0x59 => (OpKind::Implemented, 4, "LD E, C"),
        0x5a => (OpKind::Implemented, 4, "LD E, D"),
        0x5b => (OpKind::Implemented, 4, "LD E, E"),
        0x5c => (OpKind::Implemented, 4, "LD E, H"),
        0x5d => (OpKind::Implemented, 4, "LD E, L"),
        0x5e => (OpKind::Implemented, 8, "LD E, [HL]"),
        0x5f => (OpKind::Implemented, 4, "LD E, A"),
        0x60 => (OpKind::Implemented, 4, "LD H, B"),
        0x61 => (OpKind::Implemented, 4, "LD H, C"),
        0x62 => (OpKind::Implemented, 4, "LD H, D"),
        0x63 => (OpKind::Implemented, 4, "LD H, E"),
        0x64 => (OpKind::Implemented, 4, "LD H, H"),
        0x65 => (OpKind::Implemented, 4, "LD H, L"),
        0x66 => (OpKind::Implemented, 8, "LD H, [HL]"),
        0x67 => (OpKind::Implemented, 4, "LD H, A"),
        0x68 => (OpKind::Implemented, 4, "LD L, B"),
        0x69 => (OpKind::Implemented, 4, "LD L, C"),
        0x6a => (OpKind::Implemented, 4, "LD L, D"),
        0x6b => (OpKind::Implemented, 4, "LD L, E"),
        0x6c => (OpKind::Implemented, 4, "LD L, H"),
        0x6d => (OpKind::Implemented, 4, "LD L, L"),
        0x6e => (OpKind::Implemented, 8, "LD L, [HL]"),
        0x6f => (OpKind::Implemented, 4, "LD L, A"),
        0x70 => (OpKind::Implemented, 8, "LD [HL], B"),
        0x71 => (OpKind::Implemented, 8, "LD [HL], C"),
        0x72 => (OpKind::Implemented, 8, "LD [HL], D"),
        0x73 => (OpKind::Implemented, 8, "LD [HL], E"),
        0x74 => (OpKind::Implemented, 8, "LD [HL], H"),
        0x75 => (OpKind::Implemented, 8, "LD [HL], L"),
        0x76 => (OpKind::Implemented, 4, "HALT"),
        0x77 => (OpKind::Implemented, 8, "LD [HL], A"),
        0x78 => (OpKind::Implemented, 4, "LD A, B"),
        0x79 => (OpKind::Implemented, 4, "LD A, C"),
        0x7a => (OpKind::Implemented, 4, "LD A, D"),
        0x7b => (OpKind::Implemented, 4, "LD A, E"),
        0x7c => (OpKind::Implemented, 4, "LD A, H"),
        0x7d => (OpKind::Implemented, 4, "LD A, L"),
        0x7e => (OpKind::Implemented, 8, "LD A, [HL]"),
        0x7f => (OpKind::Implemented, 4, "LD A, A"),
        0x80 => (OpKind::Implemented, 4, "ADD A, B"),
        0x81 => (OpKind::Implemented, 4, "ADD A, C"),
        0x82 => (OpKind::Implemented, 4, "ADD A, D"),
        0x83 => (OpKind::Implemented, 4, "ADD A, E"),
        0x84 => (OpKind::Implemented, 4, "ADD A, H"),
        0x85 => (OpKind::Implemented, 4, "ADD A, L"),
        0x86 => (OpKind::Implemented, 8, "ADD A, [HL]"),
        0x87 => (OpKind::Implemented, 4, "ADD A, A"),
        0x88 => (OpKind::Implemented, 4, "ADC A, B"),
        0x89 => (OpKind::Implemented, 4, "ADC A, C"),
        0x8a => (OpKind::Implemented, 4, "ADC A, D"),
        0x8b => (OpKind::Implemented, 4, "ADC A, E"),
        0x8c => (OpKind::Implemented, 4, "ADC A, H"),
        0x8d => (OpKind::Implemented, 4, "ADC A, L"),
        0x8e => (OpKind::Implemented, 8, "ADC A, [HL]"),
        0x8f => (OpKind::Implemented, 4, "ADC A, A"),
        0x90 => (OpKind::Implemented, 4, "SUB A, B"),
        0x91 => (OpKind::Implemented, 4, "SUB A, C"),
        0x92 => (OpKind::Implemented, 4, "SUB A, D"),
        0x93 => (OpKind::Implemented, 4, "SUB A, E"),
        0x94 => (OpKind::Implemented, 4, "SUB A, H"),
        0x95 => (OpKind::Implemented, 4, "SUB A, L"),
        0x96 => (OpKind::Implemented, 8, "SUB A, [HL]"),
        0x97 => (OpKind::Implemented, 4, "SUB A, A"),
        0x98 => (OpKind::Implemented, 4, "SBC A, B"),
        0x99 => (OpKind::Implemented, 4, "SBC A, C"),
        0x9a => (OpKind::Implemented, 4, "SBC A, D"),
        0x9b => (OpKind::Implemented, 4, "SBC A, E"),
        0x9c => (OpKind::Implemented, 4, "SBC A, H"),
        0x9d => (OpKind::Implemented, 4, "SBC A, L"),
        0x9e => (OpKind::Implemented, 8, "SBC A, [HL]"),
        0x9f => (OpKind::Implemented, 4, "SBC A, A"),
        0xa0 => (OpKind::Implemented, 4, "AND A, B"),
        0xa1 => (OpKind::Implemented, 4, "AND A, C"),
        0xa2 => (OpKind::Implemented, 4, "AND A, D"),
        0xa3 => (OpKind::Implemented, 4, "AND A, E"),
        0xa4 => (OpKind::Implemented, 4, "AND A, H"),
        0xa5 => (OpKind::Implemented, 4, "AND A, L"),
        0xa6 => (OpKind::Implemented, 4, "AND A, [HL]"),
        0xa7 => (OpKind::Implemented, 4, "AND A, A"),
        0xa8 => (OpKind::Implemented, 4, "XOR A, B"),
        0xa9 => (OpKind::Implemented, 4, "XOR A, C"),
        0xaa => (OpKind::Implemented, 4, "XOR A, D"),
        0xab => (OpKind::Implemented, 4, "XOR A, E"),
        0xac => (OpKind::Implemented, 4, "XOR A, H"),
        0xad => (OpKind::Implemented, 4, "XOR A, L"),
        0xae => (OpKind::Implemented, 8, "XOR A, [HL]"),
        0xaf => (OpKind::Implemented, 4, "XOR A, A"),
        0xb0 => (OpKind::Implemented, 4, "OR A, B"),
        0xb1 => (OpKind::Implemented, 4, "OR A, C"),
        0xb2 => (OpKind::Implemented, 4, "OR A, D"),
        0xb3 => (OpKind::Implemented, 4, "OR A, E"),
        0xb4 => (OpKind::Implemented, 4, "OR A, H"),
        0xb5 => (OpKind::Implemented, 4, "OR A, L"),
        0xb6 => (OpKind::Implemented, 8, "OR A, [HL]"),
        0xb7 => (OpKind::Implemented, 4, "OR A, A"),
        0xb8 => (OpKind::Implemented, 4, "CP A, B"),
        0xb9 => (OpKind::Implemented, 4, "CP A, C"),
        0xba => (OpKind::Implemented, 4, "CP A, D"),
        0xbb => (OpKind::Implemented, 4, "CP A, E"),
        0xbc => (OpKind::Implemented, 4, "CP A, H"),
        0xbd => (OpKind::Implemented, 4, "CP A, L"),
        0xbe => (OpKind::Implemented, 8, "CP A, [HL]"),
        0xbf => (OpKind::Implemented, 4, "CP A, A"),
        0xc0 => (OpKind::Implemented, 8, "RET NZ"),
        0xc1 => (OpKind::Implemented, 12, "POP BC"),
        0xc2 => (OpKind::Implemented, 12, "JP NZ, u16"),
        0xc3 => (OpKind::Implemented, 16, "JP u16"),
        0xc4 => (OpKind::Implemented, 12, "CALL NZ, u16"),
        0xc5 => (OpKind::Implemented, 16, "PUSH BC"),
        0xc6 => (OpKind::Implemented, 8, "ADD A, u8"),
        0xc7 => (OpKind::Implemented, 16, "RST 00h"),
        0xc8 => (OpKind::Implemented, 8, "RET Z"),
        0xc9 => (OpKind::Implemented, 16, "RET"),
        0xca => (OpKind::Implemented, 12, "JP Z, u16"),
        0xcb => (OpKind::Prefix, 4, "PREFIX CB"),
        0xcc => (OpKind::Implemented, 12, "CALL Z, u16"),
        0xcd => (OpKind::Implemented, 24, "CALL u16"),
        0xce => (OpKind::Implemented, 8, "ADC A, u8"),
        0xcf => (OpKind::Implemented, 16, "RST 08h"),
        0xd0 => (OpKind::Implemented, 8, "RET NC"),
        0xd1 => (OpKind::Implemented, 12, "POP DE"),
        0xd2 => (OpKind::Implemented, 12, "JP NC, u16"),
        0xd3 => (OpKind::Illegal, 4, "ILLEGAL"),
        0xd4 => (OpKind::Implemented, 12, "CALL NC, u16"),
        0xd5 => (OpKind::Implemented, 16, "PUSH DE"),
        0xd6 => (OpKind::Implemented, 8, "SUB A, u8"),
        0xd7 => (OpKind::Implemented, 16, "RST 10h"),
        0xd8 => (OpKind::Implemented, 8, "RET C"),
        0xd9 => (OpKind::Implemented, 16, "RETI"),
        0xda => (OpKind::Implemented, 12, "JP C, u16"),
        0xdb => (OpKind::Illegal, 4, "ILLEGAL"),
        0xdc => (OpKind::Implemented, 12, "CALL C, u16"),
        0xdd => (OpKind::Illegal, 4, "ILLEGAL"),
        0xde => (OpKind::Implemented, 8, "SBC A, u8"),
        0xdf => (OpKind::Implemented, 16, "RST 18h"),
        0xe0 => (OpKind::Implemented, 12, "LD [FF00+u8], A"),
        0xe1 => (OpKind::Implemented, 12, "POP HL"),
        0xe2 => (OpKind::Implemented, 8, "LD [FF00+C], A"),
        0xe3 => (OpKind::Illegal, 4, "ILLEGAL"),
        0xe4 => (OpKind::Illegal, 4, "ILLEGAL"),
        0xe5 => (OpKind::Implemented, 16, "PUSH HL"),
        0xe6 => (OpKind::Implemented, 8, "AND A, u8"),
        0xe7 => (OpKind::Implemented, 16, "RST 20h"),
        0xe8 => (OpKind::Implemented, 16, "ADD SP, i8"),
        0xe9 => (OpKind::Implemented, 4, "JP HL"),
        0xea => (OpKind::Implemented, 16, "LD [u16], A"),
        0xeb => (OpKind::Illegal, 4, "ILLEGAL"),
        0xec => (OpKind::Illegal, 4, "ILLEGAL"),
        0xed => (OpKind::Illegal, 4, "ILLEGAL"),
        0xee => (OpKind::Implemented, 8, "XOR A, u8"),
        0xef => (OpKind::Implemented, 16, "RST 28h"),
        0xf0 => (OpKind::Implemented, 12, "LD A, [FF00+u8]"),
        0xf1 => (OpKind::Implemented, 12, "POP AF"),
        0xf2 => (OpKind::Implemented, 8, "LD A, [FF00+C]"),
        0xf3 => (OpKind::Implemented, 4, "DI"),
        0xf4 => (OpKind::Illegal, 4, "ILLEGAL"),
        0xf5 => (OpKind::Implemented, 16, "PUSH AF"),
        0xf6 => (OpKind::Implemented, 8, "OR A, u8"),
        0xf7 => (OpKind::Implemented, 16, "RST 30h"),
        0xf8 => (OpKind::Implemented, 12, "LD HL, SP+i8"),
        0xf9 => (OpKind::Implemented, 8, "LD SP, HL"),
        0xfa => (OpKind::Implemented, 16, "LD A [u16]"),
        0xfb => (OpKind::Implemented, 4, "EI"),
        0xfc => (OpKind::Illegal, 4, "ILLEGAL"),
        0xfd => (OpKind::Illegal, 4, "ILLEGAL"),
        0xfe => (OpKind::Implemented, 8, "CP A, u8"),
        0xff => (OpKind::Implemented, 16, "RST 38h"),
    };
    OpEntry { kind, cost, mnemonic }
}

/// The prefixed table entry of `op`.
pub fn prefixed(op: u8) -> (r: OpEntry)
    ensures
        r.kind == prefixed_kind(op),
        r.cost == prefixed_cost(op),
        r.mnemonic == prefixed_mnemonic(op),
{
    let (kind, cost, mnemonic) = match op {
        0x00 => (OpKind::Implemented, 8, "RLC B"),
        0x01 => (OpKind::Implemented, 8, "RLC C"),
        0x02 => (OpKind::Implemented, 8, "RLC D"),
        0x03 => (OpKind::Implemented, 8, "RLC E"),
        0x04 => (OpKind::Implemented, 8, "RLC H"),
        0x05 => (OpKind::Implemented, 8, "RLC L"),
        0x06 => (OpKind::Implemented, 16, "RLC [HL]"),
        0x07 => (OpKind::Implemented, 8, "RLC A"),
        0x08 => (OpKind::Implemented, 8, "RRC B"),
        0x09 => (OpKind::Implemented, 8, "RRC C"),
        0x0a => (OpKind::Implemented, 8, "RRC D"),
        0x0b => (OpKind::Implemented, 8, "RRC E"),
        0x0c => (OpKind::Implemented, 8, "RRC H"),
        0x0d => (OpKind::Implemented, 8, "RRC L"),
        0x0e => (OpKind::Implemented, 16, "RRC [HL]"),
        0x0f => (OpKind::Implemented, 8, "RRC A"),
        0x10 => (OpKind::Implemented, 8, "RL B"),
        0x11 => (OpKind::Implemented, 8, "RL C"),
        0x12 => (OpKind::Implemented, 8, "RL D"),
        0x13 => (OpKind::Implemented, 8, "RL E"),
        0x14 => (OpKind::Implemented, 8, "RL H"),
        0x15 => (OpKind::Implemented, 8, "RL L"),
        0x16 => (OpKind::Implemented, 16, "RL [HL]"),
        0x17 => (OpKind::Implemented, 8, "RL A"),
        0x18 => (OpKind::Implemented, 8, "RR B"),
        0x19 => (OpKind::Implemented, 8, "RR C"),
        0x1a => (OpKind::Implemented, 8, "RR D"),
        0x1b => (OpKind::Implemented, 8, "RR E"),
        0x1c => (OpKind::Implemented, 8, "RR H"),
        0x1d => (OpKind::Implemented, 8, "RR L"),
        0x1e => (OpKind::Implemented, 16, "RR [HL]"),
        0x1f => (OpKind::Implemented, 8, "RR A"),
        0x20 => (OpKind::Implemented, 8, "SLA B"),
        0x21 => (OpKind::Implemented, 8, "SLA C"),
        0x22 => (OpKind::Implemented, 8, "SLA D"),
        0x23 => (OpKind::Implemented, 8, "SLA E"),
        0x24 => (OpKind::Implemented, 8, "SLA H"),
        0x25 => (OpKind::Implemented, 8, "SLA L"),
        0x26 => (OpKind::Implemented, 16, "SLA [HL]"),
        0x27 => (OpKind::Implemented, 8, "SLA A"),
        0x37 => (OpKind::Implemented, 8, "SWAP A"),
        0x38 => (OpKind::Implemented, 8, "SRL B"),
        0x42 => (OpKind::Implemented, 8, "BIT 0, D"),
        0x7c => (OpKind::Implemented, 8, "BIT 7, H"),
        0x87 => (OpKind::Implemented, 8, "RES 0, A"),
        0xbe => (OpKind::Implemented, 16, "RES 7, [HL]"),
        0xde => (OpKind::Implemented, 16, "SET 3, [HL]"),
        0xe7 => (OpKind::Implemented, 8, "SET 4, A"),
        _ => (OpKind::Unimplemented, 4, "UNIMPLEMENTED"),
    };
    OpEntry { kind, cost, mnemonic }
}

/// Runs the handler of primary operation `op`, whose opcode byte has been
/// fetched. Conditional branches add their surcharge to the tick counter.
#[verifier::rlimit(100)]
pub fn execute(cpu: &mut Cpu, op: u8) -> (r: Result<(), Fault>)
    requires
        old(cpu).wf(),
        op != PREFIX,
    ensures
        is_illegal(op) ==> r == Err::<(), Fault>(Fault::IllegalOpcode) && *final(cpu) == *old(cpu),
        !is_illegal(op) ==> {
            &&& r == Ok::<(), Fault>(())
            &&& final(cpu).wf()
            &&& final(cpu).ticks == w64(old(cpu).ticks + branch_extra(op, old(cpu).reg.f))
            &&& final(cpu).state == state_after(op, old(cpu).state)
            &&& final(cpu).ime == ime_after(op, old(cpu).ime)
            &&& primary_effect(op, *old(cpu), *final(cpu))
        },
{
    reveal(primary_effect);
    match op {
        0x00 => nop(cpu),
        0x01 => ld_bc_u16(cpu),
        0x02 => ld_mbc_a(cpu),
        0x03 => inc_bc(cpu),
        0x04 => inc_b(cpu),
        0x05 => dec_b(cpu),
        0x06 => ld_b_u8(cpu),
        0x07 => rlca(cpu),
        0x08 => ld_mu16_sp(cpu),
        0x09 => add_hl_bc(cpu),
        0x0a => ld_a_mbc(cpu),
        0x0b => dec_bc(cpu),
        0x0c => inc_c(cpu),
        0x0d => dec_c(cpu),
        0x0e => ld_c_u8(cpu),
        0x0f => rrca(cpu),
        0x10 => stop(cpu),
        0x11 => ld_de_u16(cpu),
        0x12 => ld_mde_a(cpu),
        0x13 => inc_de(cpu),
        0x14 => inc_d(cpu),
        0x15 => dec_d(cpu),
        0x16 => ld_d_u8(cpu),
        0x17 => rla(cpu),
        0x18 => jr_i8(cpu),
        0x19 => add_hl_de(cpu),
        0x1a => ld_a_mde(cpu),
        0x1b => dec_de(cpu),
        0x1c => inc_e(cpu),
        0x1d => dec_e(cpu),
        0x1e => ld_e_u8(cpu),
        0x1f => rra(cpu),
        0x20 => jr_nz_i8(cpu),
        0x21 => ld_hl_u16(cpu),
        0x22 => ld_mhli_a(cpu),
        0x23 => inc_hl(cpu),
        0x24 => inc_h(cpu),
        0x25 => dec_h(cpu),
        0x26 => ld_h_u8(cpu),
        0x27 => daa(cpu),
        0x28 => jr_z_i8(cpu),
        0x29 => add_hl_hl(cpu),
        0x2a => ld_a_mhli(cpu),
        0x2b => dec_hl(cpu),
        0x2c => inc_l(cpu),
        0x2d => dec_l(cpu),
        0x2e => ld_l_u8(cpu),
        0x2f => cpl(cpu),
        0x30 => jr_nc_i8(cpu),
        0x31 => ld_sp_u16(cpu),
        0x32 => ld_mhld_a(cpu),
        0x33 => inc_sp(cpu),
        0x34 => inc_mhl(cpu),
        0x35 => dec_mhl(cpu),
        0x36 => ld_mhl_u8(cpu),
        0x37 => scf(cpu),
        0x38 => jr_c_i8(cpu),
        0x39 => add_hl_sp(cpu),
        0x3a => ld_a_mhld(cpu),
        0x3b => dec_sp(cpu),
        0x3c => inc_a(cpu),
        0x3d => dec_a(cpu),
        0x3e => ld_a_u8(cpu),
        0x3f => ccf(cpu),
        0x40 => ld_b_b(cpu),
        0x41 => ld_b_c(cpu),
        0x42 => ld_b_d(cpu),
        0x43 => ld_b_e(cpu),
        0x44 => ld_b_h(cpu),
        0x45 => ld_b_l(cpu),
        0x46 => ld_b_mhl(cpu),
        0x47 => ld_b_a(cpu),
        0x48 => ld_c_b(cpu),
        0x49 => ld_c_c(cpu),
        0x4a => ld_c_d(cpu),
        0x4b => ld_c_e(cpu),
        0x4c => ld_c_h(cpu),
        0x4d => ld_c_l(cpu),
        0x4e => ld_c_mhl(cpu),
        0x4f => ld_c_a(cpu),
        0x50 => ld_d_b(cpu),
        0x51 => ld_d_c(cpu),
        0x52 => ld_d_d(cpu),
        0x53 => ld_d_e(cpu),
        0x54 => ld_d_h(cpu),
        0x55 => ld_d_l(cpu),
        0x56 => ld_d_mhl(cpu),
        0x57 => ld_d_a(cpu),
        0x58 => ld_e_b(cpu),
        0x59 => ld_e_c(cpu),
        0x5a => ld_e_d(cpu),
        0x5b => ld_e_e(cpu),
        0x5c => ld_e_h(cpu),
        0x5d => ld_e_l(cpu),
        0x5e => ld_e_mhl(cpu),
        0x5f => ld_e_a(cpu),
        0x60 => ld_h_b(cpu),
        0x61 => ld_h_c(cpu),
        0x62 => ld_h_d(cpu),
        0x63 => ld_h_e(cpu),
        0x64 => ld_h_h(cpu),
        0x65 => ld_h_l(cpu),
        0x66 => ld_h_mhl(cpu),
        0x67 => ld_h_a(cpu),
        0x68 => ld_l_b(cpu),
        0x69 => ld_l_c(cpu),
        0x6a => ld_l_d(cpu),
        0x6b => ld_l_e(cpu),
        0x6c => ld_l_h(cpu),
        0x6d => ld_l_l(cpu),
        0x6e => ld_l_mhl(cpu),
        0x6f => ld_l_a(cpu),
        0x70 => ld_mhl_b(cpu),
        0x71 => ld_mhl_c(cpu),
        0x72 => ld_mhl_d(cpu),
        0x73 => ld_mhl_e(cpu),
        0x74 => ld_mhl_h(cpu),
        0x75 => ld_mhl_l(cpu),
        0x76 => halt(cpu),
        0x77 => ld_mhl_a(cpu),
        0x78 => ld_a_b(cpu),
        0x79 => ld_a_c(cpu),
        0x7a => ld_a_d(cpu),
        0x7b => ld_a_e(cpu),
        0x7c => ld_a_h(cpu),
        0x7d => ld_a_l(cpu),
        0x7e => ld_a_mhl(cpu),
        0x7f => ld_a_a(cpu),
        0x80 => add_a_b(cpu),
        0x81 => add_a_c(cpu),
        0x82 => add_a_d(cpu),
        0x83 => add_a_e(cpu),
        0x84 => add_a_h(cpu),
        0x85 => add_a_l(cpu),
        0x86 => add_a_mhl(cpu),
        0x87 => add_a_a(cpu),
        0x88 => adc_a_b(cpu),
        0x89 => adc_a_c(cpu),
        0x8a => adc_a_d(cpu),
        0x8b => adc_a_e(cpu),
        0x8c => adc_a_h(cpu),
        0x8d => adc_a_l(cpu),
        0x8e => adc_a_mhl(cpu),
        0x8f => adc_a_a(cpu),
        0x90 => sub_a_b(cpu),
        0x91 => sub_a_c(cpu),
        0x92 => sub_a_d(cpu),
        0x93 => sub_a_e(cpu),
        0x94 => sub_a_h(cpu),
        0x95 => sub_a_l(cpu),
        0x96 => sub_a_mhl(cpu),
        0x97 => sub_a_a(cpu),
        0x98 => sbc_a_b(cpu),
        0x99 => sbc_a_c(cpu),
        0x9a => sbc_a_d(cpu),
        0x9b => sbc_a_e(cpu),
        0x9c => sbc_a_h(cpu),
        0x9d => sbc_a_l(cpu),
        0x9e => sbc_a_mhl(cpu),
        0x9f => sbc_a_a(cpu),
        0xa0 => and_a_b(cpu),
        0xa1 => and_a_c(cpu),
        0xa2 => and_a_d(cpu),
        0xa3 => and_a_e(cpu),
        0xa4 => and_a_h(cpu),
        0xa5 => and_a_l(cpu),
        0xa6 => and_a_mhl(cpu),
        0xa7 => and_a_a(cpu),
        0xa8 => xor_a_b(cpu),
        0xa9 => xor_a_c(cpu),
        0xaa => xor_a_d(cpu),
        0xab => xor_a_e(cpu),
        0xac => xor_a_h(cpu),
        0xad => xor_a_l(cpu),
        0xae => xor_a_mhl(cpu),
        0xaf => xor_a_a(cpu),
        0xb0 => or_a_b(cpu),
        0xb1 => or_a_c(cpu),
        0xb2 => or_a_d(cpu),
        0xb3 => or_a_e(cpu),
        0xb4 => or_a_h(cpu),
        0xb5 => or_a_l(cpu),
        0xb6 => or_a_mhl(cpu),
        0xb7 => or_a_a(cpu),
        0xb8 => cp_a_b(cpu),
        0xb9 => cp_a_c(cpu),
        0xba => cp_a_d(cpu),
        0xbb => cp_a_e(cpu),
        0xbc => cp_a_h(cpu),
        0xbd => cp_a_l(cpu),
        0xbe => cp_a_mhl(cpu),
        0xbf => cp_a_a(cpu),
        0xc0 => ret_nz(cpu),
        0xc1 => pop_bc(cpu),
        0xc2 => jp_nz_u16(cpu),
        0xc3 => jp_u16(cpu),
        0xc4 => call_nz_u16(cpu),
        0xc5 => push_bc(cpu),
        0xc6 => add_a_u8(cpu),
        0xc7 => rst_00h(cpu),
        0xc8 => ret_z(cpu),
        0xc9 => ret(cpu),
        0xca => jp_z_u16(cpu),
        0xcc => call_z_u16(cpu),
        0xcd => call_u16(cpu),
        0xce => adc_a_u8(cpu),
        0xcf => rst_08h(cpu),
        0xd0 => ret_nc(cpu),
        0xd1 => pop_de(cpu),
        0xd2 => jp_nc_u16(cpu),
        0xd4 => call_nc_u16(cpu),
        0xd5 => push_de(cpu),
        0xd6 => sub_a_u8(cpu),
        0xd7 => rst_10h(cpu),
        0xd8 => ret_c(cpu),
        0xd9 => reti(cpu),
        0xda => jp_c_u16(cpu),
        0xdc => call_c_u16(cpu),
        0xde => sbc_a_u8(cpu),
        0xdf => rst_18h(cpu),
        0xe0 => ld_mff00u8_a(cpu),
        0xe1 => pop_hl(cpu),
        0xe2 => ld_mff00c_a(cpu),
        0xe5 => push_hl(cpu),
        0xe6 => and_a_u8(cpu),
        0xe7 => rst_20h(cpu),
        0xe8 => add_sp_i8(cpu),
        0xe9 => jp_hl(cpu),
        0xea => ld_mu16_a(cpu),
        0xee => xor_a_u8(cpu),
        0xef => rst_28h(cpu),
        0xf0 => ld_a_mff00u8(cpu),
        0xf1 => pop_af(cpu),
        0xf2 => ld_a_mff00c(cpu),
        0xf3 => di(cpu),
        0xf5 => push_af(cpu),
        0xf6 => or_a_u8(cpu),
        0xf7 => rst_30h(cpu),
        0xf8 => ld_hl_spi8(cpu),
        0xf9 => ld_sp_hl(cpu),
        0xfa => ld_a_mu16(cpu),
        0xfb => ei(cpu),
        0xfe => cp_a_u8(cpu),
        0xff => rst_38h(cpu),
        // the illegal encodings; the escape byte never comes here
        _ => return illegal(cpu),
    }
    Ok(())
}

/// Runs the handler of prefixed operation `op`, whose two bytes have been
/// fetched.
#[verifier::rlimit(100)]
pub fn execute_prefixed(cpu: &mut Cpu, op: u8) -> (r: Result<(), Fault>)
    requires
        old(cpu).wf(),
    ensures
        !is_implemented_prefixed(op) ==> r == Err::<(), Fault>(Fault::UnimplementedOpcode)
            && *final(cpu) == *old(cpu),
        is_implemented_prefixed(op) ==> {
            &&& r == Ok::<(), Fault>(())
            &&& final(cpu).wf()
            &&& final(cpu).ticks == old(cpu).ticks
            &&& final(cpu).state == old(cpu).state
            &&& final(cpu).ime == old(cpu).ime
            &&& prefixed_effect(op, *old(cpu), *final(cpu))
        },
{
    reveal(prefixed_effect);
    match op {
        0x00 => rlc_b(cpu),
        0x01 => rlc_c(cpu),
        0x02 => rlc_d(cpu),
        0x03 => rlc_e(cpu),
        0x04 => rlc_h(cpu),
        0x05 => rlc_l(cpu),
        0x06 => rlc_mhl(cpu),
        0x07 => rlc_a(cpu),
        0x08 => rrc_b(cpu),
        0x09 => rrc_c(cpu),
        0x0a => rrc_d(cpu),
        0x0b => rrc_e(cpu),
        0x0c => rrc_h(cpu),
        0x0d => rrc_l(cpu),
        0x0e => rrc_mhl(cpu),
        0x0f => rrc_a(cpu),
        0x10 => rl_b(cpu),
        0x11 => rl_c(cpu),
        0x12 => rl_d(cpu),
        0x13 => rl_e(cpu),
        0x14 => rl_h(cpu),
        0x15 => rl_l(cpu),
        0x16 => rl_mhl(cpu),
        0x17 => rl_a(cpu),
        0x18 => rr_b(cpu),
        0x19 => rr_c(cpu),
        0x1a => rr_d(cpu),
        0x1b => rr_e(cpu),
        0x1c => rr_h(cpu),
        0x1d => rr_l(cpu),
        0x1e => rr_mhl(cpu),
        0x1f => rr_a(cpu),
        0x20 => sla_b(cpu),
        0x21 => sla_c(cpu),
        0x22 => sla_d(cpu),
        0x23 => sla_e(cpu),
        0x24 => sla_h(cpu),
        0x25 => sla_l(cpu),
        0x26 => sla_mhl(cpu),
        0x27 => sla_a(cpu),
        0x37 => swap_a(cpu),
        0x38 => srl_b(cpu),
        0x42 => bit_0_d(cpu),
        0x7c => bit_7_h(cpu),
        0x87 => res_0_a(cpu),
        0xbe => res_7_mhl(cpu),
        0xde => set_3_mhl(cpu),
        0xe7 => set_4_a(cpu),
        _ => return noimpl(cpu),
    }
    Ok(())
}

/// `c` with PC moved past `n` fetched bytes.
pub open spec fn fetched(c: Cpu, n: int) -> Cpu {
    Cpu { reg: Registers { pc: w16(c.reg.pc + n), ..c.reg }, ..c }
}

/// `c` with `n` ticks taken off the counter.
pub open spec fn less_ticks(c: Cpu, n: int) -> Cpu {
    Cpu { ticks: w64(c.ticks - n), ..c }
}

/// What a step from `pre` owes while running: the effect of the fetched
/// operation, the ticks it charges and, for a fault, the state it leaves.
pub open spec fn step_result(pre: Cpu, post: Cpu, r: Result<u64, Fault>) -> bool {
    let op = pre.imm8();
    if op == PREFIX {
        let second = pre.mem(w16(pre.reg.pc + 1));
        if is_implemented_prefixed(second) {
            &&& r == Ok::<u64, Fault>(prefixed_cost(second) as u64)
            &&& post.ticks == w64(pre.ticks + prefixed_cost(second))
            &&& post.state == pre.state
            &&& post.ime == pre.ime
            &&& prefixed_effect(
                second,
                fetched(pre, 2),
                less_ticks(post, prefixed_cost(second) as int),
            )
        } else {
            &&& r == Err::<u64, Fault>(Fault::UnimplementedOpcode)
            &&& regs_only(pre, post, (Registers { pc: w16(pre.reg.pc + 2), ..pre.reg }))
        }
    } else if is_illegal(op) {
        &&& r == Err::<u64, Fault>(Fault::IllegalOpcode)
        &&& regs_only(pre, post, (Registers { pc: w16(pre.reg.pc + 1), ..pre.reg }))
    } else {
        &&& r == Ok::<u64, Fault>((primary_cost(op) + branch_extra(op, pre.reg.f)) as u64)
        &&& post.ticks == w64(pre.ticks + primary_cost(op) + branch_extra(op, pre.reg.f))
        &&& post.state == state_after(op, pre.state)
        &&& post.ime == ime_after(op, pre.ime)
        &&& primary_effect(op, fetched(pre, 1), less_ticks(post, primary_cost(op) as int))
    }
}

impl Cpu {
    /// Fetches one operation (two bytes when escaped), executes it and returns
    /// the ticks it cost: the table's base cost plus any branch surcharge. The
    /// ticks are also added to the counter. While halted or stopped nothing is
    /// fetched and the step idles for `IDLE_TICKS`.
    pub fn step(&mut self) -> (r: Result<u64, Fault>)
        requires
            old(self).wf(),
        ensures
            final(self).wf(),
            old(self).state != RunState::Running ==> {
                &&& r == Ok::<u64, Fault>(IDLE_TICKS)
                &&& moves(
                    *old(self),
                    *final(self),
                    old(self).reg,
                    old(self).mmu@,
                    IDLE_TICKS as int,
                )
            },
            old(self).state == RunState::Running ==> step_result(*old(self), *final(self), r),
    {
        match self.state {
            RunState::Running => {},
            _ => {
                self.add_ticks(IDLE_TICKS);
                return Ok(IDLE_TICKS);
            },
        }
        let op = self.mmu.read(self.reg.pc);
        self.reg.pc = self.reg.pc.wrapping_add(1);
        if op == PREFIX {
            let second = self.mmu.read(self.reg.pc);
            self.reg.pc = self.reg.pc.wrapping_add(1);
            assert(*self == fetched(*old(self), 2));
            let entry = prefixed(second);
            match execute_prefixed(self, second) {
                Ok(()) => {},
                Err(fault) => return Err(fault),
            }
            let ghost done = *self;
            self.ticks = self.ticks.wrapping_add(entry.cost as u64);
            assert(less_ticks(*self, entry.cost as int) == done);
            Ok(entry.cost as u64)
        } else {
            assert(*self == fetched(*old(self), 1));
            let entry = instruction(op);
            let before = self.ticks;
            match execute(self, op) {
                Ok(()) => {},
                Err(fault) => return Err(fault),
            }
            let extra = self.ticks.wrapping_sub(before);
            assert(extra == branch_extra(op, old(self).reg.f));
            let ghost done = *self;
            self.ticks = self.ticks.wrapping_add(entry.cost as u64);
            assert(less_ticks(*self, entry.cost as int) == done);
            Ok(entry.cost as u64 + extra)
        }
    }
}

} // verus!
