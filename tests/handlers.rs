use lr35902::arith::{
    adc_a_b, add_sp_i8, and_a_c, ccf, cp_a_u8, cpl, daa, dec_mhl, inc_bc, ld_hl_spi8, or_a_a, sbc_a_b,
    scf, sub_a_b, xor_a_a,
};
use lr35902::bits::{
    bit_0_d, bit_7_h, res_0_a, res_7_mhl, rl_c, rla, rr_a, rra, rrc_a, rrca, set_3_mhl, set_4_a, sla_mhl,
    srl_b, swap_a,
};
use lr35902::control::{jp_hl, pop_af, push_af, rst_38h};
use lr35902::cpu::Cpu;
use lr35902::load::{ld_a_mff00c, ld_a_mhli, ld_mff00u8_a, ld_mhld_a, ld_mu16_sp};
use lr35902::memory::Memory;

fn blank() -> Cpu {
    Cpu::new(Memory::new())
}

#[test]
fn adc_and_sbc_use_carry() {
    let mut cpu = blank();
    cpu.reg.a = 0xe1;
    cpu.reg.b = 0x0f;
    cpu.set_carry(true);
    adc_a_b(&mut cpu);
    assert_eq!(cpu.reg.a, 0xf1);
    assert_eq!(cpu.reg.f, 0x20);

    let mut cpu = blank();
    cpu.reg.a = 0x3b;
    cpu.reg.b = 0x2a;
    cpu.set_carry(true);
    sbc_a_b(&mut cpu);
    assert_eq!(cpu.reg.a, 0x10);
    assert_eq!(cpu.reg.f, 0x40);

    let mut cpu = blank();
    cpu.reg.a = 0x3b;
    cpu.reg.b = 0x4f;
    cpu.set_carry(true);
    sbc_a_b(&mut cpu);
    assert_eq!(cpu.reg.a, 0xeb);
    assert_eq!(cpu.reg.f, 0x70);
}

#[test]
fn sub_and_compare() {
    let mut cpu = blank();
    cpu.reg.a = 0x3e;
    cpu.reg.b = 0x3e;
    sub_a_b(&mut cpu);
    assert_eq!(cpu.reg.a, 0);
    assert_eq!(cpu.reg.f, 0xc0);

    let mut cpu = blank();
    cpu.reg.a = 0x3c;
    cpu.mmu.write(0, 0x40);
    cp_a_u8(&mut cpu);
    assert_eq!(cpu.reg.a, 0x3c);
    assert_eq!(cpu.reg.f, 0x50);
    assert_eq!(cpu.reg.pc, 1);
}

#[test]
fn logic_flags() {
    let mut cpu = blank();
    cpu.reg.a = 0x5a;
    cpu.reg.c = 0x3f;
    and_a_c(&mut cpu);
    assert_eq!(cpu.reg.a, 0x1a);
    assert_eq!(cpu.reg.f, 0x20);

    let mut cpu = blank();
    cpu.reg.a = 0xff;
    cpu.set_carry(true);
    xor_a_a(&mut cpu);
    assert_eq!(cpu.reg.a, 0);
    assert_eq!(cpu.reg.f, 0x80);

    let mut cpu = blank();
    cpu.reg.a = 0x00;
    or_a_a(&mut cpu);
    assert_eq!(cpu.reg.f, 0x80);
}

#[test]
fn daa_after_subtraction() {
    // 0x42 - 0x15 = 0x2d with half-borrow; adjusted to 0x27
    let mut cpu = blank();
    cpu.reg.a = 0x42;
    cpu.reg.b = 0x15;
    sub_a_b(&mut cpu);
    daa(&mut cpu);
    assert_eq!(cpu.reg.a, 0x27);
    assert!(cpu.get_sub());
    assert!(!cpu.get_carry());
}

#[test]
fn flag_instructions() {
    let mut cpu = blank();
    cpu.reg.a = 0x35;
    cpl(&mut cpu);
    assert_eq!(cpu.reg.a, 0xca);
    assert!(cpu.get_sub() && cpu.get_half_carry());
    scf(&mut cpu);
    assert_eq!(cpu.reg.f, 0x10);
    ccf(&mut cpu);
    assert_eq!(cpu.reg.f, 0x00);
}

#[test]
fn sixteen_bit_increment_wraps() {
    let mut cpu = blank();
    cpu.set_bc(0xffff);
    inc_bc(&mut cpu);
    assert_eq!(cpu.bc(), 0);
    assert_eq!(cpu.reg.f, 0);
}

#[test]
fn dec_byte_at_hl() {
    let mut cpu = blank();
    cpu.set_hl(0xc000);
    cpu.mmu.write(0xc000, 0x01);
    dec_mhl(&mut cpu);
    assert_eq!(cpu.mmu.read(0xc000), 0x00);
    assert_eq!(cpu.reg.f, 0xc0);
}

#[test]
fn stack_pointer_plus_signed_byte() {
    let mut cpu = blank();
    cpu.reg.sp = 0xfff8;
    cpu.mmu.write(0, 0x08);
    add_sp_i8(&mut cpu);
    assert_eq!(cpu.reg.sp, 0x0000);
    assert_eq!(cpu.reg.f, 0x30);

    let mut cpu = blank();
    cpu.reg.sp = 0x0005;
    cpu.set_zero(true);
    cpu.mmu.write(0, 0xfe);
    ld_hl_spi8(&mut cpu);
    assert_eq!(cpu.hl(), 0x0003);
    assert_eq!(cpu.reg.sp, 0x0005);
    assert_eq!(cpu.reg.f, 0x30);

    let mut cpu = blank();
    cpu.reg.sp = 0x0010;
    cpu.mmu.write(0, 0xff);
    add_sp_i8(&mut cpu);
    assert_eq!(cpu.reg.sp, 0x000f);
    assert_eq!(cpu.reg.f, 0x10);
    assert_eq!(cpu.reg.pc, 1);
}

#[test]
fn accumulator_rotates() {
    let mut cpu = blank();
    cpu.reg.a = 0x01;
    rrca(&mut cpu);
    assert_eq!(cpu.reg.a, 0x80);
    assert_eq!(cpu.reg.f, 0x10);

    let mut cpu = blank();
    cpu.reg.a = 0x95;
    cpu.set_carry(true);
    rla(&mut cpu);
    assert_eq!(cpu.reg.a, 0x2b);
    assert_eq!(cpu.reg.f, 0x10);

    let mut cpu = blank();
    cpu.reg.a = 0x01;
    rra(&mut cpu);
    assert_eq!(cpu.reg.a, 0x00);
    assert_eq!(cpu.reg.f, 0x10);
}

#[test]
fn prefixed_rotates_set_zero() {
    let mut cpu = blank();
    cpu.reg.a = 0x01;
    cpu.reg.l = 0x77;
    rr_a(&mut cpu);
    assert_eq!(cpu.reg.a, 0x00);
    assert_eq!(cpu.reg.l, 0x77);
    assert_eq!(cpu.reg.f, 0x90);

    let mut cpu = blank();
    cpu.reg.a = 0x01;
    rrc_a(&mut cpu);
    assert_eq!(cpu.reg.a, 0x80);
    assert_eq!(cpu.reg.f, 0x10);

    let mut cpu = blank();
    cpu.reg.c = 0x80;
    rl_c(&mut cpu);
    assert_eq!(cpu.reg.c, 0x00);
    assert_eq!(cpu.reg.f, 0x90);
}

#[test]
fn shifts_and_swap() {
    let mut cpu = blank();
    cpu.set_hl(0xc000);
    cpu.mmu.write(0xc000, 0xff);
    sla_mhl(&mut cpu);
    assert_eq!(cpu.mmu.read(0xc000), 0xfe);
    assert_eq!(cpu.reg.f, 0x10);

    let mut cpu = blank();
    cpu.reg.b = 0x01;
    srl_b(&mut cpu);
    assert_eq!(cpu.reg.b, 0x00);
    assert_eq!(cpu.reg.f, 0x90);

    let mut cpu = blank();
    cpu.reg.a = 0xf1;
    cpu.set_carry(true);
    swap_a(&mut cpu);
    assert_eq!(cpu.reg.a, 0x1f);
    assert_eq!(cpu.reg.f, 0x00);
}

#[test]
fn single_bit_operations() {
    let mut cpu = blank();
    cpu.reg.d = 0xfe;
    cpu.set_carry(true);
    bit_0_d(&mut cpu);
    assert_eq!(cpu.reg.f, 0xb0);

    let mut cpu = blank();
    cpu.reg.h = 0x80;
    bit_7_h(&mut cpu);
    assert_eq!(cpu.reg.f, 0x20);

    let mut cpu = blank();
    cpu.reg.a = 0xff;
    res_0_a(&mut cpu);
    assert_eq!(cpu.reg.a, 0xfe);
    set_4_a(&mut cpu);
    assert_eq!(cpu.reg.a, 0xfe);
    cpu.reg.a = 0;
    set_4_a(&mut cpu);
    assert_eq!(cpu.reg.a, 0x10);
    assert_eq!(cpu.reg.f, 0);

    let mut cpu = blank();
    cpu.set_hl(0xc000);
    cpu.mmu.write(0xc000, 0x80);
    res_7_mhl(&mut cpu);
    assert_eq!(cpu.mmu.read(0xc000), 0x00);
    set_3_mhl(&mut cpu);
    assert_eq!(cpu.mmu.read(0xc000), 0x08);
}

#[test]
fn af_round_trip_clears_low_nibble() {
    let mut cpu = blank();
    cpu.reg.sp = 0xd000;
    cpu.push_word(0x12ff);
    pop_af(&mut cpu);
    assert_eq!(cpu.reg.a, 0x12);
    assert_eq!(cpu.reg.f, 0xf0);
    push_af(&mut cpu);
    assert_eq!(cpu.pop_word(), 0x12f0);
}

#[test]
fn restart_and_jump_hl() {
    let mut cpu = blank();
    cpu.reg.pc = 0x1234;
    cpu.reg.sp = 0xd000;
    rst_38h(&mut cpu);
    assert_eq!(cpu.reg.pc, 0x0038);
    assert_eq!(cpu.pop_word(), 0x1234);

    cpu.set_hl(0x4321);
    jp_hl(&mut cpu);
    assert_eq!(cpu.reg.pc, 0x4321);
}

#[test]
fn pointer_modes() {
    let mut cpu = blank();
    cpu.set_hl(0xc000);
    cpu.reg.a = 0x5a;
    ld_mhld_a(&mut cpu);
    assert_eq!(cpu.mmu.read(0xc000), 0x5a);
    assert_eq!(cpu.hl(), 0xbfff);

    cpu.set_hl(0xffff);
    cpu.mmu.write(0xffff, 0x77);
    ld_a_mhli(&mut cpu);
    assert_eq!(cpu.reg.a, 0x77);
    assert_eq!(cpu.hl(), 0x0000);
}

#[test]
fn high_page_modes() {
    let mut cpu = blank();
    cpu.reg.a = 0x42;
    cpu.mmu.write(0, 0x80);
    ld_mff00u8_a(&mut cpu);
    assert_eq!(cpu.mmu.read(0xff80), 0x42);

    cpu.reg.c = 0x80;
    cpu.reg.a = 0;
    ld_a_mff00c(&mut cpu);
    assert_eq!(cpu.reg.a, 0x42);
}

#[test]
fn store_stack_pointer_wraps_address() {
    let mut cpu = blank();
    cpu.reg.sp = 0xbeef;
    cpu.mmu.write(0, 0xff);
    cpu.mmu.write(1, 0xff);
    ld_mu16_sp(&mut cpu);
    assert_eq!(cpu.mmu.read(0xffff), 0xef);
    assert_eq!(cpu.mmu.read(0x0000), 0xbe);
}

#[test]
fn memory_from_bytes_pads_with_zeros() {
    let mem = Memory::from_bytes(&vec![1, 2, 3]);
    assert_eq!(mem.read(0), 1);
    assert_eq!(mem.read(2), 3);
    assert_eq!(mem.read(3), 0);
    assert_eq!(mem.read(0xffff), 0);
}
