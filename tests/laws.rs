use lr35902::alu::add_set_flags;
use lr35902::arith::{add_a_b, add_hl_bc, add_hl_sp, daa};
use lr35902::bits::rlca;
use lr35902::cpu::Cpu;
use lr35902::memory::Memory;

fn blank() -> Cpu {
    Cpu::new(Memory::new())
}

#[test]
fn add_matches_formula_for_all_pairs() {
    let mut cpu = blank();
    for a in 0..=255u8 {
        for b in 0..=255u8 {
            let r = add_set_flags(&mut cpu, a, b);
            let sum = a as u32 + b as u32;
            assert_eq!(r as u32, sum % 256);
            assert_eq!(cpu.get_zero(), r == 0);
            assert!(!cpu.get_sub());
            assert_eq!(cpu.get_half_carry(), (a & 0xf) + (b & 0xf) > 0xf);
            assert_eq!(cpu.get_carry(), sum > 255);
            assert_eq!(cpu.reg.f & 0x0f, 0);
        }
    }
}

#[test]
fn add_exact_values() {
    let mut cpu = blank();
    cpu.reg.a = 0x3a;
    cpu.reg.b = 0xc6;
    add_a_b(&mut cpu);
    assert_eq!(cpu.reg.a, 0x00);
    assert_eq!(cpu.reg.f, 0xb0);
}

#[test]
fn add_hl_keeps_zero_either_way() {
    for zero in [false, true] {
        for (hl, bc) in [(0x8a23u16, 0x0605u16), (0xffff, 0x0001), (0x0000, 0x0000), (0x0fff, 0x0001)] {
            let mut cpu = blank();
            cpu.set_zero(zero);
            cpu.set_hl(hl);
            cpu.set_bc(bc);
            add_hl_bc(&mut cpu);
            assert_eq!(cpu.get_zero(), zero);
            assert_eq!(cpu.hl(), hl.wrapping_add(bc));
        }
    }
}

#[test]
fn add_hl_exact_flags() {
    let mut cpu = blank();
    cpu.set_hl(0x8a23);
    cpu.set_bc(0x0605);
    add_hl_bc(&mut cpu);
    assert_eq!(cpu.hl(), 0x9028);
    assert!(cpu.get_half_carry());
    assert!(!cpu.get_carry());

    let mut cpu = blank();
    cpu.set_hl(0x8a23);
    cpu.reg.sp = 0x8a23;
    add_hl_sp(&mut cpu);
    assert_eq!(cpu.hl(), 0x1446);
    assert!(cpu.get_half_carry());
    assert!(cpu.get_carry());
    assert!(!cpu.get_sub());
}

#[test]
fn push_pop_round_trip_at_many_stack_pointers() {
    for sp in [0xfffeu16, 0xc000, 0x8002, 0x0002, 0x0000] {
        for v in [0x0000u16, 0x1234, 0xffff, 0x00ff, 0xff00] {
            let mut cpu = blank();
            cpu.reg.sp = sp;
            cpu.push_word(v);
            assert_eq!(cpu.reg.sp, sp.wrapping_sub(2));
            assert_eq!(cpu.pop_word(), v);
            assert_eq!(cpu.reg.sp, sp);
        }
    }
}

#[test]
fn rlca_eight_times_is_identity() {
    for v in 0..=255u8 {
        let mut cpu = blank();
        cpu.reg.a = v;
        for _ in 0..8 {
            let out = cpu.reg.a & 0x80 != 0;
            rlca(&mut cpu);
            assert_eq!(cpu.get_carry(), out);
            assert!(!cpu.get_zero());
        }
        assert_eq!(cpu.reg.a, v);
    }
}

#[test]
fn rlca_clears_zero_on_zero_result() {
    let mut cpu = blank();
    cpu.reg.a = 0;
    cpu.set_zero(true);
    rlca(&mut cpu);
    assert_eq!(cpu.reg.a, 0);
    assert!(!cpu.get_zero());
}

fn bcd(n: u32) -> u8 {
    ((n / 10) * 16 + n % 10) as u8
}

#[test]
fn daa_after_add_gives_decimal_sum() {
    for x in 0..100u32 {
        for y in 0..100u32 {
            let mut cpu = blank();
            cpu.reg.a = bcd(x);
            cpu.reg.b = bcd(y);
            add_a_b(&mut cpu);
            daa(&mut cpu);
            assert_eq!(cpu.reg.a, bcd((x + y) % 100), "{} + {}", x, y);
            assert_eq!(cpu.get_carry(), x + y > 99);
            assert!(!cpu.get_half_carry());
        }
    }
}
