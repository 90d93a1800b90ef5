use lr35902::arith::{dec_a, inc_a};
use lr35902::control::call_u16;
use lr35902::cpu::{Cpu, RunState};
use lr35902::dispatch::Fault;
use lr35902::memory::Memory;

fn cpu_with(program: &[u8], at: u16) -> Cpu {
    let mut mem = Memory::new();
    for (i, b) in program.iter().enumerate() {
        mem.write(at.wrapping_add(i as u16), *b);
    }
    let mut cpu = Cpu::new(mem);
    cpu.reg.pc = at;
    cpu
}

#[test]
fn inc_a_plain() {
    let mut cpu = cpu_with(&[], 0);
    cpu.reg.a = 0x3c;
    inc_a(&mut cpu);
    assert_eq!(cpu.reg.a, 0x3d);
    assert!(!cpu.get_zero());
    assert!(!cpu.get_sub());
    assert!(!cpu.get_half_carry());
}

#[test]
fn inc_a_half_carry() {
    let mut cpu = cpu_with(&[], 0);
    cpu.reg.a = 0x0f;
    inc_a(&mut cpu);
    assert_eq!(cpu.reg.a, 0x10);
    assert!(cpu.get_half_carry());
    assert!(!cpu.get_zero());
}

#[test]
fn inc_keeps_carry() {
    let mut cpu = cpu_with(&[], 0);
    cpu.reg.a = 0xff;
    cpu.set_carry(true);
    inc_a(&mut cpu);
    assert_eq!(cpu.reg.a, 0x00);
    assert!(cpu.get_zero());
    assert!(cpu.get_half_carry());
    assert!(cpu.get_carry());
}

#[test]
fn dec_a_wraps() {
    let mut cpu = cpu_with(&[], 0);
    cpu.reg.a = 0x00;
    dec_a(&mut cpu);
    assert_eq!(cpu.reg.a, 0xff);
    assert!(!cpu.get_zero());
    assert!(cpu.get_sub());
    assert!(cpu.get_half_carry());
}

#[test]
fn push_then_pop() {
    let mut cpu = cpu_with(&[], 0);
    cpu.reg.sp = 0xfffe;
    cpu.push_word(0x1234);
    assert_eq!(cpu.mmu.read(0xfffd), 0x12);
    assert_eq!(cpu.mmu.read(0xfffc), 0x34);
    assert_eq!(cpu.reg.sp, 0xfffc);
    assert_eq!(cpu.pop_word(), 0x1234);
    assert_eq!(cpu.reg.sp, 0xfffe);
}

#[test]
fn call_pushes_return_address() {
    let mut cpu = cpu_with(&[0xcd, 0x50, 0x01], 0x0100);
    cpu.reg.sp = 0xfffe;
    assert_eq!(cpu.step(), Ok(24));
    assert_eq!(cpu.reg.pc, 0x0150);
    assert_eq!(cpu.reg.sp, 0xfffc);
    assert_eq!(cpu.pop_word(), 0x0103);
}

#[test]
fn call_handler_after_fetch() {
    let mut cpu = cpu_with(&[0x50, 0x01], 0x0101);
    cpu.reg.sp = 0xd000;
    call_u16(&mut cpu);
    assert_eq!(cpu.reg.pc, 0x0150);
    assert_eq!(cpu.mmu.read(0xcfff), 0x01);
    assert_eq!(cpu.mmu.read(0xcffe), 0x03);
}

#[test]
fn illegal_encodings_fault_at_once() {
    for op in [0xd3u8, 0xdb, 0xdd, 0xe3, 0xe4, 0xeb, 0xec, 0xed, 0xf4, 0xfc, 0xfd] {
        let mut cpu = cpu_with(&[op], 0x0200);
        cpu.reg.a = 0x11;
        cpu.reg.b = 0x22;
        cpu.reg.sp = 0xc000;
        cpu.set_carry(true);
        let before = cpu.reg;
        assert_eq!(cpu.step(), Err(Fault::IllegalOpcode), "opcode {:02x}", op);
        let mut expected = before;
        expected.pc = 0x0201;
        assert_eq!(cpu.reg, expected);
        assert_eq!(cpu.ticks, 0);
        assert_eq!(cpu.state, RunState::Running);
    }
}

#[test]
fn unimplemented_prefixed_faults() {
    let mut cpu = cpu_with(&[0xcb, 0x30], 0x0200);
    let before = cpu.reg;
    assert_eq!(cpu.step(), Err(Fault::UnimplementedOpcode));
    let mut expected = before;
    expected.pc = 0x0202;
    assert_eq!(cpu.reg, expected);
    assert_eq!(cpu.ticks, 0);
}
