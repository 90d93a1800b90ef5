use lr35902::cpu::{Cpu, RunState};
use lr35902::dispatch::{instruction, prefixed, OpKind};
use lr35902::memory::Memory;

fn cpu_with(program: &[u8], at: u16) -> Cpu {
    let mut mem = Memory::new();
    for (i, b) in program.iter().enumerate() {
        mem.write(at.wrapping_add(i as u16), *b);
    }
    let mut cpu = Cpu::new(mem);
    cpu.reg.pc = at;
    cpu.reg.sp = 0xfffe;
    cpu
}

#[test]
fn relative_branch_costs() {
    // JR NZ, +5 with Zero set: not taken
    let mut cpu = cpu_with(&[0x20, 0x05], 0x0100);
    cpu.set_zero(true);
    assert_eq!(cpu.step(), Ok(8));
    assert_eq!(cpu.reg.pc, 0x0102);
    assert_eq!(cpu.ticks, 8);

    // taken
    let mut cpu = cpu_with(&[0x20, 0x05], 0x0100);
    assert_eq!(cpu.step(), Ok(12));
    assert_eq!(cpu.reg.pc, 0x0107);
    assert_eq!(cpu.ticks, 12);
}

#[test]
fn relative_branch_backwards() {
    // JR C, -4 taken
    let mut cpu = cpu_with(&[0x38, 0xfc], 0x0100);
    cpu.set_carry(true);
    assert_eq!(cpu.step(), Ok(12));
    assert_eq!(cpu.reg.pc, 0x00fe);
}

#[test]
fn absolute_branch_costs() {
    let mut cpu = cpu_with(&[0xca, 0x00, 0x40], 0x0100);
    assert_eq!(cpu.step(), Ok(12));
    assert_eq!(cpu.reg.pc, 0x0103);

    let mut cpu = cpu_with(&[0xca, 0x00, 0x40], 0x0100);
    cpu.set_zero(true);
    assert_eq!(cpu.step(), Ok(16));
    assert_eq!(cpu.reg.pc, 0x4000);
}

#[test]
fn call_and_return_costs() {
    // CALL NC not taken: operand consumed, nothing pushed
    let mut cpu = cpu_with(&[0xd4, 0x00, 0x40], 0x0100);
    cpu.set_carry(true);
    assert_eq!(cpu.step(), Ok(12));
    assert_eq!(cpu.reg.pc, 0x0103);
    assert_eq!(cpu.reg.sp, 0xfffe);

    // CALL NC taken, then RET NC taken
    let mut cpu = cpu_with(&[0xd4, 0x00, 0x40], 0x0100);
    cpu.mmu.write(0x4000, 0xd0);
    assert_eq!(cpu.step(), Ok(24));
    assert_eq!(cpu.reg.pc, 0x4000);
    assert_eq!(cpu.step(), Ok(20));
    assert_eq!(cpu.reg.pc, 0x0103);
    assert_eq!(cpu.reg.sp, 0xfffe);
    assert_eq!(cpu.ticks, 44);

    // RET Z not taken
    let mut cpu = cpu_with(&[0xc8], 0x0100);
    assert_eq!(cpu.step(), Ok(8));
    assert_eq!(cpu.reg.pc, 0x0101);
}

#[test]
fn prefixed_costs() {
    let mut cpu = cpu_with(&[0xcb, 0x00, 0xcb, 0x06], 0x0100);
    assert_eq!(cpu.step(), Ok(8));
    assert_eq!(cpu.step(), Ok(16));
    assert_eq!(cpu.reg.pc, 0x0104);
    assert_eq!(cpu.ticks, 24);
}

#[test]
fn halt_idles_until_resumed() {
    let mut cpu = cpu_with(&[0x76, 0x00], 0x0100);
    assert_eq!(cpu.step(), Ok(4));
    assert_eq!(cpu.state, RunState::Halted);
    assert_eq!(cpu.step(), Ok(4));
    assert_eq!(cpu.reg.pc, 0x0101);
    assert_eq!(cpu.ticks, 8);
    cpu.resume();
    assert_eq!(cpu.step(), Ok(4));
    assert_eq!(cpu.reg.pc, 0x0102);
}

#[test]
fn stop_enters_stopped() {
    let mut cpu = cpu_with(&[0x10], 0x0100);
    assert_eq!(cpu.step(), Ok(4));
    assert_eq!(cpu.state, RunState::Stopped);
}

#[test]
fn interrupt_enable_opcodes() {
    let mut cpu = cpu_with(&[0xfb, 0xf3], 0x0100);
    cpu.step().unwrap();
    assert!(cpu.ime);
    cpu.step().unwrap();
    assert!(!cpu.ime);

    // RETI pops and enables
    let mut cpu = cpu_with(&[0xd9], 0x0100);
    cpu.push_word(0x1234);
    assert_eq!(cpu.step(), Ok(16));
    assert_eq!(cpu.reg.pc, 0x1234);
    assert!(cpu.ime);
}

#[test]
fn primary_table_entries() {
    let nop = instruction(0x00);
    assert_eq!(nop.mnemonic, "NOP");
    assert_eq!(nop.cost, 4);
    assert_eq!(nop.kind, OpKind::Implemented);
    assert_eq!(instruction(0xcd).cost, 24);
    assert_eq!(instruction(0xcd).mnemonic, "CALL u16");
    assert_eq!(instruction(0x08).cost, 20);
    assert_eq!(instruction(0x46).cost, 8);
    assert_eq!(instruction(0x76).mnemonic, "HALT");
    assert_eq!(instruction(0xcb).kind, OpKind::Prefix);
    assert_eq!(instruction(0xd3).kind, OpKind::Illegal);
    assert_eq!(instruction(0xd3).mnemonic, "ILLEGAL");
    let illegal = (0..=255u8).filter(|op| instruction(*op).kind == OpKind::Illegal).count();
    assert_eq!(illegal, 11);
}

#[test]
fn prefixed_table_entries() {
    assert_eq!(prefixed(0x00).mnemonic, "RLC B");
    assert_eq!(prefixed(0x06).cost, 16);
    assert_eq!(prefixed(0x37).mnemonic, "SWAP A");
    assert_eq!(prefixed(0xde).mnemonic, "SET 3, [HL]");
    assert_eq!(prefixed(0x40).kind, OpKind::Unimplemented);
    let wired = (0..=255u8).filter(|op| prefixed(*op).kind == OpKind::Implemented).count();
    assert_eq!(wired, 48);
}
