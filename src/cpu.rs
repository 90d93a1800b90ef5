//! Processor state: registers, packed flags, stack pointer, program counter,
//! tick counter, interrupt-master-enable and run state, with the memory it
//! drives.
use vstd::prelude::*;

use crate::flags::{
    carry_of, flags_byte, flags_valid, half_of, lemma_pack, pack, sub_of, zero_of,
    CARRY, HALF_CARRY, SUBTRACT, ZERO,
};
use crate::memory::Memory;

verus! {

/// Whether the core fetches and executes instructions.
#[derive(Clone, Copy, Debug, PartialEq, Eq, Structural)]
pub enum RunState {
    Running,
    Halted,
    Stopped,
}

/// One of the seven 8-bit data registers.
#[derive(Clone, Copy, Debug, PartialEq, Eq, Structural)]
pub enum Reg8 {
    A,
    B,
    C,
    D,
    E,
    H,
    L,
}

/// The register file. `f` is the packed flag byte.
#[derive(Clone, Copy, Debug, PartialEq, Eq, Structural)]
pub struct Registers {
    pub a: u8,
    pub f: u8,
    pub b: u8,
    pub c: u8,
    pub d: u8,
    pub e: u8,
    pub h: u8,
    pub l: u8,
    pub sp: u16,
    pub pc: u16,
}

/// `x` reduced into a byte.
pub open spec fn w8(x: int) -> u8 {
    (x % 0x100) as u8
}

/// `x` reduced into 16 bits.
pub open spec fn w16(x: int) -> u16 {
    (x % 0x10000) as u16
}

/// `x` reduced into 64 bits.
pub open spec fn w64(x: int) -> u64 {
    (x % 0x1_0000_0000_0000_0000) as u64
}

/// The 16-bit value with high byte `hi` and low byte `lo`.
pub open spec fn pair(hi: u8, lo: u8) -> u16 {
    (hi * 0x100 + lo) as u16
}

pub open spec fn hi(v: u16) -> u8 {
    (v / 0x100) as u8
}

pub open spec fn lo(v: u16) -> u8 {
    (v % 0x100) as u8
}

/// The little-endian 16-bit value stored at `addr` and the address after it.
pub open spec fn word_at(m: Seq<u8>, addr: u16) -> u16 {
    pair(m[w16(addr + 1) as int], m[addr as int])
}

/// Memory after pushing `v` with stack pointer `sp`: high byte at `sp - 1`,
/// low byte at `sp - 2`.
pub open spec fn pushed(m: Seq<u8>, sp: u16, v: u16) -> Seq<u8> {
    m.update(w16(sp - 1) as int, hi(v)).update(w16(sp - 2) as int, lo(v))
}

impl Registers {
    pub open spec fn bc(self) -> u16 {
        pair(self.b, self.c)
    }

    pub open spec fn de(self) -> u16 {
        pair(self.d, self.e)
    }

    pub open spec fn hl(self) -> u16 {
        pair(self.h, self.l)
    }

    pub open spec fn af(self) -> u16 {
        pair(self.a, self.f)
    }

    pub open spec fn with_bc(self, v: u16) -> Registers {
        Registers { b: hi(v), c: lo(v), ..self }
    }

    pub open spec fn with_de(self, v: u16) -> Registers {
        Registers { d: hi(v), e: lo(v), ..self }
    }

    pub open spec fn with_hl(self, v: u16) -> Registers {
        Registers { h: hi(v), l: lo(v), ..self }
    }

    /// Writing AF forces the low nibble of F to zero.
    pub open spec fn with_af(self, v: u16) -> Registers {
        Registers { a: hi(v), f: lo(v) & 0xf0, ..self }
    }

    pub open spec fn with_flags(self, z: bool, n: bool, h: bool, c: bool) -> Registers {
        Registers { f: pack(z, n, h, c), ..self }
    }

    pub open spec fn zero(self) -> bool {
        zero_of(self.f)
    }

    pub open spec fn sub(self) -> bool {
        sub_of(self.f)
    }

    pub open spec fn half(self) -> bool {
        half_of(self.f)
    }

    pub open spec fn carry(self) -> bool {
        carry_of(self.f)
    }

    pub open spec fn get8(self, r: Reg8) -> u8 {
        match r {
            Reg8::A => self.a,
            Reg8::B => self.b,
            Reg8::C => self.c,
            Reg8::D => self.d,
            Reg8::E => self.e,
            Reg8::H => self.h,
            Reg8::L => self.l,
        }
    }

    pub open spec fn set8(self, r: Reg8, v: u8) -> Registers {
        match r {
            Reg8::A => Registers { a: v, ..self },
            Reg8::B => Registers { b: v, ..self },
            Reg8::C => Registers { c: v, ..self },
            Reg8::D => Registers { d: v, ..self },
            Reg8::E => Registers { e: v, ..self },
            Reg8::H => Registers { h: v, ..self },
            Reg8::L => Registers { l: v, ..self },
        }
    }
}

/// The processor: registers, counters and the memory it reads and writes.
pub struct Cpu {
    pub reg: Registers,
    /// Cycle ticks spent so far; wraps around.
    pub ticks: u64,
    /// Interrupt-master-enable.
    pub ime: bool,
    pub state: RunState,
    pub mmu: Memory,
}

/// `post` is `pre` with registers `r`, memory `m` and `extra` more ticks on the
/// counter; interrupt-master-enable and run state are kept.
pub open spec fn moves(pre: Cpu, post: Cpu, r: Registers, m: Seq<u8>, extra: int) -> bool {
    &&& post.wf()
    &&& post.reg == r
    &&& post.mmu@ == m
    &&& post.ticks == w64(pre.ticks + extra)
    &&& post.ime == pre.ime
    &&& post.state == pre.state
}

/// `post` is `pre` with registers `r` and nothing else changed.
pub open spec fn regs_only(pre: Cpu, post: Cpu, r: Registers) -> bool {
    moves(pre, post, r, pre.mmu@, 0)
}

/// `post` is `pre` with registers `r` and `v` stored at `addr`.
pub open spec fn stores(pre: Cpu, post: Cpu, r: Registers, addr: u16, v: u8) -> bool {
    moves(pre, post, r, pre.mmu@.update(addr as int, v), 0)
}

/// `post` is `pre` with run state `state` and interrupt-master-enable `ime`;
/// registers, memory and ticks are kept.
pub open spec fn controls(pre: Cpu, post: Cpu, state: RunState, ime: bool) -> bool {
    &&& post.wf()
    &&& post.reg == pre.reg
    &&& post.mmu@ == pre.mmu@
    &&& post.ticks == pre.ticks
    &&& post.ime == ime
    &&& post.state == state
}

impl Cpu {
    /// The flag byte's low nibble is zero and memory covers every address.
    pub open spec fn wf(&self) -> bool {
        flags_valid(self.reg.f) && self.mmu.wf()
    }

    /// The byte at `addr`.
    pub open spec fn mem(self, addr: u16) -> u8 {
        self.mmu@[addr as int]
    }

    /// The byte at `HL`.
    pub open spec fn mem_hl(self) -> u8 {
        self.mem(self.reg.hl())
    }

    /// The byte operand at `PC`.
    pub open spec fn imm8(self) -> u8 {
        self.mem(self.reg.pc)
    }

    /// The 16-bit operand at `PC`, low byte first.
    pub open spec fn imm16(self) -> u16 {
        word_at(self.mmu@, self.reg.pc)
    }

    /// A processor with every register zero, running, interrupts disabled.
    pub fn new(mmu: Memory) -> (cpu: Cpu)
        requires
            mmu.wf(),
        ensures
            cpu.wf(),
            cpu.reg == (Registers { a: 0, f: 0, b: 0, c: 0, d: 0, e: 0, h: 0, l: 0, sp: 0, pc: 0 }),
            cpu.mmu@ == mmu@,
            cpu.ticks == 0,
            !cpu.ime,
            cpu.state == RunState::Running,
    {
        proof {
            assert(0u8 & 0x0f == 0) by (bit_vector);
        }
        Cpu {
            reg: Registers { a: 0, f: 0, b: 0, c: 0, d: 0, e: 0, h: 0, l: 0, sp: 0, pc: 0 },
            ticks: 0,
            ime: false,
            state: RunState::Running,
            mmu,
        }
    }

    pub fn bc(&self) -> (r: u16)
        ensures
            r == self.reg.bc(),
    {
        (self.reg.b as u16) * 0x100 + self.reg.c as u16
    }

    pub fn de(&self) -> (r: u16)
        ensures
            r == self.reg.de(),
    {
        (self.reg.d as u16) * 0x100 + self.reg.e as u16
    }

    pub fn hl(&self) -> (r: u16)
        ensures
            r == self.reg.hl(),
    {
        (self.reg.h as u16) * 0x100 + self.reg.l as u16
    }

    pub fn af(&self) -> (r: u16)
        ensures
            r == self.reg.af(),
    {
        (self.reg.a as u16) * 0x100 + self.reg.f as u16
    }

    pub fn sp(&self) -> (r: u16)
        ensures
            r == self.reg.sp,
    {
        self.reg.sp
    }

    pub fn set_bc(&mut self, v: u16)
        requires
            old(self).wf(),
        ensures
            regs_only(*old(self), *final(self), old(self).reg.with_bc(v)),
    {
        self.reg.b = (v / 0x100) as u8;
        self.reg.c = (v % 0x100) as u8;
    }

    pub fn set_de(&mut self, v: u16)
        requires
            old(self).wf(),
        ensures
            regs_only(*old(self), *final(self), old(self).reg.with_de(v)),
    {
        self.reg.d = (v / 0x100) as u8;
        self.reg.e = (v % 0x100) as u8;
    }

    pub fn set_hl(&mut self, v: u16)
        requires
            old(self).wf(),
        ensures
            regs_only(*old(self), *final(self), old(self).reg.with_hl(v)),
    {
        self.reg.h = (v / 0x100) as u8;
        self.reg.l = (v % 0x100) as u8;
    }

    /// Sets A and F from a 16-bit value; the low nibble of F is cleared.
    pub fn set_af(&mut self, v: u16)
        requires
            old(self).wf(),
        ensures
            regs_only(*old(self), *final(self), old(self).reg.with_af(v)),
    {
        let f = (v % 0x100) as u8;
        proof {
            assert((f & 0xf0) & 0x0f == 0) by (bit_vector);
        }
        self.reg.a = (v / 0x100) as u8;
        self.reg.f = f & 0xf0;
    }

    pub fn get_zero(&self) -> (r: bool)
        ensures
            r == self.reg.zero(),
    {
        self.reg.f & ZERO == ZERO
    }

    pub fn get_sub(&self) -> (r: bool)
        ensures
            r == self.reg.sub(),
    {
        self.reg.f & SUBTRACT == SUBTRACT
    }

    pub fn get_half_carry(&self) -> (r: bool)
        ensures
            r == self.reg.half(),
    {
        self.reg.f & HALF_CARRY == HALF_CARRY
    }

    pub fn get_carry(&self) -> (r: bool)
        ensures
            r == self.reg.carry(),
    {
        self.reg.f & CARRY == CARRY
    }

    /// Replaces all four flags at once.
    pub fn set_flags(&mut self, z: bool, n: bool, h: bool, c: bool)
        requires
            old(self).wf(),
        ensures
            regs_only(*old(self), *final(self), old(self).reg.with_flags(z, n, h, c)),
    {
        self.reg.f = flags_byte(z, n, h, c);
    }

    pub fn set_zero(&mut self, v: bool)
        requires
            old(self).wf(),
        ensures
            regs_only(
                *old(self),
                *final(self),
                (Registers {
                    f: pack(v, old(self).reg.sub(), old(self).reg.half(), old(self).reg.carry()),
                    ..old(self).reg
                }),
            ),
            final(self).reg.zero() == v,
    {
        let (n, h, c) = (self.get_sub(), self.get_half_carry(), self.get_carry());
        proof {
            lemma_pack(v, n, h, c);
        }
        self.set_flags(v, n, h, c);
    }

    pub fn set_sub(&mut self, v: bool)
        requires
            old(self).wf(),
        ensures
            regs_only(
                *old(self),
                *final(self),
                (Registers {
                    f: pack(old(self).reg.zero(), v, old(self).reg.half(), old(self).reg.carry()),
                    ..old(self).reg
                }),
            ),
            final(self).reg.sub() == v,
    {
        let (z, h, c) = (self.get_zero(), self.get_half_carry(), self.get_carry());
        proof {
            lemma_pack(z, v, h, c);
        }
        self.set_flags(z, v, h, c);
    }

    pub fn set_half_carry(&mut self, v: bool)
        requires
            old(self).wf(),
        ensures
            regs_only(
                *old(self),
                *final(self),
                (Registers {
                    f: pack(old(self).reg.zero(), old(self).reg.sub(), v, old(self).reg.carry()),
                    ..old(self).reg
                }),
            ),
            final(self).reg.half() == v,
    {
        let (z, n, c) = (self.get_zero(), self.get_sub(), self.get_carry());
        proof {
            lemma_pack(z, n, v, c);
        }
        self.set_flags(z, n, v, c);
    }

    pub fn set_carry(&mut self, v: bool)
        requires
            old(self).wf(),
        ensures
            regs_only(
                *old(self),
                *final(self),
                (Registers {
                    f: pack(old(self).reg.zero(), old(self).reg.sub(), old(self).reg.half(), v),
                    ..old(self).reg
                }),
            ),
            final(self).reg.carry() == v,
    {
        let (z, n, h) = (self.get_zero(), self.get_sub(), self.get_half_carry());
        proof {
            lemma_pack(z, n, h, v);
        }
        self.set_flags(z, n, h, v);
    }

    /// The value of an 8-bit register.
    pub fn r8(&self, r: Reg8) -> (v: u8)
        ensures
            v == self.reg.get8(r),
    {
        match r {
            Reg8::A => self.reg.a,
            Reg8::B => self.reg.b,
            Reg8::C => self.reg.c,
            Reg8::D => self.reg.d,
            Reg8::E => self.reg.e,
            Reg8::H => self.reg.h,
            Reg8::L => self.reg.l,
        }
    }

    /// Stores `v` in an 8-bit register.
    pub fn set_r8(&mut self, r: Reg8, v: u8)
        requires
            old(self).wf(),
        ensures
            regs_only(*old(self), *final(self), old(self).reg.set8(r, v)),
    {
        match r {
            Reg8::A => self.reg.a = v,
            Reg8::B => self.reg.b = v,
            Reg8::C => self.reg.c = v,
            Reg8::D => self.reg.d = v,
            Reg8::E => self.reg.e = v,
            Reg8::H => self.reg.h = v,
            Reg8::L => self.reg.l = v,
        }
    }

    /// Fetches the byte at `PC` and advances `PC`.
    pub fn read_u8(&mut self) -> (r: u8)
        requires
            old(self).wf(),
        ensures
            r == old(self).imm8(),
            regs_only(
                *old(self),
                *final(self),
                (Registers { pc: w16(old(self).reg.pc + 1), ..old(self).reg }),
            ),
    {
        let byte = self.mmu.read(self.reg.pc);
        self.reg.pc = self.reg.pc.wrapping_add(1);
        byte
    }

    /// Fetches the 16-bit operand at `PC`, low byte first, and advances `PC` by two.
    pub fn read_u16(&mut self) -> (r: u16)
        requires
            old(self).wf(),
        ensures
            r == old(self).imm16(),
            regs_only(
                *old(self),
                *final(self),
                (Registers { pc: w16(old(self).reg.pc + 2), ..old(self).reg }),
            ),
    {
        let lo = self.read_u8();
        let hi = self.read_u8();
        (hi as u16) * 0x100 + lo as u16
    }

    /// Pushes `v`: high byte at `SP - 1`, low byte at `SP - 2`, then `SP -= 2`.
    pub fn push_word(&mut self, v: u16)
        requires
            old(self).wf(),
        ensures
            moves(
                *old(self),
                *final(self),
                (Registers { sp: w16(old(self).reg.sp - 2), ..old(self).reg }),
                pushed(old(self).mmu@, old(self).reg.sp, v),
                0,
            ),
    {
        self.reg.sp = self.reg.sp.wrapping_sub(1);
        self.mmu.write(self.reg.sp, (v / 0x100) as u8);
        self.reg.sp = self.reg.sp.wrapping_sub(1);
        self.mmu.write(self.reg.sp, (v % 0x100) as u8);
    }

    /// Pops a 16-bit value: low byte at `SP`, high byte at `SP + 1`, then `SP += 2`.
    pub fn pop_word(&mut self) -> (r: u16)
        requires
            old(self).wf(),
        ensures
            r == word_at(old(self).mmu@, old(self).reg.sp),
            regs_only(
                *old(self),
                *final(self),
                (Registers { sp: w16(old(self).reg.sp + 2), ..old(self).reg }),
            ),
    {
        let lo = self.mmu.read(self.reg.sp);
        self.reg.sp = self.reg.sp.wrapping_add(1);
        let hi = self.mmu.read(self.reg.sp);
        self.reg.sp = self.reg.sp.wrapping_add(1);
        (hi as u16) * 0x100 + lo as u16
    }

    /// Enters the halted state.
    pub fn halt(&mut self)
        requires
            old(self).wf(),
        ensures
            controls(*old(self), *final(self), RunState::Halted, old(self).ime),
    {
        self.state = RunState::Halted;
    }

    /// Enters the stopped state.
    pub fn stop(&mut self)
        requires
            old(self).wf(),
        ensures
            controls(*old(self), *final(self), RunState::Stopped, old(self).ime),
    {
        self.state = RunState::Stopped;
    }

    /// Returns to normal fetch-execute; called by whoever wakes the core.
    pub fn resume(&mut self)
        requires
            old(self).wf(),
        ensures
            controls(*old(self), *final(self), RunState::Running, old(self).ime),
    {
        self.state = RunState::Running;
    }

    pub fn enable_int(&mut self)
        requires
            old(self).wf(),
        ensures
            controls(*old(self), *final(self), old(self).state, true),
    {
        self.ime = true;
    }

    pub fn disable_int(&mut self)
        requires
            old(self).wf(),
        ensures
            controls(*old(self), *final(self), old(self).state, false),
    {
        self.ime = false;
    }

    /// Adds `n` ticks to the counter, wrapping around.
    pub fn add_ticks(&mut self, n: u64)
        requires
            old(self).wf(),
        ensures
            moves(*old(self), *final(self), old(self).reg, old(self).mmu@, n as int),
    {
        self.ticks = self.ticks.wrapping_add(n);
    }
}

} // verus!
