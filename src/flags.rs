//! The packed flag byte `F`: Zero, Subtract, HalfCarry and Carry in bits 7 to 4,
//! low nibble always zero.
use vstd::prelude::*;

verus! {

pub const ZERO: u8 = 0x80;

pub const SUBTRACT: u8 = 0x40;

pub const HALF_CARRY: u8 = 0x20;

pub const CARRY: u8 = 0x10;

/// The Zero flag of a flag byte.
pub open spec fn zero_of(f: u8) -> bool {
    f & 0x80 == 0x80
}

/// The Subtract flag of a flag byte.
pub open spec fn sub_of(f: u8) -> bool {
    f & 0x40 == 0x40
}

/// The HalfCarry flag of a flag byte.
pub open spec fn half_of(f: u8) -> bool {
    f & 0x20 == 0x20
}

/// The Carry flag of a flag byte.
pub open spec fn carry_of(f: u8) -> bool {
    f & 0x10 == 0x10
}

/// A flag byte is valid when its low nibble is zero.
pub open spec fn flags_valid(f: u8) -> bool {
    f & 0x0f == 0
}

pub open spec fn mask_if(b: bool, m: u8) -> u8 {
    if b {
        m
    } else {
        0
    }
}

/// The flag byte holding the four given flags.
pub open spec fn pack(z: bool, n: bool, h: bool, c: bool) -> u8 {
    mask_if(z, 0x80) | mask_if(n, 0x40) | mask_if(h, 0x20) | mask_if(c, 0x10)
}

proof fn lemma_mask_bits(zm: u8, nm: u8, hm: u8, cm: u8)
    by (bit_vector)
    requires
        zm == 0 || zm == 0x80,
        nm == 0 || nm == 0x40,
        hm == 0 || hm == 0x20,
        cm == 0 || cm == 0x10,
    ensures
        ((zm | nm | hm | cm) & 0x80 == 0x80) == (zm == 0x80),
        ((zm | nm | hm | cm) & 0x40 == 0x40) == (nm == 0x40),
        ((zm | nm | hm | cm) & 0x20 == 0x20) == (hm == 0x20),
        ((zm | nm | hm | cm) & 0x10 == 0x10) == (cm == 0x10),
        (zm | nm | hm | cm) & 0x0f == 0,
{
}

/// Each flag read back from a packed byte is the flag that was packed, and a
/// packed byte is valid.
pub proof fn lemma_pack(z: bool, n: bool, h: bool, c: bool)
    ensures
        zero_of(pack(z, n, h, c)) == z,
        sub_of(pack(z, n, h, c)) == n,
        half_of(pack(z, n, h, c)) == h,
        carry_of(pack(z, n, h, c)) == c,
        flags_valid(pack(z, n, h, c)),
{
    lemma_mask_bits(mask_if(z, 0x80), mask_if(n, 0x40), mask_if(h, 0x20), mask_if(c, 0x10));
}

fn mask(b: bool, m: u8) -> (r: u8)
    ensures
        r == mask_if(b, m),
{
    if b {
        m
    } else {
        0
    }
}

/// Packs four flags into a flag byte.
pub fn flags_byte(z: bool, n: bool, h: bool, c: bool) -> (r: u8)
    ensures
        r == pack(z, n, h, c),
        flags_valid(r),
{
    proof {
        lemma_pack(z, n, h, c);
    }
    mask(z, ZERO) | mask(n, SUBTRACT) | mask(h, HALF_CARRY) | mask(c, CARRY)
}

} // verus!
