//! The register file: eight 8-bit slots (the accumulator, six general-purpose
//! registers and the packed flag value), the 16-bit stack pointer and program
//! counter, with paired 16-bit addressing over register pairs.

use vstd::prelude::*;

use crate::instructions::{R16, R8};

verus! {

/// The four condition flags. They pack into the top nibble of a byte
/// (zero at bit 7, subtract at 6, half-carry at 5, carry at 4); the
/// bottom nibble of the packed byte is always zero.
#[derive(Clone, Copy, PartialEq, Eq, Structural, Debug)]
pub struct Flags {
    pub zero: bool,
    pub subtract: bool,
    pub half_carry: bool,
    pub carry: bool,
}

/// The flags packed into a byte: one flag per bit of the top nibble,
/// bottom nibble zero.
pub open spec fn spec_flags_to_u8(f: Flags) -> u8 {
    ((if f.zero {
        1u8
    } else {
        0u8
    }) << 7) | ((if f.subtract {
        1u8
    } else {
        0u8
    }) << 6) | ((if f.half_carry {
        1u8
    } else {
        0u8
    }) << 5) | ((if f.carry {
        1u8
    } else {
        0u8
    }) << 4)
}

/// The flags unpacked from a byte's top nibble; the bottom nibble is dropped.
pub open spec fn spec_flags_from_u8(v: u8) -> Flags {
    Flags {
        zero: v & 0x80 != 0,
        subtract: v & 0x40 != 0,
        half_carry: v & 0x20 != 0,
        carry: v & 0x10 != 0,
    }
}

/// All four flags cleared, the power-on state.
pub open spec fn spec_flags_clear() -> Flags {
    Flags { zero: false, subtract: false, half_carry: false, carry: false }
}

pub fn flags_to_u8(flags: &Flags) -> (r: u8)
    ensures
        r == spec_flags_to_u8(*flags),
{
    ((if flags.zero {
        1u8
    } else {
        0u8
    }) << 7) | ((if flags.subtract {
        1u8
    } else {
        0u8
    }) << 6) | ((if flags.half_carry {
        1u8
    } else {
        0u8
    }) << 5) | ((if flags.carry {
        1u8
    } else {
        0u8
    }) << 4)
}

pub fn flags_from_u8(value: u8) -> (r: Flags)
    ensures
        r == spec_flags_from_u8(value),
{
    Flags {
        zero: value & 0x80 != 0,
        subtract: value & 0x40 != 0,
        half_carry: value & 0x20 != 0,
        carry: value & 0x10 != 0,
    }
}

proof fn lemma_flag_bits(z: bool, s: bool, h: bool, c: bool)
    by (bit_vector)
    ensures
        ({
            let b = ((if z {
                1u8
            } else {
                0u8
            }) << 7) | ((if s {
                1u8
            } else {
                0u8
            }) << 6) | ((if h {
                1u8
            } else {
                0u8
            }) << 5) | ((if c {
                1u8
            } else {
                0u8
            }) << 4);
            (b & 0x80 != 0) == z && (b & 0x40 != 0) == s && (b & 0x20 != 0) == h && (b & 0x10 != 0)
                == c && b & 0x0F == 0
        }),
{
}

/// Law: packing flags into a byte and unpacking it yields the same flags,
/// and the packed byte's bottom nibble is always zero.
pub proof fn lemma_flags_pack_round_trip(f: Flags)
    ensures
        spec_flags_from_u8(spec_flags_to_u8(f)) == f,
        spec_flags_to_u8(f) & 0x0F == 0,
{
    lemma_flag_bits(f.zero, f.subtract, f.half_carry, f.carry);
}

/// The register file.
#[derive(Clone, Copy, PartialEq, Eq, Structural, Debug)]
pub struct Registers {
    pub a: u8,
    pub b: u8,
    pub c: u8,
    pub d: u8,
    pub e: u8,
    pub f: Flags,
    pub h: u8,
    pub l: u8,
    pub sp: u16,
    pub pc: u16,
}

/// Two bytes joined into a 16-bit value, high byte first.
pub open spec fn spec_pair(hi: u8, lo: u8) -> u16 {
    (((hi as u16) << 8) | (lo as u16)) as u16
}

/// The high byte of a 16-bit value.
pub open spec fn spec_hi(v: u16) -> u8 {
    (v >> 8) as u8
}

/// The low byte of a 16-bit value.
pub open spec fn spec_lo(v: u16) -> u8 {
    (v & 0xFF) as u8
}

/// The value of an 8-bit register.
pub open spec fn spec_get_r8(r: Registers, reg: R8) -> u8 {
    match reg {
        R8::A => r.a,
        R8::B => r.b,
        R8::C => r.c,
        R8::D => r.d,
        R8::E => r.e,
        R8::H => r.h,
        R8::L => r.l,
    }
}

/// The register file after one 8-bit register is overwritten.
pub open spec fn spec_set_r8(r: Registers, reg: R8, value: u8) -> Registers {
    match reg {
        R8::A => Registers { a: value, ..r },
        R8::B => Registers { b: value, ..r },
        R8::C => Registers { c: value, ..r },
        R8::D => Registers { d: value, ..r },
        R8::E => Registers { e: value, ..r },
        R8::H => Registers { h: value, ..r },
        R8::L => Registers { l: value, ..r },
    }
}

/// The value of a register pair: high byte first, low byte second.
pub open spec fn spec_get_r16(r: Registers, pair: R16) -> u16 {
    spec_pair(spec_get_r8(r, pair.spec_upper()), spec_get_r8(r, pair.spec_lower()))
}

/// The register file after a register pair is overwritten: the high byte of
/// the value goes to the pair's upper register, the low byte to its lower.
pub open spec fn spec_set_r16(r: Registers, pair: R16, value: u16) -> Registers {
    spec_set_r8(spec_set_r8(r, pair.spec_upper(), spec_hi(value)), pair.spec_lower(), spec_lo(value))
}

/// The accumulator paired with the packed flags byte, accumulator high.
pub open spec fn spec_get_af(r: Registers) -> u16 {
    spec_pair(r.a, spec_flags_to_u8(r.f))
}

/// The power-on register file: every slot zero, every flag clear.
pub open spec fn spec_registers_new() -> Registers {
    Registers {
        a: 0,
        b: 0,
        c: 0,
        d: 0,
        e: 0,
        f: spec_flags_clear(),
        h: 0,
        l: 0,
        sp: 0,
        pc: 0,
    }
}

impl Registers {
    pub fn new() -> (r: Registers)
        ensures
            r == spec_registers_new(),
    {
        Registers {
            a: 0,
            b: 0,
            c: 0,
            d: 0,
            e: 0,
            f: Flags { zero: false, subtract: false, half_carry: false, carry: false },
            h: 0,
            l: 0,
            sp: 0,
            pc: 0,
        }
    }

    pub fn get_af(&self) -> (r: u16)
        ensures
            r == spec_get_af(*self),
    {
        ((self.a as u16) << 8) | (flags_to_u8(&self.f) as u16)
    }

    /// The flags take the top nibble of the value's low byte; the low
    /// nibble of that byte is discarded, keeping the flag invariant.
    pub fn set_af(&mut self, value: u16)
        ensures
            *final(self) == (Registers {
                a: spec_hi(value),
                f: spec_flags_from_u8(spec_lo(value)),
                ..*old(self)
            }),
    {
        self.a = (value >> 8) as u8;
        self.f = flags_from_u8((value & 0xFF) as u8);
    }

    /// Reassemble the program counter from two bytes, high byte in `upper`.
    pub fn set_pc(&mut self, lower: u8, upper: u8)
        ensures
            *final(self) == (Registers { pc: spec_pair(upper, lower), ..*old(self) }),
    {
        self.pc = ((upper as u16) << 8) | (lower as u16);
    }

    pub fn get_bc(&self) -> (r: u16)
        ensures
            r == spec_get_r16(*self, R16::BC),
    {
        ((self.b as u16) << 8) | (self.c as u16)
    }

    pub fn set_bc(&mut self, value: u16)
        ensures
            *final(self) == spec_set_r16(*old(self), R16::BC, value),
    {
        self.b = (value >> 8) as u8;
        self.c = (value & 0xFF) as u8;
    }

    pub fn get_de(&self) -> (r: u16)
        ensures
            r == spec_get_r16(*self, R16::DE),
    {
        ((self.d as u16) << 8) | (self.e as u16)
    }

    pub fn set_de(&mut self, value: u16)
        ensures
            *final(self) == spec_set_r16(*old(self), R16::DE, value),
    {
        self.d = (value >> 8) as u8;
        self.e = (value & 0xFF) as u8;
    }

    pub fn get_hl(&self) -> (r: u16)
        ensures
            r == spec_get_r16(*self, R16::HL),
    {
        ((self.h as u16) << 8) | (self.l as u16)
    }

    pub fn set_hl(&mut self, value: u16)
        ensures
            *final(self) == spec_set_r16(*old(self), R16::HL, value),
    {
        self.h = (value >> 8) as u8;
        self.l = (value & 0xFF) as u8;
    }

    pub fn get_r8(&self, register: &R8) -> (r: u8)
        ensures
            r == spec_get_r8(*self, *register),
    {
        match register {
            R8::A => self.a,
            R8::B => self.b,
            R8::C => self.c,
            R8::D => self.d,
            R8::E => self.e,
            R8::H => self.h,
            R8::L => self.l,
        }
    }

    pub fn set_r8(&mut self, register: &R8, value: u8)
        ensures
            *final(self) == spec_set_r8(*old(self), *register, value),
    {
        match register {
            R8::A => self.a = value,
            R8::B => self.b = value,
            R8::C => self.c = value,
            R8::D => self.d = value,
            R8::E => self.e = value,
            R8::H => self.h = value,
            R8::L => self.l = value,
        }
    }

    pub fn set_r16(&mut self, register: &R16, value: u16)
        ensures
            *final(self) == spec_set_r16(*old(self), *register, value),
    {
        match register {
            R16::BC => self.set_bc(value),
            R16::DE => self.set_de(value),
            R16::HL => self.set_hl(value),
        }
    }

    pub fn get_r16(&self, register: &R16) -> (r: u16)
        ensures
            r == spec_get_r16(*self, *register),
    {
        match register {
            R16::BC => self.get_bc(),
            R16::DE => self.get_de(),
            R16::HL => self.get_hl(),
        }
    }
}

/// Law: writing any 8-bit register and reading the same register back yields
/// the written value, and no other register changes.
pub proof fn lemma_r8_round_trip(regs: Registers, reg: R8, v: u8)
    ensures
        spec_get_r8(spec_set_r8(regs, reg, v), reg) == v,
        forall|other: R8|
            other != reg ==> spec_get_r8(spec_set_r8(regs, reg, v), other) == spec_get_r8(
                regs,
                other,
            ),
{
}

/// Law: writing any register pair and reading the same pair back yields the
/// written value, and the pair's constituent registers hold the value's high
/// and low bytes.
pub proof fn lemma_r16_round_trip(regs: Registers, pair: R16, v: u16)
    ensures
        spec_get_r16(spec_set_r16(regs, pair, v), pair) == v,
        spec_get_r8(spec_set_r16(regs, pair, v), pair.spec_upper()) == spec_hi(v),
        spec_get_r8(spec_set_r16(regs, pair, v), pair.spec_lower()) == spec_lo(v),
{
    assert((((((v >> 8) as u8) as u16) << 8) | (((v & 0xFF) as u8) as u16)) as u16 == v)
        by (bit_vector);
}

} // verus!
