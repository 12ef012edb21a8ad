//! The register file: seven independent 8-bit registers plus the flags value.
//! Register pairs (BC, DE, HL, AF) are derived, not stored: a pair is
//! `high * 256 + low`, AF's low byte being the flags value's 8-bit encoding.

use vstd::prelude::*;

verus! {

/// The four status flags, with a canonical 8-bit encoding:
/// bit 7 = zero, bit 6 = subtract, bit 5 = half-carry, bit 4 = carry,
/// bits 3-0 always zero.
#[derive(Copy, Clone, Debug, PartialEq, Eq, Structural)]
pub struct FlagsRegister {
    pub zero: bool,
    pub subtract: bool,
    pub half_carry: bool,
    pub carry: bool,
}

/// The canonical byte encoding of the flags: one bit per flag, low nibble zero.
pub open spec fn spec_flags_to_byte(f: FlagsRegister) -> u8 {
    (if f.zero { 0x80u8 } else { 0u8 }) | (if f.subtract { 0x40u8 } else { 0u8 })
        | (if f.half_carry { 0x20u8 } else { 0u8 }) | (if f.carry { 0x10u8 } else { 0u8 })
}

/// Decoding a byte into flags reads bits 7-4 and discards the low nibble.
pub open spec fn spec_flags_from_byte(byte: u8) -> FlagsRegister {
    FlagsRegister {
        zero: (byte >> 7) & 1 != 0,
        subtract: (byte >> 6) & 1 != 0,
        half_carry: (byte >> 5) & 1 != 0,
        carry: (byte >> 4) & 1 != 0,
    }
}

impl FlagsRegister {
    /// All four flags cleared.
    pub fn new() -> (r: FlagsRegister)
        ensures
            r == (FlagsRegister { zero: false, subtract: false, half_carry: false, carry: false }),
    {
        FlagsRegister { zero: false, subtract: false, half_carry: false, carry: false }
    }

    /// The canonical 8-bit encoding of these flags.
    pub fn to_byte(self) -> (r: u8)
        ensures
            r == spec_flags_to_byte(self),
    {
        (if self.zero { 0x80u8 } else { 0u8 }) | (if self.subtract { 0x40u8 } else { 0u8 })
            | (if self.half_carry { 0x20u8 } else { 0u8 }) | (if self.carry { 0x10u8 } else { 0u8 })
    }

    /// Decode a byte into flags; bits 3-0 of the byte are ignored.
    pub fn from_byte(byte: u8) -> (r: FlagsRegister)
        ensures
            r == spec_flags_from_byte(byte),
    {
        FlagsRegister {
            zero: (byte >> 7) & 1 != 0,
            subtract: (byte >> 6) & 1 != 0,
            half_carry: (byte >> 5) & 1 != 0,
            carry: (byte >> 4) & 1 != 0,
        }
    }
}

/// Encoding after decoding keeps exactly the four flag bits: for every byte
/// `v`, `to_byte(from_byte(v)) == v & 0xF0`.
pub proof fn lemma_flags_round_trip(v: u8)
    by (bit_vector)
    ensures
        spec_flags_to_byte(spec_flags_from_byte(v)) == (v & 0xF0),
{
}

/// Seven independent 8-bit registers plus the flags value.
pub struct Registers {
    pub a: u8,
    pub b: u8,
    pub c: u8,
    pub d: u8,
    pub e: u8,
    pub f: FlagsRegister,
    pub h: u8,
    pub l: u8,
}

/// A 16-bit register pair composed from its two 8-bit halves.
pub open spec fn spec_pair(high: u8, low: u8) -> u16 {
    (high * 256 + low) as u16
}

/// The high byte stored when a pair is written.
pub open spec fn spec_high(value: u16) -> u8 {
    (value / 256) as u8
}

/// The low byte stored when a pair is written.
pub open spec fn spec_low(value: u16) -> u8 {
    (value % 256) as u8
}

impl Registers {
    /// Every register zero, every flag cleared.
    pub fn new() -> (r: Registers)
        ensures
            r == (Registers {
                a: 0u8,
                b: 0u8,
                c: 0u8,
                d: 0u8,
                e: 0u8,
                f: FlagsRegister { zero: false, subtract: false, half_carry: false, carry: false },
                h: 0u8,
                l: 0u8,
            }),
    {
        Registers { a: 0, b: 0, c: 0, d: 0, e: 0, f: FlagsRegister::new(), h: 0, l: 0 }
    }

    /// AF pair: A is the high byte, the flags encoding is the low byte.
    pub fn get_af(&self) -> (r: u16)
        ensures
            r == spec_pair(self.a, spec_flags_to_byte(self.f)),
    {
        (self.a as u16) * 256 + (self.f.to_byte() as u16)
    }

    pub fn get_bc(&self) -> (r: u16)
        ensures
            r == spec_pair(self.b, self.c),
    {
        (self.b as u16) * 256 + (self.c as u16)
    }

    pub fn get_de(&self) -> (r: u16)
        ensures
            r == spec_pair(self.d, self.e),
    {
        (self.d as u16) * 256 + (self.e as u16)
    }

    pub fn get_hl(&self) -> (r: u16)
        ensures
            r == spec_pair(self.h, self.l),
    {
        (self.h as u16) * 256 + (self.l as u16)
    }

    /// Writing AF stores the high byte in A and decodes the low byte into the
    /// flags; the low nibble of the value is discarded by that decoding.
    pub fn set_af(&mut self, value: u16)
        ensures
            *final(self) == (Registers {
                a: spec_high(value),
                f: spec_flags_from_byte(spec_low(value)),
                ..*old(self)
            }),
    {
        self.a = (value / 256) as u8;
        self.f = FlagsRegister::from_byte((value % 256) as u8);
    }

    pub fn set_bc(&mut self, value: u16)
        ensures
            *final(self) == (Registers { b: spec_high(value), c: spec_low(value), ..*old(self) }),
    {
        self.b = (value / 256) as u8;
        self.c = (value % 256) as u8;
    }

    pub fn set_de(&mut self, value: u16)
        ensures
            *final(self) == (Registers { d: spec_high(value), e: spec_low(value), ..*old(self) }),
    {
        self.d = (value / 256) as u8;
        self.e = (value % 256) as u8;
    }

    pub fn set_hl(&mut self, value: u16)
        ensures
            *final(self) == (Registers { h: spec_high(value), l: spec_low(value), ..*old(self) }),
    {
        self.h = (value / 256) as u8;
        self.l = (value % 256) as u8;
    }
}

/// Splitting a 16-bit value into its two bytes and composing them again is
/// the identity, so `set_bc(v); get_bc()` returns `v` exactly, and likewise
/// for DE and HL.
pub proof fn lemma_pair_round_trip(v: u16)
    ensures
        spec_pair(spec_high(v), spec_low(v)) == v,
{
    assert(v / 256 * 256 + v % 256 == v) by (nonlinear_arith);
}

/// AF round trip: after `set_af(v)`, `get_af()` returns `v` with the four
/// flag bits kept and the rest of the low byte forced to zero.
pub proof fn lemma_af_round_trip(v: u16)
    ensures
        spec_pair(spec_high(v), spec_flags_to_byte(spec_flags_from_byte(spec_low(v)))) == (v
            & 0xFFF0),
{
    lemma_flags_round_trip(spec_low(v));
    assert(v / 256 * 256 + (((v % 256) as u8) & 0xF0) == (v & 0xFFF0)) by (bit_vector);
}

} // verus!
