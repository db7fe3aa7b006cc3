//! The register file: eight 8-bit registers with paired 16-bit views and
//! flag-bit semantics on the `f` register.
//!
//! The four flag booleans live in the upper nibble of `f` (bit 7 = zero,
//! bit 6 = subtract, bit 5 = half-carry, bit 4 = carry); the lower nibble
//! is always zero.

use vstd::prelude::*;

verus! {

/// Bit position of the zero flag inside the flags register.
pub const ZERO_FLAG_BYTE_POSITION: u8 = 7;

/// Bit position of the subtract flag inside the flags register.
pub const SUBTRACT_FLAG_BYTE_POSITION: u8 = 6;

/// Bit position of the half-carry flag inside the flags register.
pub const HALF_CARRY_FLAG_BYTE_POSITION: u8 = 5;

/// Bit position of the carry flag inside the flags register.
pub const CARRY_FLAG_BYTE_POSITION: u8 = 4;

/// The eight 8-bit general registers. `f` is the flags register; only its
/// upper nibble is meaningful.
#[derive(Clone, Copy, PartialEq, Eq, Structural, Debug)]
pub struct Registers {
    pub a: u8,
    pub f: u8,
    pub b: u8,
    pub c: u8,
    pub d: u8,
    pub e: u8,
    pub h: u8,
    pub l: u8,
}

/// The four flag booleans of the `f` register, decomposed.
#[derive(Clone, Copy, PartialEq, Eq, Structural, Debug)]
pub struct FlagsRegister {
    pub zero: bool,
    pub subtract: bool,
    pub half_carry: bool,
    pub carry: bool,
}

/// The byte encoding a set of flags: each flag contributes its bit in the
/// upper nibble, and the lower nibble is zero.
pub open spec fn spec_flags_to_byte(flags: FlagsRegister) -> u8 {
    (if flags.zero { 0x80u8 } else { 0u8 })
        | (if flags.subtract { 0x40u8 } else { 0u8 })
        | (if flags.half_carry { 0x20u8 } else { 0u8 })
        | (if flags.carry { 0x10u8 } else { 0u8 })
}

/// The flags encoded in a byte: each flag is its bit of the upper nibble;
/// the lower nibble is ignored.
pub open spec fn spec_byte_to_flags(byte: u8) -> FlagsRegister {
    FlagsRegister {
        zero: byte >> ZERO_FLAG_BYTE_POSITION & 1 != 0,
        subtract: byte >> SUBTRACT_FLAG_BYTE_POSITION & 1 != 0,
        half_carry: byte >> HALF_CARRY_FLAG_BYTE_POSITION & 1 != 0,
        carry: byte >> CARRY_FLAG_BYTE_POSITION & 1 != 0,
    }
}

/// Encodes four flag booleans as a byte per the bit-position table.
pub fn flags_to_byte(flags: FlagsRegister) -> (byte: u8)
    ensures
        byte == spec_flags_to_byte(flags),
{
    (if flags.zero { 0x80u8 } else { 0u8 })
        | (if flags.subtract { 0x40u8 } else { 0u8 })
        | (if flags.half_carry { 0x20u8 } else { 0u8 })
        | (if flags.carry { 0x10u8 } else { 0u8 })
}

/// Decodes a byte into its four flag booleans per the bit-position table.
pub fn byte_to_flags(byte: u8) -> (flags: FlagsRegister)
    ensures
        flags == spec_byte_to_flags(byte),
{
    FlagsRegister {
        zero: byte >> ZERO_FLAG_BYTE_POSITION & 1 != 0,
        subtract: byte >> SUBTRACT_FLAG_BYTE_POSITION & 1 != 0,
        half_carry: byte >> HALF_CARRY_FLAG_BYTE_POSITION & 1 != 0,
        carry: byte >> CARRY_FLAG_BYTE_POSITION & 1 != 0,
    }
}

/// Decoding the byte that encodes a set of flags gives those flags back:
/// the byte encoding loses nothing of the four booleans.
pub proof fn lemma_byte_encoding_is_lossless(flags: FlagsRegister)
    ensures
        spec_byte_to_flags(spec_flags_to_byte(flags)) == flags,
{
    let z: u8 = if flags.zero { 0x80 } else { 0 };
    let s: u8 = if flags.subtract { 0x40 } else { 0 };
    let h: u8 = if flags.half_carry { 0x20 } else { 0 };
    let c: u8 = if flags.carry { 0x10 } else { 0 };
    let b: u8 = z | s | h | c;
    assert((b >> 7 & 1 != 0) == (z == 0x80)
        && (b >> 6 & 1 != 0) == (s == 0x40)
        && (b >> 5 & 1 != 0) == (h == 0x20)
        && (b >> 4 & 1 != 0) == (c == 0x10)
        && b & 0xF == 0) by (bit_vector)
        requires
            b == z | s | h | c,
            z == 0x80 || z == 0,
            s == 0x40 || s == 0,
            h == 0x20 || h == 0,
            c == 0x10 || c == 0,
    ;
}

/// The byte encoding a set of flags carries them only in its upper nibble:
/// the lower nibble is always zero.
pub proof fn lemma_flags_byte_low_nibble_zero(flags: FlagsRegister)
    ensures
        spec_flags_to_byte(flags) & 0xF == 0,
{
    let z: u8 = if flags.zero { 0x80 } else { 0 };
    let s: u8 = if flags.subtract { 0x40 } else { 0 };
    let h: u8 = if flags.half_carry { 0x20 } else { 0 };
    let c: u8 = if flags.carry { 0x10 } else { 0 };
    assert((z | s | h | c) & 0xF == 0) by (bit_vector)
        requires
            z == 0x80 || z == 0,
            s == 0x40 || s == 0,
            h == 0x20 || h == 0,
            c == 0x10 || c == 0,
    ;
}

/// Byte-to-flags-to-byte decoding is lossy only in the unused lower nibble:
/// the four flag booleans of a byte survive a round trip through the byte
/// encoding unchanged.
pub proof fn lemma_flags_byte_round_trip(x: u8)
    ensures
        spec_byte_to_flags(spec_flags_to_byte(spec_byte_to_flags(x))) == spec_byte_to_flags(x),
{
    lemma_byte_encoding_is_lossless(spec_byte_to_flags(x));
}

/// The 16-bit value formed by a high and a low register byte.
pub open spec fn spec_pair(hi: u8, lo: u8) -> int {
    hi * 0x100 + lo
}

/// The flags byte with its unused lower nibble cleared.
pub open spec fn spec_flag_bits(f: u8) -> u8 {
    f & 0xF0
}

impl Registers {
    /// A zeroed register file.
    pub fn new() -> (r: Registers)
        ensures
            r == (Registers { a: 0, f: 0, b: 0, c: 0, d: 0, e: 0, h: 0, l: 0 }),
    {
        Registers { a: 0x0, f: 0x0, b: 0x0, c: 0x0, d: 0x0, e: 0x0, h: 0x0, l: 0x0 }
    }

    /// The AF pair: `a` in the high byte, the meaningful flag bits of `f`
    /// in the low byte (lower nibble forced to zero).
    pub fn af(&self) -> (r: u16)
        ensures
            r == spec_pair(self.a, spec_flag_bits(self.f)),
    {
        let r: u16 = ((self.a as u16) << 8) | (self.f as u16 & 0xF0);
        proof {
            let a: u8 = self.a;
            let f: u8 = self.f;
            assert(((a as u16) << 8) | (f as u16 & 0xF0) == a as u16 * 0x100 + (f & 0xF0))
                by (bit_vector);
        }
        r
    }

    /// The BC pair: `b` in the high byte, `c` in the low byte.
    pub fn bc(&self) -> (r: u16)
        ensures
            r == spec_pair(self.b, self.c),
    {
        let r: u16 = (self.b as u16) << 8 | (self.c as u16);
        proof {
            let b: u8 = self.b;
            let c: u8 = self.c;
            assert((b as u16) << 8 | (c as u16) == b as u16 * 0x100 + c as u16) by (bit_vector);
        }
        r
    }

    /// The DE pair: `d` in the high byte, `e` in the low byte.
    pub fn de(&self) -> (r: u16)
        ensures
            r == spec_pair(self.d, self.e),
    {
        let r: u16 = (self.d as u16) << 8 | (self.e as u16);
        proof {
            let d: u8 = self.d;
            let e: u8 = self.e;
            assert((d as u16) << 8 | (e as u16) == d as u16 * 0x100 + e as u16) by (bit_vector);
        }
        r
    }

    /// The HL pair: `h` in the high byte, `l` in the low byte.
    pub fn hl(&self) -> (r: u16)
        ensures
            r == spec_pair(self.h, self.l),
    {
        let r: u16 = (self.h as u16) << 8 | (self.l as u16);
        proof {
            let h: u8 = self.h;
            let l: u8 = self.l;
            assert((h as u16) << 8 | (l as u16) == h as u16 * 0x100 + l as u16) by (bit_vector);
        }
        r
    }

    /// Stores a 16-bit value into the AF pair: the high byte goes to `a`,
    /// and only the upper nibble of the low byte goes to `f`.
    pub fn set_af(&mut self, value: u16)
        ensures
            final(self).a == value / 0x100,
            final(self).f == spec_flag_bits((value % 0x100) as u8),
            final(self).b == old(self).b,
            final(self).c == old(self).c,
            final(self).d == old(self).d,
            final(self).e == old(self).e,
            final(self).h == old(self).h,
            final(self).l == old(self).l,
    {
        self.a = ((value & 0xFF00) >> 8) as u8;
        self.f = (value & 0x00F0) as u8;
        proof {
            assert(((value & 0xFF00) >> 8) as u8 == value / 0x100
                && (value & 0x00F0) as u8 == ((value % 0x100) as u8) & 0xF0) by (bit_vector);
        }
    }

    /// Stores a 16-bit value into the BC pair.
    pub fn set_bc(&mut self, value: u16)
        ensures
            final(self).b == value / 0x100,
            final(self).c == value % 0x100,
            final(self).a == old(self).a,
            final(self).f == old(self).f,
            final(self).d == old(self).d,
            final(self).e == old(self).e,
            final(self).h == old(self).h,
            final(self).l == old(self).l,
    {
        self.b = ((value & 0xFF00) >> 8) as u8;
        self.c = (value & 0x00FF) as u8;
        proof {
            assert(((value & 0xFF00) >> 8) as u8 == value / 0x100
                && (value & 0x00FF) as u8 == value % 0x100) by (bit_vector);
        }
    }

    /// Stores a 16-bit value into the DE pair.
    pub fn set_de(&mut self, value: u16)
        ensures
            final(self).d == value / 0x100,
            final(self).e == value % 0x100,
            final(self).a == old(self).a,
            final(self).f == old(self).f,
            final(self).b == old(self).b,
            final(self).c == old(self).c,
            final(self).h == old(self).h,
            final(self).l == old(self).l,
    {
        self.d = ((value & 0xFF00) >> 8) as u8;
        self.e = (value & 0x00FF) as u8;
        proof {
            assert(((value & 0xFF00) >> 8) as u8 == value / 0x100
                && (value & 0x00FF) as u8 == value % 0x100) by (bit_vector);
        }
    }

    /// Stores a 16-bit value into the HL pair.
    pub fn set_hl(&mut self, value: u16)
        ensures
            final(self).h == value / 0x100,
            final(self).l == value % 0x100,
            final(self).a == old(self).a,
            final(self).f == old(self).f,
            final(self).b == old(self).b,
            final(self).c == old(self).c,
            final(self).d == old(self).d,
            final(self).e == old(self).e,
    {
        self.h = ((value & 0xFF00) >> 8) as u8;
        self.l = (value & 0x00FF) as u8;
        proof {
            assert(((value & 0xFF00) >> 8) as u8 == value / 0x100
                && (value & 0x00FF) as u8 == value % 0x100) by (bit_vector);
        }
    }
}

/// Writing a 16-bit value to the AF pair and reading it back yields the
/// value with its low nibble cleared: `set_af(v)` then `af()` is `v & 0xFFF0`.
pub proof fn lemma_set_af_af(value: u16)
    ensures
        spec_pair((value / 0x100) as u8, spec_flag_bits((value % 0x100) as u8)) == value & 0xFFF0,
{
    assert(((value / 0x100) as u8) as u16 * 0x100 + ((((value % 0x100) as u8) & 0xF0) as u16)
        == value & 0xFFF0) by (bit_vector);
}

} // verus!
