//! The flag register: four status bits packed into one byte.
//!
//! Only the high four bits of the byte carry meaning. The low four bits are
//! never read by an instruction, and no flag operation changes them.

use vstd::prelude::*;

verus! {

/// Bit of the flag byte that holds the zero flag.
pub const ZERO_MASK: u8 = 0b1000_0000;

/// Bit of the flag byte that holds the subtract flag.
pub const SUBTRACT_MASK: u8 = 0b0100_0000;

/// Bit of the flag byte that holds the half-carry flag.
pub const HALF_CARRY_MASK: u8 = 0b0010_0000;

/// Bit of the flag byte that holds the carry flag.
pub const CARRY_MASK: u8 = 0b0001_0000;

/// The four status bits together.
pub const STATUS_MASK: u8 = 0b1111_0000;

/// The four low bits of the flag byte, which carry no meaning.
pub const UNUSED_MASK: u8 = 0b0000_1111;

/// What a flag byte means: the four status bits, and the value of the low
/// four bits, which are carried along untouched.
pub struct FlagBits {
    pub zero: bool,
    pub subtract: bool,
    pub half_carry: bool,
    pub carry: bool,
    pub unused: u8,
}

impl FlagBits {
    /// The low bits fit in four bits.
    pub open spec fn wf(self) -> bool {
        self.unused < 16
    }

    /// The byte that packs these bits: zero is worth 128, subtract 64,
    /// half-carry 32, carry 16, and the unused bits their own value.
    pub open spec fn byte(self) -> u8 {
        ((if self.zero { 128int } else { 0int })
            + (if self.subtract { 64int } else { 0int })
            + (if self.half_carry { 32int } else { 0int })
            + (if self.carry { 16int } else { 0int })
            + self.unused) as u8
    }

    /// True when at least one of the four status bits is on.
    pub open spec fn any(self) -> bool {
        self.zero || self.subtract || self.half_carry || self.carry
    }
}

/// The flag register.
#[derive(Debug, Clone, Copy, PartialEq, Eq, Structural)]
pub struct Flags {
    pub f: u8,
}

impl View for Flags {
    type V = FlagBits;

    open spec fn view(&self) -> FlagBits {
        FlagBits {
            zero: self.f & ZERO_MASK == ZERO_MASK,
            subtract: self.f & SUBTRACT_MASK == SUBTRACT_MASK,
            half_carry: self.f & HALF_CARRY_MASK == HALF_CARRY_MASK,
            carry: self.f & CARRY_MASK == CARRY_MASK,
            unused: self.f & UNUSED_MASK,
        }
    }
}

/// Switching one status bit on leaves every other bit of the byte alone.
proof fn lemma_switch_on(f: u8, m: u8)
    by (bit_vector)
    requires
        m == 0x80 || m == 0x40 || m == 0x20 || m == 0x10,
    ensures
        (f | m) & m == m,
        m != 0x80 ==> (f | m) & 0x80 == f & 0x80,
        m != 0x40 ==> (f | m) & 0x40 == f & 0x40,
        m != 0x20 ==> (f | m) & 0x20 == f & 0x20,
        m != 0x10 ==> (f | m) & 0x10 == f & 0x10,
        (f | m) & 0x0F == f & 0x0F,
{
}

/// Switching one status bit off leaves every other bit of the byte alone.
proof fn lemma_switch_off(f: u8, m: u8)
    by (bit_vector)
    requires
        m == 0x80 || m == 0x40 || m == 0x20 || m == 0x10,
    ensures
        (f & !m) & m != m,
        m != 0x80 ==> (f & !m) & 0x80 == f & 0x80,
        m != 0x40 ==> (f & !m) & 0x40 == f & 0x40,
        m != 0x20 ==> (f & !m) & 0x20 == f & 0x20,
        m != 0x10 ==> (f & !m) & 0x10 == f & 0x10,
        (f & !m) & 0x0F == f & 0x0F,
        !0x80u8 == 0x7Fu8,
        !0x40u8 == 0xBFu8,
        !0x20u8 == 0xDFu8,
        !0x10u8 == 0xEFu8,
{
}

/// A byte is the sum of its five masked parts, and each status part is
/// either nothing or the whole mask.
proof fn lemma_parts(f: u8)
    by (bit_vector)
    ensures
        f == (f & 0x80) + (f & 0x40) + (f & 0x20) + (f & 0x10) + (f & 0x0F),
        f & 0x80 == 0 || f & 0x80 == 0x80,
        f & 0x40 == 0 || f & 0x40 == 0x40,
        f & 0x20 == 0 || f & 0x20 == 0x20,
        f & 0x10 == 0 || f & 0x10 == 0x10,
        f & 0x0F < 16,
        f & 0xF0 == (f & 0x80) + (f & 0x40) + (f & 0x20) + (f & 0x10),
{
}

/// The masked parts of a byte that is written as a sum of status bits and
/// a low part.
proof fn lemma_sum_parts(z: u8, n: u8, h: u8, c: u8, low: u8)
    by (bit_vector)
    requires
        z == 0 || z == 0x80,
        n == 0 || n == 0x40,
        h == 0 || h == 0x20,
        c == 0 || c == 0x10,
        low < 16,
    ensures
        (z + n + h + c + low) < 256,
        ((z + n + h + c + low) as u8) & 0x80 == z,
        ((z + n + h + c + low) as u8) & 0x40 == n,
        ((z + n + h + c + low) as u8) & 0x20 == h,
        ((z + n + h + c + low) as u8) & 0x10 == c,
        ((z + n + h + c + low) as u8) & 0x0F == low,
{
}

/// The view of a flag byte loses nothing: packing it gives the byte back.
pub proof fn lemma_view_then_byte(flags: Flags)
    ensures
        flags@.wf(),
        flags@.byte() == flags.f,
{
    lemma_parts(flags.f);
}

/// Every well-formed set of bits is the view of exactly the byte that packs
/// it.
pub proof fn lemma_byte_then_view(bits: FlagBits)
    requires
        bits.wf(),
    ensures
        (Flags { f: bits.byte() })@ == bits,
{
    let z: u8 = if bits.zero { 0x80 } else { 0 };
    let n: u8 = if bits.subtract { 0x40 } else { 0 };
    let h: u8 = if bits.half_carry { 0x20 } else { 0 };
    let c: u8 = if bits.carry { 0x10 } else { 0 };
    lemma_sum_parts(z, n, h, c, bits.unused);
}

/// Two flag registers with the same view are the same register.
pub proof fn lemma_view_injective(x: Flags, y: Flags)
    requires
        x@ == y@,
    ensures
        x == y,
{
    lemma_view_then_byte(x);
    lemma_view_then_byte(y);
}

impl Flags {
    /// A flag register with every bit off.
    pub fn new() -> (flags: Flags)
        ensures
            flags.f == 0,
            flags@ == (FlagBits {
                zero: false,
                subtract: false,
                half_carry: false,
                carry: false,
                unused: 0,
            }),
    {
        proof {
            lemma_parts(0);
        }
        Flags { f: 0 }
    }

    /// Switches the zero flag on.
    pub fn set_zero(&mut self)
        ensures
            final(self)@ == (FlagBits { zero: true, ..old(self)@ }),
    {
        proof {
            lemma_switch_on(self.f, 0x80);
        }
        self.f |= ZERO_MASK;
    }

    /// Switches the zero flag off.
    pub fn unset_zero(&mut self)
        ensures
            final(self)@ == (FlagBits { zero: false, ..old(self)@ }),
    {
        proof {
            lemma_switch_off(self.f, 0x80);
        }
        self.f &= 0b0111_1111;
    }

    /// Switches the carry flag on.
    pub fn set_carry(&mut self)
        ensures
            final(self)@ == (FlagBits { carry: true, ..old(self)@ }),
    {
        proof {
            lemma_switch_on(self.f, 0x10);
        }
        self.f |= CARRY_MASK;
    }

    /// Switches the carry flag off.
    pub fn unset_carry(&mut self)
        ensures
            final(self)@ == (FlagBits { carry: false, ..old(self)@ }),
    {
        proof {
            lemma_switch_off(self.f, 0x10);
        }
        self.f &= 0b1110_1111;
    }

    /// Switches the subtract flag on.
    pub fn set_n(&mut self)
        ensures
            final(self)@ == (FlagBits { subtract: true, ..old(self)@ }),
    {
        proof {
            lemma_switch_on(self.f, 0x40);
        }
        self.f |= SUBTRACT_MASK;
    }

    /// Switches the subtract flag off.
    pub fn unset_n(&mut self)
        ensures
            final(self)@ == (FlagBits { subtract: false, ..old(self)@ }),
    {
        proof {
            lemma_switch_off(self.f, 0x40);
        }
        self.f &= 0b1011_1111;
    }

    /// Switches the half-carry flag on.
    pub fn set_h(&mut self)
        ensures
            final(self)@ == (FlagBits { half_carry: true, ..old(self)@ }),
    {
        proof {
            lemma_switch_on(self.f, 0x20);
        }
        self.f |= HALF_CARRY_MASK;
    }

    /// Switches the half-carry flag off.
    pub fn unset_h(&mut self)
        ensures
            final(self)@ == (FlagBits { half_carry: false, ..old(self)@ }),
    {
        proof {
            lemma_switch_off(self.f, 0x20);
        }
        self.f &= 0b1101_1111;
    }

    /// Whether the carry flag is on.
    pub fn is_carry(&mut self) -> (on: bool)
        ensures
            on == old(self)@.carry,
            *final(self) == *old(self),
    {
        (self.f & CARRY_MASK) == CARRY_MASK
    }

    /// Whether the zero flag is on.
    pub fn is_zero(&mut self) -> (on: bool)
        ensures
            on == old(self)@.zero,
            *final(self) == *old(self),
    {
        (self.f & ZERO_MASK) == ZERO_MASK
    }

    /// Whether the half-carry flag is on.
    pub fn is_half_carry(&mut self) -> (on: bool)
        ensures
            on == old(self)@.half_carry,
            *final(self) == *old(self),
    {
        (self.f & HALF_CARRY_MASK) == HALF_CARRY_MASK
    }

    /// Whether the subtract flag is on.
    pub fn is_n(&mut self) -> (on: bool)
        ensures
            on == old(self)@.subtract,
            *final(self) == *old(self),
    {
        (self.f & SUBTRACT_MASK) == SUBTRACT_MASK
    }

    /// Whether any of the four status bits is on.
    pub fn is_flag(&mut self) -> (on: bool)
        ensures
            on == old(self)@.any(),
            *final(self) == *old(self),
    {
        proof {
            lemma_parts(self.f);
        }
        (self.f & STATUS_MASK) != 0
    }
}

} // verus!
