//! The processor status register: eight named condition bits kept in one byte.
//!
//! Contracts speak of a status byte through [`is_set`], which says whether a
//! named flag is set in it, and through [`with_flag`] and [`zero_negative`],
//! which say what the byte becomes when flags are changed.

use vstd::prelude::*;

verus! {

/// One of the eight condition bits of the status register.
#[derive(Clone, Copy, Debug, PartialEq, Eq, Structural)]
pub enum Flag {
    /// Carry out of the last arithmetic or shift operation.
    Carry,
    /// The last result was zero.
    Zero,
    /// Maskable interrupts are disabled.
    InterruptDisable,
    /// Decimal arithmetic mode.
    Decimal,
    /// Software break marker.
    Break,
    /// Reserved bit: it has no effect, and is kept as it is by every operation.
    Break2,
    /// Signed overflow of the last arithmetic operation.
    Overflow,
    /// Bit 7 of the last result was set.
    Negative,
}

/// Status byte after power-on or reset: `InterruptDisable` and `Break2` set.
pub const POWER_ON_STATUS: u8 = 0b0010_0100;

impl Flag {
    /// Position of the flag's bit in the status byte, bit 0 being the least
    /// significant.
    pub open spec fn position(self) -> u8 {
        match self {
            Flag::Carry => 0,
            Flag::Zero => 1,
            Flag::InterruptDisable => 2,
            Flag::Decimal => 3,
            Flag::Break => 4,
            Flag::Break2 => 5,
            Flag::Overflow => 6,
            Flag::Negative => 7,
        }
    }

    /// The status byte in which this flag alone is set.
    pub open spec fn spec_mask(self) -> u8 {
        match self {
            Flag::Carry => 0b0000_0001,
            Flag::Zero => 0b0000_0010,
            Flag::InterruptDisable => 0b0000_0100,
            Flag::Decimal => 0b0000_1000,
            Flag::Break => 0b0001_0000,
            Flag::Break2 => 0b0010_0000,
            Flag::Overflow => 0b0100_0000,
            Flag::Negative => 0b1000_0000,
        }
    }

    /// The status byte in which this flag alone is set.
    #[verifier::when_used_as_spec(spec_mask)]
    pub fn mask(self) -> (m: u8)
        ensures
            m == self.spec_mask(),
    {
        match self {
            Flag::Carry => 0b0000_0001,
            Flag::Zero => 0b0000_0010,
            Flag::InterruptDisable => 0b0000_0100,
            Flag::Decimal => 0b0000_1000,
            Flag::Break => 0b0001_0000,
            Flag::Break2 => 0b0010_0000,
            Flag::Overflow => 0b0100_0000,
            Flag::Negative => 0b1000_0000,
        }
    }

    /// Each mask is the single bit at the flag's position.
    pub proof fn lemma_mask_is_single_bit(self)
        ensures
            self.mask() == 1u8 << self.position(),
            self.position() < 8,
    {
        assert(1u8 << 0u8 == 0b0000_0001 && 1u8 << 1u8 == 0b0000_0010 && 1u8 << 2u8 == 0b0000_0100
            && 1u8 << 3u8 == 0b0000_1000 && 1u8 << 4u8 == 0b0001_0000 && 1u8 << 5u8
            == 0b0010_0000 && 1u8 << 6u8 == 0b0100_0000 && 1u8 << 7u8 == 0b1000_0000)
            by (bit_vector);
    }
}

/// Whether `flag` is set in the status byte `bits`.
pub open spec fn is_set(bits: u8, flag: Flag) -> bool {
    bits & flag.mask() != 0
}

/// The status byte `bits` with `flag` set (`on`) or cleared (`!on`).
pub open spec fn with_flag(bits: u8, flag: Flag, on: bool) -> u8 {
    if on {
        bits | flag.mask()
    } else {
        bits & !flag.mask()
    }
}

/// The status byte `bits` after the shared flag rule has been applied for the
/// 8-bit result `value`: `Zero` records that the result is zero, `Negative`
/// that its bit 7 is set.
pub open spec fn zero_negative(bits: u8, value: u8) -> u8 {
    with_flag(with_flag(bits, Flag::Zero, value == 0), Flag::Negative, value & 0x80 != 0)
}

/// The shared flag rule as a relation between the status byte `before` an
/// operation with the 8-bit result `value` and the status byte `after` it:
/// `Zero` is set exactly when `value` is zero, `Negative` exactly when bit 7
/// of `value` is set, and each of the other six flags is as it was.
pub open spec fn follows_zero_negative_rule(before: u8, after: u8, value: u8) -> bool {
    &&& is_set(after, Flag::Zero) == (value == 0)
    &&& is_set(after, Flag::Negative) == (value & 0x80 != 0)
    &&& forall|other: Flag|
        other != Flag::Zero && other != Flag::Negative ==> is_set(after, other) == is_set(
            before,
            other,
        )
}

proof fn lemma_single_bit_update(bits: u8, i: u8, j: u8)
    by (bit_vector)
    requires
        i < 8,
        j < 8,
    ensures
        ((bits | (1u8 << i)) & (1u8 << j) != 0) == (i == j || bits & (1u8 << j) != 0),
        ((bits & !(1u8 << i)) & (1u8 << j) != 0) == (i != j && bits & (1u8 << j) != 0),
{
}

proof fn lemma_bits_from_single_bits(a: u8, b: u8)
    by (bit_vector)
    requires
        (a & 0b0000_0001 != 0) == (b & 0b0000_0001 != 0),
        (a & 0b0000_0010 != 0) == (b & 0b0000_0010 != 0),
        (a & 0b0000_0100 != 0) == (b & 0b0000_0100 != 0),
        (a & 0b0000_1000 != 0) == (b & 0b0000_1000 != 0),
        (a & 0b0001_0000 != 0) == (b & 0b0001_0000 != 0),
        (a & 0b0010_0000 != 0) == (b & 0b0010_0000 != 0),
        (a & 0b0100_0000 != 0) == (b & 0b0100_0000 != 0),
        (a & 0b1000_0000 != 0) == (b & 0b1000_0000 != 0),
    ensures
        a == b,
{
}

/// Setting or clearing one flag gives that flag the new value and leaves the
/// other seven as they were.
pub proof fn lemma_with_flag(bits: u8, flag: Flag, on: bool, other: Flag)
    ensures
        is_set(with_flag(bits, flag, on), other) == (if other == flag {
            on
        } else {
            is_set(bits, other)
        }),
{
    flag.lemma_mask_is_single_bit();
    other.lemma_mask_is_single_bit();
    lemma_single_bit_update(bits, flag.position(), other.position());
}

/// The shared flag rule: afterwards `Zero` is set exactly when the value is
/// zero, `Negative` exactly when bit 7 of the value is set, and no other flag
/// has changed.
pub proof fn lemma_zero_negative(bits: u8, value: u8, flag: Flag)
    ensures
        is_set(zero_negative(bits, value), flag) == (match flag {
            Flag::Zero => value == 0,
            Flag::Negative => value & 0x80 != 0,
            _ => is_set(bits, flag),
        }),
{
    let zero_done = with_flag(bits, Flag::Zero, value == 0);
    lemma_with_flag(bits, Flag::Zero, value == 0, flag);
    lemma_with_flag(zero_done, Flag::Negative, value & 0x80 != 0, flag);
}

/// The eight flags are all there is to a status byte: two bytes in which
/// every flag has the same value are the same byte.
pub proof fn lemma_flags_determine_bits(a: u8, b: u8)
    requires
        forall|flag: Flag| is_set(a, flag) == is_set(b, flag),
    ensures
        a == b,
{
    assert(is_set(a, Flag::Carry) == is_set(b, Flag::Carry));
    assert(is_set(a, Flag::Zero) == is_set(b, Flag::Zero));
    assert(is_set(a, Flag::InterruptDisable) == is_set(b, Flag::InterruptDisable));
    assert(is_set(a, Flag::Decimal) == is_set(b, Flag::Decimal));
    assert(is_set(a, Flag::Break) == is_set(b, Flag::Break));
    assert(is_set(a, Flag::Break2) == is_set(b, Flag::Break2));
    assert(is_set(a, Flag::Overflow) == is_set(b, Flag::Overflow));
    assert(is_set(a, Flag::Negative) == is_set(b, Flag::Negative));
    lemma_bits_from_single_bits(a, b);
}

/// The shared flag rule determines the status byte: `after` follows the rule
/// exactly when it is `zero_negative(before, value)`.
pub proof fn lemma_zero_negative_rule(before: u8, after: u8, value: u8)
    ensures
        follows_zero_negative_rule(before, after, value) <==> after == zero_negative(before, value),
{
    let expected = zero_negative(before, value);
    assert forall|flag: Flag|
        is_set(expected, flag) == (match flag {
            Flag::Zero => value == 0,
            Flag::Negative => value & 0x80 != 0,
            _ => is_set(before, flag),
        }) by {
        lemma_zero_negative(before, value, flag);
    }
    if follows_zero_negative_rule(before, after, value) {
        lemma_flags_determine_bits(after, expected);
    }
}

/// After power-on exactly `InterruptDisable` and `Break2` are set.
pub proof fn lemma_power_on_flags(flag: Flag)
    ensures
        is_set(POWER_ON_STATUS, flag) == (flag == Flag::InterruptDisable || flag == Flag::Break2),
{
    flag.lemma_mask_is_single_bit();
    let i = flag.position();
    assert(i < 8 ==> ((0b0010_0100u8 & (1u8 << i) != 0) == (i == 2 || i == 5))) by (bit_vector);
}

/// The status register.
#[derive(Clone, Copy, Debug, PartialEq, Eq, Structural)]
pub struct FlagRegister {
    bits: u8,
}

impl View for FlagRegister {
    type V = u8;

    /// The register as one byte, each flag at its own bit.
    closed spec fn view(&self) -> u8 {
        self.bits
    }
}

impl FlagRegister {
    /// The register as it is after power-on.
    pub fn new() -> (r: FlagRegister)
        ensures
            r@ == POWER_ON_STATUS,
            forall|flag: Flag|
                is_set(r@, flag) == (flag == Flag::InterruptDisable || flag == Flag::Break2),
    {
        proof {
            assert forall|flag: Flag|
                is_set(POWER_ON_STATUS, flag) == (flag == Flag::InterruptDisable || flag
                    == Flag::Break2) by {
                lemma_power_on_flags(flag);
            }
        }
        FlagRegister { bits: POWER_ON_STATUS }
    }

    /// The register that holds the byte `bits`.
    pub fn from_bits(bits: u8) -> (r: FlagRegister)
        ensures
            r@ == bits,
    {
        FlagRegister { bits }
    }

    /// The register as one byte.
    pub fn bits(&self) -> (b: u8)
        ensures
            b == self@,
    {
        self.bits
    }

    /// Whether `flag` is set.
    pub fn contains(&self, flag: Flag) -> (on: bool)
        ensures
            on == is_set(self@, flag),
    {
        self.bits & flag.mask() != 0
    }

    /// Sets `flag` if `on`, clears it otherwise; the other flags stay.
    pub fn set(&mut self, flag: Flag, on: bool)
        ensures
            final(self)@ == with_flag(old(self)@, flag, on),
            is_set(final(self)@, flag) == on,
            forall|other: Flag|
                other != flag ==> is_set(final(self)@, other) == is_set(old(self)@, other),
    {
        if on {
            self.bits = self.bits | flag.mask();
        } else {
            self.bits = self.bits & !flag.mask();
        }
        proof {
            assert forall|other: Flag| is_set(self@, other) == (if other == flag {
                on
            } else {
                is_set(old(self)@, other)
            }) by {
                lemma_with_flag(old(self)@, flag, on, other);
            }
        }
    }

    /// Sets `flag`; the other flags stay.
    pub fn insert(&mut self, flag: Flag)
        ensures
            final(self)@ == with_flag(old(self)@, flag, true),
            is_set(final(self)@, flag),
            forall|other: Flag|
                other != flag ==> is_set(final(self)@, other) == is_set(old(self)@, other),
    {
        self.set(flag, true);
    }

    /// Clears `flag`; the other flags stay.
    pub fn remove(&mut self, flag: Flag)
        ensures
            final(self)@ == with_flag(old(self)@, flag, false),
            !is_set(final(self)@, flag),
            forall|other: Flag|
                other != flag ==> is_set(final(self)@, other) == is_set(old(self)@, other),
    {
        self.set(flag, false);
    }

    /// Applies the shared flag rule for the 8-bit result `value`: `Zero` is set
    /// exactly when `value` is zero, `Negative` exactly when bit 7 of `value`
    /// is set, and the other six flags stay.
    pub fn update_zero_and_negative(&mut self, value: u8)
        ensures
            final(self)@ == zero_negative(old(self)@, value),
            follows_zero_negative_rule(old(self)@, final(self)@, value),
    {
        self.set(Flag::Zero, value == 0);
        self.set(Flag::Negative, value & 0x80 != 0);
        proof {
            lemma_zero_negative_rule(old(self)@, self@, value);
        }
    }
}

} // verus!
