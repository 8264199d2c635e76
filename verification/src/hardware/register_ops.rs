//! The flag byte and the arithmetic that sets it: the one place where the
//! half-carry and full-carry rules of 8-bit and 16-bit operations live.

use crate::util::byte_ops::{hi_lo_combine, lemma_byte_fields};
use vstd::prelude::*;

verus! {

/// The four condition flags, each held as `0` or `1`.
#[derive(Debug, Clone, Copy)]
pub struct Flags {
    pub z: u8,
    pub n: u8,
    pub h: u8,
    pub c: u8,
}

/// The flag byte `F`: Z in bit 7, N in bit 6, H in bit 5, C in bit 4.
#[derive(PartialEq, Eq, Structural, PartialOrd, Ord, Clone, Copy, Hash, Debug)]
pub struct FlagRegister(pub u8);

/// `1` for a set flag, `0` for a clear one.
pub open spec fn bit_of(b: bool) -> u8 {
    if b {
        1
    } else {
        0
    }
}

/// The flag byte that holds the four given flags and a zero low nibble.
pub open spec fn pack_flags(z: bool, n: bool, h: bool, c: bool) -> u8 {
    (128 * bit_of(z) + 64 * bit_of(n) + 32 * bit_of(h) + 16 * bit_of(c)) as u8
}

/// Z: bit 7 of a flag byte.
pub open spec fn zero_flag(f: u8) -> bool {
    f / 128 == 1
}

/// N: bit 6 of a flag byte.
pub open spec fn subtract_flag(f: u8) -> bool {
    (f / 64) % 2 == 1
}

/// H: bit 5 of a flag byte.
pub open spec fn half_carry_flag(f: u8) -> bool {
    (f / 32) % 2 == 1
}

/// C: bit 4 of a flag byte.
pub open spec fn carry_flag(f: u8) -> bool {
    (f / 16) % 2 == 1
}

/// The flag byte with its low nibble cleared.
pub open spec fn high_nibble(f: u8) -> u8 {
    ((f / 16) * 16) as u8
}

/// The four flags of a flag byte.
pub open spec fn flags_of(f: u8) -> Flags {
    Flags {
        z: bit_of(zero_flag(f)),
        n: bit_of(subtract_flag(f)),
        h: bit_of(half_carry_flag(f)),
        c: bit_of(carry_flag(f)),
    }
}

/// The flag byte that a `Flags` value stands for: a field counts as set when it
/// is not zero.
pub open spec fn byte_of_flags(flags: Flags) -> u8 {
    pack_flags(flags.z != 0, flags.n != 0, flags.h != 0, flags.c != 0)
}

/// What a flag write under a mask leaves in `F`: the bits under the mask come
/// from `flags`, the others stay as they were in `last`.
pub open spec fn masked_flags(last: u8, flags: u8, mask: u8) -> u8 {
    (last & !mask) | (flags & mask)
}

/// How the flag bits of a byte are taken out by mask and shift.
pub proof fn lemma_flag_bits(f: u8)
    by (bit_vector)
    ensures
        (f & 0b10000000) >> 7 == f / 128,
        (f & 0b01000000) >> 6 == (f / 64) % 2,
        (f & 0b00100000) >> 5 == (f / 32) % 2,
        (f & 0b00010000) >> 4 == (f / 16) % 2,
        f & 0xF0 == (f / 16) * 16,
        (f & 0x0F == 0) == (f % 16 == 0),
{
}

/// How four bits are put together into a flag byte by shift and or.
pub proof fn lemma_flag_join(z: u8, n: u8, h: u8, c: u8)
    by (bit_vector)
    requires
        z <= 1,
        n <= 1,
        h <= 1,
        c <= 1,
    ensures
        (z << 7) | (n << 6) | (h << 5) | (c << 4) == 128 * z + 64 * n + 32 * h + 16 * c,
        ((z << 7) | (n << 6) | (h << 5) | (c << 4)) & 0x0F == 0,
{
}

/// A packed flag byte has a zero low nibble, and gives back the flags it was
/// packed from.
pub proof fn lemma_pack_flags(z: bool, n: bool, h: bool, c: bool)
    ensures
        pack_flags(z, n, h, c) & 0x0F == 0,
        pack_flags(z, n, h, c) % 16 == 0,
        zero_flag(pack_flags(z, n, h, c)) == z,
        subtract_flag(pack_flags(z, n, h, c)) == n,
        half_carry_flag(pack_flags(z, n, h, c)) == h,
        carry_flag(pack_flags(z, n, h, c)) == c,
{
    lemma_flag_bits(pack_flags(z, n, h, c));
}

/// Every packed flag byte has a zero low nibble.
pub proof fn lemma_packed_flags_are_clean()
    ensures
        forall|z: bool, n: bool, h: bool, c: bool| #[trigger] pack_flags(z, n, h, c) & 0x0F == 0,
{
    assert forall|z: bool, n: bool, h: bool, c: bool| #[trigger]
        pack_flags(z, n, h, c) & 0x0F == 0 by {
        lemma_pack_flags(z, n, h, c);
    }
}

/// A flag byte with a zero low nibble is the packing of its own four flags.
pub proof fn lemma_pack_of_flags(f: u8)
    ensures
        pack_flags(zero_flag(f), subtract_flag(f), half_carry_flag(f), carry_flag(f))
            == high_nibble(f),
        f & 0x0F == 0 ==> high_nibble(f) == f,
        high_nibble(f) & 0x0F == 0,
        f & 0xF0 == high_nibble(f),
{
    lemma_flag_bits(f);
    lemma_flag_bits(high_nibble(f));
}

/// A masked flag write keeps the low nibble of `F` zero when both the old byte
/// and the new flags have it zero; with every flag under the mask it is the new
/// flags, with none it is the old byte.
pub proof fn lemma_masked_flags(last: u8, flags: u8, mask: u8)
    by (bit_vector)
    ensures
        (last & 0x0F == 0 && flags & 0x0F == 0) ==> ((last & !mask) | (flags & mask)) & 0x0F == 0,
        (mask == 0xF0 && flags & 0x0F == 0 && last & 0x0F == 0) ==> ((last & !mask) | (flags
            & mask)) == flags,
        mask == 0 ==> ((last & !mask) | (flags & mask)) == last,
{
}

impl Flags {
    /// Every field is `0` or `1`.
    pub open spec fn wf(&self) -> bool {
        self.z <= 1 && self.n <= 1 && self.h <= 1 && self.c <= 1
    }
}

impl From<u8> for Flags {
    fn from(byte: u8) -> (r: Flags) {
        proof {
            lemma_flag_bits(byte);
        }
        Flags {
            z: (byte & 0b10000000) >> 7,
            n: (byte & 0b01000000) >> 6,
            h: (byte & 0b00100000) >> 5,
            c: (byte & 0b00010000) >> 4,
        }
    }
}

impl vstd::std_specs::convert::FromSpecImpl<u8> for Flags {
    open spec fn obeys_from_spec() -> bool {
        true
    }

    open spec fn from_spec(byte: u8) -> Flags {
        flags_of(byte)
    }
}

impl From<&FlagRegister> for Flags {
    fn from(fr: &FlagRegister) -> (r: Flags) {
        Flags::from(fr.0)
    }
}

impl vstd::std_specs::convert::FromSpecImpl<&FlagRegister> for Flags {
    open spec fn obeys_from_spec() -> bool {
        true
    }

    open spec fn from_spec(fr: &FlagRegister) -> Flags {
        flags_of(fr.0)
    }
}

impl From<Flags> for FlagRegister {
    fn from(flags: Flags) -> (r: FlagRegister) {
        FlagRegister::new(flags.z != 0, flags.n != 0, flags.h != 0, flags.c != 0)
    }
}

impl vstd::std_specs::convert::FromSpecImpl<Flags> for FlagRegister {
    open spec fn obeys_from_spec() -> bool {
        true
    }

    open spec fn from_spec(flags: Flags) -> FlagRegister {
        FlagRegister(byte_of_flags(flags))
    }
}

impl From<Flags> for u8 {
    fn from(flags: Flags) -> (r: u8) {
        FlagRegister::from(flags).0
    }
}

impl vstd::std_specs::convert::FromSpecImpl<Flags> for u8 {
    open spec fn obeys_from_spec() -> bool {
        true
    }

    open spec fn from_spec(flags: Flags) -> u8 {
        byte_of_flags(flags)
    }
}

impl Default for FlagRegister {
    fn default() -> (r: FlagRegister)
        ensures
            r.0 == 0,
    {
        FlagRegister(0)
    }
}

impl FlagRegister {
    /// The flag byte.
    pub fn get_value(&self) -> (r: u8)
        ensures
            r == self.0,
    {
        self.0
    }

    /// The flag byte that holds the four given flags.
    pub fn new(z: bool, n: bool, h: bool, c: bool) -> (r: Self)
        ensures
            r.0 == pack_flags(z, n, h, c),
            r.0 & 0x0F == 0,
    {
        let zb: u8 = if z { 1 } else { 0 };
        let nb: u8 = if n { 1 } else { 0 };
        let hb: u8 = if h { 1 } else { 0 };
        let cb: u8 = if c { 1 } else { 0 };
        proof {
            lemma_flag_join(zb, nb, hb, cb);
        }
        FlagRegister((zb << 7) | (nb << 6) | (hb << 5) | (cb << 4))
    }

    /// The four given flags, then H and C or-ed with those of `other_flags`
    /// where it is given.
    pub fn new_with_existing(
        z: bool,
        n: bool,
        h: bool,
        c: bool,
        other_flags: Option<FlagRegister>,
    ) -> (r: Self)
        ensures
            r.0 == match other_flags {
                None => pack_flags(z, n, h, c),
                Some(other) => pack_flags(
                    z,
                    n,
                    h || half_carry_flag(other.0),
                    c || carry_flag(other.0),
                ),
            },
            r.0 & 0x0F == 0,
    {
        let mut flags = FlagRegister::new(z, n, h, c);
        proof {
            lemma_pack_flags(z, n, h, c);
        }
        if let Some(other) = other_flags {
            flags.or_from_flags(other)
        };
        flags
    }

    /// Hands the four flags to `f` and stores what it gives back.
    pub fn update<F>(&mut self, mut f: F)
        where
            F: FnMut(Flags) -> Flags,
        requires
            f.requires((flags_of(old(self).0),)),
        ensures
            exists|next: Flags|
                #[trigger] f.ensures((flags_of(old(self).0),), next) && final(self).0
                    == byte_of_flags(next),
            final(self).0 & 0x0F == 0,
    {
        let flags = Flags::from(self.0);
        let next = f(flags);
        proof {
            lemma_pack_flags(next.z != 0, next.n != 0, next.h != 0, next.c != 0);
        }
        self.0 = FlagRegister::from(next).get_value();
    }

    /// Keeps Z and N, and sets H and C where either byte has them set. The low
    /// nibble of the result is zero.
    pub fn or_from_flags(&mut self, other: FlagRegister)
        ensures
            final(self).0 == pack_flags(
                zero_flag(old(self).0),
                subtract_flag(old(self).0),
                half_carry_flag(old(self).0) || half_carry_flag(other.0),
                carry_flag(old(self).0) || carry_flag(other.0),
            ),
            final(self).0 & 0x0F == 0,
    {
        let self_flags = Flags::from(&*self);
        let other_flags = Flags::from(&other);
        proof {
            assert(forall|a: u8, b: u8| a <= 1 && b <= 1 ==> ((a | b) != 0) == (a != 0 || b != 0))
                by (bit_vector);
        }
        let next = FlagRegister::new(
            (self_flags.z) != 0,
            (self_flags.n) != 0,
            (self_flags.h | other_flags.h) != 0,
            (self_flags.c | other_flags.c) != 0,
        );
        self.0 = next.0;
    }
}

/// Half and full carries of an addition or subtraction at the width of the
/// implementing integer type.
pub trait CarryFlags: Sized {
    /// A carry leaves the low part (the low nibble of a byte, the low twelve
    /// bits of a word) when `other` is added to `self`.
    spec fn spec_half_carry_add(&self, other: &Self) -> bool;

    /// A borrow enters the low part when `other` is taken from `self`.
    spec fn spec_half_carry_sub(&self, other: &Self) -> bool;

    /// The sum of `self` and `other` does not fit.
    spec fn spec_full_carry_add(&self, other: &Self) -> bool;

    /// `other` is larger than `self`.
    spec fn spec_full_carry_sub(&self, other: &Self) -> bool;

    /// The low part of a value, which `half_carry` hands to its function.
    spec fn spec_low_part(&self) -> Self;

    /// The value that marks a carry out of the low part.
    spec fn spec_carry_mark() -> Self;

    fn half_carry_add(&self, other: &Self) -> (r: bool)
        ensures
            r == self.spec_half_carry_add(other),
    ;

    fn half_carry_sub(&self, other: &Self) -> (r: bool)
        ensures
            r == self.spec_half_carry_sub(other),
    ;

    /// Applies `f` to the low parts of the two values and says whether it gave
    /// the carry mark.
    fn half_carry<F>(&self, value: &Self, f: F) -> (r: bool)
        where
            F: FnMut((Self, Self)) -> Self,
        requires
            f.requires(((self.spec_low_part(), value.spec_low_part()),)),
        ensures
            exists|out: Self|
                #[trigger] f.ensures(((self.spec_low_part(), value.spec_low_part()),), out) && r
                    == (out == Self::spec_carry_mark()),
    ;

    fn full_carry_add(&self, other: &Self) -> (r: bool)
        ensures
            r == self.spec_full_carry_add(other),
    ;

    fn full_carry_sub(&self, other: &Self) -> (r: bool)
        ensures
            r == self.spec_full_carry_sub(other),
    ;
}

/// How the carry out of bit 3 shows in the sum and the difference of two
/// nibbles.
pub proof fn lemma_nibble_carry(x: u8, y: u8)
    by (bit_vector)
    requires
        x <= 15,
        y <= 15,
    ensures
        (((x + y) as u8) & 0x10 == 0x10) == (x + y > 15),
        x < y ==> ((256 + x - y) as u8) & 0x10 == 0x10,
        x >= y ==> ((x - y) as u8) & 0x10 != 0x10,
{
}

/// How the carry out of bit 11 shows in the sum and the difference of two
/// twelve-bit numbers.
pub proof fn lemma_low12_carry(x: u16, y: u16)
    by (bit_vector)
    requires
        x <= 0xFFF,
        y <= 0xFFF,
    ensures
        (((x + y) as u16) & 0x1000 == 0x1000) == (x + y > 0xFFF),
        x < y ==> ((0x10000 + x - y) as u16) & 0x1000 == 0x1000,
        x >= y ==> ((x - y) as u16) & 0x1000 != 0x1000,
{
}

impl CarryFlags for u8 {
    open spec fn spec_half_carry_add(&self, other: &Self) -> bool {
        (*self % 16) + (*other % 16) > 15
    }

    open spec fn spec_half_carry_sub(&self, other: &Self) -> bool {
        (*self % 16) < (*other % 16)
    }

    open spec fn spec_full_carry_add(&self, other: &Self) -> bool {
        *self + *other > 255
    }

    open spec fn spec_full_carry_sub(&self, other: &Self) -> bool {
        *self < *other
    }

    open spec fn spec_low_part(&self) -> Self {
        *self % 16
    }

    open spec fn spec_carry_mark() -> Self {
        0x10
    }

    fn half_carry_add(&self, other: &Self) -> (r: bool) {
        proof {
            lemma_byte_fields(*self);
            lemma_byte_fields(*other);
            lemma_nibble_carry(*self % 16, *other % 16);
        }
        (((*self & 0xF) + (*other & 0xF)) & 0x10) == 0x10
    }

    fn half_carry_sub(&self, other: &Self) -> (r: bool) {
        proof {
            lemma_byte_fields(*self);
            lemma_byte_fields(*other);
            lemma_nibble_carry(*self % 16, *other % 16);
        }
        ((*self & 0xF).wrapping_sub(*other & 0xF) & 0x10) == 0x10
    }

    fn half_carry<F>(&self, value: &Self, mut f: F) -> (r: bool)
        where
            F: FnMut((Self, Self)) -> Self,
    {
        proof {
            lemma_byte_fields(*self);
            lemma_byte_fields(*value);
        }
        f((*self & 0xf, *value & 0xF)) == 0x10
    }

    fn full_carry_add(&self, other: &Self) -> (r: bool) {
        self.checked_add(*other).is_none()
    }

    fn full_carry_sub(&self, other: &Self) -> (r: bool) {
        self.checked_sub(*other).is_none()
    }
}

impl CarryFlags for u16 {
    open spec fn spec_half_carry_add(&self, other: &Self) -> bool {
        (*self % 4096) + (*other % 4096) > 4095
    }

    open spec fn spec_half_carry_sub(&self, other: &Self) -> bool {
        (*self % 4096) < (*other % 4096)
    }

    open spec fn spec_full_carry_add(&self, other: &Self) -> bool {
        *self + *other > 65535
    }

    open spec fn spec_full_carry_sub(&self, other: &Self) -> bool {
        *self < *other
    }

    open spec fn spec_low_part(&self) -> Self {
        *self % 4096
    }

    open spec fn spec_carry_mark() -> Self {
        0x1000
    }

    fn half_carry_add(&self, other: &Self) -> (r: bool) {
        proof {
            crate::util::byte_ops::lemma_word_fields(*self);
            crate::util::byte_ops::lemma_word_fields(*other);
            lemma_low12_carry(*self % 4096, *other % 4096);
        }
        (((*self & 0xFFF) + (*other & 0xFFF)) & 0x1000) == 0x1000
    }

    fn half_carry_sub(&self, other: &Self) -> (r: bool) {
        proof {
            crate::util::byte_ops::lemma_word_fields(*self);
            crate::util::byte_ops::lemma_word_fields(*other);
            lemma_low12_carry(*self % 4096, *other % 4096);
        }
        ((*self & 0xFFF).wrapping_sub(*other & 0xFFF) & 0x1000) == 0x1000
    }

    fn half_carry<F>(&self, value: &Self, mut f: F) -> (r: bool)
        where
            F: FnMut((Self, Self)) -> Self,
    {
        proof {
            crate::util::byte_ops::lemma_word_fields(*self);
            crate::util::byte_ops::lemma_word_fields(*value);
        }
        f((*self & 0xFFF, *value & 0xFFF)) == 0x1000
    }

    fn full_carry_add(&self, other: &Self) -> (r: bool) {
        self.checked_add(*other).is_none()
    }

    fn full_carry_sub(&self, other: &Self) -> (r: bool) {
        self.checked_sub(*other).is_none()
    }
}

/// How the low nibble and the low byte of a signed word are taken out by
/// mask.
pub proof fn lemma_signed_word_fields(w: i16)
    by (bit_vector)
    ensures
        0 <= w & 0xF <= 15,
        0 <= w & 0xFF <= 255,
        (w & 0xF) as int == (w as int) % 16,
        (w & 0xFF) as int == (w as int) % 256,
{
}

/// How the carries out of bit 3 and bit 7 show in the sum and the difference of
/// two low parts.
pub proof fn lemma_signed_low_carry(x: i16, y: i16)
    by (bit_vector)
    requires
        0 <= x <= 255,
        0 <= y <= 255,
    ensures
        (x <= 15 && y <= 15) ==> (((x + y) as i16) & 0x10 == 0x10) == (x + y > 15),
        (x <= 15 && y <= 15) ==> (((x - y) as i16) & 0x10 == 0x10) == (x < y),
        (((x + y) as i16) & 0x100 == 0x100) == (x + y > 255),
        (((x - y) as i16) & 0x100 == 0x100) == (x < y),
{
}

impl CarryFlags for i16 {
    open spec fn spec_half_carry_add(&self, other: &Self) -> bool {
        (*self as int % 16) + (*other as int % 16) > 15
    }

    open spec fn spec_half_carry_sub(&self, other: &Self) -> bool {
        (*self as int % 16) < (*other as int % 16)
    }

    open spec fn spec_full_carry_add(&self, other: &Self) -> bool {
        (*self as int % 256) + (*other as int % 256) > 255
    }

    open spec fn spec_full_carry_sub(&self, other: &Self) -> bool {
        (*self as int % 256) < (*other as int % 256)
    }

    open spec fn spec_low_part(&self) -> Self {
        (*self as int % 16) as i16
    }

    open spec fn spec_carry_mark() -> Self {
        0x10
    }

    fn half_carry_add(&self, other: &Self) -> (r: bool) {
        proof {
            lemma_signed_word_fields(*self);
            lemma_signed_word_fields(*other);
            lemma_signed_low_carry(*self & 0xF, *other & 0xF);
        }
        (((*self & 0xF) + (*other & 0xF)) & 0x10) == 0x10
    }

    fn half_carry_sub(&self, other: &Self) -> (r: bool) {
        proof {
            lemma_signed_word_fields(*self);
            lemma_signed_word_fields(*other);
            lemma_signed_low_carry(*self & 0xF, *other & 0xF);
        }
        (((*self & 0xF) - (*other & 0xF)) & 0x10) == 0x10
    }

    fn half_carry<F>(&self, value: &Self, mut f: F) -> (r: bool)
        where
            F: FnMut((Self, Self)) -> Self,
    {
        proof {
            lemma_signed_word_fields(*self);
            lemma_signed_word_fields(*value);
        }
        f((*self & 0xf, *value & 0xF)) == 0x10
    }

    fn full_carry_add(&self, other: &Self) -> (r: bool) {
        proof {
            lemma_signed_word_fields(*self);
            lemma_signed_word_fields(*other);
            lemma_signed_low_carry(*self & 0xFF, *other & 0xFF);
        }
        ((((*self) & 0xFF) + ((*other) & 0xFF)) & 0x100) == 0x100
    }

    fn full_carry_sub(&self, other: &Self) -> (r: bool) {
        proof {
            lemma_signed_word_fields(*self);
            lemma_signed_word_fields(*other);
            lemma_signed_low_carry(*self & 0xFF, *other & 0xFF);
        }
        ((((*self) & 0xFF) - ((*other) & 0xFF)) & 0x100) == 0x100
    }
}

/// A conversion to a primitive value that does not check its range.
pub trait ToPrimitive<T> {
    fn to_primitive_unchecked(&self) -> T;
}

/// A value about to go through an operation, with the flags of an earlier
/// operation where it is the second step of a chain (as in add with carry).
#[derive(PartialEq, Eq, PartialOrd, Ord, Default, Hash, Debug)]
pub struct RegisterOp<T> {
    pub value: T,
    pub flags: Option<FlagRegister>,
}

impl<T: Copy> Clone for RegisterOp<T> {
    fn clone(&self) -> (r: Self)
        ensures
            r == *self,
    {
        *self
    }
}

impl<T: Copy> Copy for RegisterOp<T> {

}

impl<T> std::ops::Deref for RegisterOp<T> {
    type Target = T;

    /// The value that is about to go through an operation.
    fn deref(&self) -> (r: &T)
        ensures
            *r == self.value,
    {
        &self.value
    }
}

/// What an operation gives: the value, the flags it computed, and the mask of
/// the flags that the instruction writes (`None` stands for all four).
pub struct RegisterOpResult<T> {
    pub value: T,
    pub flags: FlagRegister,
    pub mask: Option<FlagRegister>,
}

/// The mask that writes all four flags.
pub const ALL_FLAGS: u8 = 0b11110000;

/// H and C of a chain: those of this step, or-ed with those of the earlier one.
pub open spec fn chain_flags(z: bool, n: bool, h: bool, c: bool, earlier: Option<FlagRegister>) -> u8 {
    match earlier {
        None => pack_flags(z, n, h, c),
        Some(e) => pack_flags(z, n, h || half_carry_flag(e.0), c || carry_flag(e.0)),
    }
}

/// The sum of two bytes and a carry, in eight bits.
pub open spec fn add8_value(a: u8, b: u8, carry_in: bool) -> u8 {
    ((a + b + bit_of(carry_in)) % 256) as u8
}

/// The flags of an 8-bit addition: Z from the result, N clear, H the carry out
/// of bit 3, C the carry out of bit 7, both with the carry-in counted.
pub open spec fn add8_flags(a: u8, b: u8, carry_in: bool) -> u8 {
    pack_flags(
        add8_value(a, b, carry_in) == 0,
        false,
        (a % 16) + (b % 16) + bit_of(carry_in) > 15,
        a + b + bit_of(carry_in) > 255,
    )
}

/// The difference of two bytes less a borrow, in eight bits.
pub open spec fn sub8_value(a: u8, b: u8, carry_in: bool) -> u8 {
    ((a - b - bit_of(carry_in)) % 256) as u8
}

/// The flags of an 8-bit subtraction: Z from the result, N set, H the borrow
/// into bit 4, C the borrow into bit 8, both with the carry-in counted.
pub open spec fn sub8_flags(a: u8, b: u8, carry_in: bool) -> u8 {
    pack_flags(
        sub8_value(a, b, carry_in) == 0,
        true,
        (a % 16) < (b % 16) + bit_of(carry_in),
        a < b + bit_of(carry_in),
    )
}

/// The sum of two words, in sixteen bits.
pub open spec fn add16_value(a: u16, b: u16) -> u16 {
    ((a + b) % 65536) as u16
}

/// The flags of a 16-bit addition: H the carry out of bit 11, C the carry out
/// of bit 15.
pub open spec fn add16_flags(a: u16, b: u16) -> u8 {
    pack_flags(add16_value(a, b) == 0, false, (a % 4096) + (b % 4096) > 4095, a + b > 65535)
}

/// The difference of two words, in sixteen bits.
pub open spec fn sub16_value(a: u16, b: u16) -> u16 {
    ((a - b) % 65536) as u16
}

/// The flags of a 16-bit subtraction.
pub open spec fn sub16_flags(a: u16, b: u16) -> u8 {
    pack_flags(sub16_value(a, b) == 0, true, (a % 4096) < (b % 4096), a < b)
}

/// A byte rotated left by `n` places, `n` taken modulo 8.
pub open spec fn rotate_left8(v: u8, n: u8) -> u8 {
    if n % 8 == 0 {
        v
    } else {
        (v << (n % 8)) | (v >> ((8 - n % 8) as u8))
    }
}

/// A byte rotated right by `n` places, `n` taken modulo 8.
pub open spec fn rotate_right8(v: u8, n: u8) -> u8 {
    if n % 8 == 0 {
        v
    } else {
        (v >> (n % 8)) | (v << ((8 - n % 8) as u8))
    }
}

/// A byte with its two nibbles exchanged.
pub open spec fn swap8(v: u8) -> u8 {
    ((v % 16) * 16 + v / 16) as u8
}

/// Rotation by one place as arithmetic: the bit that leaves at one end comes
/// back at the other.
pub proof fn lemma_rotate_by_one(v: u8)
    by (bit_vector)
    ensures
        ({
            &&& (v << 1u8) | (v >> 7u8) == (v * 2) % 256 + v / 128
            &&& (v >> 1u8) | (v << 7u8) == v / 2 + (v % 2) * 128
            &&& ((v << 1u8) | (v >> 7u8)) & 1 == v / 128
            &&& ((v >> 1u8) | (v << 7u8)) & 0x80 == (v % 2) * 128
            &&& ((v & 0b1111) << 4u8) | (v >> 4u8) == (v % 16) * 16 + v / 16
        }),
{
}

impl<T> RegisterOpResult<T> {
    /// A result whose flags are all written.
    pub fn new(value: T, flags: FlagRegister) -> (r: Self)
        ensures
            r.value == value,
            r.flags == flags,
            r.mask is None,
    {
        RegisterOpResult { value, flags, mask: None }
    }

    /// Names the flags that the instruction writes.
    pub fn set_mask(&mut self, mask: FlagRegister)
        ensures
            final(self).value == old(self).value,
            final(self).flags == old(self).flags,
            final(self).mask == Some(mask),
    {
        self.mask = Some(mask)
    }

    /// The mask byte: the one that was set, or all four flags.
    pub open spec fn spec_mask(&self) -> u8 {
        match self.mask {
            Some(m) => m.0,
            None => ALL_FLAGS,
        }
    }

    /// The new flag byte, given the last one: the flags under the mask come
    /// from this result, the others stay.
    pub fn get_masked_value(&self, last: u8) -> (r: u8)
        ensures
            r == masked_flags(last, self.flags.0, self.spec_mask()),
            (last & 0x0F == 0 && self.flags.0 & 0x0F == 0) ==> r & 0x0F == 0,
    {
        let mask = match self.mask {
            Some(m) => m.0,
            None => ALL_FLAGS,
        };
        proof {
            lemma_masked_flags(last, self.flags.0, mask);
        }
        (last & !mask) | (self.flags.0 & mask)
    }
}

impl<T> From<RegisterOpResult<T>> for RegisterOp<T> {
    fn from(value: RegisterOpResult<T>) -> (r: RegisterOp<T>) {
        RegisterOp { value: value.value, flags: Some(value.flags) }
    }
}

impl<T> vstd::std_specs::convert::FromSpecImpl<RegisterOpResult<T>> for RegisterOp<T> {
    open spec fn obeys_from_spec() -> bool {
        true
    }

    open spec fn from_spec(value: RegisterOpResult<T>) -> RegisterOp<T> {
        RegisterOp { value: value.value, flags: Some(value.flags) }
    }
}

impl<T> RegisterOp<T> {
    /// A value that no earlier operation has left flags for.
    pub fn new(value: T) -> (r: Self)
        ensures
            r.value == value,
            r.flags is None,
    {
        RegisterOp { value, flags: None }
    }
}

impl RegisterOp<u8> {
    /// Adds `value`: the sum in eight bits, with the flags of an addition.
    pub fn add(&self, value: u8) -> (r: RegisterOpResult<u8>)
        ensures
            r.value == add8_value(self.value, value, false),
            r.flags.0 == chain_flags(
                r.value == 0,
                false,
                self.value.spec_half_carry_add(&value),
                self.value.spec_full_carry_add(&value),
                self.flags,
            ),
            self.flags is None ==> r.flags.0 == add8_flags(self.value, value, false),
            r.flags.0 & 0x0F == 0,
            r.mask is None,
    {
        let result = self.value.wrapping_add(value);
        let z = result == 0;
        let n = false;
        let h = self.value.half_carry_add(&value);
        let c = self.value.full_carry_add(&value);
        let flags = FlagRegister::new_with_existing(z, n, h, c, self.flags);
        RegisterOpResult::new(result, flags)
    }

    /// Takes `value` away: the difference in eight bits, with the flags of a
    /// subtraction.
    pub fn sub(&self, value: u8) -> (r: RegisterOpResult<u8>)
        ensures
            r.value == sub8_value(self.value, value, false),
            r.flags.0 == chain_flags(
                r.value == 0,
                true,
                self.value.spec_half_carry_sub(&value),
                self.value.spec_full_carry_sub(&value),
                self.flags,
            ),
            self.flags is None ==> r.flags.0 == sub8_flags(self.value, value, false),
            r.flags.0 & 0x0F == 0,
            r.mask is None,
    {
        let result = self.value.wrapping_sub(value);
        let z = result == 0;
        let n = true;
        let h = self.value.half_carry_sub(&value);
        let c = self.value.full_carry_sub(&value);
        let flags = FlagRegister::new_with_existing(z, n, h, c, self.flags);
        RegisterOpResult::new(result, flags)
    }

    /// Adding a byte and then the carry gives the value and the flags of one
    /// addition with carry-in, whatever flags an earlier step brought along.
    pub proof fn lemma_add_chain(a: u8, b: u8, carry_in: bool, earlier: Option<FlagRegister>)
        ensures
            add8_value(add8_value(a, b, false), bit_of(carry_in), false) == add8_value(
                a,
                b,
                carry_in,
            ),
            chain_flags(
                add8_value(a, b, carry_in) == 0,
                false,
                add8_value(a, b, false).spec_half_carry_add(&bit_of(carry_in)),
                add8_value(a, b, false).spec_full_carry_add(&bit_of(carry_in)),
                Some(
                    FlagRegister(
                        chain_flags(
                            add8_value(a, b, false) == 0,
                            false,
                            a.spec_half_carry_add(&b),
                            a.spec_full_carry_add(&b),
                            earlier,
                        ),
                    ),
                ),
            ) == chain_flags(
                add8_value(a, b, carry_in) == 0,
                false,
                (a % 16) + (b % 16) + bit_of(carry_in) > 15,
                a + b + bit_of(carry_in) > 255,
                earlier,
            ),
    {
        let first = add8_value(a, b, false);
        assert(first == if a + b > 255 { a + b - 256 } else { a + b });
        assert(first % 16 == (a % 16 + b % 16) % 16);
        let h = (a % 16) + (b % 16) > 15;
        let c = a + b > 255;
        match earlier {
            None => {
                lemma_pack_flags(first == 0, false, h, c);
            },
            Some(e) => {
                lemma_pack_flags(
                    first == 0,
                    false,
                    h || half_carry_flag(e.0),
                    c || carry_flag(e.0),
                );
            },
        }
    }

    /// Taking a byte away and then the carry gives the value and the flags of
    /// one subtraction with carry-in, whatever flags an earlier step brought
    /// along.
    pub proof fn lemma_sub_chain(a: u8, b: u8, carry_in: bool, earlier: Option<FlagRegister>)
        ensures
            sub8_value(sub8_value(a, b, false), bit_of(carry_in), false) == sub8_value(
                a,
                b,
                carry_in,
            ),
            chain_flags(
                sub8_value(a, b, carry_in) == 0,
                true,
                sub8_value(a, b, false).spec_half_carry_sub(&bit_of(carry_in)),
                sub8_value(a, b, false).spec_full_carry_sub(&bit_of(carry_in)),
                Some(
                    FlagRegister(
                        chain_flags(
                            sub8_value(a, b, false) == 0,
                            true,
                            a.spec_half_carry_sub(&b),
                            a.spec_full_carry_sub(&b),
                            earlier,
                        ),
                    ),
                ),
            ) == chain_flags(
                sub8_value(a, b, carry_in) == 0,
                true,
                (a % 16) < (b % 16) + bit_of(carry_in),
                a < b + bit_of(carry_in),
                earlier,
            ),
    {
        let first = sub8_value(a, b, false);
        assert(first == if a < b { a - b + 256 } else { a - b });
        assert(first % 16 == if a % 16 < b % 16 { a % 16 - b % 16 + 16 } else { a % 16 - b % 16 });
        let h = (a % 16) < (b % 16);
        let c = a < b;
        match earlier {
            None => {
                lemma_pack_flags(first == 0, true, h, c);
            },
            Some(e) => {
                lemma_pack_flags(
                    first == 0,
                    true,
                    h || half_carry_flag(e.0),
                    c || carry_flag(e.0),
                );
            },
        }
    }

    /// Adds `value` and the carry-in, as two additions in a chain: the sum in
    /// eight bits, with H and C counting the carry-in.
    pub fn add_with_carry(&self, value: u8, carry_in: bool) -> (r: RegisterOpResult<u8>)
        ensures
            r.value == add8_value(self.value, value, carry_in),
            r.flags.0 == chain_flags(
                r.value == 0,
                false,
                (self.value % 16) + (value % 16) + bit_of(carry_in) > 15,
                self.value + value + bit_of(carry_in) > 255,
                self.flags,
            ),
            self.flags is None ==> r.flags.0 == add8_flags(self.value, value, carry_in),
            r.flags.0 & 0x0F == 0,
            r.mask is None,
    {
        let carry: u8 = if carry_in { 1 } else { 0 };
        let first = self.add(value);
        proof {
            Self::lemma_add_chain(self.value, value, carry_in, self.flags);
        }
        RegisterOp::from(first).add(carry)
    }

    /// Takes `value` and the carry-in away, as two subtractions in a chain:
    /// the difference in eight bits, with H and C counting the carry-in.
    pub fn sub_with_carry(&self, value: u8, carry_in: bool) -> (r: RegisterOpResult<u8>)
        ensures
            r.value == sub8_value(self.value, value, carry_in),
            r.flags.0 == chain_flags(
                r.value == 0,
                true,
                (self.value % 16) < (value % 16) + bit_of(carry_in),
                self.value < value + bit_of(carry_in),
                self.flags,
            ),
            self.flags is None ==> r.flags.0 == sub8_flags(self.value, value, carry_in),
            r.flags.0 & 0x0F == 0,
            r.mask is None,
    {
        let carry: u8 = if carry_in { 1 } else { 0 };
        let first = self.sub(value);
        proof {
            Self::lemma_sub_chain(self.value, value, carry_in, self.flags);
        }
        RegisterOp::from(first).sub(carry)
    }

    /// Rotates left by `value` places. Z, N and H are clear; C is the bit that
    /// came round into bit 0.
    pub fn rotate_left(&self, value: u8) -> (r: RegisterOpResult<u8>)
        ensures
            r.value == rotate_left8(self.value, value),
            r.flags.0 == chain_flags(false, false, false, r.value % 2 == 1, self.flags),
            value == 1 ==> r.value == (self.value * 2) % 256 + self.value / 128,
            (value == 1 && self.flags is None) ==> r.flags.0 == pack_flags(
                false,
                false,
                false,
                self.value / 128 == 1,
            ),
            r.flags.0 & 0x0F == 0,
            r.mask is None,
    {
        let k: u8 = value % 8;
        let result: u8 = if k == 0 {
            self.value
        } else {
            (self.value << k) | (self.value >> (8 - k))
        };
        proof {
            lemma_byte_fields(result);
            lemma_rotate_by_one(self.value);
        }
        let c = result & 1 == 1;
        let z = false;
        let n = false;
        let h = false;
        RegisterOpResult::new(result, FlagRegister::new_with_existing(z, n, h, c, self.flags))
    }

    /// Rotates right by `value` places. Z, N and H are clear; C is the bit that
    /// came round into bit 7.
    pub fn rotate_right(&self, value: u8) -> (r: RegisterOpResult<u8>)
        ensures
            r.value == rotate_right8(self.value, value),
            r.flags.0 == chain_flags(false, false, false, r.value / 128 == 1, self.flags),
            value == 1 ==> r.value == self.value / 2 + (self.value % 2) * 128,
            (value == 1 && self.flags is None) ==> r.flags.0 == pack_flags(
                false,
                false,
                false,
                self.value % 2 == 1,
            ),
            r.flags.0 & 0x0F == 0,
            r.mask is None,
    {
        let k: u8 = value % 8;
        let result: u8 = if k == 0 {
            self.value
        } else {
            (self.value >> k) | (self.value << (8 - k))
        };
        proof {
            lemma_byte_fields(result);
            lemma_rotate_by_one(self.value);
        }
        let c = result & 0x80 == 0x80;
        let z = false;
        let n = false;
        let h = false;
        RegisterOpResult::new(result, FlagRegister::new_with_existing(z, n, h, c, self.flags))
    }

    /// Bitwise or: Z from the result, the other flags clear.
    pub fn or(&self, value: u8) -> (r: RegisterOpResult<u8>)
        ensures
            r.value == self.value | value,
            r.flags.0 == chain_flags(r.value == 0, false, false, false, self.flags),
            r.flags.0 & 0x0F == 0,
            r.mask is None,
    {
        let result = self.value | value;
        let z = result == 0;
        let n = false;
        let h = false;
        let c = false;
        RegisterOpResult::new(result, FlagRegister::new_with_existing(z, n, h, c, self.flags))
    }

    /// Bitwise and: Z from the result, H set, N and C clear.
    pub fn and(&self, value: u8) -> (r: RegisterOpResult<u8>)
        ensures
            r.value == self.value & value,
            r.flags.0 == chain_flags(r.value == 0, false, true, false, self.flags),
            r.flags.0 & 0x0F == 0,
            r.mask is None,
    {
        let result = self.value & value;
        let z = result == 0;
        let n = false;
        let h = true;
        let c = false;
        RegisterOpResult::new(result, FlagRegister::new_with_existing(z, n, h, c, self.flags))
    }

    /// Bitwise exclusive or: Z from the result, the other flags clear.
    pub fn xor(&self, value: u8) -> (r: RegisterOpResult<u8>)
        ensures
            r.value == self.value ^ value,
            r.flags.0 == chain_flags(r.value == 0, false, false, false, self.flags),
            r.flags.0 & 0x0F == 0,
            r.mask is None,
    {
        let result = self.value ^ value;
        let z = result == 0;
        let n = false;
        let h = false;
        let c = false;
        RegisterOpResult::new(result, FlagRegister::new_with_existing(z, n, h, c, self.flags))
    }

    /// Exchanges the two nibbles: Z from the result, the other flags clear.
    pub fn swap(&self) -> (r: RegisterOpResult<u8>)
        ensures
            r.value == swap8(self.value),
            r.flags.0 == chain_flags(self.value == 0, false, false, false, self.flags),
            (r.value == 0) == (self.value == 0),
            r.flags.0 & 0x0F == 0,
            r.mask is None,
    {
        proof {
            lemma_rotate_by_one(self.value);
        }
        let hi = self.value >> 4;
        let lo = self.value & 0b1111;
        let result = lo << 4 | hi;
        let z = self.value == 0;
        let n = false;
        let h = false;
        let c = false;
        RegisterOpResult::new(result, FlagRegister::new_with_existing(z, n, h, c, self.flags))
    }
}

/// The word that the 16-bit exchange gives: the low nibble moves to the high
/// byte, the high byte to the low byte.
pub open spec fn swap16(v: u16) -> u16 {
    ((v % 16) * 256 + v / 256) as u16
}

/// An integer brought into the range of a signed 16-bit word by wrapping.
pub open spec fn wrap_signed16(x: int) -> i16 {
    if (x % 65536) < 32768 {
        (x % 65536) as i16
    } else {
        (x % 65536 - 65536) as i16
    }
}

impl RegisterOp<u16> {
    /// Adds `value`: the sum in sixteen bits, H from bit 11, C from bit 15.
    pub fn add(&self, value: u16) -> (r: RegisterOpResult<u16>)
        ensures
            r.value == add16_value(self.value, value),
            r.flags.0 == chain_flags(
                r.value == 0,
                false,
                self.value.spec_half_carry_add(&value),
                self.value.spec_full_carry_add(&value),
                self.flags,
            ),
            self.flags is None ==> r.flags.0 == add16_flags(self.value, value),
            r.flags.0 & 0x0F == 0,
            r.mask is None,
    {
        let result = self.value.wrapping_add(value);
        let z = result == 0;
        let n = false;
        let h = self.value.half_carry_add(&value);
        let c = self.value.full_carry_add(&value);
        let flags = FlagRegister::new_with_existing(z, n, h, c, self.flags);
        RegisterOpResult::new(result, flags)
    }

    /// Takes `value` away: the difference in sixteen bits.
    pub fn sub(&self, value: u16) -> (r: RegisterOpResult<u16>)
        ensures
            r.value == sub16_value(self.value, value),
            r.flags.0 == chain_flags(
                r.value == 0,
                true,
                self.value.spec_half_carry_sub(&value),
                self.value.spec_full_carry_sub(&value),
                self.flags,
            ),
            self.flags is None ==> r.flags.0 == sub16_flags(self.value, value),
            r.flags.0 & 0x0F == 0,
            r.mask is None,
    {
        let result = self.value.wrapping_sub(value);
        let z = result == 0;
        let n = true;
        let h = self.value.half_carry_sub(&value);
        let c = self.value.full_carry_sub(&value);
        let flags = FlagRegister::new_with_existing(z, n, h, c, self.flags);
        RegisterOpResult::new(result, flags)
    }

    /// Moves the high byte to the low byte and the low nibble to the high
    /// byte: Z from the value that came in, the other flags clear.
    pub fn swap(&self) -> (r: RegisterOpResult<u16>)
        ensures
            r.value == swap16(self.value),
            r.flags.0 == chain_flags(self.value == 0, false, false, false, self.flags),
            r.flags.0 & 0x0F == 0,
            r.mask is None,
    {
        proof {
            crate::util::byte_ops::lemma_word_fields(self.value);
        }
        let hi = self.value >> 8;
        let lo = self.value & 0xF;
        let result = hi_lo_combine(lo as u8, hi as u8);
        let z = self.value == 0;
        let n = false;
        let h = false;
        let c = false;
        RegisterOpResult::new(result, FlagRegister::new_with_existing(z, n, h, c, self.flags))
    }
}

impl RegisterOp<i16> {
    /// Adds `value` with wrap-around. H and C are those of the low nibbles and
    /// the low bytes of the two operands, whatever their signs.
    pub fn add(&self, value: i16) -> (r: RegisterOpResult<i16>)
        ensures
            r.value == wrap_signed16(self.value + value),
            r.flags.0 == chain_flags(
                r.value == 0,
                false,
                self.value.spec_half_carry_add(&value),
                self.value.spec_full_carry_add(&value),
                self.flags,
            ),
            r.flags.0 & 0x0F == 0,
            r.mask is None,
    {
        let result = self.value.wrapping_add(value);
        let z = result == 0;
        let n = false;
        let h = self.value.half_carry_add(&value);
        let c = self.value.full_carry_add(&value);
        let flags = FlagRegister::new_with_existing(z, n, h, c, self.flags);
        RegisterOpResult::new(result, flags)
    }
}

} // verus!
