//! Status-register codec: the fixed-point-exception flags held in the 64-bit
//! XER word and the 4-bit fields of the condition register.
//!
//! POWER numbers bits from the most significant one: bit `n` of a 64-bit word
//! has the weight `2^(63 - n)`.

use vstd::arithmetic::power2::{lemma2_to64, lemma2_to64_rest, lemma_pow2_subtracts, pow2};
use vstd::bits::lemma_u64_shr_is_div;
use vstd::prelude::*;

verus! {

/// Weight of the bit that POWER numbers `powerpc_bit_num` in a 64-bit word.
pub open spec fn xer_bit_mask(powerpc_bit_num: nat) -> nat
    recommends
        powerpc_bit_num < 64,
{
    pow2((63 - powerpc_bit_num) as nat)
}

/// Whether the bit that POWER numbers `powerpc_bit_num` is set in `word`.
pub open spec fn xer_bit(word: u64, powerpc_bit_num: nat) -> bool
    recommends
        powerpc_bit_num < 64,
{
    (word as nat / xer_bit_mask(powerpc_bit_num)) % 2 == 1
}

/// The weight `flag` contributes to a word when it sits at bit `powerpc_bit_num`.
pub open spec fn xer_flag_value(flag: bool, powerpc_bit_num: nat) -> nat {
    if flag {
        xer_bit_mask(powerpc_bit_num)
    } else {
        0
    }
}

/// Mask with only bit `powerpc_bit_num` set, in POWER's MSB-first numbering.
pub fn get_xer_bit_mask(powerpc_bit_num: usize) -> (mask: u64)
    requires
        powerpc_bit_num < 64,
    ensures
        mask == xer_bit_mask(powerpc_bit_num as nat),
{
    let top: u64 = 1u64 << 63;
    proof {
        assert(1u64 << 63 == 0x8000_0000_0000_0000u64) by (bit_vector);
        lemma2_to64_rest();
        lemma_u64_shr_is_div(top, powerpc_bit_num as u64);
        lemma_pow2_subtracts(powerpc_bit_num as nat, 63);
    }
    top >> powerpc_bit_num
}

/// POWER bit number of the summary-overflow flag in XER.
pub const XER_SO_BIT: usize = 32;

/// POWER bit number of the overflow flag in XER.
pub const XER_OV_BIT: usize = 33;

/// POWER bit number of the carry flag in XER.
pub const XER_CA_BIT: usize = 34;

/// POWER bit number of the 32-bit overflow flag in XER.
pub const XER_OV32_BIT: usize = 44;

/// POWER bit number of the 32-bit carry flag in XER.
pub const XER_CA32_BIT: usize = 45;

/// Overflow state of the fixed-point unit: the sticky summary overflow and the
/// overflow of the last recording instruction, for 64-bit and for 32-bit mode.
#[derive(Copy, Clone, Debug, PartialEq, Eq, Structural)]
pub struct OverflowFlags {
    pub so: bool,
    pub ov: bool,
    pub ov32: bool,
}

/// Carry state of the fixed-point unit, for 64-bit and for 32-bit mode.
#[derive(Copy, Clone, Debug, PartialEq, Eq, Structural)]
pub struct CarryFlags {
    pub ca: bool,
    pub ca32: bool,
}

proof fn lemma_bit_test(word: u64, mask: u64, shift: u64)
    requires
        shift < 64,
        mask == pow2(shift as nat),
    ensures
        (word & mask != 0) == ((word as nat / pow2(shift as nat)) % 2 == 1),
{
    assert(1u64 << shift == pow2(shift as nat)) by {
        vstd::bits::lemma_u64_pow2_no_overflow(shift as nat);
        vstd::bits::lemma_u64_shl_is_mul(1, shift);
    }
    assert((word & (1u64 << shift) != 0) == ((word >> shift) % 2 == 1)) by (bit_vector)
        requires
            shift < 64,
    ;
    lemma_u64_shr_is_div(word, shift);
}

impl OverflowFlags {
    /// Mask of the summary-overflow flag in XER.
    pub const XER_SO_MASK: u64 = 0x8000_0000;

    /// Mask of the overflow flag in XER.
    pub const XER_OV_MASK: u64 = 0x4000_0000;

    /// Mask of the 32-bit overflow flag in XER.
    pub const XER_OV32_MASK: u64 = 0x8_0000;

    /// Mask of all the overflow flags in XER.
    pub const XER_MASK: u64 = 0xC008_0000;

    /// The flags that `xer` holds at the architecture's bit positions.
    pub open spec fn spec_from_xer(xer: u64) -> OverflowFlags {
        OverflowFlags {
            so: xer_bit(xer, XER_SO_BIT as nat),
            ov: xer_bit(xer, XER_OV_BIT as nat),
            ov32: xer_bit(xer, XER_OV32_BIT as nat),
        }
    }

    /// The word that holds exactly these flags, every other bit clear.
    pub open spec fn spec_to_xer(self) -> nat {
        xer_flag_value(self.so, XER_SO_BIT as nat) + xer_flag_value(self.ov, XER_OV_BIT as nat)
            + xer_flag_value(self.ov32, XER_OV32_BIT as nat)
    }

    /// Reads the overflow flags out of an XER word; all other bits are ignored.
    pub fn from_xer(xer: u64) -> (flags: Self)
        ensures
            flags == Self::spec_from_xer(xer),
    {
        proof {
            lemma2_to64();
            lemma_bit_test(xer, Self::XER_SO_MASK, 31);
            lemma_bit_test(xer, Self::XER_OV_MASK, 30);
            lemma_bit_test(xer, Self::XER_OV32_MASK, 19);
        }
        Self {
            so: (xer & Self::XER_SO_MASK) != 0,
            ov: (xer & Self::XER_OV_MASK) != 0,
            ov32: (xer & Self::XER_OV32_MASK) != 0,
        }
    }

    /// Packs the flags into an XER word whose other bits are clear.
    pub fn to_xer(self) -> (xer: u64)
        ensures
            xer == self.spec_to_xer(),
    {
        let so: u64 = if self.so {
            Self::XER_SO_MASK
        } else {
            0
        };
        let ov: u64 = if self.ov {
            Self::XER_OV_MASK
        } else {
            0
        };
        let ov32: u64 = if self.ov32 {
            Self::XER_OV32_MASK
        } else {
            0
        };
        proof {
            lemma2_to64();
            assert(so | ov | ov32 == so + ov + ov32) by (bit_vector)
                requires
                    so == 0 || so == 0x8000_0000,
                    ov == 0 || ov == 0x4000_0000,
                    ov32 == 0 || ov32 == 0x8_0000,
            ;
        }
        so | ov | ov32
    }

    /// The flags after an operation that overflowed, or did not, starting from
    /// a cleared summary overflow.
    pub fn from_overflow(overflow: bool) -> (flags: Self)
        ensures
            flags == (OverflowFlags { so: overflow, ov: overflow, ov32: overflow }),
    {
        Self { so: overflow, ov: overflow, ov32: overflow }
    }
}

impl Default for OverflowFlags {
    fn default() -> (flags: Self)
        ensures
            flags == (OverflowFlags { so: false, ov: false, ov32: false }),
    {
        Self { so: false, ov: false, ov32: false }
    }
}

impl CarryFlags {
    /// Mask of the carry flag in XER.
    pub const XER_CA_MASK: u64 = 0x2000_0000;

    /// Mask of the 32-bit carry flag in XER.
    pub const XER_CA32_MASK: u64 = 0x4_0000;

    /// Mask of all the carry flags in XER.
    pub const XER_MASK: u64 = 0x2004_0000;

    /// The flags that `xer` holds at the architecture's bit positions.
    pub open spec fn spec_from_xer(xer: u64) -> CarryFlags {
        CarryFlags { ca: xer_bit(xer, XER_CA_BIT as nat), ca32: xer_bit(xer, XER_CA32_BIT as nat) }
    }

    /// The word that holds exactly these flags, every other bit clear.
    pub open spec fn spec_to_xer(self) -> nat {
        xer_flag_value(self.ca, XER_CA_BIT as nat) + xer_flag_value(self.ca32, XER_CA32_BIT as nat)
    }

    /// Reads the carry flags out of an XER word; all other bits are ignored.
    pub fn from_xer(xer: u64) -> (flags: Self)
        ensures
            flags == Self::spec_from_xer(xer),
    {
        proof {
            lemma2_to64();
            lemma_bit_test(xer, Self::XER_CA_MASK, 29);
            lemma_bit_test(xer, Self::XER_CA32_MASK, 18);
        }
        Self { ca: (xer & Self::XER_CA_MASK) != 0, ca32: (xer & Self::XER_CA32_MASK) != 0 }
    }

    /// Packs the flags into an XER word whose other bits are clear.
    pub fn to_xer(self) -> (xer: u64)
        ensures
            xer == self.spec_to_xer(),
    {
        let ca: u64 = if self.ca {
            Self::XER_CA_MASK
        } else {
            0
        };
        let ca32: u64 = if self.ca32 {
            Self::XER_CA32_MASK
        } else {
            0
        };
        proof {
            lemma2_to64();
            assert(ca | ca32 == ca + ca32) by (bit_vector)
                requires
                    ca == 0 || ca == 0x2000_0000,
                    ca32 == 0 || ca32 == 0x4_0000,
            ;
        }
        ca | ca32
    }
}

impl Default for CarryFlags {
    fn default() -> (flags: Self)
        ensures
            flags == (CarryFlags { ca: false, ca32: false }),
    {
        Self { ca: false, ca32: false }
    }
}

/// One 4-bit field of the condition register.
#[derive(Copy, Clone, Debug, PartialEq, Eq, Structural)]
pub struct ConditionRegister {
    pub lt: bool,
    pub gt: bool,
    pub eq: bool,
    pub so: bool,
}

impl ConditionRegister {
    /// Number of 4-bit fields in the 32-bit condition register.
    pub const CR_FIELD_COUNT: usize = 8;

    /// The field that the 4-bit value `bits` encodes: `lt` is its bit of
    /// weight 8, `gt` of weight 4, `eq` of weight 2 and `so` of weight 1.
    pub open spec fn spec_from_4_bits(bits: nat) -> ConditionRegister {
        ConditionRegister {
            lt: (bits / 8) % 2 == 1,
            gt: (bits / 4) % 2 == 1,
            eq: (bits / 2) % 2 == 1,
            so: bits % 2 == 1,
        }
    }

    /// The 4-bit group of `cr` with index `field_index`, where index 0 is the
    /// most significant group.
    pub open spec fn spec_cr_field_bits(cr: u32, field_index: nat) -> nat
        recommends
            field_index < 8,
    {
        (cr as nat / pow2((4 * (7 - field_index)) as nat)) % 16
    }

    /// What a comparison of `value` with zero records, next to the given
    /// summary overflow.
    pub open spec fn spec_from_signed_int(value: int, so: bool) -> ConditionRegister {
        ConditionRegister { lt: value < 0, gt: value > 0, eq: value == 0, so }
    }

    /// Decodes a 4-bit value.
    pub fn from_4_bits(bits: u8) -> (field: Self)
        requires
            bits < 16,
        ensures
            field == Self::spec_from_4_bits(bits as nat),
    {
        proof {
            assert(((bits & 8) != 0) == ((bits / 8) % 2 == 1) && ((bits & 4) != 0) == ((bits / 4)
                % 2 == 1) && ((bits & 2) != 0) == ((bits / 2) % 2 == 1) && ((bits & 1) != 0) == (
            bits % 2 == 1)) by (bit_vector);
        }
        Self {
            lt: (bits & 8) != 0,
            gt: (bits & 4) != 0,
            eq: (bits & 2) != 0,
            so: (bits & 1) != 0,
        }
    }

    /// Decodes field `field_index` of the 32-bit condition register `cr`.
    pub fn from_cr_field(cr: u32, field_index: usize) -> (field: Self)
        requires
            field_index < 8,
        ensures
            field == Self::spec_from_4_bits(Self::spec_cr_field_bits(cr, field_index as nat)),
    {
        let reversed_field_index: usize = Self::CR_FIELD_COUNT - field_index - 1;
        let shift: usize = 4 * reversed_field_index;
        let shifted: u32 = cr >> shift;
        let bits: u32 = shifted & 0xF;
        proof {
            vstd::bits::lemma_u32_shr_is_div(cr, shift as u32);
            assert(shifted & 0xF == shifted % 16) by (bit_vector);
        }
        Self::from_4_bits(bits as u8)
    }

    /// Compares `value` with zero and records the outcome next to `so`.
    pub fn from_signed_int(value: i64, so: bool) -> (field: Self)
        ensures
            field == Self::spec_from_signed_int(value as int, so),
            field.lt || field.gt || field.eq,
            !(field.lt && field.gt) && !(field.lt && field.eq) && !(field.gt && field.eq),
    {
        Self { lt: value < 0, gt: value > 0, eq: value == 0, so }
    }
}

/// Each mask is the weight of the bit that the architecture gives its flag,
/// and the mask of a group is the sum of the masks of its flags.
pub proof fn lemma_masks_sit_at_their_bits()
    ensures
        OverflowFlags::XER_SO_MASK == xer_bit_mask(XER_SO_BIT as nat),
        OverflowFlags::XER_OV_MASK == xer_bit_mask(XER_OV_BIT as nat),
        OverflowFlags::XER_OV32_MASK == xer_bit_mask(XER_OV32_BIT as nat),
        CarryFlags::XER_CA_MASK == xer_bit_mask(XER_CA_BIT as nat),
        CarryFlags::XER_CA32_MASK == xer_bit_mask(XER_CA32_BIT as nat),
        OverflowFlags::XER_MASK == OverflowFlags::XER_SO_MASK + OverflowFlags::XER_OV_MASK
            + OverflowFlags::XER_OV32_MASK,
        CarryFlags::XER_MASK == CarryFlags::XER_CA_MASK + CarryFlags::XER_CA32_MASK,
{
    lemma2_to64();
}

/// Unpacking what was packed gives the overflow flags back.
pub proof fn lemma_overflow_flags_round_trip(flags: OverflowFlags)
    ensures
        flags.spec_to_xer() <= u64::MAX,
        OverflowFlags::spec_from_xer(flags.spec_to_xer() as u64) == flags,
{
    lemma2_to64();
    let so: int = if flags.so { 1 } else { 0 };
    let ov: int = if flags.ov { 1 } else { 0 };
    let ov32: int = if flags.ov32 { 1 } else { 0 };
    let xer = flags.spec_to_xer() as int;
    assert(xer == 0x8000_0000 * so + 0x4000_0000 * ov + 0x8_0000 * ov32);
    assert(xer / 0x8000_0000 == so);
    assert(xer / 0x4000_0000 == 2 * so + ov);
    assert(xer / 0x8_0000 == 4096 * so + 2048 * ov + ov32);
}

/// Unpacking what was packed gives the carry flags back.
pub proof fn lemma_carry_flags_round_trip(flags: CarryFlags)
    ensures
        flags.spec_to_xer() <= u64::MAX,
        CarryFlags::spec_from_xer(flags.spec_to_xer() as u64) == flags,
{
    lemma2_to64();
    let ca: int = if flags.ca { 1 } else { 0 };
    let ca32: int = if flags.ca32 { 1 } else { 0 };
    let xer = flags.spec_to_xer() as int;
    assert(xer == 0x2000_0000 * ca + 0x4_0000 * ca32);
    assert(xer / 0x2000_0000 == ca);
    assert(xer / 0x4_0000 == 2048 * ca + ca32);
}

/// Packing what was unpacked keeps the bits of the group and clears the rest.
pub proof fn lemma_xer_round_trip(xer: u64)
    ensures
        OverflowFlags::spec_from_xer(xer).spec_to_xer() == xer & OverflowFlags::XER_MASK,
        CarryFlags::spec_from_xer(xer).spec_to_xer() == xer & CarryFlags::XER_MASK,
{
    lemma2_to64();
    assert(xer & 0xC008_0000 == (if (xer / 0x8000_0000) % 2 == 1 {
        0x8000_0000u64
    } else {
        0
    }) + (if (xer / 0x4000_0000) % 2 == 1 {
        0x4000_0000u64
    } else {
        0
    }) + (if (xer / 0x8_0000) % 2 == 1 {
        0x8_0000u64
    } else {
        0
    })) by (bit_vector);
    assert(xer & 0x2004_0000 == (if (xer / 0x2000_0000) % 2 == 1 {
        0x2000_0000u64
    } else {
        0
    }) + (if (xer / 0x4_0000) % 2 == 1 {
        0x4_0000u64
    } else {
        0
    })) by (bit_vector);
}

/// The two flag groups occupy disjoint bits: a word that holds both gives
/// each group back untouched by the other.
pub proof fn lemma_flag_groups_are_independent(overflow: OverflowFlags, carry: CarryFlags)
    ensures
        OverflowFlags::XER_MASK & CarryFlags::XER_MASK == 0,
        overflow.spec_to_xer() + carry.spec_to_xer() <= u64::MAX,
        (overflow.spec_to_xer() as u64) | (carry.spec_to_xer() as u64) == overflow.spec_to_xer()
            + carry.spec_to_xer(),
        OverflowFlags::spec_from_xer((overflow.spec_to_xer() + carry.spec_to_xer()) as u64)
            == overflow,
        CarryFlags::spec_from_xer((overflow.spec_to_xer() + carry.spec_to_xer()) as u64) == carry,
{
    lemma2_to64();
    assert(0xC008_0000u64 & 0x2004_0000u64 == 0) by (bit_vector);
    let o = overflow.spec_to_xer() as u64;
    let c = carry.spec_to_xer() as u64;
    lemma_xer_round_trip(o);
    lemma_xer_round_trip(c);
    lemma_overflow_flags_round_trip(overflow);
    lemma_carry_flags_round_trip(carry);
    assert(o | c == o + c) by (bit_vector)
        requires
            o & 0xC008_0000 == o,
            c & 0x2004_0000 == c,
    ;
    let word = (o + c) as u64;
    assert(word & 0xC008_0000 == o && word & 0x2004_0000 == c) by (bit_vector)
        requires
            o & 0xC008_0000 == o,
            c & 0x2004_0000 == c,
            word == o + c,
    ;
    lemma_xer_round_trip(word);
    lemma_overflow_flags_round_trip(OverflowFlags::spec_from_xer(word));
    lemma_carry_flags_round_trip(CarryFlags::spec_from_xer(word));
}

/// A comparison with zero sets exactly one of `lt`, `gt` and `eq`, the one
/// that names the sign of the value.
pub proof fn lemma_from_signed_int_is_sign(value: i64, so: bool)
    ensures
        ({
            let field = ConditionRegister::spec_from_signed_int(value as int, so);
            &&& field.lt <==> value < 0
            &&& field.gt <==> value > 0
            &&& field.eq <==> value == 0
            &&& field.so == so
            &&& (field.lt && !field.gt && !field.eq) || (!field.lt && field.gt && !field.eq) || (
            !field.lt && !field.gt && field.eq)
        }),
{
}

} // verus!
