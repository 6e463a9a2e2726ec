//! How register contents are read as numbers, and the conversions between the
//! machine's representations that the instruction models are built from.

use vstd::prelude::*;

verus! {

/// The value of a 64-bit register read as a two's-complement number.
pub open spec fn signed64(x: u64) -> int {
    if x < 0x8000_0000_0000_0000 {
        x as int
    } else {
        x as int - 0x1_0000_0000_0000_0000
    }
}

/// The low word of a 64-bit register read as an unsigned number.
pub open spec fn low32(x: u64) -> int {
    x as int % 0x1_0000_0000
}

/// The low word of a 64-bit register read as a two's-complement number.
pub open spec fn signed32(x: u64) -> int {
    if low32(x) < 0x8000_0000 {
        low32(x)
    } else {
        low32(x) - 0x1_0000_0000
    }
}

/// The 64-bit register content that stands for `v`: `v` modulo `2^64`.
pub open spec fn wrap64(v: int) -> u64 {
    (v % 0x1_0000_0000_0000_0000) as u64
}

/// The register content whose low word stands for `v` and whose high word is
/// zero: `v` modulo `2^32`.
pub open spec fn wrap32(v: int) -> u64 {
    (v % 0x1_0000_0000) as u64
}

/// Whether `v` is a 64-bit two's-complement number.
pub open spec fn fits_i64(v: int) -> bool {
    -0x8000_0000_0000_0000 <= v <= 0x7fff_ffff_ffff_ffff
}

/// Whether `v` is a 32-bit two's-complement number.
pub open spec fn fits_i32(v: int) -> bool {
    -0x8000_0000 <= v <= 0x7fff_ffff
}

/// The magnitude of `v`.
pub open spec fn abs(v: int) -> int {
    if v < 0 {
        -v
    } else {
        v
    }
}

/// The quotient of `a` by `b` rounded towards zero.
pub open spec fn trunc_div(a: int, b: int) -> int
    recommends
        b != 0,
{
    if (a < 0) == (b < 0) {
        abs(a) / abs(b)
    } else {
        -(abs(a) / abs(b))
    }
}

/// The remainder that goes with `trunc_div`; it has the sign of `a`.
pub open spec fn trunc_rem(a: int, b: int) -> int
    recommends
        b != 0,
{
    if a < 0 {
        -(abs(a) % abs(b))
    } else {
        abs(a) % abs(b)
    }
}

/// Division by a negative number, as the verifier defines it for integers, is
/// division by its magnitude with the quotient negated.
proof fn lemma_div_by_negative(x: int, d: int)
    requires
        x >= 0,
        d < 0,
    ensures
        x / d == -(x / (-d)),
        x % d == x % (-d),
{
    let q = x / (-d);
    let r = x % (-d);
    assert(x == (-d) * q + r && 0 <= r < -d) by (nonlinear_arith)
        requires
            q == x / (-d),
            r == x % (-d),
            d < 0,
    ;
    assert(x / d == -q && x % d == r) by (nonlinear_arith)
        requires
            x == (-d) * q + r,
            0 <= r < -d,
            d < 0,
    ;
}

/// `trunc_div` and `trunc_rem` are the quotient and remainder of the machine's
/// signed division, and together they give the dividend back.
pub proof fn lemma_trunc_div_rem(a: int, b: int)
    requires
        b != 0,
    ensures
        trunc_div(a, b) == (if a >= 0 {
            a / b
        } else {
            -((-a) / b)
        }),
        trunc_rem(a, b) == (if a >= 0 {
            a % b
        } else {
            -((-a) % b)
        }),
        a == b * trunc_div(a, b) + trunc_rem(a, b),
        abs(trunc_rem(a, b)) < abs(b),
        abs(trunc_div(a, b)) <= abs(a),
        abs(b) >= 2 && a != 0 ==> abs(trunc_div(a, b)) < abs(a),
{
    if b < 0 {
        lemma_div_by_negative(abs(a), b);
    }
    let q = abs(a) / abs(b);
    let r = abs(a) % abs(b);
    assert(abs(a) == abs(b) * q + r && 0 <= r < abs(b) && 0 <= q <= abs(a) && (abs(b) >= 2 && abs(
        a,
    ) > 0 ==> q < abs(a))) by (nonlinear_arith)
        requires
            q == abs(a) / abs(b),
            r == abs(a) % abs(b),
            abs(b) > 0,
            abs(a) >= 0,
    ;
    assert(a == b * trunc_div(a, b) + trunc_rem(a, b)) by (nonlinear_arith)
        requires
            abs(a) == abs(b) * q + r,
            trunc_div(a, b) == (if (a < 0) == (b < 0) {
                q
            } else {
                -q
            }),
            trunc_rem(a, b) == (if a < 0 {
                -r
            } else {
                r
            }),
            abs(a) == (if a < 0 {
                -a
            } else {
                a
            }),
            abs(b) == (if b < 0 {
                -b
            } else {
                b
            }),
    ;
}

/// Reading a register as a signed number and writing the number back gives
/// the register, and so the other way round for every 64-bit number.
pub proof fn lemma_signed64_round_trip(x: u64, v: int)
    ensures
        fits_i64(signed64(x)),
        wrap64(signed64(x)) == x,
        wrap64(x as int) == x,
        fits_i64(v) ==> signed64(wrap64(v)) == v,
{
}

/// The low word of a register read as a signed number is a 32-bit number,
/// and it stands for the same low word as the unsigned reading.
pub proof fn lemma_signed32_round_trip(x: u64, v: int)
    ensures
        fits_i32(signed32(x)),
        0 <= low32(x) < 0x1_0000_0000,
        wrap32(signed32(x)) == low32(x),
        wrap32(low32(x)) == low32(x),
        fits_i32(v) ==> signed32(wrap32(v)) == v,
        fits_i32(v) ==> signed32(wrap64(v)) == v,
{
}

/// Reads a register as a 64-bit two's-complement number.
pub(crate) fn to_signed64(x: u64) -> (v: i64)
    ensures
        v == signed64(x),
{
    assert(x as i64 as int == (if x < 0x8000_0000_0000_0000u64 {
        x as int
    } else {
        x as int - 0x1_0000_0000_0000_0000
    })) by (bit_vector);
    x as i64
}

/// Reads the low word of a register as a 32-bit two's-complement number.
pub(crate) fn to_signed32(x: u64) -> (v: i32)
    ensures
        v == signed32(x),
{
    assert(x as i32 as int == (if (x % 0x1_0000_0000) < 0x8000_0000 {
        (x % 0x1_0000_0000) as int
    } else {
        (x % 0x1_0000_0000) as int - 0x1_0000_0000
    })) by (bit_vector);
    x as i32
}

/// Reads the low word of a register as an unsigned number.
pub(crate) fn to_low32(x: u64) -> (v: u32)
    ensures
        v == low32(x),
{
    assert(x as u32 == x % 0x1_0000_0000) by (bit_vector);
    x as u32
}

/// The register content that stands for a 64-bit two's-complement number.
pub(crate) fn from_signed64(v: i64) -> (x: u64)
    ensures
        x == wrap64(v as int),
{
    assert(v as u64 as int == (if v >= 0 {
        v as int
    } else {
        v as int + 0x1_0000_0000_0000_0000
    })) by (bit_vector);
    v as u64
}

/// The register content that stands for a 32-bit two's-complement number,
/// the sign carried through the high word.
pub(crate) fn from_signed32_sign_extended(v: i32) -> (x: u64)
    ensures
        x == wrap64(v as int),
{
    assert(v as u64 as int == (if v >= 0 {
        v as int
    } else {
        v as int + 0x1_0000_0000_0000_0000
    })) by (bit_vector);
    v as u64
}

/// The register content whose low word stands for a 32-bit two's-complement
/// number and whose high word is zero.
pub(crate) fn from_signed32_zero_extended(v: i32) -> (x: u64)
    ensures
        x == wrap32(v as int),
{
    assert(v as u32 as int == (if v >= 0 {
        v as int
    } else {
        v as int + 0x1_0000_0000
    })) by (bit_vector);
    v as u32 as u64
}

/// The low 64 bits of a 128-bit two's-complement number.
pub(crate) fn low64_of_i128(v: i128) -> (x: u64)
    ensures
        x == wrap64(v as int),
{
    assert(v as u64 == (v as u128) % 0x1_0000_0000_0000_0000 && (v as u128) as int == (if v >= 0 {
        v as int
    } else {
        v as int + 0x1_0000_0000_0000_0000_0000_0000_0000_0000
    })) by (bit_vector);
    v as u64
}

/// The low 32 bits of a 64-bit two's-complement number, the high word zero.
pub(crate) fn low32_of_i64(v: i64) -> (x: u64)
    ensures
        x == wrap32(v as int),
{
    assert(v as u32 == (v as u64) % 0x1_0000_0000 && (v as u64) as int == (if v >= 0 {
        v as int
    } else {
        v as int + 0x1_0000_0000_0000_0000
    })) by (bit_vector);
    v as u32 as u64
}

/// Whether a 128-bit number survives truncation to 64 bits.
pub(crate) fn i128_fits_i64(v: i128) -> (fits: bool)
    ensures
        fits == fits_i64(v as int),
{
    assert((v as i64 as i128 == v) == (-0x8000_0000_0000_0000 <= v <= 0x7fff_ffff_ffff_ffff))
        by (bit_vector);
    v as i64 as i128 == v
}

/// Whether a 64-bit number survives truncation to 32 bits.
pub(crate) fn i64_fits_i32(v: i64) -> (fits: bool)
    ensures
        fits == fits_i32(v as int),
{
    assert((v as i32 as i64 == v) == (-0x8000_0000 <= v <= 0x7fff_ffff)) by (bit_vector);
    v as i32 as i64 == v
}

/// A 64-bit number moved into the high half of a 128-bit one.
pub(crate) fn shl64_i128(v: i64) -> (wide: i128)
    ensures
        wide == v * 0x1_0000_0000_0000_0000,
{
    let wide: i128 = v as i128;
    assert(wide << 64 == wide * 0x1_0000_0000_0000_0000) by (bit_vector)
        requires
            -0x8000_0000_0000_0000 <= wide <= 0x7fff_ffff_ffff_ffff,
    ;
    wide << 64
}

/// A 64-bit unsigned number moved into the high half of a 128-bit one.
pub(crate) fn shl64_u128(v: u64) -> (wide: u128)
    ensures
        wide == v * 0x1_0000_0000_0000_0000,
{
    let wide: u128 = v as u128;
    assert(wide << 64 == wide * 0x1_0000_0000_0000_0000) by (bit_vector)
        requires
            wide <= 0xffff_ffff_ffff_ffff,
    ;
    wide << 64
}

/// A 32-bit number moved into the high half of a 64-bit one.
pub(crate) fn shl32_i64(v: i32) -> (wide: i64)
    ensures
        wide == v * 0x1_0000_0000,
{
    let wide: i64 = v as i64;
    assert(wide << 32 == wide * 0x1_0000_0000) by (bit_vector)
        requires
            -0x8000_0000 <= wide <= 0x7fff_ffff,
    ;
    wide << 32
}

/// A 32-bit unsigned number moved into the high half of a 64-bit one.
pub(crate) fn shl32_u64(v: u32) -> (wide: u64)
    ensures
        wide == v * 0x1_0000_0000,
{
    let wide: u64 = v as u64;
    assert(wide << 32 == wide * 0x1_0000_0000) by (bit_vector)
        requires
            wide <= 0xffff_ffff,
    ;
    wide << 32
}

/// The high half of a 128-bit two's-complement number.
pub(crate) fn shr64_i128(v: i128) -> (high: i128)
    ensures
        high == v as int / 0x1_0000_0000_0000_0000,
{
    assert(v >> 64 == v / 0x1_0000_0000_0000_0000) by (bit_vector);
    v >> 64
}

/// The high half of a 128-bit unsigned number.
pub(crate) fn shr64_u128(v: u128) -> (high: u64)
    ensures
        high == v as int / 0x1_0000_0000_0000_0000,
{
    assert(v >> 64 == v / 0x1_0000_0000_0000_0000 && (v >> 64) <= 0xffff_ffff_ffff_ffff)
        by (bit_vector);
    (v >> 64) as u64
}

/// The high half of a 64-bit two's-complement number.
pub(crate) fn shr32_i64(v: i64) -> (high: i64)
    ensures
        high == v as int / 0x1_0000_0000,
{
    assert(v >> 32 == v / 0x1_0000_0000) by (bit_vector);
    v >> 32
}

/// The high half of a 64-bit unsigned number.
pub(crate) fn shr32_u64(v: u64) -> (high: u64)
    ensures
        high == v as int / 0x1_0000_0000,
{
    assert(v >> 32 == v / 0x1_0000_0000) by (bit_vector);
    v >> 32
}

/// The register that holds `word` in both of its halves.
pub open spec fn both_halves(word: int) -> u64
    recommends
        0 <= word < 0x1_0000_0000,
{
    (word * 0x1_0000_0001) as u64
}

/// A register that holds one word in both halves compares with zero alike
/// whether it is read as a word or as a doubleword.
pub proof fn lemma_both_halves_sign(word: int)
    requires
        0 <= word < 0x1_0000_0000,
    ensures
        low32(both_halves(word)) == word,
        signed64(both_halves(word)) < 0 <==> signed32(both_halves(word)) < 0,
        signed64(both_halves(word)) == 0 <==> signed32(both_halves(word)) == 0,
        signed64(both_halves(word)) > 0 <==> signed32(both_halves(word)) > 0,
{
}

/// Copies the low word of a register, whose high word is zero, into the high
/// word.
pub(crate) fn replicate_low32(x: u64) -> (both: u64)
    requires
        x < 0x1_0000_0000,
    ensures
        both == both_halves(x as int),
{
    assert((x | (x << 32)) as int == x * 0x1_0000_0001) by (bit_vector)
        requires
            x < 0x1_0000_0000,
    ;
    x | (x << 32)
}

} // verus!
