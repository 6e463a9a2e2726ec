//! The instruction models: one function for each instruction, from the
//! inputs it is handed to what it writes.

use crate::arith::{
    fits_i32, fits_i64, from_signed32_sign_extended, from_signed32_zero_extended, from_signed64,
    i128_fits_i64, i64_fits_i32, lemma_trunc_div_rem, low32_of_i64, low64_of_i128,
    replicate_low32, shl32_i64, shl32_u64, shl64_i128, shl64_u128, shr32_i64, shr32_u64,
    shr64_i128, shr64_u128, to_low32, to_signed32, to_signed64,
};
use crate::io::{
    InstructionInput, InstructionInputRegister, InstructionOutput, InstructionResult,
    MissingInstructionInput,
};
use crate::semantics::{
    condition_only_dot_variant, dot_variant, lemma_condition_only_form, lemma_forms_compose,
    lemma_spec_model, o_dot_variant, plain_variant, spec_model, with_fresh_overflow, Form,
    Operation,
};
use crate::status::{ConditionRegister, OverflowFlags};
use vstd::prelude::*;

verus! {

/// Carries the incoming summary overflow into the flags of an operation:
/// the summary overflow of the result is set where the operation set it or
/// the inputs hold it set, and the other two flags are those of the
/// operation alone. Fails where the inputs hold no overflow flags.
pub fn propagate_so(overflow: OverflowFlags, inputs: InstructionInput) -> (flags: Result<
    OverflowFlags,
    MissingInstructionInput,
>)
    ensures
        flags == (match inputs.overflow {
            Some(incoming) => Ok::<OverflowFlags, MissingInstructionInput>(
                OverflowFlags { so: overflow.so || incoming.so, ..overflow },
            ),
            None => Err(MissingInstructionInput { input: InstructionInputRegister::Overflow }),
        }),
        inputs.overflow is Some ==> flags is Ok && flags.unwrap().ov == overflow.ov
            && flags.unwrap().ov32 == overflow.ov32 && flags.unwrap().so == (overflow.so
            || inputs.overflow.unwrap().so),
        inputs.overflow is Some && inputs.overflow.unwrap().so ==> flags is Ok
            && flags.unwrap().so,
{
    let mut overflow = overflow;
    if inputs.try_get_overflow()?.so {
        overflow.so = true;
    }
    Ok(overflow)
}

/// `addo`: adds `ra` and `rb`; writes the result and the overflow flags.
pub fn addo(inputs: InstructionInput) -> (result: InstructionResult)
    ensures
        result == spec_model(Operation::Add, Form::O, inputs),
{
    proof {
        lemma_spec_model(Operation::Add, Form::O, inputs);
    }
    let ra = inputs.try_get_ra()?;
    let rb = inputs.try_get_rb()?;
    let a = to_signed64(ra);
    let b = to_signed64(rb);
    let result = from_signed64(a.wrapping_add(b));
    let ov = a.checked_add(b).is_none();
    let ov32 = to_signed32(ra).checked_add(to_signed32(rb)).is_none();
    Ok(
        InstructionOutput {
            rt: Some(result),
            overflow: Some(propagate_so(OverflowFlags { so: ov, ov, ov32 }, inputs)?),
            ..InstructionOutput::default()
        },
    )
}

/// `subfo`: subtracts `ra` from `rb`; writes the result and the overflow
/// flags.
pub fn subfo(inputs: InstructionInput) -> (result: InstructionResult)
    ensures
        result == spec_model(Operation::SubF, Form::O, inputs),
{
    proof {
        lemma_spec_model(Operation::SubF, Form::O, inputs);
    }
    let ra = inputs.try_get_ra()?;
    let rb = inputs.try_get_rb()?;
    let a = to_signed64(ra);
    let b = to_signed64(rb);
    let result = from_signed64(b.wrapping_sub(a));
    let ov = b.checked_sub(a).is_none();
    let ov32 = to_signed32(rb).checked_sub(to_signed32(ra)).is_none();
    Ok(
        InstructionOutput {
            rt: Some(result),
            overflow: Some(propagate_so(OverflowFlags { so: ov, ov, ov32 }, inputs)?),
            ..InstructionOutput::default()
        },
    )
}

/// `divdeo`: divides `ra`, moved into the high half of a 128-bit number, by
/// `rb`, both signed; writes the result and the overflow flags.
pub fn divdeo(inputs: InstructionInput) -> (result: InstructionResult)
    ensures
        result == spec_model(Operation::DivDE, Form::O, inputs),
{
    proof {
        lemma_spec_model(Operation::DivDE, Form::O, inputs);
    }
    let dividend = shl64_i128(to_signed64(inputs.try_get_ra()?));
    let divisor = to_signed64(inputs.try_get_rb()?) as i128;
    let overflow;
    let result;
    if divisor == 0 || (divisor == -1 && dividend == i128::MIN) {
        result = 0;
        overflow = true;
    } else {
        proof {
            lemma_trunc_div_rem(dividend as int, divisor as int);
        }
        let result128 = dividend / divisor;
        if !i128_fits_i64(result128) {
            result = 0;
            overflow = true;
        } else {
            result = low64_of_i128(result128);
            overflow = false;
        }
    }
    Ok(
        InstructionOutput {
            rt: Some(result),
            overflow: Some(propagate_so(OverflowFlags::from_overflow(overflow), inputs)?),
            ..InstructionOutput::default()
        },
    )
}

/// `divdeuo`: divides `ra`, moved into the high half of a 128-bit number, by
/// `rb`, both unsigned; writes the result and the overflow flags.
pub fn divdeuo(inputs: InstructionInput) -> (result: InstructionResult)
    ensures
        result == spec_model(Operation::DivDEU, Form::O, inputs),
{
    proof {
        lemma_spec_model(Operation::DivDEU, Form::O, inputs);
    }
    let dividend = shl64_u128(inputs.try_get_ra()?);
    let divisor = inputs.try_get_rb()? as u128;
    let overflow;
    let result;
    if divisor == 0 {
        result = 0;
        overflow = true;
    } else {
        let resultu128 = dividend / divisor;
        if resultu128 > u64::MAX as u128 {
            result = 0;
            overflow = true;
        } else {
            result = resultu128 as u64;
            overflow = false;
        }
    }
    Ok(
        InstructionOutput {
            rt: Some(result),
            overflow: Some(propagate_so(OverflowFlags::from_overflow(overflow), inputs)?),
            ..InstructionOutput::default()
        },
    )
}

/// `divdo`: divides `ra` by `rb`, both signed; writes the result and the
/// overflow flags.
pub fn divdo(inputs: InstructionInput) -> (result: InstructionResult)
    ensures
        result == spec_model(Operation::DivD, Form::O, inputs),
{
    proof {
        lemma_spec_model(Operation::DivD, Form::O, inputs);
    }
    let dividend = to_signed64(inputs.try_get_ra()?);
    let divisor = to_signed64(inputs.try_get_rb()?);
    let overflow;
    let result;
    if divisor == 0 || (divisor == -1 && dividend == i64::MIN) {
        result = 0;
        overflow = true;
    } else {
        proof {
            lemma_trunc_div_rem(dividend as int, divisor as int);
        }
        result = from_signed64(dividend / divisor);
        overflow = false;
    }
    Ok(
        InstructionOutput {
            rt: Some(result),
            overflow: Some(propagate_so(OverflowFlags::from_overflow(overflow), inputs)?),
            ..InstructionOutput::default()
        },
    )
}

/// `divduo`: divides `ra` by `rb`, both unsigned; writes the result and the
/// overflow flags.
pub fn divduo(inputs: InstructionInput) -> (result: InstructionResult)
    ensures
        result == spec_model(Operation::DivDU, Form::O, inputs),
{
    proof {
        lemma_spec_model(Operation::DivDU, Form::O, inputs);
    }
    let dividend: u64 = inputs.try_get_ra()?;
    let divisor: u64 = inputs.try_get_rb()?;
    let overflow;
    let result;
    if divisor == 0 {
        result = 0;
        overflow = true;
    } else {
        result = dividend / divisor;
        overflow = false;
    }
    Ok(
        InstructionOutput {
            rt: Some(result),
            overflow: Some(propagate_so(OverflowFlags::from_overflow(overflow), inputs)?),
            ..InstructionOutput::default()
        },
    )
}

/// `divweo`: divides the low word of `ra`, moved into the high half of a
/// 64-bit number, by the low word of `rb`, both signed; writes the result and
/// the overflow flags.
pub fn divweo(inputs: InstructionInput) -> (result: InstructionResult)
    ensures
        result == spec_model(Operation::DivWE, Form::O, inputs),
{
    proof {
        lemma_spec_model(Operation::DivWE, Form::O, inputs);
    }
    let dividend = shl32_i64(to_signed32(inputs.try_get_ra()?));
    let divisor = to_signed32(inputs.try_get_rb()?) as i64;
    let overflow;
    let result;
    if divisor == 0 || (divisor == -1 && dividend == i64::MIN) {
        result = 0;
        overflow = true;
    } else {
        proof {
            lemma_trunc_div_rem(dividend as int, divisor as int);
        }
        let result64 = dividend / divisor;
        if !i64_fits_i32(result64) {
            result = 0;
            overflow = true;
        } else {
            result = low32_of_i64(result64);
            overflow = false;
        }
    }
    Ok(
        InstructionOutput {
            rt: Some(result),
            overflow: Some(propagate_so(OverflowFlags::from_overflow(overflow), inputs)?),
            ..InstructionOutput::default()
        },
    )
}

/// `divweuo`: divides the low word of `ra`, moved into the high half of a
/// 64-bit number, by the low word of `rb`, both unsigned; writes the result
/// and the overflow flags.
pub fn divweuo(inputs: InstructionInput) -> (result: InstructionResult)
    ensures
        result == spec_model(Operation::DivWEU, Form::O, inputs),
{
    proof {
        lemma_spec_model(Operation::DivWEU, Form::O, inputs);
    }
    let dividend = shl32_u64(to_low32(inputs.try_get_ra()?));
    let divisor = to_low32(inputs.try_get_rb()?) as u64;
    let overflow;
    let result;
    if divisor == 0 {
        result = 0;
        overflow = true;
    } else {
        let resultu64 = dividend / divisor;
        if resultu64 > u32::MAX as u64 {
            result = 0;
            overflow = true;
        } else {
            result = resultu64;
            overflow = false;
        }
    }
    Ok(
        InstructionOutput {
            rt: Some(result),
            overflow: Some(propagate_so(OverflowFlags::from_overflow(overflow), inputs)?),
            ..InstructionOutput::default()
        },
    )
}

/// `divwo`: divides the low word of `ra` by the low word of `rb`, both
/// signed; writes the result and the overflow flags.
pub fn divwo(inputs: InstructionInput) -> (result: InstructionResult)
    ensures
        result == spec_model(Operation::DivW, Form::O, inputs),
{
    proof {
        lemma_spec_model(Operation::DivW, Form::O, inputs);
    }
    let dividend = to_signed32(inputs.try_get_ra()?);
    let divisor = to_signed32(inputs.try_get_rb()?);
    let overflow;
    let result;
    if divisor == 0 || (divisor == -1 && dividend == i32::MIN) {
        result = 0;
        overflow = true;
    } else {
        proof {
            lemma_trunc_div_rem(dividend as int, divisor as int);
        }
        result = from_signed32_zero_extended(dividend / divisor);
        overflow = false;
    }
    Ok(
        InstructionOutput {
            rt: Some(result),
            overflow: Some(propagate_so(OverflowFlags::from_overflow(overflow), inputs)?),
            ..InstructionOutput::default()
        },
    )
}

/// `divwuo`: divides the low word of `ra` by the low word of `rb`, both
/// unsigned; writes the result and the overflow flags.
pub fn divwuo(inputs: InstructionInput) -> (result: InstructionResult)
    ensures
        result == spec_model(Operation::DivWU, Form::O, inputs),
{
    proof {
        lemma_spec_model(Operation::DivWU, Form::O, inputs);
    }
    let dividend = to_low32(inputs.try_get_ra()?);
    let divisor = to_low32(inputs.try_get_rb()?);
    let overflow;
    let result;
    if divisor == 0 {
        result = 0;
        overflow = true;
    } else {
        result = (dividend / divisor) as u64;
        overflow = false;
    }
    Ok(
        InstructionOutput {
            rt: Some(result),
            overflow: Some(propagate_so(OverflowFlags::from_overflow(overflow), inputs)?),
            ..InstructionOutput::default()
        },
    )
}

/// `modsd`: takes the remainder of `ra` by `rb`, both signed; writes the
/// result only.
pub fn modsd(inputs: InstructionInput) -> (result: InstructionResult)
    ensures
        result == spec_model(Operation::ModSD, Form::Plain, inputs),
{
    proof {
        lemma_spec_model(Operation::ModSD, Form::Plain, inputs);
    }
    let dividend = to_signed64(inputs.try_get_ra()?);
    let divisor = to_signed64(inputs.try_get_rb()?);
    let result;
    if divisor == 0 || (divisor == -1 && dividend == i64::MIN) {
        result = 0;
    } else {
        proof {
            lemma_trunc_div_rem(dividend as int, divisor as int);
        }
        result = from_signed64(dividend % divisor);
    }
    Ok(InstructionOutput { rt: Some(result), ..InstructionOutput::default() })
}

/// `modud`: takes the remainder of `ra` by `rb`, both unsigned; writes the
/// result only.
pub fn modud(inputs: InstructionInput) -> (result: InstructionResult)
    ensures
        result == spec_model(Operation::ModUD, Form::Plain, inputs),
{
    proof {
        lemma_spec_model(Operation::ModUD, Form::Plain, inputs);
    }
    let dividend: u64 = inputs.try_get_ra()?;
    let divisor: u64 = inputs.try_get_rb()?;
    let result;
    if divisor == 0 {
        result = 0;
    } else {
        result = dividend % divisor;
    }
    Ok(InstructionOutput { rt: Some(result), ..InstructionOutput::default() })
}

/// `modsw`: takes the remainder of the low word of `ra` by the low word of
/// `rb`, both signed; writes the result only.
pub fn modsw(inputs: InstructionInput) -> (result: InstructionResult)
    ensures
        result == spec_model(Operation::ModSW, Form::Plain, inputs),
{
    proof {
        lemma_spec_model(Operation::ModSW, Form::Plain, inputs);
    }
    let dividend = to_signed32(inputs.try_get_ra()?);
    let divisor = to_signed32(inputs.try_get_rb()?);
    let result;
    if divisor == 0 || (divisor == -1 && dividend == i32::MIN) {
        result = 0;
    } else {
        proof {
            lemma_trunc_div_rem(dividend as int, divisor as int);
        }
        result = from_signed32_sign_extended(dividend % divisor);
    }
    Ok(InstructionOutput { rt: Some(result), ..InstructionOutput::default() })
}

/// `moduw`: takes the remainder of the low word of `ra` by the low word of
/// `rb`, both unsigned; writes the result only.
pub fn moduw(inputs: InstructionInput) -> (result: InstructionResult)
    ensures
        result == spec_model(Operation::ModUW, Form::Plain, inputs),
{
    proof {
        lemma_spec_model(Operation::ModUW, Form::Plain, inputs);
    }
    let dividend = to_low32(inputs.try_get_ra()?);
    let divisor = to_low32(inputs.try_get_rb()?);
    let result;
    if divisor == 0 {
        result = 0;
    } else {
        result = (dividend % divisor) as u64;
    }
    Ok(InstructionOutput { rt: Some(result), ..InstructionOutput::default() })
}

/// The product of two 32-bit two's-complement numbers is a 64-bit one, and
/// the product of two unsigned words is an unsigned 64-bit number.
proof fn lemma_word_product_bounds(a: int, b: int)
    ensures
        fits_i32(a) && fits_i32(b) ==> -0x4000_0000_0000_0000 < a * b <= 0x4000_0000_0000_0000,
        0 <= a < 0x1_0000_0000 && 0 <= b < 0x1_0000_0000 ==> 0 <= a * b
            <= 0xffff_fffe_0000_0001,
{
    assert(fits_i32(a) && fits_i32(b) ==> -0x4000_0000_0000_0000 < a * b <= 0x4000_0000_0000_0000)
        by (nonlinear_arith);
    assert(0 <= a < 0x1_0000_0000 && 0 <= b < 0x1_0000_0000 ==> 0 <= a * b
        <= 0xffff_fffe_0000_0001) by (nonlinear_arith);
}

/// The product of two 64-bit two's-complement numbers is a 128-bit one with
/// room for a further 64-bit number, and so for unsigned numbers.
proof fn lemma_doubleword_product_bounds(a: int, b: int)
    ensures
        fits_i64(a) && fits_i64(b) ==> -0x4000_0000_0000_0000_0000_0000_0000_0000 < a * b
            <= 0x4000_0000_0000_0000_0000_0000_0000_0000,
        0 <= a <= u64::MAX && 0 <= b <= u64::MAX ==> 0 <= a * b
            <= 0xffff_ffff_ffff_fffe_0000_0000_0000_0001,
{
    assert(fits_i64(a) && fits_i64(b) ==> -0x4000_0000_0000_0000_0000_0000_0000_0000 < a * b
        <= 0x4000_0000_0000_0000_0000_0000_0000_0000) by (nonlinear_arith);
    assert(0 <= a <= u64::MAX && 0 <= b <= u64::MAX ==> 0 <= a * b
        <= 0xffff_ffff_ffff_fffe_0000_0000_0000_0001) by (nonlinear_arith);
}

/// `mullwo`: multiplies the low words of `ra` and `rb`, both signed, and
/// keeps the low word of the product, sign-extended; writes the result and
/// the overflow flags.
pub fn mullwo(inputs: InstructionInput) -> (result: InstructionResult)
    ensures
        result == spec_model(Operation::MulLW, Form::O, inputs),
{
    proof {
        lemma_spec_model(Operation::MulLW, Form::O, inputs);
    }
    let ra = to_signed32(inputs.try_get_ra()?) as i64;
    let rb = to_signed32(inputs.try_get_rb()?) as i64;
    proof {
        lemma_word_product_bounds(ra as int, rb as int);
    }
    let product = ra * rb;
    let result = from_signed32_sign_extended(to_signed32(from_signed64(product)));
    let overflow = !i64_fits_i32(product);
    Ok(
        InstructionOutput {
            rt: Some(result),
            overflow: Some(propagate_so(OverflowFlags::from_overflow(overflow), inputs)?),
            ..InstructionOutput::default()
        },
    )
}

/// `mulhw`: takes the high word of the product of the low words of `ra` and
/// `rb`, both signed; writes the result only.
pub fn mulhw(inputs: InstructionInput) -> (result: InstructionResult)
    ensures
        result == spec_model(Operation::MulHW, Form::Plain, inputs),
{
    proof {
        lemma_spec_model(Operation::MulHW, Form::Plain, inputs);
    }
    let ra = to_signed32(inputs.try_get_ra()?) as i64;
    let rb = to_signed32(inputs.try_get_rb()?) as i64;
    proof {
        lemma_word_product_bounds(ra as int, rb as int);
    }
    let result = shr32_i64(ra * rb);
    let result = replicate_low32(low32_of_i64(result));
    Ok(InstructionOutput { rt: Some(result), ..InstructionOutput::default() })
}

/// `mulhwu`: takes the high word of the product of the low words of `ra` and
/// `rb`, both unsigned; writes the result only.
pub fn mulhwu(inputs: InstructionInput) -> (result: InstructionResult)
    ensures
        result == spec_model(Operation::MulHWU, Form::Plain, inputs),
{
    proof {
        lemma_spec_model(Operation::MulHWU, Form::Plain, inputs);
    }
    let ra = to_low32(inputs.try_get_ra()?) as u64;
    let rb = to_low32(inputs.try_get_rb()?) as u64;
    proof {
        lemma_word_product_bounds(ra as int, rb as int);
    }
    let result = shr32_u64(ra * rb);
    let result = replicate_low32(result);
    Ok(InstructionOutput { rt: Some(result), ..InstructionOutput::default() })
}

/// `mulldo`: multiplies `ra` and `rb`, both signed; writes the result and the
/// overflow flags.
pub fn mulldo(inputs: InstructionInput) -> (result: InstructionResult)
    ensures
        result == spec_model(Operation::MulLD, Form::O, inputs),
{
    proof {
        lemma_spec_model(Operation::MulLD, Form::O, inputs);
    }
    let ra = to_signed64(inputs.try_get_ra()?);
    let rb = to_signed64(inputs.try_get_rb()?);
    let result = from_signed64(ra.wrapping_mul(rb));
    let overflow = ra.checked_mul(rb).is_none();
    Ok(
        InstructionOutput {
            rt: Some(result),
            overflow: Some(propagate_so(OverflowFlags::from_overflow(overflow), inputs)?),
            ..InstructionOutput::default()
        },
    )
}

/// `mulhd`: takes the high half of the 128-bit product of `ra` and `rb`, both
/// signed; writes the result only.
pub fn mulhd(inputs: InstructionInput) -> (result: InstructionResult)
    ensures
        result == spec_model(Operation::MulHD, Form::Plain, inputs),
{
    proof {
        lemma_spec_model(Operation::MulHD, Form::Plain, inputs);
    }
    let ra = to_signed64(inputs.try_get_ra()?) as i128;
    let rb = to_signed64(inputs.try_get_rb()?) as i128;
    proof {
        lemma_doubleword_product_bounds(ra as int, rb as int);
    }
    let result = low64_of_i128(shr64_i128(ra * rb));
    Ok(InstructionOutput { rt: Some(result), ..InstructionOutput::default() })
}

/// `mulhdu`: takes the high half of the 128-bit product of `ra` and `rb`,
/// both unsigned; writes the result only.
pub fn mulhdu(inputs: InstructionInput) -> (result: InstructionResult)
    ensures
        result == spec_model(Operation::MulHDU, Form::Plain, inputs),
{
    proof {
        lemma_spec_model(Operation::MulHDU, Form::Plain, inputs);
    }
    let ra = inputs.try_get_ra()? as u128;
    let rb = inputs.try_get_rb()? as u128;
    proof {
        lemma_doubleword_product_bounds(ra as int, rb as int);
    }
    let result = shr64_u128(ra * rb);
    Ok(InstructionOutput { rt: Some(result), ..InstructionOutput::default() })
}

/// `maddhd`: takes the high half of the 128-bit sum of `rc` and the product
/// of `ra` and `rb`, all signed; writes the result only.
pub fn maddhd(inputs: InstructionInput) -> (result: InstructionResult)
    ensures
        result == spec_model(Operation::MAddHD, Form::Plain, inputs),
{
    proof {
        lemma_spec_model(Operation::MAddHD, Form::Plain, inputs);
    }
    let ra = to_signed64(inputs.try_get_ra()?) as i128;
    let rb = to_signed64(inputs.try_get_rb()?) as i128;
    let rc = to_signed64(inputs.try_get_rc()?) as i128;
    proof {
        lemma_doubleword_product_bounds(ra as int, rb as int);
    }
    let result = low64_of_i128(shr64_i128(ra * rb + rc));
    Ok(InstructionOutput { rt: Some(result), ..InstructionOutput::default() })
}

/// `maddhdu`: takes the high half of the 128-bit sum of `rc` and the product
/// of `ra` and `rb`, all unsigned; writes the result only.
pub fn maddhdu(inputs: InstructionInput) -> (result: InstructionResult)
    ensures
        result == spec_model(Operation::MAddHDU, Form::Plain, inputs),
{
    proof {
        lemma_spec_model(Operation::MAddHDU, Form::Plain, inputs);
    }
    let ra = inputs.try_get_ra()? as u128;
    let rb = inputs.try_get_rb()? as u128;
    let rc = inputs.try_get_rc()? as u128;
    proof {
        lemma_doubleword_product_bounds(ra as int, rb as int);
    }
    let result = shr64_u128(ra * rb + rc);
    Ok(InstructionOutput { rt: Some(result), ..InstructionOutput::default() })
}

/// `maddld`: takes the low half of the 128-bit sum of `rc` and the product of
/// `ra` and `rb`; writes the result only.
pub fn maddld(inputs: InstructionInput) -> (result: InstructionResult)
    ensures
        result == spec_model(Operation::MAddLD, Form::Plain, inputs),
{
    proof {
        lemma_spec_model(Operation::MAddLD, Form::Plain, inputs);
    }
    let ra = to_signed64(inputs.try_get_ra()?);
    let rb = to_signed64(inputs.try_get_rb()?);
    let rc = to_signed64(inputs.try_get_rc()?);
    let result = from_signed64(ra.wrapping_mul(rb).wrapping_add(rc));
    Ok(InstructionOutput { rt: Some(result), ..InstructionOutput::default() })
}

/// Replaces the caller's overflow state by a cleared one, for the
/// instructions that neither read nor write it.
fn seed_fresh_overflow(inputs: InstructionInput) -> (seeded: InstructionInput)
    ensures
        seeded == with_fresh_overflow(inputs),
{
    let mut seeded = inputs;
    seeded.overflow = Some(OverflowFlags::default());
    seeded
}

/// Builds the plain variant of an instruction from the result of its O
/// variant: the overflow flags are hidden.
fn hide_overflow(o_result: InstructionResult) -> (result: InstructionResult)
    ensures
        result == plain_variant(o_result),
{
    let mut retval = o_result?;
    retval.overflow = None;
    Ok(retval)
}

/// Builds the O-dot variant of an instruction from the result of its O
/// variant: condition field 0 compares the result with zero.
fn record_cr0(o_result: InstructionResult) -> (result: InstructionResult)
    requires
        o_result matches Ok(output) ==> output.rt is Some && output.overflow is Some,
    ensures
        result == o_dot_variant(o_result),
{
    let mut retval = o_result?;
    let so = match retval.overflow {
        Some(overflow) => overflow.so,
        None => false,
    };
    let value = match retval.rt {
        Some(rt) => rt,
        None => 0,
    };
    retval.cr0 = Some(ConditionRegister::from_signed_int(to_signed64(value), so));
    Ok(retval)
}

/// Builds the dot variant of an instruction from the result of its O
/// variant: condition field 0 is recorded, the overflow flags are hidden.
fn record_cr0_hide_overflow(o_result: InstructionResult) -> (result: InstructionResult)
    requires
        o_result matches Ok(output) ==> output.rt is Some && output.overflow is Some,
    ensures
        result == dot_variant(o_result),
{
    hide_overflow(record_cr0(o_result))
}

/// Builds the dot variant of an instruction whose operation cannot overflow
/// from the result of its plain variant: condition field 0 compares the
/// result with zero and takes the summary overflow from the inputs.
fn record_cr0_pass_so(plain_result: InstructionResult, inputs: InstructionInput) -> (result:
    InstructionResult)
    requires
        plain_result matches Ok(output) ==> output.rt is Some,
    ensures
        result == condition_only_dot_variant(plain_result, inputs),
{
    let mut retval = plain_result?;
    let value = match retval.rt {
        Some(rt) => rt,
        None => 0,
    };
    let so = inputs.try_get_overflow()?.so;
    retval.cr0 = Some(ConditionRegister::from_signed_int(to_signed64(value), so));
    Ok(retval)
}

/// `add`: adds `ra` and `rb`; writes the result only.
pub fn add(inputs: InstructionInput) -> (result: InstructionResult)
    ensures
        result == spec_model(Operation::Add, Form::Plain, inputs),
{
    proof {
        lemma_forms_compose(Operation::Add, inputs);
    }
    hide_overflow(addo(seed_fresh_overflow(inputs)))
}

/// `add.`: adds `ra` and `rb`; writes the result and condition field 0.
pub fn add_(inputs: InstructionInput) -> (result: InstructionResult)
    ensures
        result == spec_model(Operation::Add, Form::Dot, inputs),
{
    proof {
        lemma_forms_compose(Operation::Add, inputs);
        lemma_spec_model(Operation::Add, Form::O, inputs);
    }
    record_cr0_hide_overflow(addo(inputs))
}

/// `addo.`: adds `ra` and `rb`; writes the result, the overflow flags and
/// condition field 0.
pub fn addo_(inputs: InstructionInput) -> (result: InstructionResult)
    ensures
        result == spec_model(Operation::Add, Form::ODot, inputs),
{
    proof {
        lemma_forms_compose(Operation::Add, inputs);
        lemma_spec_model(Operation::Add, Form::O, inputs);
    }
    record_cr0(addo(inputs))
}

/// `subf`: subtracts `ra` from `rb`; writes the result only.
pub fn subf(inputs: InstructionInput) -> (result: InstructionResult)
    ensures
        result == spec_model(Operation::SubF, Form::Plain, inputs),
{
    proof {
        lemma_forms_compose(Operation::SubF, inputs);
    }
    hide_overflow(subfo(seed_fresh_overflow(inputs)))
}

/// `subf.`: subtracts `ra` from `rb`; writes the result and condition field
/// 0.
pub fn subf_(inputs: InstructionInput) -> (result: InstructionResult)
    ensures
        result == spec_model(Operation::SubF, Form::Dot, inputs),
{
    proof {
        lemma_forms_compose(Operation::SubF, inputs);
        lemma_spec_model(Operation::SubF, Form::O, inputs);
    }
    record_cr0_hide_overflow(subfo(inputs))
}

/// `subfo.`: subtracts `ra` from `rb`; writes the result, the overflow flags
/// and condition field 0.
pub fn subfo_(inputs: InstructionInput) -> (result: InstructionResult)
    ensures
        result == spec_model(Operation::SubF, Form::ODot, inputs),
{
    proof {
        lemma_forms_compose(Operation::SubF, inputs);
        lemma_spec_model(Operation::SubF, Form::O, inputs);
    }
    record_cr0(subfo(inputs))
}

/// `divde`: divides `ra`, moved into the high half of a 128-bit number, by
/// `rb`, both signed; writes the result only.
pub fn divde(inputs: InstructionInput) -> (result: InstructionResult)
    ensures
        result == spec_model(Operation::DivDE, Form::Plain, inputs),
{
    proof {
        lemma_forms_compose(Operation::DivDE, inputs);
    }
    hide_overflow(divdeo(seed_fresh_overflow(inputs)))
}

/// `divde.`: divides `ra`, moved into the high half of a 128-bit number, by
/// `rb`, both signed; writes the result and condition field 0.
pub fn divde_(inputs: InstructionInput) -> (result: InstructionResult)
    ensures
        result == spec_model(Operation::DivDE, Form::Dot, inputs),
{
    proof {
        lemma_forms_compose(Operation::DivDE, inputs);
        lemma_spec_model(Operation::DivDE, Form::O, inputs);
    }
    record_cr0_hide_overflow(divdeo(inputs))
}

/// `divdeo.`: divides `ra`, moved into the high half of a 128-bit number, by
/// `rb`, both signed; writes the result, the overflow flags and condition
/// field 0.
pub fn divdeo_(inputs: InstructionInput) -> (result: InstructionResult)
    ensures
        result == spec_model(Operation::DivDE, Form::ODot, inputs),
{
    proof {
        lemma_forms_compose(Operation::DivDE, inputs);
        lemma_spec_model(Operation::DivDE, Form::O, inputs);
    }
    record_cr0(divdeo(inputs))
}

/// `divdeu`: divides `ra`, moved into the high half of a 128-bit number, by
/// `rb`, both unsigned; writes the result only.
pub fn divdeu(inputs: InstructionInput) -> (result: InstructionResult)
    ensures
        result == spec_model(Operation::DivDEU, Form::Plain, inputs),
{
    proof {
        lemma_forms_compose(Operation::DivDEU, inputs);
    }
    hide_overflow(divdeuo(seed_fresh_overflow(inputs)))
}

/// `divdeu.`: divides `ra`, moved into the high half of a 128-bit number, by
/// `rb`, both unsigned; writes the result and condition field 0.
pub fn divdeu_(inputs: InstructionInput) -> (result: InstructionResult)
    ensures
        result == spec_model(Operation::DivDEU, Form::Dot, inputs),
{
    proof {
        lemma_forms_compose(Operation::DivDEU, inputs);
        lemma_spec_model(Operation::DivDEU, Form::O, inputs);
    }
    record_cr0_hide_overflow(divdeuo(inputs))
}

/// `divdeuo.`: divides `ra`, moved into the high half of a 128-bit number, by
/// `rb`, both unsigned; writes the result, the overflow flags and condition
/// field 0.
pub fn divdeuo_(inputs: InstructionInput) -> (result: InstructionResult)
    ensures
        result == spec_model(Operation::DivDEU, Form::ODot, inputs),
{
    proof {
        lemma_forms_compose(Operation::DivDEU, inputs);
        lemma_spec_model(Operation::DivDEU, Form::O, inputs);
    }
    record_cr0(divdeuo(inputs))
}

/// `divd`: divides `ra` by `rb`, both signed; writes the result only.
pub fn divd(inputs: InstructionInput) -> (result: InstructionResult)
    ensures
        result == spec_model(Operation::DivD, Form::Plain, inputs),
{
    proof {
        lemma_forms_compose(Operation::DivD, inputs);
    }
    hide_overflow(divdo(seed_fresh_overflow(inputs)))
}

/// `divd.`: divides `ra` by `rb`, both signed; writes the result and
/// condition field 0.
pub fn divd_(inputs: InstructionInput) -> (result: InstructionResult)
    ensures
        result == spec_model(Operation::DivD, Form::Dot, inputs),
{
    proof {
        lemma_forms_compose(Operation::DivD, inputs);
        lemma_spec_model(Operation::DivD, Form::O, inputs);
    }
    record_cr0_hide_overflow(divdo(inputs))
}

/// `divdo.`: divides `ra` by `rb`, both signed; writes the result, the
/// overflow flags and condition field 0.
pub fn divdo_(inputs: InstructionInput) -> (result: InstructionResult)
    ensures
        result == spec_model(Operation::DivD, Form::ODot, inputs),
{
    proof {
        lemma_forms_compose(Operation::DivD, inputs);
        lemma_spec_model(Operation::DivD, Form::O, inputs);
    }
    record_cr0(divdo(inputs))
}

/// `divdu`: divides `ra` by `rb`, both unsigned; writes the result only.
pub fn divdu(inputs: InstructionInput) -> (result: InstructionResult)
    ensures
        result == spec_model(Operation::DivDU, Form::Plain, inputs),
{
    proof {
        lemma_forms_compose(Operation::DivDU, inputs);
    }
    hide_overflow(divduo(seed_fresh_overflow(inputs)))
}

/// `divdu.`: divides `ra` by `rb`, both unsigned; writes the result and
/// condition field 0.
pub fn divdu_(inputs: InstructionInput) -> (result: InstructionResult)
    ensures
        result == spec_model(Operation::DivDU, Form::Dot, inputs),
{
    proof {
        lemma_forms_compose(Operation::DivDU, inputs);
        lemma_spec_model(Operation::DivDU, Form::O, inputs);
    }
    record_cr0_hide_overflow(divduo(inputs))
}

/// `divduo.`: divides `ra` by `rb`, both unsigned; writes the result, the
/// overflow flags and condition field 0.
pub fn divduo_(inputs: InstructionInput) -> (result: InstructionResult)
    ensures
        result == spec_model(Operation::DivDU, Form::ODot, inputs),
{
    proof {
        lemma_forms_compose(Operation::DivDU, inputs);
        lemma_spec_model(Operation::DivDU, Form::O, inputs);
    }
    record_cr0(divduo(inputs))
}

/// `divwe`: divides the low word of `ra`, moved into the high half of a
/// 64-bit number, by the low word of `rb`, both signed; writes the result
/// only.
pub fn divwe(inputs: InstructionInput) -> (result: InstructionResult)
    ensures
        result == spec_model(Operation::DivWE, Form::Plain, inputs),
{
    proof {
        lemma_forms_compose(Operation::DivWE, inputs);
    }
    hide_overflow(divweo(seed_fresh_overflow(inputs)))
}

/// `divwe.`: divides the low word of `ra`, moved into the high half of a
/// 64-bit number, by the low word of `rb`, both signed; writes the result and
/// condition field 0.
pub fn divwe_(inputs: InstructionInput) -> (result: InstructionResult)
    ensures
        result == spec_model(Operation::DivWE, Form::Dot, inputs),
{
    proof {
        lemma_forms_compose(Operation::DivWE, inputs);
        lemma_spec_model(Operation::DivWE, Form::O, inputs);
    }
    record_cr0_hide_overflow(divweo(inputs))
}

/// `divweo.`: divides the low word of `ra`, moved into the high half of a
/// 64-bit number, by the low word of `rb`, both signed; writes the result,
/// the overflow flags and condition field 0.
pub fn divweo_(inputs: InstructionInput) -> (result: InstructionResult)
    ensures
        result == spec_model(Operation::DivWE, Form::ODot, inputs),
{
    proof {
        lemma_forms_compose(Operation::DivWE, inputs);
        lemma_spec_model(Operation::DivWE, Form::O, inputs);
    }
    record_cr0(divweo(inputs))
}

/// `divweu`: divides the low word of `ra`, moved into the high half of a
/// 64-bit number, by the low word of `rb`, both unsigned; writes the result
/// only.
pub fn divweu(inputs: InstructionInput) -> (result: InstructionResult)
    ensures
        result == spec_model(Operation::DivWEU, Form::Plain, inputs),
{
    proof {
        lemma_forms_compose(Operation::DivWEU, inputs);
    }
    hide_overflow(divweuo(seed_fresh_overflow(inputs)))
}

/// `divweu.`: divides the low word of `ra`, moved into the high half of a
/// 64-bit number, by the low word of `rb`, both unsigned; writes the result
/// and condition field 0.
pub fn divweu_(inputs: InstructionInput) -> (result: InstructionResult)
    ensures
        result == spec_model(Operation::DivWEU, Form::Dot, inputs),
{
    proof {
        lemma_forms_compose(Operation::DivWEU, inputs);
        lemma_spec_model(Operation::DivWEU, Form::O, inputs);
    }
    record_cr0_hide_overflow(divweuo(inputs))
}

/// `divweuo.`: divides the low word of `ra`, moved into the high half of a
/// 64-bit number, by the low word of `rb`, both unsigned; writes the result,
/// the overflow flags and condition field 0.
pub fn divweuo_(inputs: InstructionInput) -> (result: InstructionResult)
    ensures
        result == spec_model(Operation::DivWEU, Form::ODot, inputs),
{
    proof {
        lemma_forms_compose(Operation::DivWEU, inputs);
        lemma_spec_model(Operation::DivWEU, Form::O, inputs);
    }
    record_cr0(divweuo(inputs))
}

/// `divw`: divides the low word of `ra` by the low word of `rb`, both signed;
/// writes the result only.
pub fn divw(inputs: InstructionInput) -> (result: InstructionResult)
    ensures
        result == spec_model(Operation::DivW, Form::Plain, inputs),
{
    proof {
        lemma_forms_compose(Operation::DivW, inputs);
    }
    hide_overflow(divwo(seed_fresh_overflow(inputs)))
}

/// `divw.`: divides the low word of `ra` by the low word of `rb`, both
/// signed; writes the result and condition field 0.
pub fn divw_(inputs: InstructionInput) -> (result: InstructionResult)
    ensures
        result == spec_model(Operation::DivW, Form::Dot, inputs),
{
    proof {
        lemma_forms_compose(Operation::DivW, inputs);
        lemma_spec_model(Operation::DivW, Form::O, inputs);
    }
    record_cr0_hide_overflow(divwo(inputs))
}

/// `divwo.`: divides the low word of `ra` by the low word of `rb`, both
/// signed; writes the result, the overflow flags and condition field 0.
pub fn divwo_(inputs: InstructionInput) -> (result: InstructionResult)
    ensures
        result == spec_model(Operation::DivW, Form::ODot, inputs),
{
    proof {
        lemma_forms_compose(Operation::DivW, inputs);
        lemma_spec_model(Operation::DivW, Form::O, inputs);
    }
    record_cr0(divwo(inputs))
}

/// `divwu`: divides the low word of `ra` by the low word of `rb`, both
/// unsigned; writes the result only.
pub fn divwu(inputs: InstructionInput) -> (result: InstructionResult)
    ensures
        result == spec_model(Operation::DivWU, Form::Plain, inputs),
{
    proof {
        lemma_forms_compose(Operation::DivWU, inputs);
    }
    hide_overflow(divwuo(seed_fresh_overflow(inputs)))
}

/// `divwu.`: divides the low word of `ra` by the low word of `rb`, both
/// unsigned; writes the result and condition field 0.
pub fn divwu_(inputs: InstructionInput) -> (result: InstructionResult)
    ensures
        result == spec_model(Operation::DivWU, Form::Dot, inputs),
{
    proof {
        lemma_forms_compose(Operation::DivWU, inputs);
        lemma_spec_model(Operation::DivWU, Form::O, inputs);
    }
    record_cr0_hide_overflow(divwuo(inputs))
}

/// `divwuo.`: divides the low word of `ra` by the low word of `rb`, both
/// unsigned; writes the result, the overflow flags and condition field 0.
pub fn divwuo_(inputs: InstructionInput) -> (result: InstructionResult)
    ensures
        result == spec_model(Operation::DivWU, Form::ODot, inputs),
{
    proof {
        lemma_forms_compose(Operation::DivWU, inputs);
        lemma_spec_model(Operation::DivWU, Form::O, inputs);
    }
    record_cr0(divwuo(inputs))
}

/// `mullw`: multiplies the low words of `ra` and `rb`, both signed, and keeps
/// the low word of the product, sign-extended; writes the result only.
pub fn mullw(inputs: InstructionInput) -> (result: InstructionResult)
    ensures
        result == spec_model(Operation::MulLW, Form::Plain, inputs),
{
    proof {
        lemma_forms_compose(Operation::MulLW, inputs);
    }
    hide_overflow(mullwo(seed_fresh_overflow(inputs)))
}

/// `mullw.`: multiplies the low words of `ra` and `rb`, both signed, and
/// keeps the low word of the product, sign-extended; writes the result and
/// condition field 0.
pub fn mullw_(inputs: InstructionInput) -> (result: InstructionResult)
    ensures
        result == spec_model(Operation::MulLW, Form::Dot, inputs),
{
    proof {
        lemma_forms_compose(Operation::MulLW, inputs);
        lemma_spec_model(Operation::MulLW, Form::O, inputs);
    }
    record_cr0_hide_overflow(mullwo(inputs))
}

/// `mullwo.`: multiplies the low words of `ra` and `rb`, both signed, and
/// keeps the low word of the product, sign-extended; writes the result, the
/// overflow flags and condition field 0.
pub fn mullwo_(inputs: InstructionInput) -> (result: InstructionResult)
    ensures
        result == spec_model(Operation::MulLW, Form::ODot, inputs),
{
    proof {
        lemma_forms_compose(Operation::MulLW, inputs);
        lemma_spec_model(Operation::MulLW, Form::O, inputs);
    }
    record_cr0(mullwo(inputs))
}

/// `mulld`: multiplies `ra` and `rb`, both signed; writes the result only.
pub fn mulld(inputs: InstructionInput) -> (result: InstructionResult)
    ensures
        result == spec_model(Operation::MulLD, Form::Plain, inputs),
{
    proof {
        lemma_forms_compose(Operation::MulLD, inputs);
    }
    hide_overflow(mulldo(seed_fresh_overflow(inputs)))
}

/// `mulld.`: multiplies `ra` and `rb`, both signed; writes the result and
/// condition field 0.
pub fn mulld_(inputs: InstructionInput) -> (result: InstructionResult)
    ensures
        result == spec_model(Operation::MulLD, Form::Dot, inputs),
{
    proof {
        lemma_forms_compose(Operation::MulLD, inputs);
        lemma_spec_model(Operation::MulLD, Form::O, inputs);
    }
    record_cr0_hide_overflow(mulldo(inputs))
}

/// `mulldo.`: multiplies `ra` and `rb`, both signed; writes the result, the
/// overflow flags and condition field 0.
pub fn mulldo_(inputs: InstructionInput) -> (result: InstructionResult)
    ensures
        result == spec_model(Operation::MulLD, Form::ODot, inputs),
{
    proof {
        lemma_forms_compose(Operation::MulLD, inputs);
        lemma_spec_model(Operation::MulLD, Form::O, inputs);
    }
    record_cr0(mulldo(inputs))
}

/// `mulhw.`: takes the high word of the product of the low words of `ra` and
/// `rb`, both signed; writes the result and condition field 0.
pub fn mulhw_(inputs: InstructionInput) -> (result: InstructionResult)
    ensures
        result == spec_model(Operation::MulHW, Form::Dot, inputs),
{
    proof {
        lemma_condition_only_form(Operation::MulHW, inputs);
        lemma_spec_model(Operation::MulHW, Form::Plain, inputs);
    }
    record_cr0_pass_so(mulhw(inputs), inputs)
}

/// `mulhwu.`: takes the high word of the product of the low words of `ra` and
/// `rb`, both unsigned; writes the result and condition field 0.
pub fn mulhwu_(inputs: InstructionInput) -> (result: InstructionResult)
    ensures
        result == spec_model(Operation::MulHWU, Form::Dot, inputs),
{
    proof {
        lemma_condition_only_form(Operation::MulHWU, inputs);
        lemma_spec_model(Operation::MulHWU, Form::Plain, inputs);
    }
    record_cr0_pass_so(mulhwu(inputs), inputs)
}

/// `mulhd.`: takes the high half of the 128-bit product of `ra` and `rb`,
/// both signed; writes the result and condition field 0.
pub fn mulhd_(inputs: InstructionInput) -> (result: InstructionResult)
    ensures
        result == spec_model(Operation::MulHD, Form::Dot, inputs),
{
    proof {
        lemma_condition_only_form(Operation::MulHD, inputs);
        lemma_spec_model(Operation::MulHD, Form::Plain, inputs);
    }
    record_cr0_pass_so(mulhd(inputs), inputs)
}

/// `mulhdu.`: takes the high half of the 128-bit product of `ra` and `rb`,
/// both unsigned; writes the result and condition field 0.
pub fn mulhdu_(inputs: InstructionInput) -> (result: InstructionResult)
    ensures
        result == spec_model(Operation::MulHDU, Form::Dot, inputs),
{
    proof {
        lemma_condition_only_form(Operation::MulHDU, inputs);
        lemma_spec_model(Operation::MulHDU, Form::Plain, inputs);
    }
    record_cr0_pass_so(mulhdu(inputs), inputs)
}

} // verus!
