//! What the instructions mean: for each arithmetic operation, the result it
//! computes and when it overflows; for each form of an instruction, what is
//! written beside the result.
//!
//! An instruction is an arithmetic operation in one of up to four forms. The
//! operation fixes the result register and whether the operation overflowed;
//! the form fixes which of the overflow flags and the condition field are
//! written beside the result.

use crate::arith::{
    both_halves, fits_i32, fits_i64, low32, signed32, signed64, trunc_div, trunc_rem, wrap32,
    wrap64,
};
use crate::io::{
    InstructionInput, InstructionInputRegister, InstructionOutput, InstructionResult,
    MissingInstructionInput,
};
use crate::status::{ConditionRegister, OverflowFlags};
use vstd::prelude::*;

verus! {

/// The arithmetic that an instruction performs, whatever it records of it.
#[derive(Copy, Clone, Debug, PartialEq, Eq, Hash, Structural)]
pub enum Operation {
    Add,
    SubF,
    DivDE,
    DivDEU,
    DivD,
    DivDU,
    DivWE,
    DivWEU,
    DivW,
    DivWU,
    ModSD,
    ModUD,
    ModSW,
    ModUW,
    MulLW,
    MulHW,
    MulHWU,
    MulLD,
    MulHD,
    MulHDU,
    MAddHD,
    MAddHDU,
    MAddLD,
}

/// What an instruction records beside its result.
#[derive(Copy, Clone, Debug, PartialEq, Eq, Hash, Structural)]
pub enum Form {
    /// Writes the result only and reads no overflow state.
    Plain,
    /// Writes the result and the overflow flags.
    O,
    /// Writes the result and condition field 0.
    Dot,
    /// Writes the result, the overflow flags and condition field 0.
    ODot,
}

/// What an operation computes: the result register, and whether the
/// operation overflowed in 64-bit and in 32-bit mode.
#[derive(Copy, Clone, Debug, PartialEq, Eq, Structural)]
pub struct OperationResult {
    pub rt: u64,
    pub ov: bool,
    pub ov32: bool,
}

/// The outcome of an operation that cannot overflow.
pub open spec fn no_overflow(rt: u64) -> OperationResult {
    OperationResult { rt, ov: false, ov32: false }
}

/// The outcome of an operation that overflowed: the result register is zero.
pub open spec fn overflowed() -> OperationResult {
    OperationResult { rt: 0, ov: true, ov32: true }
}

/// `ra + rb`, with overflow told for the whole registers and for their low
/// words separately.
pub open spec fn add_result(ra: u64, rb: u64) -> OperationResult {
    OperationResult {
        rt: wrap64(ra + rb),
        ov: !fits_i64(signed64(ra) + signed64(rb)),
        ov32: !fits_i32(signed32(ra) + signed32(rb)),
    }
}

/// `rb - ra`, with overflow told for the whole registers and for their low
/// words separately.
pub open spec fn subf_result(ra: u64, rb: u64) -> OperationResult {
    OperationResult {
        rt: wrap64(rb - ra),
        ov: !fits_i64(signed64(rb) - signed64(ra)),
        ov32: !fits_i32(signed32(rb) - signed32(ra)),
    }
}

/// Signed division of `ra` by `rb`.
pub open spec fn divd_result(ra: u64, rb: u64) -> OperationResult {
    let dividend = signed64(ra);
    let divisor = signed64(rb);
    if divisor == 0 || (divisor == -1 && dividend == i64::MIN) {
        overflowed()
    } else {
        no_overflow(wrap64(trunc_div(dividend, divisor)))
    }
}

/// Unsigned division of `ra` by `rb`.
pub open spec fn divdu_result(ra: u64, rb: u64) -> OperationResult {
    if rb == 0 {
        overflowed()
    } else {
        no_overflow((ra / rb) as u64)
    }
}

/// Signed division of the 128-bit number whose high half is `ra` and whose
/// low half is zero by `rb`.
pub open spec fn divde_result(ra: u64, rb: u64) -> OperationResult {
    let dividend = signed64(ra) * 0x1_0000_0000_0000_0000;
    let divisor = signed64(rb);
    if divisor == 0 || (divisor == -1 && dividend == i128::MIN) || !fits_i64(
        trunc_div(dividend, divisor),
    ) {
        overflowed()
    } else {
        no_overflow(wrap64(trunc_div(dividend, divisor)))
    }
}

/// Unsigned division of the 128-bit number whose high half is `ra` and whose
/// low half is zero by `rb`.
pub open spec fn divdeu_result(ra: u64, rb: u64) -> OperationResult {
    let dividend = ra * 0x1_0000_0000_0000_0000;
    if rb == 0 || dividend / (rb as int) > u64::MAX {
        overflowed()
    } else {
        no_overflow((dividend / (rb as int)) as u64)
    }
}

/// Signed division of the low word of `ra` by the low word of `rb`.
pub open spec fn divw_result(ra: u64, rb: u64) -> OperationResult {
    let dividend = signed32(ra);
    let divisor = signed32(rb);
    if divisor == 0 || (divisor == -1 && dividend == i32::MIN) {
        overflowed()
    } else {
        no_overflow(wrap32(trunc_div(dividend, divisor)))
    }
}

/// Unsigned division of the low word of `ra` by the low word of `rb`.
pub open spec fn divwu_result(ra: u64, rb: u64) -> OperationResult {
    if low32(rb) == 0 {
        overflowed()
    } else {
        no_overflow((low32(ra) / low32(rb)) as u64)
    }
}

/// Signed division of the 64-bit number whose high half is the low word of
/// `ra` and whose low half is zero by the low word of `rb`.
pub open spec fn divwe_result(ra: u64, rb: u64) -> OperationResult {
    let dividend = signed32(ra) * 0x1_0000_0000;
    let divisor = signed32(rb);
    if divisor == 0 || (divisor == -1 && dividend == i64::MIN) || !fits_i32(
        trunc_div(dividend, divisor),
    ) {
        overflowed()
    } else {
        no_overflow(wrap32(trunc_div(dividend, divisor)))
    }
}

/// Unsigned division of the 64-bit number whose high half is the low word of
/// `ra` and whose low half is zero by the low word of `rb`.
pub open spec fn divweu_result(ra: u64, rb: u64) -> OperationResult {
    let dividend = low32(ra) * 0x1_0000_0000;
    if low32(rb) == 0 || dividend / low32(rb) > u32::MAX {
        overflowed()
    } else {
        no_overflow((dividend / low32(rb)) as u64)
    }
}

/// Remainder of the signed division of `ra` by `rb`; zero where the division
/// is not defined.
pub open spec fn modsd_result(ra: u64, rb: u64) -> OperationResult {
    let dividend = signed64(ra);
    let divisor = signed64(rb);
    if divisor == 0 || (divisor == -1 && dividend == i64::MIN) {
        no_overflow(0)
    } else {
        no_overflow(wrap64(trunc_rem(dividend, divisor)))
    }
}

/// Remainder of the unsigned division of `ra` by `rb`; zero where the
/// division is not defined.
pub open spec fn modud_result(ra: u64, rb: u64) -> OperationResult {
    if rb == 0 {
        no_overflow(0)
    } else {
        no_overflow((ra % rb) as u64)
    }
}

/// Remainder of the signed division of the low word of `ra` by the low word
/// of `rb`, its sign carried through the high word; zero where the division
/// is not defined.
pub open spec fn modsw_result(ra: u64, rb: u64) -> OperationResult {
    let dividend = signed32(ra);
    let divisor = signed32(rb);
    if divisor == 0 || (divisor == -1 && dividend == i32::MIN) {
        no_overflow(0)
    } else {
        no_overflow(wrap64(trunc_rem(dividend, divisor)))
    }
}

/// Remainder of the unsigned division of the low word of `ra` by the low word
/// of `rb`; zero where the division is not defined.
pub open spec fn moduw_result(ra: u64, rb: u64) -> OperationResult {
    if low32(rb) == 0 {
        no_overflow(0)
    } else {
        no_overflow((low32(ra) % low32(rb)) as u64)
    }
}

/// The low word of the product of the low words of `ra` and `rb` read as
/// signed numbers, its sign carried through the high word; it overflows
/// where the product is no 32-bit number, and only then does the result
/// differ from the product.
pub open spec fn mullw_result(ra: u64, rb: u64) -> OperationResult {
    let product = signed32(ra) * signed32(rb);
    OperationResult {
        rt: wrap64(signed32(wrap64(product))),
        ov: !fits_i32(product),
        ov32: !fits_i32(product),
    }
}

/// The result of the word multiply is a sign-extended word, and it is the
/// product itself where the multiply does not overflow.
pub proof fn lemma_mullw_result(ra: u64, rb: u64)
    ensures
        signed64(mullw_result(ra, rb).rt) == signed32(mullw_result(ra, rb).rt),
        fits_i32(signed64(mullw_result(ra, rb).rt)),
        !mullw_result(ra, rb).ov ==> signed64(mullw_result(ra, rb).rt) == signed32(ra) * signed32(
            rb,
        ),
{
}

/// The high word of the 64-bit product of the low words of `ra` and `rb`
/// read as signed numbers, in both halves of the result.
pub open spec fn mulhw_result(ra: u64, rb: u64) -> OperationResult {
    let product = signed32(ra) * signed32(rb);
    no_overflow(both_halves(wrap32(product / 0x1_0000_0000) as int))
}

/// The high word of the 64-bit product of the low words of `ra` and `rb`
/// read as unsigned numbers, in both halves of the result.
pub open spec fn mulhwu_result(ra: u64, rb: u64) -> OperationResult {
    let product = low32(ra) * low32(rb);
    no_overflow(both_halves(product / 0x1_0000_0000))
}

/// The low 64 bits of the product of `ra` and `rb` read as signed numbers; it
/// overflows where the product is no 64-bit number.
pub open spec fn mulld_result(ra: u64, rb: u64) -> OperationResult {
    let product = signed64(ra) * signed64(rb);
    OperationResult { rt: wrap64(product), ov: !fits_i64(product), ov32: !fits_i64(product) }
}

/// The high 64 bits of the 128-bit product of `ra` and `rb` read as signed
/// numbers.
pub open spec fn mulhd_result(ra: u64, rb: u64) -> OperationResult {
    no_overflow(wrap64((signed64(ra) * signed64(rb)) / 0x1_0000_0000_0000_0000))
}

/// The high 64 bits of the 128-bit product of `ra` and `rb` read as unsigned
/// numbers.
pub open spec fn mulhdu_result(ra: u64, rb: u64) -> OperationResult {
    no_overflow(((ra * rb) / 0x1_0000_0000_0000_0000) as u64)
}

/// The high 64 bits of `ra * rb + rc`, all read as signed numbers.
pub open spec fn maddhd_result(ra: u64, rb: u64, rc: u64) -> OperationResult {
    no_overflow(
        wrap64((signed64(ra) * signed64(rb) + signed64(rc)) / 0x1_0000_0000_0000_0000),
    )
}

/// The high 64 bits of `ra * rb + rc`, all read as unsigned numbers.
pub open spec fn maddhdu_result(ra: u64, rb: u64, rc: u64) -> OperationResult {
    no_overflow(((ra * rb + rc) / 0x1_0000_0000_0000_0000) as u64)
}

/// The low 64 bits of `ra * rb + rc`.
pub open spec fn maddld_result(ra: u64, rb: u64, rc: u64) -> OperationResult {
    no_overflow(wrap64(signed64(ra) * signed64(rb) + signed64(rc)))
}

impl Operation {
    /// The mnemonic of the operation, which its instructions' names begin
    /// with.
    pub open spec fn mnemonic(self) -> Seq<char> {
        match self {
            Operation::Add => "add"@,
            Operation::SubF => "subf"@,
            Operation::DivDE => "divde"@,
            Operation::DivDEU => "divdeu"@,
            Operation::DivD => "divd"@,
            Operation::DivDU => "divdu"@,
            Operation::DivWE => "divwe"@,
            Operation::DivWEU => "divweu"@,
            Operation::DivW => "divw"@,
            Operation::DivWU => "divwu"@,
            Operation::ModSD => "modsd"@,
            Operation::ModUD => "modud"@,
            Operation::ModSW => "modsw"@,
            Operation::ModUW => "moduw"@,
            Operation::MulLW => "mullw"@,
            Operation::MulHW => "mulhw"@,
            Operation::MulHWU => "mulhwu"@,
            Operation::MulLD => "mulld"@,
            Operation::MulHD => "mulhd"@,
            Operation::MulHDU => "mulhdu"@,
            Operation::MAddHD => "maddhd"@,
            Operation::MAddHDU => "maddhdu"@,
            Operation::MAddLD => "maddld"@,
        }
    }

    /// Whether the operation reads `rc` beside `ra` and `rb`.
    pub open spec fn reads_rc(self) -> bool {
        self is MAddHD || self is MAddHDU || self is MAddLD
    }

    /// Whether the operation can overflow, so that it comes in the forms that
    /// write the overflow flags.
    pub open spec fn can_overflow(self) -> bool {
        self is Add || self is SubF || self is DivDE || self is DivDEU || self is DivD
            || self is DivDU || self is DivWE || self is DivWEU || self is DivW || self is DivWU
            || self is MulLW || self is MulLD
    }

    /// Whether the operation comes in a form that only records the condition
    /// field, with the summary overflow passed through.
    pub open spec fn is_condition_only(self) -> bool {
        self is MulHW || self is MulHWU || self is MulHD || self is MulHDU
    }

    /// Whether an instruction exists that performs this operation in `form`.
    pub open spec fn has_form(self, form: Form) -> bool {
        form is Plain || self.can_overflow() || (self.is_condition_only() && form is Dot)
    }

    /// The registers that hold the operands, in the order in which they are
    /// read.
    pub open spec fn operands(self) -> Seq<InstructionInputRegister> {
        if self.reads_rc() {
            seq![
                InstructionInputRegister::Ra,
                InstructionInputRegister::Rb,
                InstructionInputRegister::Rc,
            ]
        } else {
            seq![InstructionInputRegister::Ra, InstructionInputRegister::Rb]
        }
    }

    /// What the operation computes from its operands.
    pub open spec fn compute(self, ra: u64, rb: u64, rc: u64) -> OperationResult {
        match self {
            Operation::Add => add_result(ra, rb),
            Operation::SubF => subf_result(ra, rb),
            Operation::DivDE => divde_result(ra, rb),
            Operation::DivDEU => divdeu_result(ra, rb),
            Operation::DivD => divd_result(ra, rb),
            Operation::DivDU => divdu_result(ra, rb),
            Operation::DivWE => divwe_result(ra, rb),
            Operation::DivWEU => divweu_result(ra, rb),
            Operation::DivW => divw_result(ra, rb),
            Operation::DivWU => divwu_result(ra, rb),
            Operation::ModSD => modsd_result(ra, rb),
            Operation::ModUD => modud_result(ra, rb),
            Operation::ModSW => modsw_result(ra, rb),
            Operation::ModUW => moduw_result(ra, rb),
            Operation::MulLW => mullw_result(ra, rb),
            Operation::MulHW => mulhw_result(ra, rb),
            Operation::MulHWU => mulhwu_result(ra, rb),
            Operation::MulLD => mulld_result(ra, rb),
            Operation::MulHD => mulhd_result(ra, rb),
            Operation::MulHDU => mulhdu_result(ra, rb),
            Operation::MAddHD => maddhd_result(ra, rb, rc),
            Operation::MAddHDU => maddhdu_result(ra, rb, rc),
            Operation::MAddLD => maddld_result(ra, rb, rc),
        }
    }
}

impl Form {
    /// What the form adds to the mnemonic of the operation: `o` where the
    /// overflow flags are written, then `.` where condition field 0 is.
    pub open spec fn suffix(self) -> Seq<char> {
        match self {
            Form::Plain => ""@,
            Form::O => "o"@,
            Form::Dot => "."@,
            Form::ODot => "o."@,
        }
    }

    /// Whether the form reads the incoming overflow flags.
    pub open spec fn reads_overflow(self) -> bool {
        !(self is Plain)
    }

    /// Whether the form writes the overflow flags.
    pub open spec fn writes_overflow(self) -> bool {
        self is O || self is ODot
    }

    /// Whether the form writes condition field 0.
    pub open spec fn writes_cr0(self) -> bool {
        self is Dot || self is ODot
    }
}

/// The registers that an instruction reads, in the order in which it reads
/// them: the operands, then the overflow flags unless the form is plain.
pub open spec fn required_registers(operation: Operation, form: Form) -> Seq<
    InstructionInputRegister,
> {
    if form.reads_overflow() {
        operation.operands().push(InstructionInputRegister::Overflow)
    } else {
        operation.operands()
    }
}

/// The value of an operand register; an absent one counts as zero, which no
/// operation that reads it ever sees.
pub open spec fn operand(register: Option<u64>) -> u64 {
    match register {
        Some(value) => value,
        None => 0,
    }
}

/// The summary overflow that an instruction starts from: the caller's, or a
/// cleared one where the inputs hold none.
pub open spec fn incoming_so(inputs: InstructionInput) -> bool {
    match inputs.overflow {
        Some(overflow) => overflow.so,
        None => false,
    }
}

/// The overflow flags after `operation` ran on `inputs`: the summary overflow
/// is sticky, the other two tell of this operation alone.
pub open spec fn overflow_after(operation: Operation, inputs: InstructionInput) -> OverflowFlags {
    let computed = operation.compute(operand(inputs.ra), operand(inputs.rb), operand(inputs.rc));
    OverflowFlags {
        so: incoming_so(inputs) || computed.ov,
        ov: computed.ov,
        ov32: computed.ov32,
    }
}

/// What the instruction that performs `operation` in `form` writes, given
/// inputs that hold every register it reads.
pub open spec fn spec_output(
    operation: Operation,
    form: Form,
    inputs: InstructionInput,
) -> InstructionOutput {
    let computed = operation.compute(operand(inputs.ra), operand(inputs.rb), operand(inputs.rc));
    let overflow = overflow_after(operation, inputs);
    InstructionOutput {
        rt: Some(computed.rt),
        overflow: if form.writes_overflow() {
            Some(overflow)
        } else {
            None
        },
        cr0: if form.writes_cr0() {
            Some(ConditionRegister::spec_from_signed_int(signed64(computed.rt), overflow.so))
        } else {
            None
        },
        ..InstructionOutput::spec_default()
    }
}

/// What running the instruction that performs `operation` in `form` gives:
/// the error that names the first register it reads and the inputs lack, or
/// else its output.
pub open spec fn spec_model(
    operation: Operation,
    form: Form,
    inputs: InstructionInput,
) -> InstructionResult {
    match inputs.first_missing(required_registers(operation, form)) {
        Some(register) => Err(MissingInstructionInput { input: register }),
        None => Ok(spec_output(operation, form, inputs)),
    }
}

/// `spec_model` with the search for the missing register written out.
pub proof fn lemma_spec_model(operation: Operation, form: Form, inputs: InstructionInput)
    ensures
        spec_model(operation, form, inputs) == (if inputs.ra is None {
            Err::<InstructionOutput, MissingInstructionInput>(
                MissingInstructionInput { input: InstructionInputRegister::Ra },
            )
        } else if inputs.rb is None {
            Err(MissingInstructionInput { input: InstructionInputRegister::Rb })
        } else if operation.reads_rc() && inputs.rc is None {
            Err(MissingInstructionInput { input: InstructionInputRegister::Rc })
        } else if form.reads_overflow() && inputs.overflow is None {
            Err(MissingInstructionInput { input: InstructionInputRegister::Overflow })
        } else {
            Ok(spec_output(operation, form, inputs))
        }),
{
    reveal_with_fuel(InstructionInput::first_missing, 5);
}

/// The inputs with the caller's overflow state replaced by a cleared one.
pub open spec fn with_fresh_overflow(inputs: InstructionInput) -> InstructionInput {
    InstructionInput {
        overflow: Some(OverflowFlags { so: false, ov: false, ov32: false }),
        ..inputs
    }
}

/// The plain variant of an instruction: what its O variant gave, without the
/// overflow flags.
pub open spec fn plain_variant(o_result: InstructionResult) -> InstructionResult {
    match o_result {
        Ok(output) => Ok(InstructionOutput { overflow: None, ..output }),
        Err(error) => Err(error),
    }
}

/// The O-dot variant of an instruction: what its O variant gave, and in
/// condition field 0 the comparison of the result with zero, next to the
/// summary overflow that the O variant left.
pub open spec fn o_dot_variant(o_result: InstructionResult) -> InstructionResult {
    match o_result {
        Ok(output) => Ok(
            InstructionOutput {
                cr0: Some(
                    ConditionRegister::spec_from_signed_int(
                        signed64(operand(output.rt)),
                        match output.overflow {
                            Some(overflow) => overflow.so,
                            None => false,
                        },
                    ),
                ),
                ..output
            },
        ),
        Err(error) => Err(error),
    }
}

/// The dot variant of an instruction: its O-dot variant without the overflow
/// flags.
pub open spec fn dot_variant(o_result: InstructionResult) -> InstructionResult {
    plain_variant(o_dot_variant(o_result))
}

/// The dot variant of an instruction whose operation cannot overflow: what
/// the plain variant gave, and in condition field 0 the comparison of the
/// result with zero, next to the caller's summary overflow.
pub open spec fn condition_only_dot_variant(
    plain_result: InstructionResult,
    inputs: InstructionInput,
) -> InstructionResult {
    match plain_result {
        Ok(output) => match inputs.overflow {
            Some(overflow) => Ok(
                InstructionOutput {
                    cr0: Some(
                        ConditionRegister::spec_from_signed_int(
                            signed64(operand(output.rt)),
                            overflow.so,
                        ),
                    ),
                    ..output
                },
            ),
            None => Err(MissingInstructionInput { input: InstructionInputRegister::Overflow }),
        },
        Err(error) => Err(error),
    }
}

/// Every form of an instruction is built from the O form of its operation:
/// the plain form runs it from a cleared overflow state and hides the flags,
/// the O-dot form adds condition field 0, the dot form then hides the flags.
pub proof fn lemma_forms_compose(operation: Operation, inputs: InstructionInput)
    ensures
        spec_model(operation, Form::Plain, inputs) == plain_variant(
            spec_model(operation, Form::O, with_fresh_overflow(inputs)),
        ),
        spec_model(operation, Form::ODot, inputs) == o_dot_variant(
            spec_model(operation, Form::O, inputs),
        ),
        spec_model(operation, Form::Dot, inputs) == dot_variant(
            spec_model(operation, Form::O, inputs),
        ),
{
    lemma_spec_model(operation, Form::Plain, inputs);
    lemma_spec_model(operation, Form::O, with_fresh_overflow(inputs));
    lemma_spec_model(operation, Form::O, inputs);
    lemma_spec_model(operation, Form::ODot, inputs);
    lemma_spec_model(operation, Form::Dot, inputs);
}

/// An operation that comes in no overflow-recording form never overflows, so
/// its dot form passes the caller's summary overflow through.
pub proof fn lemma_condition_only_form(operation: Operation, inputs: InstructionInput)
    requires
        !operation.can_overflow(),
    ensures
        !operation.compute(operand(inputs.ra), operand(inputs.rb), operand(inputs.rc)).ov,
        spec_model(operation, Form::Dot, inputs) == condition_only_dot_variant(
            spec_model(operation, Form::Plain, inputs),
            inputs,
        ),
{
    lemma_spec_model(operation, Form::Plain, inputs);
    lemma_spec_model(operation, Form::Dot, inputs);
}

/// The four forms of an operation agree on the result register, and the
/// condition field of the dot forms is the comparison of that result with
/// zero next to the summary overflow that the O form leaves.
pub proof fn lemma_forms_agree(operation: Operation, inputs: InstructionInput)
    requires
        spec_model(operation, Form::O, inputs) is Ok,
    ensures
        ({
            let o = spec_model(operation, Form::O, inputs);
            let plain = spec_model(operation, Form::Plain, inputs);
            let dot = spec_model(operation, Form::Dot, inputs);
            let o_dot = spec_model(operation, Form::ODot, inputs);
            &&& plain is Ok && dot is Ok && o_dot is Ok
            &&& o.unwrap().rt is Some && o.unwrap().overflow is Some
            &&& plain.unwrap().rt == o.unwrap().rt
            &&& dot.unwrap().rt == o.unwrap().rt
            &&& o_dot.unwrap().rt == o.unwrap().rt
            &&& dot.unwrap().cr0 == Some(
                ConditionRegister::spec_from_signed_int(
                    signed64(o.unwrap().rt.unwrap()),
                    o.unwrap().overflow.unwrap().so,
                ),
            )
            &&& o_dot.unwrap().cr0 == dot.unwrap().cr0
            &&& o_dot.unwrap().overflow == o.unwrap().overflow
            &&& plain.unwrap().overflow is None && dot.unwrap().overflow is None
            &&& plain.unwrap().cr0 is None && o.unwrap().cr0 is None
        }),
{
    lemma_spec_model(operation, Form::Plain, inputs);
    lemma_spec_model(operation, Form::O, inputs);
    lemma_spec_model(operation, Form::ODot, inputs);
    lemma_spec_model(operation, Form::Dot, inputs);
}

/// The summary overflow is sticky: an instruction that is handed a set
/// summary overflow leaves it set in the overflow flags and in the condition
/// field it writes, whether or not its own operation overflowed.
pub proof fn lemma_summary_overflow_is_sticky(
    operation: Operation,
    form: Form,
    inputs: InstructionInput,
)
    requires
        form.reads_overflow(),
        inputs.overflow is Some,
        inputs.overflow.unwrap().so,
        spec_model(operation, form, inputs) is Ok,
    ensures
        form.writes_overflow() ==> spec_model(operation, form, inputs).unwrap().overflow is Some
            && spec_model(operation, form, inputs).unwrap().overflow.unwrap().so,
        form.writes_cr0() ==> spec_model(operation, form, inputs).unwrap().cr0 is Some
            && spec_model(operation, form, inputs).unwrap().cr0.unwrap().so,
{
    lemma_spec_model(operation, form, inputs);
}

/// An instruction fails if and only if the inputs lack one of the registers
/// it reads, and then the error names such a register.
pub proof fn lemma_missing_input_iff_required_register_absent(
    operation: Operation,
    form: Form,
    inputs: InstructionInput,
)
    ensures
        spec_model(operation, form, inputs) is Err <==> exists|i: int|
            0 <= i < required_registers(operation, form).len() && !inputs.has(
                #[trigger] required_registers(operation, form)[i],
            ),
        spec_model(operation, form, inputs) matches Err(error) ==> required_registers(
            operation,
            form,
        ).contains(error.input) && !inputs.has(error.input),
{
    inputs.lemma_first_missing(required_registers(operation, form));
}

/// The high half of a product does not depend on the order of the factors.
pub proof fn lemma_multiply_high_commutes(a: u64, b: u64, inputs: InstructionInput)
    ensures
        mulhd_result(a, b) == mulhd_result(b, a),
        mulhdu_result(a, b) == mulhdu_result(b, a),
        mulhw_result(a, b) == mulhw_result(b, a),
        mulhwu_result(a, b) == mulhwu_result(b, a),
        spec_model(
            Operation::MulHD,
            Form::Plain,
            InstructionInput { ra: Some(a), rb: Some(b), ..inputs },
        ) == spec_model(
            Operation::MulHD,
            Form::Plain,
            InstructionInput { ra: Some(b), rb: Some(a), ..inputs },
        ),
        spec_model(
            Operation::MulHDU,
            Form::Plain,
            InstructionInput { ra: Some(a), rb: Some(b), ..inputs },
        ) == spec_model(
            Operation::MulHDU,
            Form::Plain,
            InstructionInput { ra: Some(b), rb: Some(a), ..inputs },
        ),
{
    vstd::arithmetic::mul::lemma_mul_is_commutative(signed64(a), signed64(b));
    vstd::arithmetic::mul::lemma_mul_is_commutative(a as int, b as int);
    vstd::arithmetic::mul::lemma_mul_is_commutative(signed32(a), signed32(b));
    vstd::arithmetic::mul::lemma_mul_is_commutative(low32(a), low32(b));
    lemma_spec_model(
        Operation::MulHD,
        Form::Plain,
        InstructionInput { ra: Some(a), rb: Some(b), ..inputs },
    );
    lemma_spec_model(
        Operation::MulHD,
        Form::Plain,
        InstructionInput { ra: Some(b), rb: Some(a), ..inputs },
    );
    lemma_spec_model(
        Operation::MulHDU,
        Form::Plain,
        InstructionInput { ra: Some(a), rb: Some(b), ..inputs },
    );
    lemma_spec_model(
        Operation::MulHDU,
        Form::Plain,
        InstructionInput { ra: Some(b), rb: Some(a), ..inputs },
    );
}

} // verus!
