//! The differential harness: for each instruction, every combination of
//! representative values of the registers it reads, run through the model and
//! set beside what a reference implementation gave, where there is one.

use crate::instr::{lemma_registry_matches_model, Instr};
use crate::io::{
    InstructionInput, InstructionInputRegister, InstructionOutput, InstructionResult,
    MissingInstructionInput,
};
use crate::status::{CarryFlags, OverflowFlags};
use vstd::prelude::*;
use vstd::slice::slice_subrange;
use vstd::string::StringExecFns;

verus! {

/// The values that the harness gives to `ra`, `rb` and `rc`: those next to
/// zero and to the ends of the signed and unsigned 64-bit ranges, and a
/// pattern whose low word takes the values next to the ends of the 32-bit
/// ranges.
pub const TEST_VALUES: [u64; 15] = [
    0x0,
    0x1,
    0x2,
    0xFFFF_FFFF_FFFF_FFFF,
    0xFFFF_FFFF_FFFF_FFFE,
    0x7FFF_FFFF_FFFF_FFFE,
    0x7FFF_FFFF_FFFF_FFFF,
    0x8000_0000_0000_0000,
    0x8000_0000_0000_0001,
    0x1234_5678_0000_0000,
    0x1234_5678_7FFF_FFFE,
    0x1234_5678_7FFF_FFFF,
    0x1234_5678_8000_0000,
    0x1234_5678_8000_0001,
    0x1234_5678_FFFF_FFFF,
];

/// The values that the harness gives to each flag.
pub const BOOL_VALUES: [bool; 2] = [false, true];

/// The number of values that the harness gives to `register`.
pub open spec fn domain_len(register: InstructionInputRegister) -> nat {
    match register {
        InstructionInputRegister::Ra => 15,
        InstructionInputRegister::Rb => 15,
        InstructionInputRegister::Rc => 15,
        InstructionInputRegister::Carry => 4,
        InstructionInputRegister::Overflow => 8,
    }
}

/// The inputs with `register` set to the value number `choice` of its
/// domain. The flags of a group count as the digits of `choice` in base two,
/// the first flag being the most significant.
pub open spec fn bind(
    inputs: InstructionInput,
    register: InstructionInputRegister,
    choice: int,
) -> InstructionInput
    recommends
        0 <= choice < domain_len(register),
{
    match register {
        InstructionInputRegister::Ra => InstructionInput {
            ra: Some(TEST_VALUES@[choice]),
            ..inputs
        },
        InstructionInputRegister::Rb => InstructionInput {
            rb: Some(TEST_VALUES@[choice]),
            ..inputs
        },
        InstructionInputRegister::Rc => InstructionInput {
            rc: Some(TEST_VALUES@[choice]),
            ..inputs
        },
        InstructionInputRegister::Carry => InstructionInput {
            carry: Some(
                CarryFlags { ca: BOOL_VALUES@[choice / 2], ca32: BOOL_VALUES@[choice % 2] },
            ),
            ..inputs
        },
        InstructionInputRegister::Overflow => InstructionInput {
            overflow: Some(
                OverflowFlags {
                    so: BOOL_VALUES@[choice / 4],
                    ov: BOOL_VALUES@[(choice / 2) % 2],
                    ov32: BOOL_VALUES@[choice % 2],
                },
            ),
            ..inputs
        },
    }
}

/// Every way to set `registers` in `inputs` to values of their domains. The
/// first register varies slowest; with no register left there is the one
/// way that sets none.
pub open spec fn enumerate(
    inputs: InstructionInput,
    registers: Seq<InstructionInputRegister>,
) -> Seq<InstructionInput>
    decreases registers.len(), domain_len(registers[0]) + 1,
{
    if registers.len() == 0 {
        seq![inputs]
    } else {
        enumerate_choices(inputs, registers, domain_len(registers[0]))
    }
}

/// The part of `enumerate` in which the first register takes the first
/// `count` values of its domain.
pub open spec fn enumerate_choices(
    inputs: InstructionInput,
    registers: Seq<InstructionInputRegister>,
    count: nat,
) -> Seq<InstructionInput>
    decreases registers.len(), count,
{
    if registers.len() == 0 || count == 0 {
        Seq::empty()
    } else {
        enumerate_choices(inputs, registers, (count - 1) as nat) + enumerate(
            bind(inputs, registers[0], count - 1),
            registers.drop_first(),
        )
    }
}

/// The number of combinations of values of `registers`: the product of the
/// sizes of their domains.
pub open spec fn combinations(registers: Seq<InstructionInputRegister>) -> nat
    decreases registers.len(),
{
    if registers.len() == 0 {
        1
    } else {
        domain_len(registers[0]) * combinations(registers.drop_first())
    }
}

/// `enumerate` has one entry for each combination of values, so its length
/// is the product of the sizes of the domains of the registers it sets and
/// of no others.
pub proof fn lemma_enumerate_len(
    inputs: InstructionInput,
    registers: Seq<InstructionInputRegister>,
)
    ensures
        enumerate(inputs, registers).len() == combinations(registers),
    decreases registers.len(), domain_len(registers[0]) + 1,
{
    if registers.len() > 0 {
        lemma_enumerate_choices_len(inputs, registers, domain_len(registers[0]));
    }
}

proof fn lemma_enumerate_choices_len(
    inputs: InstructionInput,
    registers: Seq<InstructionInputRegister>,
    count: nat,
)
    requires
        registers.len() > 0,
        count <= domain_len(registers[0]),
    ensures
        enumerate_choices(inputs, registers, count).len() == count * combinations(
            registers.drop_first(),
        ),
    decreases registers.len(), count,
{
    if count > 0 {
        lemma_enumerate_choices_len(inputs, registers, (count - 1) as nat);
        lemma_enumerate_len(bind(inputs, registers[0], count - 1), registers.drop_first());
        assert(count * combinations(registers.drop_first()) == (count - 1) * combinations(
            registers.drop_first(),
        ) + combinations(registers.drop_first())) by (nonlinear_arith);
    } else {
        assert(0 * combinations(registers.drop_first()) == 0);
    }
}

/// Every entry of `enumerate` supplies the registers that were set and those
/// that the inputs supplied before.
pub proof fn lemma_enumerate_supplies(
    inputs: InstructionInput,
    registers: Seq<InstructionInputRegister>,
    k: int,
    register: InstructionInputRegister,
)
    requires
        0 <= k < enumerate(inputs, registers).len(),
        registers.contains(register) || inputs.has(register),
    ensures
        enumerate(inputs, registers)[k].has(register),
    decreases registers.len(), domain_len(registers[0]) + 1,
{
    if registers.len() > 0 {
        lemma_enumerate_choices_supplies(
            inputs,
            registers,
            domain_len(registers[0]),
            k,
            register,
        );
    }
}

proof fn lemma_enumerate_choices_supplies(
    inputs: InstructionInput,
    registers: Seq<InstructionInputRegister>,
    count: nat,
    k: int,
    register: InstructionInputRegister,
)
    requires
        registers.len() > 0,
        count <= domain_len(registers[0]),
        0 <= k < enumerate_choices(inputs, registers, count).len(),
        registers.contains(register) || inputs.has(register),
    ensures
        enumerate_choices(inputs, registers, count)[k].has(register),
    decreases registers.len(), count,
{
    if count > 0 {
        let earlier = enumerate_choices(inputs, registers, (count - 1) as nat);
        let bound = bind(inputs, registers[0], count - 1);
        let rest = registers.drop_first();
        if k < earlier.len() {
            lemma_enumerate_choices_supplies(inputs, registers, (count - 1) as nat, k, register);
        } else {
            if registers.contains(register) && register != registers[0] {
                let i = choose|i: int| 0 <= i < registers.len() && registers[i] == register;
                assert(rest[i - 1] == register);
            }
            lemma_enumerate_supplies(bound, rest, k - earlier.len(), register);
        }
    }
}

/// Collects in `collected` every way to set `input_registers` in `inputs`
/// to values of their domains, the first register varying slowest.
pub fn call_with_inputs(
    inputs: InstructionInput,
    input_registers: &[InstructionInputRegister],
    collected: &mut Vec<InstructionInput>,
)
    ensures
        final(collected)@ == old(collected)@ + enumerate(inputs, input_registers@),
    decreases input_registers@.len(),
{
    let ghost before = collected@;
    let ghost registers = input_registers@;
    if input_registers.len() == 0 {
        collected.push(inputs);
        return ;
    }
    let input_register = input_registers[0];
    let rest = slice_subrange(input_registers, 1, input_registers.len());
    match input_register {
        InstructionInputRegister::Ra => {
            let mut i: usize = 0;
            while i < 15
                invariant
                    i <= 15,
                    registers == input_registers@,
                    registers.len() > 0,
                    registers[0] == InstructionInputRegister::Ra,
                    rest@ == registers.drop_first(),
                    collected@ == before + enumerate_choices(inputs, registers, i as nat),
                decreases 15 - i,
            {
                let mut bound = inputs;
                bound.ra = Some(TEST_VALUES[i]);
                call_with_inputs(bound, rest, collected);
                i = i + 1;
            }
        },
        InstructionInputRegister::Rb => {
            let mut i: usize = 0;
            while i < 15
                invariant
                    i <= 15,
                    registers == input_registers@,
                    registers.len() > 0,
                    registers[0] == InstructionInputRegister::Rb,
                    rest@ == registers.drop_first(),
                    collected@ == before + enumerate_choices(inputs, registers, i as nat),
                decreases 15 - i,
            {
                let mut bound = inputs;
                bound.rb = Some(TEST_VALUES[i]);
                call_with_inputs(bound, rest, collected);
                i = i + 1;
            }
        },
        InstructionInputRegister::Rc => {
            let mut i: usize = 0;
            while i < 15
                invariant
                    i <= 15,
                    registers == input_registers@,
                    registers.len() > 0,
                    registers[0] == InstructionInputRegister::Rc,
                    rest@ == registers.drop_first(),
                    collected@ == before + enumerate_choices(inputs, registers, i as nat),
                decreases 15 - i,
            {
                let mut bound = inputs;
                bound.rc = Some(TEST_VALUES[i]);
                call_with_inputs(bound, rest, collected);
                i = i + 1;
            }
        },
        InstructionInputRegister::Carry => {
            let mut ca: usize = 0;
            while ca < 2
                invariant
                    ca <= 2,
                    registers == input_registers@,
                    registers.len() > 0,
                    registers[0] == InstructionInputRegister::Carry,
                    rest@ == registers.drop_first(),
                    collected@ == before + enumerate_choices(inputs, registers, (2 * ca) as nat),
                decreases 2 - ca,
            {
                let mut ca32: usize = 0;
                while ca32 < 2
                    invariant
                        ca < 2,
                        ca32 <= 2,
                        registers == input_registers@,
                        registers.len() > 0,
                        registers[0] == InstructionInputRegister::Carry,
                        rest@ == registers.drop_first(),
                        collected@ == before + enumerate_choices(
                            inputs,
                            registers,
                            (2 * ca + ca32) as nat,
                        ),
                    decreases 2 - ca32,
                {
                    let mut bound = inputs;
                    bound.carry = Some(
                        CarryFlags { ca: BOOL_VALUES[ca], ca32: BOOL_VALUES[ca32] },
                    );
                    call_with_inputs(bound, rest, collected);
                    ca32 = ca32 + 1;
                }
                ca = ca + 1;
            }
        },
        InstructionInputRegister::Overflow => {
            let mut so: usize = 0;
            while so < 2
                invariant
                    so <= 2,
                    registers == input_registers@,
                    registers.len() > 0,
                    registers[0] == InstructionInputRegister::Overflow,
                    rest@ == registers.drop_first(),
                    collected@ == before + enumerate_choices(inputs, registers, (4 * so) as nat),
                decreases 2 - so,
            {
                let mut ov: usize = 0;
                while ov < 2
                    invariant
                        so < 2,
                        ov <= 2,
                        registers == input_registers@,
                        registers.len() > 0,
                        registers[0] == InstructionInputRegister::Overflow,
                        rest@ == registers.drop_first(),
                        collected@ == before + enumerate_choices(
                            inputs,
                            registers,
                            (4 * so + 2 * ov) as nat,
                        ),
                    decreases 2 - ov,
                {
                    let mut ov32: usize = 0;
                    while ov32 < 2
                        invariant
                            so < 2,
                            ov < 2,
                            ov32 <= 2,
                            registers == input_registers@,
                            registers.len() > 0,
                            registers[0] == InstructionInputRegister::Overflow,
                            rest@ == registers.drop_first(),
                            collected@ == before + enumerate_choices(
                                inputs,
                                registers,
                                (4 * so + 2 * ov + ov32) as nat,
                            ),
                        decreases 2 - ov32,
                    {
                        let mut bound = inputs;
                        bound.overflow = Some(
                            OverflowFlags {
                                so: BOOL_VALUES[so],
                                ov: BOOL_VALUES[ov],
                                ov32: BOOL_VALUES[ov32],
                            },
                        );
                        call_with_inputs(bound, rest, collected);
                        ov32 = ov32 + 1;
                    }
                    ov = ov + 1;
                }
                so = so + 1;
            }
        },
    }
}

/// The inputs that the harness runs `instr` on: every combination of values
/// of the registers that the registry declares for it, in the order of
/// `enumerate`.
pub fn enumerate_inputs(instr: Instr) -> (all_inputs: Vec<InstructionInput>)
    ensures
        all_inputs@ == enumerate(
            InstructionInput::spec_default(),
            instr.spec_used_input_registers(),
        ),
{
    let mut all_inputs: Vec<InstructionInput> = Vec::new();
    call_with_inputs(
        InstructionInput::default(),
        instr.get_used_input_registers(),
        &mut all_inputs,
    );
    all_inputs
}

/// One run of an instruction: its inputs, what the model gave, what the
/// reference implementation gave where there is one, and whether the two
/// differ.
#[derive(Copy, Clone, Debug, PartialEq, Eq, Structural)]
pub struct TestCase {
    pub instr: Instr,
    pub inputs: InstructionInput,
    pub native_outputs: Option<InstructionOutput>,
    pub model_outputs: InstructionOutput,
    pub model_mismatch: bool,
}

impl TestCase {
    /// Whether the test case is consistent: the model outputs are those of
    /// the instruction on the inputs, and a mismatch is told exactly where
    /// reference outputs are present and differ from them.
    pub open spec fn well_formed(self) -> bool {
        &&& self.instr.spec_model(self.inputs) == Ok::<InstructionOutput, MissingInstructionInput>(
            self.model_outputs,
        )
        &&& self.model_mismatch <==> self.native_outputs is Some && self.native_outputs.unwrap()
            != self.model_outputs
    }

    /// The test case of `instr` on `inputs` beside the reference outputs
    /// `native_outputs`: there is a mismatch where reference outputs are
    /// present and differ from the model's in any register, a register that
    /// only one of them wrote included.
    pub open spec fn spec_new(
        instr: Instr,
        inputs: InstructionInput,
        native_outputs: Option<InstructionOutput>,
    ) -> Result<TestCase, MissingInstructionInput> {
        match instr.spec_model(inputs) {
            Ok(model_outputs) => Ok(
                TestCase {
                    instr,
                    inputs,
                    native_outputs,
                    model_outputs,
                    model_mismatch: native_outputs is Some && native_outputs.unwrap()
                        != model_outputs,
                },
            ),
            Err(error) => Err(error),
        }
    }

    /// Runs the model of `instr` on `inputs` and compares what it gives with
    /// `native_outputs`.
    pub fn new(
        instr: Instr,
        inputs: InstructionInput,
        native_outputs: Option<InstructionOutput>,
    ) -> (test_case: Result<TestCase, MissingInstructionInput>)
        ensures
            test_case == Self::spec_new(instr, inputs, native_outputs),
            test_case matches Ok(made) ==> made.well_formed(),
    {
        let model_outputs = instr.model(inputs)?;
        let model_mismatch = match native_outputs {
            Some(native_outputs) => native_outputs != model_outputs,
            None => false,
        };
        Ok(TestCase { instr, inputs, native_outputs, model_outputs, model_mismatch })
    }
}

/// A failed run: the instruction on which the model or the reference
/// implementation failed, and the register that it read and its inputs
/// lacked.
#[derive(Copy, Clone, Debug, PartialEq, Eq, Structural)]
pub struct TestError {
    pub instr: Instr,
    pub error: MissingInstructionInput,
}

impl TestError {
    /// The error as a sentence that names the instruction and the register.
    pub fn message(&self) -> (text: String)
        ensures
            text@ == "instruction "@ + self.instr.spec_name() + ": "@
                + "missing instruction input: "@ + self.error.input.spec_name(),
    {
        let text = String::from_str("instruction ").concat(self.instr.name()).concat(": ");
        let detail = self.error.message();
        let text = text.concat(detail.as_str());
        text
    }
}

/// The report of a whole run.
#[derive(Clone, Debug)]
pub struct WholeTest {
    pub test_cases: Vec<TestCase>,
    pub any_model_mismatch: bool,
}

impl WholeTest {
    /// Whether the report is consistent: each of its test cases is, and it
    /// tells a mismatch exactly where one of them does.
    pub open spec fn well_formed(self) -> bool {
        &&& forall|i: int|
            0 <= i < self.test_cases@.len() ==> (#[trigger] self.test_cases@[i]).well_formed()
        &&& self.any_model_mismatch <==> exists|i: int|
            0 <= i < self.test_cases@.len() && (#[trigger] self.test_cases@[i]).model_mismatch
    }

    /// The report that holds `test_cases`; it tells a mismatch where any of
    /// them does.
    pub fn new(test_cases: Vec<TestCase>) -> (whole_test: WholeTest)
        ensures
            whole_test.test_cases@ == test_cases@,
            whole_test.any_model_mismatch <==> exists|i: int|
                0 <= i < test_cases@.len() && (#[trigger] test_cases@[i]).model_mismatch,
            (forall|i: int|
                0 <= i < test_cases@.len() ==> (#[trigger] test_cases@[i]).well_formed())
                ==> whole_test.well_formed(),
    {
        let mut any_model_mismatch = false;
        let mut i: usize = 0;
        while i < test_cases.len()
            invariant
                i <= test_cases@.len(),
                any_model_mismatch <==> exists|j: int|
                    0 <= j < i && (#[trigger] test_cases@[j]).model_mismatch,
            decreases test_cases@.len() - i,
        {
            if test_cases[i].model_mismatch {
                any_model_mismatch = true;
            }
            i = i + 1;
        }
        WholeTest { test_cases, any_model_mismatch }
    }
}

/// The test case that the harness records for `instr` on `inputs` where no
/// reference implementation is at hand.
pub open spec fn model_test_case(instr: Instr, inputs: InstructionInput) -> TestCase {
    TestCase {
        instr,
        inputs,
        native_outputs: None,
        model_outputs: instr.spec_model(inputs).unwrap(),
        model_mismatch: false,
    }
}

/// The test cases of `instr`, one for each of its inputs in the order of
/// `enumerate`.
pub open spec fn instr_test_cases(instr: Instr) -> Seq<TestCase> {
    enumerate(InstructionInput::spec_default(), instr.spec_used_input_registers()).map_values(
        |inputs: InstructionInput| model_test_case(instr, inputs),
    )
}

/// The test cases of the first `count` instructions of the registry, in its
/// order.
pub open spec fn all_test_cases(count: nat) -> Seq<TestCase>
    decreases count,
{
    if count == 0 {
        Seq::empty()
    } else {
        all_test_cases((count - 1) as nat) + instr_test_cases(Instr::VALUES@[count - 1])
    }
}

/// The model of an instruction succeeds on each of the inputs that the
/// harness runs it on.
pub proof fn lemma_model_succeeds_on_enumerated_inputs(instr: Instr, k: int)
    requires
        0 <= k < enumerate(
            InstructionInput::spec_default(),
            instr.spec_used_input_registers(),
        ).len(),
    ensures
        instr.spec_model(
            enumerate(InstructionInput::spec_default(), instr.spec_used_input_registers())[k],
        ) is Ok,
{
    let registers = instr.spec_used_input_registers();
    let inputs = enumerate(InstructionInput::spec_default(), registers)[k];
    assert forall|i: int| 0 <= i < registers.len() implies inputs.has(#[trigger] registers[i]) by {
        lemma_enumerate_supplies(InstructionInput::spec_default(), registers, k, registers[i]);
    }
    lemma_registry_matches_model(instr, inputs);
}

/// Every test case that the harness records without a reference
/// implementation is consistent.
pub proof fn lemma_all_test_cases_well_formed(count: nat, i: int)
    requires
        0 <= i < all_test_cases(count).len(),
    ensures
        all_test_cases(count)[i].well_formed(),
        all_test_cases(count)[i].native_outputs is None,
        !all_test_cases(count)[i].model_mismatch,
    decreases count,
{
    if count > 0 {
        let earlier = all_test_cases((count - 1) as nat);
        if i < earlier.len() {
            lemma_all_test_cases_well_formed((count - 1) as nat, i);
        } else {
            lemma_model_succeeds_on_enumerated_inputs(Instr::VALUES@[count - 1], i - earlier.len());
        }
    }
}

/// Runs the model of `instr` on each of its inputs and appends the test
/// cases to `test_cases`. The registry declares for every instruction the
/// registers that its model reads, so the run does not fail.
pub fn test_instr(instr: Instr, test_cases: &mut Vec<TestCase>) -> (result: Result<(), TestError>)
    ensures
        result is Ok,
        final(test_cases)@ == old(test_cases)@ + instr_test_cases(instr),
{
    let ghost before = test_cases@;
    let all_inputs = enumerate_inputs(instr);
    let mut k: usize = 0;
    while k < all_inputs.len()
        invariant
            k <= all_inputs@.len(),
            all_inputs@ == enumerate(
                InstructionInput::spec_default(),
                instr.spec_used_input_registers(),
            ),
            test_cases@ == before + instr_test_cases(instr).take(k as int),
        decreases all_inputs@.len() - k,
    {
        let inputs = all_inputs[k];
        proof {
            lemma_model_succeeds_on_enumerated_inputs(instr, k as int);
        }
        match TestCase::new(instr, inputs, None) {
            Ok(test_case) => {
                test_cases.push(test_case);
            },
            Err(error) => {
                return Err(TestError { instr, error });
            },
        }
        k = k + 1;
    }
    Ok(())
}

/// Runs the model of every instruction of the registry on each of its inputs.
/// No reference implementation is asked, so no test case holds reference
/// outputs and the report tells no mismatch; and the run does not fail, the
/// registry being consistent with the models.
pub fn run_tests() -> (result: Result<WholeTest, TestError>)
    ensures
        result is Ok,
        result.unwrap().well_formed(),
        result.unwrap().test_cases@ == all_test_cases(Instr::VALUES@.len()),
        !result.unwrap().any_model_mismatch,
        forall|i: int|
            0 <= i < result.unwrap().test_cases@.len() ==> (
            #[trigger] result.unwrap().test_cases@[i]).native_outputs is None,
{
    let mut test_cases: Vec<TestCase> = Vec::new();
    let mut n: usize = 0;
    while n < 63
        invariant
            n <= 63,
            test_cases@ == all_test_cases(n as nat),
            forall|i: int|
                0 <= i < test_cases@.len() ==> (#[trigger] test_cases@[i]).native_outputs is None
                    && !test_cases@[i].model_mismatch,
        decreases 63 - n,
    {
        let instr = Instr::VALUES[n];
        match test_instr(instr, &mut test_cases) {
            Ok(()) => {},
            Err(error) => {
                return Err(error);
            },
        }
        n = n + 1;
    }
    proof {
        assert forall|i: int| 0 <= i < test_cases@.len() implies (
        #[trigger] test_cases@[i]).well_formed() by {
            lemma_all_test_cases_well_formed(63, i);
        }
    }
    Ok(WholeTest::new(test_cases))
}

/// Whether `recorded` is the test case that goes with `expected` once the
/// reference implementation `native` has been asked: it holds outputs that
/// `native` may give for the instruction and inputs of `expected`, and tells
/// a mismatch exactly where they differ from the model's.
pub open spec fn records_reference<F: Fn(Instr, InstructionInput) -> InstructionResult>(
    native: F,
    expected: TestCase,
    recorded: TestCase,
) -> bool {
    &&& recorded.native_outputs is Some
    &&& call_ensures(
        native,
        (expected.instr, expected.inputs),
        Ok::<InstructionOutput, MissingInstructionInput>(recorded.native_outputs.unwrap()),
    )
    &&& TestCase::spec_new(expected.instr, expected.inputs, recorded.native_outputs) == Ok::<
        TestCase,
        MissingInstructionInput,
    >(recorded)
}

/// Whether the reference implementation `native` may answer with outputs
/// when it is asked for the instruction and inputs of `expected`.
pub open spec fn reference_answers<F: Fn(Instr, InstructionInput) -> InstructionResult>(
    native: F,
    expected: TestCase,
) -> bool {
    exists|native_outputs: InstructionOutput| #[trigger]
        call_ensures(
            native,
            (expected.instr, expected.inputs),
            Ok::<InstructionOutput, MissingInstructionInput>(native_outputs),
        )
}

/// The test cases of the first instructions of the registry come first
/// among those of more of them.
pub proof fn lemma_all_test_cases_grow(fewer: nat, more: nat)
    requires
        fewer <= more,
    ensures
        all_test_cases(fewer).len() <= all_test_cases(more).len(),
        all_test_cases(more).take(all_test_cases(fewer).len() as int) == all_test_cases(fewer),
    decreases more,
{
    if fewer < more {
        lemma_all_test_cases_grow(fewer, (more - 1) as nat);
    }
}

/// Runs the model of every instruction of the registry on each of its inputs
/// and asks the reference implementation `native` for the same instruction
/// and inputs. The cases are those of `run_tests`, in the same order, each
/// with what `native` gave. The run stops at the first error of `native`.
pub fn run_tests_with<F: Fn(Instr, InstructionInput) -> InstructionResult>(native: F) -> (result:
    Result<WholeTest, TestError>)
    requires
        forall|instr: Instr, inputs: InstructionInput| call_requires(native, (instr, inputs)),
    ensures
        match result {
            Ok(whole_test) => {
                &&& whole_test.well_formed()
                &&& whole_test.test_cases@.len() == all_test_cases(Instr::VALUES@.len()).len()
                &&& forall|i: int|
                    0 <= i < whole_test.test_cases@.len() ==> records_reference(
                        native,
                        all_test_cases(Instr::VALUES@.len())[i],
                        #[trigger] whole_test.test_cases@[i],
                    )
                &&& whole_test.any_model_mismatch <==> exists|i: int|
                    0 <= i < whole_test.test_cases@.len() && (
                    #[trigger] whole_test.test_cases@[i]).model_mismatch
            },
            Err(error) => exists|i: int|
                0 <= i < all_test_cases(Instr::VALUES@.len()).len() && (#[trigger] all_test_cases(
                    Instr::VALUES@.len(),
                )[i]).instr == error.instr && call_ensures(
                    native,
                    (error.instr, all_test_cases(Instr::VALUES@.len())[i].inputs),
                    Err::<InstructionOutput, MissingInstructionInput>(error.error),
                ) && forall|j: int|
                    0 <= j < i ==> reference_answers(
                        native,
                        #[trigger] all_test_cases(Instr::VALUES@.len())[j],
                    ),
        },
{
    let mut test_cases: Vec<TestCase> = Vec::new();
    let mut n: usize = 0;
    while n < 63
        invariant
            n <= 63,
            Instr::VALUES@.len() == 63,
            forall|instr: Instr, inputs: InstructionInput| call_requires(native, (instr, inputs)),
            test_cases@.len() == all_test_cases(n as nat).len(),
            forall|i: int|
                0 <= i < test_cases@.len() ==> records_reference(
                    native,
                    all_test_cases(n as nat)[i],
                    #[trigger] test_cases@[i],
                ),
        decreases 63 - n,
    {
        let instr = Instr::VALUES[n];
        let all_inputs = enumerate_inputs(instr);
        let ghost done = all_test_cases(n as nat);
        let ghost cases = instr_test_cases(instr);
        let mut k: usize = 0;
        while k < all_inputs.len()
            invariant
                n < 63,
                Instr::VALUES@.len() == 63,
                instr == Instr::VALUES@[n as int],
                k <= all_inputs@.len(),
                all_inputs@ == enumerate(
                    InstructionInput::spec_default(),
                    instr.spec_used_input_registers(),
                ),
                done == all_test_cases(n as nat),
                cases == instr_test_cases(instr),
                forall|instr: Instr, inputs: InstructionInput|
                    call_requires(native, (instr, inputs)),
                test_cases@.len() == done.len() + k,
                forall|i: int|
                    0 <= i < done.len() ==> records_reference(
                        native,
                        done[i],
                        #[trigger] test_cases@[i],
                    ),
                forall|j: int|
                    0 <= j < k ==> records_reference(
                        native,
                        cases[j],
                        #[trigger] test_cases@[done.len() + j],
                    ),
            decreases all_inputs@.len() - k,
        {
            let inputs = all_inputs[k];
            proof {
                lemma_model_succeeds_on_enumerated_inputs(instr, k as int);
                lemma_all_test_cases_grow((n + 1) as nat, 63);
                assert(all_test_cases(63)[done.len() + k] == all_test_cases(63).take(
                    all_test_cases((n + 1) as nat).len() as int,
                )[done.len() + k]);
            }
            let native_outputs = match native(instr, inputs) {
                Ok(native_outputs) => native_outputs,
                Err(error) => {
                    proof {
                        assert forall|j: int| 0 <= j < done.len() + k implies reference_answers(
                            native,
                            #[trigger] all_test_cases(63)[j],
                        ) by {
                            let recorded = test_cases@[j];
                            if j < done.len() {
                                lemma_all_test_cases_grow(n as nat, 63);
                                assert(all_test_cases(63)[j] == all_test_cases(63).take(
                                    done.len() as int,
                                )[j]);
                                assert(records_reference(native, done[j], recorded));
                            } else {
                                assert(all_test_cases(63)[j] == all_test_cases(63).take(
                                    all_test_cases((n + 1) as nat).len() as int,
                                )[j]);
                                assert(all_test_cases((n + 1) as nat)[j] == cases[j - done.len()]);
                                assert(records_reference(
                                    native,
                                    cases[j - done.len()],
                                    test_cases@[done.len() + (j - done.len())],
                                ));
                            }
                            assert(call_ensures(
                                native,
                                (all_test_cases(63)[j].instr, all_test_cases(63)[j].inputs),
                                Ok::<InstructionOutput, MissingInstructionInput>(
                                    recorded.native_outputs.unwrap(),
                                ),
                            ));
                        }
                    }
                    return Err(TestError { instr, error });
                },
            };
            match TestCase::new(instr, inputs, Some(native_outputs)) {
                Ok(test_case) => {
                    test_cases.push(test_case);
                },
                Err(error) => {
                    return Err(TestError { instr, error });
                },
            }
            k = k + 1;
        }
        proof {
            assert forall|i: int| 0 <= i < test_cases@.len() implies records_reference(
                native,
                all_test_cases((n + 1) as nat)[i],
                #[trigger] test_cases@[i],
            ) by {
                if i >= done.len() {
                    assert(records_reference(
                        native,
                        cases[i - done.len()],
                        test_cases@[done.len() + (i - done.len())],
                    ));
                }
            }
        }
        n = n + 1;
    }
    Ok(WholeTest::new(test_cases))
}

} // verus!
