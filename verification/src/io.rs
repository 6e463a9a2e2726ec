//! Instruction inputs and outputs: the registers an instruction may read and
//! write, each present only where the instruction uses it.

use crate::status::{CarryFlags, ConditionRegister, OverflowFlags};
use vstd::prelude::*;
use vstd::string::StringExecFns;

verus! {

/// A logical register that an instruction may read.
#[derive(Copy, Clone, Eq, PartialEq, Hash, Debug, Structural)]
pub enum InstructionInputRegister {
    Ra,
    Rb,
    Rc,
    Carry,
    Overflow,
}

impl InstructionInputRegister {
    /// The register's name as it is written in reports.
    pub open spec fn spec_name(self) -> Seq<char> {
        match self {
            InstructionInputRegister::Ra => "ra"@,
            InstructionInputRegister::Rb => "rb"@,
            InstructionInputRegister::Rc => "rc"@,
            InstructionInputRegister::Carry => "carry"@,
            InstructionInputRegister::Overflow => "overflow"@,
        }
    }

    /// The register's name as it is written in reports.
    pub fn name(self) -> (name: &'static str)
        ensures
            name@ == self.spec_name(),
    {
        match self {
            InstructionInputRegister::Ra => "ra",
            InstructionInputRegister::Rb => "rb",
            InstructionInputRegister::Rc => "rc",
            InstructionInputRegister::Carry => "carry",
            InstructionInputRegister::Overflow => "overflow",
        }
    }
}

/// The error of running an instruction on inputs that lack a register it reads.
#[derive(Copy, Clone, Eq, PartialEq, Debug, Structural)]
pub struct MissingInstructionInput {
    pub input: InstructionInputRegister,
}

impl MissingInstructionInput {
    /// The error as a sentence that names the missing register.
    pub fn message(&self) -> (text: String)
        ensures
            text@ == "missing instruction input: "@ + self.input.spec_name(),
    {
        String::from_str("missing instruction input: ").concat(self.input.name())
    }
}

/// What an instruction wrote. A register the instruction does not write is
/// absent, not zero.
#[derive(Copy, Clone, Debug, PartialEq, Eq, Structural)]
pub struct InstructionOutput {
    pub rt: Option<u64>,
    pub overflow: Option<OverflowFlags>,
    pub carry: Option<CarryFlags>,
    pub cr0: Option<ConditionRegister>,
    pub cr1: Option<ConditionRegister>,
    pub cr2: Option<ConditionRegister>,
    pub cr3: Option<ConditionRegister>,
    pub cr4: Option<ConditionRegister>,
    pub cr5: Option<ConditionRegister>,
    pub cr6: Option<ConditionRegister>,
    pub cr7: Option<ConditionRegister>,
}

impl InstructionOutput {
    /// The output in which every register is absent.
    pub open spec fn spec_default() -> InstructionOutput {
        InstructionOutput {
            rt: None,
            overflow: None,
            carry: None,
            cr0: None,
            cr1: None,
            cr2: None,
            cr3: None,
            cr4: None,
            cr5: None,
            cr6: None,
            cr7: None,
        }
    }
}

impl Default for InstructionOutput {
    fn default() -> (output: Self)
        ensures
            output == InstructionOutput::spec_default(),
    {
        InstructionOutput {
            rt: None,
            overflow: None,
            carry: None,
            cr0: None,
            cr1: None,
            cr2: None,
            cr3: None,
            cr4: None,
            cr5: None,
            cr6: None,
            cr7: None,
        }
    }
}

/// What running an instruction gives: its output, or the register that it
/// reads and the inputs lack.
pub type InstructionResult = Result<InstructionOutput, MissingInstructionInput>;

/// What an instruction is handed. A register that is absent cannot be read:
/// an instruction that needs it fails, it does not take a default.
#[derive(Copy, Clone, Debug, PartialEq, Eq, Structural)]
pub struct InstructionInput {
    pub ra: Option<u64>,
    pub rb: Option<u64>,
    pub rc: Option<u64>,
    pub carry: Option<CarryFlags>,
    pub overflow: Option<OverflowFlags>,
}

impl InstructionInput {
    /// The inputs in which every register is absent.
    pub open spec fn spec_default() -> InstructionInput {
        InstructionInput { ra: None, rb: None, rc: None, carry: None, overflow: None }
    }

    /// Whether the inputs supply `register`.
    pub open spec fn has(self, register: InstructionInputRegister) -> bool {
        match register {
            InstructionInputRegister::Ra => self.ra is Some,
            InstructionInputRegister::Rb => self.rb is Some,
            InstructionInputRegister::Rc => self.rc is Some,
            InstructionInputRegister::Carry => self.carry is Some,
            InstructionInputRegister::Overflow => self.overflow is Some,
        }
    }

    /// The first register of `registers`, in their order, that the inputs
    /// lack; `None` where they supply every one.
    pub open spec fn first_missing(self, registers: Seq<InstructionInputRegister>) -> Option<
        InstructionInputRegister,
    >
        decreases registers.len(),
    {
        if registers.len() == 0 {
            None
        } else if !self.has(registers[0]) {
            Some(registers[0])
        } else {
            self.first_missing(registers.drop_first())
        }
    }

    /// `first_missing` finds a register exactly where one is absent, and
    /// then it is the earliest absent one.
    pub proof fn lemma_first_missing(self, registers: Seq<InstructionInputRegister>)
        ensures
            self.first_missing(registers) is Some <==> exists|i: int|
                0 <= i < registers.len() && !self.has(#[trigger] registers[i]),
            self.first_missing(registers) matches Some(register) ==> registers.contains(register)
                && !self.has(register),
            self.first_missing(registers) matches Some(register) ==> exists|i: int|
                0 <= i < registers.len() && #[trigger] registers[i] == register && forall|j: int|
                    0 <= j < i ==> self.has(#[trigger] registers[j]),
        decreases registers.len(),
    {
        if registers.len() > 0 && self.has(registers[0]) {
            let rest = registers.drop_first();
            self.lemma_first_missing(rest);
            assert forall|i: int| 0 <= i < rest.len() implies rest[i] == registers[i + 1] by {}
            if self.first_missing(rest) is Some {
                let register = self.first_missing(rest).unwrap();
                let i = choose|i: int|
                    0 <= i < rest.len() && #[trigger] rest[i] == register && forall|j: int|
                        0 <= j < i ==> self.has(#[trigger] rest[j]);
                assert(registers[i + 1] == register);
                assert forall|j: int| 0 <= j < i + 1 implies self.has(#[trigger] registers[j]) by {
                    if j > 0 {
                        assert(rest[j - 1] == registers[j]);
                    }
                }
                let k = choose|k: int| 0 <= k < rest.len() && !self.has(#[trigger] rest[k]);
                assert(!self.has(registers[k + 1]));
            } else {
                assert forall|i: int| 0 <= i < registers.len() implies self.has(
                    #[trigger] registers[i],
                ) by {
                    if i > 0 {
                        assert(rest[i - 1] == registers[i]);
                    }
                }
            }
        }
    }

    /// The value of `ra`, or the error that names it.
    pub fn try_get_ra(self) -> (value: Result<u64, MissingInstructionInput>)
        ensures
            value == match self.ra {
                Some(ra) => Ok::<u64, MissingInstructionInput>(ra),
                None => Err(MissingInstructionInput { input: InstructionInputRegister::Ra }),
            },
    {
        match self.ra {
            Some(ra) => Ok(ra),
            None => Err(MissingInstructionInput { input: InstructionInputRegister::Ra }),
        }
    }

    /// The value of `rb`, or the error that names it.
    pub fn try_get_rb(self) -> (value: Result<u64, MissingInstructionInput>)
        ensures
            value == match self.rb {
                Some(rb) => Ok::<u64, MissingInstructionInput>(rb),
                None => Err(MissingInstructionInput { input: InstructionInputRegister::Rb }),
            },
    {
        match self.rb {
            Some(rb) => Ok(rb),
            None => Err(MissingInstructionInput { input: InstructionInputRegister::Rb }),
        }
    }

    /// The value of `rc`, or the error that names it.
    pub fn try_get_rc(self) -> (value: Result<u64, MissingInstructionInput>)
        ensures
            value == match self.rc {
                Some(rc) => Ok::<u64, MissingInstructionInput>(rc),
                None => Err(MissingInstructionInput { input: InstructionInputRegister::Rc }),
            },
    {
        match self.rc {
            Some(rc) => Ok(rc),
            None => Err(MissingInstructionInput { input: InstructionInputRegister::Rc }),
        }
    }

    /// The carry flags, or the error that names them.
    pub fn try_get_carry(self) -> (value: Result<CarryFlags, MissingInstructionInput>)
        ensures
            value == match self.carry {
                Some(carry) => Ok::<CarryFlags, MissingInstructionInput>(carry),
                None => Err(MissingInstructionInput { input: InstructionInputRegister::Carry }),
            },
    {
        match self.carry {
            Some(carry) => Ok(carry),
            None => Err(MissingInstructionInput { input: InstructionInputRegister::Carry }),
        }
    }

    /// The overflow flags, or the error that names them.
    pub fn try_get_overflow(self) -> (value: Result<OverflowFlags, MissingInstructionInput>)
        ensures
            value == match self.overflow {
                Some(overflow) => Ok::<OverflowFlags, MissingInstructionInput>(overflow),
                None => Err(MissingInstructionInput { input: InstructionInputRegister::Overflow }),
            },
    {
        match self.overflow {
            Some(overflow) => Ok(overflow),
            None => Err(MissingInstructionInput { input: InstructionInputRegister::Overflow }),
        }
    }
}

impl Default for InstructionInput {
    fn default() -> (inputs: Self)
        ensures
            inputs == InstructionInput::spec_default(),
    {
        InstructionInput { ra: None, rb: None, rc: None, carry: None, overflow: None }
    }
}

} // verus!
