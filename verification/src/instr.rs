//! The instruction registry: one value for each instruction, with its name,
//! the registers it reads and its model.

use crate::arith::signed64;
use crate::io::InstructionInputRegister::{Overflow, Ra, Rb, Rc};
use crate::io::{InstructionInput, InstructionInputRegister, InstructionResult};
use crate::semantics::{
    lemma_forms_agree, lemma_multiply_high_commutes, lemma_summary_overflow_is_sticky,
    required_registers, spec_model, Form, Operation,
};
use crate::status::ConditionRegister;
use vstd::prelude::*;
use vstd::string::StringExecFns;

verus! {

/// An instruction that the library models. The name of a value is the
/// instruction's mnemonic, with `O` for the forms that write the overflow
/// flags and `_` for the forms that write condition field 0.
#[allow(non_camel_case_types)]
#[derive(Copy, Clone, Eq, PartialEq, Hash, Debug, Structural)]
pub enum Instr {
    Add,
    AddO,
    Add_,
    AddO_,
    SubF,
    SubFO,
    SubF_,
    SubFO_,
    DivDE,
    DivDEO,
    DivDE_,
    DivDEO_,
    DivDEU,
    DivDEUO,
    DivDEU_,
    DivDEUO_,
    DivD,
    DivDO,
    DivD_,
    DivDO_,
    DivDU,
    DivDUO,
    DivDU_,
    DivDUO_,
    DivWE,
    DivWEO,
    DivWE_,
    DivWEO_,
    DivWEU,
    DivWEUO,
    DivWEU_,
    DivWEUO_,
    DivW,
    DivWO,
    DivW_,
    DivWO_,
    DivWU,
    DivWUO,
    DivWU_,
    DivWUO_,
    ModSD,
    ModUD,
    ModSW,
    ModUW,
    MulLW,
    MulLWO,
    MulLW_,
    MulLWO_,
    MulHW,
    MulHW_,
    MulHWU,
    MulHWU_,
    MulLD,
    MulLDO,
    MulLD_,
    MulLDO_,
    MulHD,
    MulHD_,
    MulHDU,
    MulHDU_,
    MAddHD,
    MAddHDU,
    MAddLD,
}

impl Instr {
    /// Every instruction, in the order of the registry.
    pub const VALUES: [Instr; 63] = [
        Instr::Add,
        Instr::AddO,
        Instr::Add_,
        Instr::AddO_,
        Instr::SubF,
        Instr::SubFO,
        Instr::SubF_,
        Instr::SubFO_,
        Instr::DivDE,
        Instr::DivDEO,
        Instr::DivDE_,
        Instr::DivDEO_,
        Instr::DivDEU,
        Instr::DivDEUO,
        Instr::DivDEU_,
        Instr::DivDEUO_,
        Instr::DivD,
        Instr::DivDO,
        Instr::DivD_,
        Instr::DivDO_,
        Instr::DivDU,
        Instr::DivDUO,
        Instr::DivDU_,
        Instr::DivDUO_,
        Instr::DivWE,
        Instr::DivWEO,
        Instr::DivWE_,
        Instr::DivWEO_,
        Instr::DivWEU,
        Instr::DivWEUO,
        Instr::DivWEU_,
        Instr::DivWEUO_,
        Instr::DivW,
        Instr::DivWO,
        Instr::DivW_,
        Instr::DivWO_,
        Instr::DivWU,
        Instr::DivWUO,
        Instr::DivWU_,
        Instr::DivWUO_,
        Instr::ModSD,
        Instr::ModUD,
        Instr::ModSW,
        Instr::ModUW,
        Instr::MulLW,
        Instr::MulLWO,
        Instr::MulLW_,
        Instr::MulLWO_,
        Instr::MulHW,
        Instr::MulHW_,
        Instr::MulHWU,
        Instr::MulHWU_,
        Instr::MulLD,
        Instr::MulLDO,
        Instr::MulLD_,
        Instr::MulLDO_,
        Instr::MulHD,
        Instr::MulHD_,
        Instr::MulHDU,
        Instr::MulHDU_,
        Instr::MAddHD,
        Instr::MAddHDU,
        Instr::MAddLD,
    ];

    /// The arithmetic operation that the instruction performs.
    pub open spec fn operation(self) -> Operation {
        match self {
            Instr::Add | Instr::AddO | Instr::Add_ | Instr::AddO_ => Operation::Add,
            Instr::SubF | Instr::SubFO | Instr::SubF_ | Instr::SubFO_ => Operation::SubF,
            Instr::DivDE | Instr::DivDEO | Instr::DivDE_ | Instr::DivDEO_ => Operation::DivDE,
            Instr::DivDEU | Instr::DivDEUO | Instr::DivDEU_ | Instr::DivDEUO_ => Operation::DivDEU,
            Instr::DivD | Instr::DivDO | Instr::DivD_ | Instr::DivDO_ => Operation::DivD,
            Instr::DivDU | Instr::DivDUO | Instr::DivDU_ | Instr::DivDUO_ => Operation::DivDU,
            Instr::DivWE | Instr::DivWEO | Instr::DivWE_ | Instr::DivWEO_ => Operation::DivWE,
            Instr::DivWEU | Instr::DivWEUO | Instr::DivWEU_ | Instr::DivWEUO_ => Operation::DivWEU,
            Instr::DivW | Instr::DivWO | Instr::DivW_ | Instr::DivWO_ => Operation::DivW,
            Instr::DivWU | Instr::DivWUO | Instr::DivWU_ | Instr::DivWUO_ => Operation::DivWU,
            Instr::ModSD => Operation::ModSD,
            Instr::ModUD => Operation::ModUD,
            Instr::ModSW => Operation::ModSW,
            Instr::ModUW => Operation::ModUW,
            Instr::MulLW | Instr::MulLWO | Instr::MulLW_ | Instr::MulLWO_ => Operation::MulLW,
            Instr::MulHW | Instr::MulHW_ => Operation::MulHW,
            Instr::MulHWU | Instr::MulHWU_ => Operation::MulHWU,
            Instr::MulLD | Instr::MulLDO | Instr::MulLD_ | Instr::MulLDO_ => Operation::MulLD,
            Instr::MulHD | Instr::MulHD_ => Operation::MulHD,
            Instr::MulHDU | Instr::MulHDU_ => Operation::MulHDU,
            Instr::MAddHD => Operation::MAddHD,
            Instr::MAddHDU => Operation::MAddHDU,
            Instr::MAddLD => Operation::MAddLD,
        }
    }

    /// What the instruction records beside its result.
    pub open spec fn form(self) -> Form {
        match self {
            Instr::AddO | Instr::SubFO | Instr::DivDEO | Instr::DivDEUO | Instr::DivDO
            | Instr::DivDUO | Instr::DivWEO | Instr::DivWEUO | Instr::DivWO | Instr::DivWUO
            | Instr::MulLWO | Instr::MulLDO => Form::O,
            Instr::Add_ | Instr::SubF_ | Instr::DivDE_ | Instr::DivDEU_ | Instr::DivD_
            | Instr::DivDU_ | Instr::DivWE_ | Instr::DivWEU_ | Instr::DivW_ | Instr::DivWU_
            | Instr::MulLW_ | Instr::MulHW_ | Instr::MulHWU_ | Instr::MulLD_ | Instr::MulHD_
            | Instr::MulHDU_ => Form::Dot,
            Instr::AddO_ | Instr::SubFO_ | Instr::DivDEO_ | Instr::DivDEUO_ | Instr::DivDO_
            | Instr::DivDUO_ | Instr::DivWEO_ | Instr::DivWEUO_ | Instr::DivWO_
            | Instr::DivWUO_ | Instr::MulLWO_ | Instr::MulLDO_ => Form::ODot,
            _ => Form::Plain,
        }
    }

    /// The position of the instruction in `VALUES`.
    pub open spec fn index(self) -> int {
        match self {
            Instr::Add => 0,
            Instr::AddO => 1,
            Instr::Add_ => 2,
            Instr::AddO_ => 3,
            Instr::SubF => 4,
            Instr::SubFO => 5,
            Instr::SubF_ => 6,
            Instr::SubFO_ => 7,
            Instr::DivDE => 8,
            Instr::DivDEO => 9,
            Instr::DivDE_ => 10,
            Instr::DivDEO_ => 11,
            Instr::DivDEU => 12,
            Instr::DivDEUO => 13,
            Instr::DivDEU_ => 14,
            Instr::DivDEUO_ => 15,
            Instr::DivD => 16,
            Instr::DivDO => 17,
            Instr::DivD_ => 18,
            Instr::DivDO_ => 19,
            Instr::DivDU => 20,
            Instr::DivDUO => 21,
            Instr::DivDU_ => 22,
            Instr::DivDUO_ => 23,
            Instr::DivWE => 24,
            Instr::DivWEO => 25,
            Instr::DivWE_ => 26,
            Instr::DivWEO_ => 27,
            Instr::DivWEU => 28,
            Instr::DivWEUO => 29,
            Instr::DivWEU_ => 30,
            Instr::DivWEUO_ => 31,
            Instr::DivW => 32,
            Instr::DivWO => 33,
            Instr::DivW_ => 34,
            Instr::DivWO_ => 35,
            Instr::DivWU => 36,
            Instr::DivWUO => 37,
            Instr::DivWU_ => 38,
            Instr::DivWUO_ => 39,
            Instr::ModSD => 40,
            Instr::ModUD => 41,
            Instr::ModSW => 42,
            Instr::ModUW => 43,
            Instr::MulLW => 44,
            Instr::MulLWO => 45,
            Instr::MulLW_ => 46,
            Instr::MulLWO_ => 47,
            Instr::MulHW => 48,
            Instr::MulHW_ => 49,
            Instr::MulHWU => 50,
            Instr::MulHWU_ => 51,
            Instr::MulLD => 52,
            Instr::MulLDO => 53,
            Instr::MulLD_ => 54,
            Instr::MulLDO_ => 55,
            Instr::MulHD => 56,
            Instr::MulHD_ => 57,
            Instr::MulHDU => 58,
            Instr::MulHDU_ => 59,
            Instr::MAddHD => 60,
            Instr::MAddHDU => 61,
            Instr::MAddLD => 62,
        }
    }

    /// The registers that the registry declares the instruction to read, in
    /// the order in which its model reads them.
    pub open spec fn spec_used_input_registers(self) -> Seq<InstructionInputRegister> {
        required_registers(self.operation(), self.form())
    }

    /// The instruction's name in assembly: the mnemonic of its operation and
    /// the suffix of its form.
    pub open spec fn spec_name(self) -> Seq<char> {
        self.operation().mnemonic() + self.form().suffix()
    }

    /// What the instruction's model gives on `inputs`.
    pub open spec fn spec_model(self, inputs: InstructionInput) -> InstructionResult {
        spec_model(self.operation(), self.form(), inputs)
    }

    /// Runs the instruction's model on `inputs`.
    pub fn model(self, inputs: InstructionInput) -> (result: InstructionResult)
        ensures
            result == self.spec_model(inputs),
    {
        match self {
            Instr::Add => crate::instr_models::add(inputs),
            Instr::AddO => crate::instr_models::addo(inputs),
            Instr::Add_ => crate::instr_models::add_(inputs),
            Instr::AddO_ => crate::instr_models::addo_(inputs),
            Instr::SubF => crate::instr_models::subf(inputs),
            Instr::SubFO => crate::instr_models::subfo(inputs),
            Instr::SubF_ => crate::instr_models::subf_(inputs),
            Instr::SubFO_ => crate::instr_models::subfo_(inputs),
            Instr::DivDE => crate::instr_models::divde(inputs),
            Instr::DivDEO => crate::instr_models::divdeo(inputs),
            Instr::DivDE_ => crate::instr_models::divde_(inputs),
            Instr::DivDEO_ => crate::instr_models::divdeo_(inputs),
            Instr::DivDEU => crate::instr_models::divdeu(inputs),
            Instr::DivDEUO => crate::instr_models::divdeuo(inputs),
            Instr::DivDEU_ => crate::instr_models::divdeu_(inputs),
            Instr::DivDEUO_ => crate::instr_models::divdeuo_(inputs),
            Instr::DivD => crate::instr_models::divd(inputs),
            Instr::DivDO => crate::instr_models::divdo(inputs),
            Instr::DivD_ => crate::instr_models::divd_(inputs),
            Instr::DivDO_ => crate::instr_models::divdo_(inputs),
            Instr::DivDU => crate::instr_models::divdu(inputs),
            Instr::DivDUO => crate::instr_models::divduo(inputs),
            Instr::DivDU_ => crate::instr_models::divdu_(inputs),
            Instr::DivDUO_ => crate::instr_models::divduo_(inputs),
            Instr::DivWE => crate::instr_models::divwe(inputs),
            Instr::DivWEO => crate::instr_models::divweo(inputs),
            Instr::DivWE_ => crate::instr_models::divwe_(inputs),
            Instr::DivWEO_ => crate::instr_models::divweo_(inputs),
            Instr::DivWEU => crate::instr_models::divweu(inputs),
            Instr::DivWEUO => crate::instr_models::divweuo(inputs),
            Instr::DivWEU_ => crate::instr_models::divweu_(inputs),
            Instr::DivWEUO_ => crate::instr_models::divweuo_(inputs),
            Instr::DivW => crate::instr_models::divw(inputs),
            Instr::DivWO => crate::instr_models::divwo(inputs),
            Instr::DivW_ => crate::instr_models::divw_(inputs),
            Instr::DivWO_ => crate::instr_models::divwo_(inputs),
            Instr::DivWU => crate::instr_models::divwu(inputs),
            Instr::DivWUO => crate::instr_models::divwuo(inputs),
            Instr::DivWU_ => crate::instr_models::divwu_(inputs),
            Instr::DivWUO_ => crate::instr_models::divwuo_(inputs),
            Instr::ModSD => crate::instr_models::modsd(inputs),
            Instr::ModUD => crate::instr_models::modud(inputs),
            Instr::ModSW => crate::instr_models::modsw(inputs),
            Instr::ModUW => crate::instr_models::moduw(inputs),
            Instr::MulLW => crate::instr_models::mullw(inputs),
            Instr::MulLWO => crate::instr_models::mullwo(inputs),
            Instr::MulLW_ => crate::instr_models::mullw_(inputs),
            Instr::MulLWO_ => crate::instr_models::mullwo_(inputs),
            Instr::MulHW => crate::instr_models::mulhw(inputs),
            Instr::MulHW_ => crate::instr_models::mulhw_(inputs),
            Instr::MulHWU => crate::instr_models::mulhwu(inputs),
            Instr::MulHWU_ => crate::instr_models::mulhwu_(inputs),
            Instr::MulLD => crate::instr_models::mulld(inputs),
            Instr::MulLDO => crate::instr_models::mulldo(inputs),
            Instr::MulLD_ => crate::instr_models::mulld_(inputs),
            Instr::MulLDO_ => crate::instr_models::mulldo_(inputs),
            Instr::MulHD => crate::instr_models::mulhd(inputs),
            Instr::MulHD_ => crate::instr_models::mulhd_(inputs),
            Instr::MulHDU => crate::instr_models::mulhdu(inputs),
            Instr::MulHDU_ => crate::instr_models::mulhdu_(inputs),
            Instr::MAddHD => crate::instr_models::maddhd(inputs),
            Instr::MAddHDU => crate::instr_models::maddhdu(inputs),
            Instr::MAddLD => crate::instr_models::maddld(inputs),
        }
    }

    /// The registers that the instruction reads, in the order in which its
    /// model reads them.
    pub fn get_used_input_registers(self) -> (registers: &'static [InstructionInputRegister])
        ensures
            registers@ == self.spec_used_input_registers(),
    {
        let registers: &'static [InstructionInputRegister] = match self {
            Instr::Add => &[Ra, Rb],
            Instr::AddO => &[Ra, Rb, Overflow],
            Instr::Add_ => &[Ra, Rb, Overflow],
            Instr::AddO_ => &[Ra, Rb, Overflow],
            Instr::SubF => &[Ra, Rb],
            Instr::SubFO => &[Ra, Rb, Overflow],
            Instr::SubF_ => &[Ra, Rb, Overflow],
            Instr::SubFO_ => &[Ra, Rb, Overflow],
            Instr::DivDE => &[Ra, Rb],
            Instr::DivDEO => &[Ra, Rb, Overflow],
            Instr::DivDE_ => &[Ra, Rb, Overflow],
            Instr::DivDEO_ => &[Ra, Rb, Overflow],
            Instr::DivDEU => &[Ra, Rb],
            Instr::DivDEUO => &[Ra, Rb, Overflow],
            Instr::DivDEU_ => &[Ra, Rb, Overflow],
            Instr::DivDEUO_ => &[Ra, Rb, Overflow],
            Instr::DivD => &[Ra, Rb],
            Instr::DivDO => &[Ra, Rb, Overflow],
            Instr::DivD_ => &[Ra, Rb, Overflow],
            Instr::DivDO_ => &[Ra, Rb, Overflow],
            Instr::DivDU => &[Ra, Rb],
            Instr::DivDUO => &[Ra, Rb, Overflow],
            Instr::DivDU_ => &[Ra, Rb, Overflow],
            Instr::DivDUO_ => &[Ra, Rb, Overflow],
            Instr::DivWE => &[Ra, Rb],
            Instr::DivWEO => &[Ra, Rb, Overflow],
            Instr::DivWE_ => &[Ra, Rb, Overflow],
            Instr::DivWEO_ => &[Ra, Rb, Overflow],
            Instr::DivWEU => &[Ra, Rb],
            Instr::DivWEUO => &[Ra, Rb, Overflow],
            Instr::DivWEU_ => &[Ra, Rb, Overflow],
            Instr::DivWEUO_ => &[Ra, Rb, Overflow],
            Instr::DivW => &[Ra, Rb],
            Instr::DivWO => &[Ra, Rb, Overflow],
            Instr::DivW_ => &[Ra, Rb, Overflow],
            Instr::DivWO_ => &[Ra, Rb, Overflow],
            Instr::DivWU => &[Ra, Rb],
            Instr::DivWUO => &[Ra, Rb, Overflow],
            Instr::DivWU_ => &[Ra, Rb, Overflow],
            Instr::DivWUO_ => &[Ra, Rb, Overflow],
            Instr::ModSD => &[Ra, Rb],
            Instr::ModUD => &[Ra, Rb],
            Instr::ModSW => &[Ra, Rb],
            Instr::ModUW => &[Ra, Rb],
            Instr::MulLW => &[Ra, Rb],
            Instr::MulLWO => &[Ra, Rb, Overflow],
            Instr::MulLW_ => &[Ra, Rb, Overflow],
            Instr::MulLWO_ => &[Ra, Rb, Overflow],
            Instr::MulHW => &[Ra, Rb],
            Instr::MulHW_ => &[Ra, Rb, Overflow],
            Instr::MulHWU => &[Ra, Rb],
            Instr::MulHWU_ => &[Ra, Rb, Overflow],
            Instr::MulLD => &[Ra, Rb],
            Instr::MulLDO => &[Ra, Rb, Overflow],
            Instr::MulLD_ => &[Ra, Rb, Overflow],
            Instr::MulLDO_ => &[Ra, Rb, Overflow],
            Instr::MulHD => &[Ra, Rb],
            Instr::MulHD_ => &[Ra, Rb, Overflow],
            Instr::MulHDU => &[Ra, Rb],
            Instr::MulHDU_ => &[Ra, Rb, Overflow],
            Instr::MAddHD => &[Ra, Rb, Rc],
            Instr::MAddHDU => &[Ra, Rb, Rc],
            Instr::MAddLD => &[Ra, Rb, Rc],
        };
        registers
    }

    /// The instruction's name in assembly.
    pub fn name(self) -> (name: &'static str)
        ensures
            name@ == self.spec_name(),
    {
        proof {
            self.lemma_spec_name();
        }
        match self {
            Instr::Add => "add",
            Instr::AddO => "addo",
            Instr::Add_ => "add.",
            Instr::AddO_ => "addo.",
            Instr::SubF => "subf",
            Instr::SubFO => "subfo",
            Instr::SubF_ => "subf.",
            Instr::SubFO_ => "subfo.",
            Instr::DivDE => "divde",
            Instr::DivDEO => "divdeo",
            Instr::DivDE_ => "divde.",
            Instr::DivDEO_ => "divdeo.",
            Instr::DivDEU => "divdeu",
            Instr::DivDEUO => "divdeuo",
            Instr::DivDEU_ => "divdeu.",
            Instr::DivDEUO_ => "divdeuo.",
            Instr::DivD => "divd",
            Instr::DivDO => "divdo",
            Instr::DivD_ => "divd.",
            Instr::DivDO_ => "divdo.",
            Instr::DivDU => "divdu",
            Instr::DivDUO => "divduo",
            Instr::DivDU_ => "divdu.",
            Instr::DivDUO_ => "divduo.",
            Instr::DivWE => "divwe",
            Instr::DivWEO => "divweo",
            Instr::DivWE_ => "divwe.",
            Instr::DivWEO_ => "divweo.",
            Instr::DivWEU => "divweu",
            Instr::DivWEUO => "divweuo",
            Instr::DivWEU_ => "divweu.",
            Instr::DivWEUO_ => "divweuo.",
            Instr::DivW => "divw",
            Instr::DivWO => "divwo",
            Instr::DivW_ => "divw.",
            Instr::DivWO_ => "divwo.",
            Instr::DivWU => "divwu",
            Instr::DivWUO => "divwuo",
            Instr::DivWU_ => "divwu.",
            Instr::DivWUO_ => "divwuo.",
            Instr::ModSD => "modsd",
            Instr::ModUD => "modud",
            Instr::ModSW => "modsw",
            Instr::ModUW => "moduw",
            Instr::MulLW => "mullw",
            Instr::MulLWO => "mullwo",
            Instr::MulLW_ => "mullw.",
            Instr::MulLWO_ => "mullwo.",
            Instr::MulHW => "mulhw",
            Instr::MulHW_ => "mulhw.",
            Instr::MulHWU => "mulhwu",
            Instr::MulHWU_ => "mulhwu.",
            Instr::MulLD => "mulld",
            Instr::MulLDO => "mulldo",
            Instr::MulLD_ => "mulld.",
            Instr::MulLDO_ => "mulldo.",
            Instr::MulHD => "mulhd",
            Instr::MulHD_ => "mulhd.",
            Instr::MulHDU => "mulhdu",
            Instr::MulHDU_ => "mulhdu.",
            Instr::MAddHD => "maddhd",
            Instr::MAddHDU => "maddhdu",
            Instr::MAddLD => "maddld",
        }
    }

    /// The instruction that has the assembly name `name`, if there is one.
    pub fn from_name(name: &str) -> (instr: Option<Instr>)
        ensures
            forall|named: Instr| instr == Some(named) <==> named.spec_name() == name@,
    {
        let wanted = String::from_str(name);
        let mut i: usize = 0;
        while i < 63
            invariant
                i <= 63,
                wanted@ == name@,
                forall|j: int| 0 <= j < i ==> (#[trigger] Instr::VALUES@[j]).spec_name() != name@,
            decreases 63 - i,
        {
            let candidate = Instr::VALUES[i];
            if String::from_str(candidate.name()) == wanted {
                proof {
                    assert forall|named: Instr| named.spec_name() == name@ implies named
                        == candidate by {
                        lemma_names_are_distinct(named, candidate);
                    }
                }
                return Some(candidate);
            }
            i = i + 1;
        }
        proof {
            assert forall|instr: Instr| instr.spec_name() != name@ by {
                lemma_values_lists_every_instr(instr);
            }
        }
        None
    }

    /// The name of each instruction, written out.
    proof fn lemma_spec_name(self)
        ensures
            self.spec_name() == (match self {
                Instr::Add => "add"@,
                Instr::AddO => "addo"@,
                Instr::Add_ => "add."@,
                Instr::AddO_ => "addo."@,
                Instr::SubF => "subf"@,
                Instr::SubFO => "subfo"@,
                Instr::SubF_ => "subf."@,
                Instr::SubFO_ => "subfo."@,
                Instr::DivDE => "divde"@,
                Instr::DivDEO => "divdeo"@,
                Instr::DivDE_ => "divde."@,
                Instr::DivDEO_ => "divdeo."@,
                Instr::DivDEU => "divdeu"@,
                Instr::DivDEUO => "divdeuo"@,
                Instr::DivDEU_ => "divdeu."@,
                Instr::DivDEUO_ => "divdeuo."@,
                Instr::DivD => "divd"@,
                Instr::DivDO => "divdo"@,
                Instr::DivD_ => "divd."@,
                Instr::DivDO_ => "divdo."@,
                Instr::DivDU => "divdu"@,
                Instr::DivDUO => "divduo"@,
                Instr::DivDU_ => "divdu."@,
                Instr::DivDUO_ => "divduo."@,
                Instr::DivWE => "divwe"@,
                Instr::DivWEO => "divweo"@,
                Instr::DivWE_ => "divwe."@,
                Instr::DivWEO_ => "divweo."@,
                Instr::DivWEU => "divweu"@,
                Instr::DivWEUO => "divweuo"@,
                Instr::DivWEU_ => "divweu."@,
                Instr::DivWEUO_ => "divweuo."@,
                Instr::DivW => "divw"@,
                Instr::DivWO => "divwo"@,
                Instr::DivW_ => "divw."@,
                Instr::DivWO_ => "divwo."@,
                Instr::DivWU => "divwu"@,
                Instr::DivWUO => "divwuo"@,
                Instr::DivWU_ => "divwu."@,
                Instr::DivWUO_ => "divwuo."@,
                Instr::ModSD => "modsd"@,
                Instr::ModUD => "modud"@,
                Instr::ModSW => "modsw"@,
                Instr::ModUW => "moduw"@,
                Instr::MulLW => "mullw"@,
                Instr::MulLWO => "mullwo"@,
                Instr::MulLW_ => "mullw."@,
                Instr::MulLWO_ => "mullwo."@,
                Instr::MulHW => "mulhw"@,
                Instr::MulHW_ => "mulhw."@,
                Instr::MulHWU => "mulhwu"@,
                Instr::MulHWU_ => "mulhwu."@,
                Instr::MulLD => "mulld"@,
                Instr::MulLDO => "mulldo"@,
                Instr::MulLD_ => "mulld."@,
                Instr::MulLDO_ => "mulldo."@,
                Instr::MulHD => "mulhd"@,
                Instr::MulHD_ => "mulhd."@,
                Instr::MulHDU => "mulhdu"@,
                Instr::MulHDU_ => "mulhdu."@,
                Instr::MAddHD => "maddhd"@,
                Instr::MAddHDU => "maddhdu"@,
                Instr::MAddLD => "maddld"@,
            }),
    {
        reveal_strlit("");
        reveal_strlit("o");
        reveal_strlit(".");
        reveal_strlit("o.");
        match self.operation() {
            Operation::Add => {
                reveal_strlit("add");
                reveal_strlit("addo");
                reveal_strlit("add.");
                reveal_strlit("addo.");
            },
            Operation::SubF => {
                reveal_strlit("subf");
                reveal_strlit("subfo");
                reveal_strlit("subf.");
                reveal_strlit("subfo.");
            },
            Operation::DivDE => {
                reveal_strlit("divde");
                reveal_strlit("divdeo");
                reveal_strlit("divde.");
                reveal_strlit("divdeo.");
            },
            Operation::DivDEU => {
                reveal_strlit("divdeu");
                reveal_strlit("divdeuo");
                reveal_strlit("divdeu.");
                reveal_strlit("divdeuo.");
            },
            Operation::DivD => {
                reveal_strlit("divd");
                reveal_strlit("divdo");
                reveal_strlit("divd.");
                reveal_strlit("divdo.");
            },
            Operation::DivDU => {
                reveal_strlit("divdu");
                reveal_strlit("divduo");
                reveal_strlit("divdu.");
                reveal_strlit("divduo.");
            },
            Operation::DivWE => {
                reveal_strlit("divwe");
                reveal_strlit("divweo");
                reveal_strlit("divwe.");
                reveal_strlit("divweo.");
            },
            Operation::DivWEU => {
                reveal_strlit("divweu");
                reveal_strlit("divweuo");
                reveal_strlit("divweu.");
                reveal_strlit("divweuo.");
            },
            Operation::DivW => {
                reveal_strlit("divw");
                reveal_strlit("divwo");
                reveal_strlit("divw.");
                reveal_strlit("divwo.");
            },
            Operation::DivWU => {
                reveal_strlit("divwu");
                reveal_strlit("divwuo");
                reveal_strlit("divwu.");
                reveal_strlit("divwuo.");
            },
            Operation::ModSD => {
                reveal_strlit("modsd");
            },
            Operation::ModUD => {
                reveal_strlit("modud");
            },
            Operation::ModSW => {
                reveal_strlit("modsw");
            },
            Operation::ModUW => {
                reveal_strlit("moduw");
            },
            Operation::MulLW => {
                reveal_strlit("mullw");
                reveal_strlit("mullwo");
                reveal_strlit("mullw.");
                reveal_strlit("mullwo.");
            },
            Operation::MulHW => {
                reveal_strlit("mulhw");
                reveal_strlit("mulhw.");
            },
            Operation::MulHWU => {
                reveal_strlit("mulhwu");
                reveal_strlit("mulhwu.");
            },
            Operation::MulLD => {
                reveal_strlit("mulld");
                reveal_strlit("mulldo");
                reveal_strlit("mulld.");
                reveal_strlit("mulldo.");
            },
            Operation::MulHD => {
                reveal_strlit("mulhd");
                reveal_strlit("mulhd.");
            },
            Operation::MulHDU => {
                reveal_strlit("mulhdu");
                reveal_strlit("mulhdu.");
            },
            Operation::MAddHD => {
                reveal_strlit("maddhd");
            },
            Operation::MAddHDU => {
                reveal_strlit("maddhdu");
            },
            Operation::MAddLD => {
                reveal_strlit("maddld");
            },
        }
    }

    /// What tells the names of the instructions apart: their length and
    /// their fourth to seventh characters, a space standing for a character
    /// that a name is too short to have.
    proof fn lemma_name_fingerprint(self)
        ensures
            name_fingerprint(self.spec_name()) == (match self {
                Instr::Add => (3nat, ' ', ' ', ' ', ' '),
                Instr::AddO => (4nat, 'o', ' ', ' ', ' '),
                Instr::Add_ => (4nat, '.', ' ', ' ', ' '),
                Instr::AddO_ => (5nat, 'o', '.', ' ', ' '),
                Instr::SubF => (4nat, 'f', ' ', ' ', ' '),
                Instr::SubFO => (5nat, 'f', 'o', ' ', ' '),
                Instr::SubF_ => (5nat, 'f', '.', ' ', ' '),
                Instr::SubFO_ => (6nat, 'f', 'o', '.', ' '),
                Instr::DivDE => (5nat, 'd', 'e', ' ', ' '),
                Instr::DivDEO => (6nat, 'd', 'e', 'o', ' '),
                Instr::DivDE_ => (6nat, 'd', 'e', '.', ' '),
                Instr::DivDEO_ => (7nat, 'd', 'e', 'o', '.'),
                Instr::DivDEU => (6nat, 'd', 'e', 'u', ' '),
                Instr::DivDEUO => (7nat, 'd', 'e', 'u', 'o'),
                Instr::DivDEU_ => (7nat, 'd', 'e', 'u', '.'),
                Instr::DivDEUO_ => (8nat, 'd', 'e', 'u', 'o'),
                Instr::DivD => (4nat, 'd', ' ', ' ', ' '),
                Instr::DivDO => (5nat, 'd', 'o', ' ', ' '),
                Instr::DivD_ => (5nat, 'd', '.', ' ', ' '),
                Instr::DivDO_ => (6nat, 'd', 'o', '.', ' '),
                Instr::DivDU => (5nat, 'd', 'u', ' ', ' '),
                Instr::DivDUO => (6nat, 'd', 'u', 'o', ' '),
                Instr::DivDU_ => (6nat, 'd', 'u', '.', ' '),
                Instr::DivDUO_ => (7nat, 'd', 'u', 'o', '.'),
                Instr::DivWE => (5nat, 'w', 'e', ' ', ' '),
                Instr::DivWEO => (6nat, 'w', 'e', 'o', ' '),
                Instr::DivWE_ => (6nat, 'w', 'e', '.', ' '),
                Instr::DivWEO_ => (7nat, 'w', 'e', 'o', '.'),
                Instr::DivWEU => (6nat, 'w', 'e', 'u', ' '),
                Instr::DivWEUO => (7nat, 'w', 'e', 'u', 'o'),
                Instr::DivWEU_ => (7nat, 'w', 'e', 'u', '.'),
                Instr::DivWEUO_ => (8nat, 'w', 'e', 'u', 'o'),
                Instr::DivW => (4nat, 'w', ' ', ' ', ' '),
                Instr::DivWO => (5nat, 'w', 'o', ' ', ' '),
                Instr::DivW_ => (5nat, 'w', '.', ' ', ' '),
                Instr::DivWO_ => (6nat, 'w', 'o', '.', ' '),
                Instr::DivWU => (5nat, 'w', 'u', ' ', ' '),
                Instr::DivWUO => (6nat, 'w', 'u', 'o', ' '),
                Instr::DivWU_ => (6nat, 'w', 'u', '.', ' '),
                Instr::DivWUO_ => (7nat, 'w', 'u', 'o', '.'),
                Instr::ModSD => (5nat, 's', 'd', ' ', ' '),
                Instr::ModUD => (5nat, 'u', 'd', ' ', ' '),
                Instr::ModSW => (5nat, 's', 'w', ' ', ' '),
                Instr::ModUW => (5nat, 'u', 'w', ' ', ' '),
                Instr::MulLW => (5nat, 'l', 'w', ' ', ' '),
                Instr::MulLWO => (6nat, 'l', 'w', 'o', ' '),
                Instr::MulLW_ => (6nat, 'l', 'w', '.', ' '),
                Instr::MulLWO_ => (7nat, 'l', 'w', 'o', '.'),
                Instr::MulHW => (5nat, 'h', 'w', ' ', ' '),
                Instr::MulHW_ => (6nat, 'h', 'w', '.', ' '),
                Instr::MulHWU => (6nat, 'h', 'w', 'u', ' '),
                Instr::MulHWU_ => (7nat, 'h', 'w', 'u', '.'),
                Instr::MulLD => (5nat, 'l', 'd', ' ', ' '),
                Instr::MulLDO => (6nat, 'l', 'd', 'o', ' '),
                Instr::MulLD_ => (6nat, 'l', 'd', '.', ' '),
                Instr::MulLDO_ => (7nat, 'l', 'd', 'o', '.'),
                Instr::MulHD => (5nat, 'h', 'd', ' ', ' '),
                Instr::MulHD_ => (6nat, 'h', 'd', '.', ' '),
                Instr::MulHDU => (6nat, 'h', 'd', 'u', ' '),
                Instr::MulHDU_ => (7nat, 'h', 'd', 'u', '.'),
                Instr::MAddHD => (6nat, 'd', 'h', 'd', ' '),
                Instr::MAddHDU => (7nat, 'd', 'h', 'd', 'u'),
                Instr::MAddLD => (6nat, 'd', 'l', 'd', ' '),
            }),
    {
        self.lemma_spec_name();
        match self {
            Instr::Add => reveal_strlit("add"),
            Instr::AddO => reveal_strlit("addo"),
            Instr::Add_ => reveal_strlit("add."),
            Instr::AddO_ => reveal_strlit("addo."),
            Instr::SubF => reveal_strlit("subf"),
            Instr::SubFO => reveal_strlit("subfo"),
            Instr::SubF_ => reveal_strlit("subf."),
            Instr::SubFO_ => reveal_strlit("subfo."),
            Instr::DivDE => reveal_strlit("divde"),
            Instr::DivDEO => reveal_strlit("divdeo"),
            Instr::DivDE_ => reveal_strlit("divde."),
            Instr::DivDEO_ => reveal_strlit("divdeo."),
            Instr::DivDEU => reveal_strlit("divdeu"),
            Instr::DivDEUO => reveal_strlit("divdeuo"),
            Instr::DivDEU_ => reveal_strlit("divdeu."),
            Instr::DivDEUO_ => reveal_strlit("divdeuo."),
            Instr::DivD => reveal_strlit("divd"),
            Instr::DivDO => reveal_strlit("divdo"),
            Instr::DivD_ => reveal_strlit("divd."),
            Instr::DivDO_ => reveal_strlit("divdo."),
            Instr::DivDU => reveal_strlit("divdu"),
            Instr::DivDUO => reveal_strlit("divduo"),
            Instr::DivDU_ => reveal_strlit("divdu."),
            Instr::DivDUO_ => reveal_strlit("divduo."),
            Instr::DivWE => reveal_strlit("divwe"),
            Instr::DivWEO => reveal_strlit("divweo"),
            Instr::DivWE_ => reveal_strlit("divwe."),
            Instr::DivWEO_ => reveal_strlit("divweo."),
            Instr::DivWEU => reveal_strlit("divweu"),
            Instr::DivWEUO => reveal_strlit("divweuo"),
            Instr::DivWEU_ => reveal_strlit("divweu."),
            Instr::DivWEUO_ => reveal_strlit("divweuo."),
            Instr::DivW => reveal_strlit("divw"),
            Instr::DivWO => reveal_strlit("divwo"),
            Instr::DivW_ => reveal_strlit("divw."),
            Instr::DivWO_ => reveal_strlit("divwo."),
            Instr::DivWU => reveal_strlit("divwu"),
            Instr::DivWUO => reveal_strlit("divwuo"),
            Instr::DivWU_ => reveal_strlit("divwu."),
            Instr::DivWUO_ => reveal_strlit("divwuo."),
            Instr::ModSD => reveal_strlit("modsd"),
            Instr::ModUD => reveal_strlit("modud"),
            Instr::ModSW => reveal_strlit("modsw"),
            Instr::ModUW => reveal_strlit("moduw"),
            Instr::MulLW => reveal_strlit("mullw"),
            Instr::MulLWO => reveal_strlit("mullwo"),
            Instr::MulLW_ => reveal_strlit("mullw."),
            Instr::MulLWO_ => reveal_strlit("mullwo."),
            Instr::MulHW => reveal_strlit("mulhw"),
            Instr::MulHW_ => reveal_strlit("mulhw."),
            Instr::MulHWU => reveal_strlit("mulhwu"),
            Instr::MulHWU_ => reveal_strlit("mulhwu."),
            Instr::MulLD => reveal_strlit("mulld"),
            Instr::MulLDO => reveal_strlit("mulldo"),
            Instr::MulLD_ => reveal_strlit("mulld."),
            Instr::MulLDO_ => reveal_strlit("mulldo."),
            Instr::MulHD => reveal_strlit("mulhd"),
            Instr::MulHD_ => reveal_strlit("mulhd."),
            Instr::MulHDU => reveal_strlit("mulhdu"),
            Instr::MulHDU_ => reveal_strlit("mulhdu."),
            Instr::MAddHD => reveal_strlit("maddhd"),
            Instr::MAddHDU => reveal_strlit("maddhdu"),
            Instr::MAddLD => reveal_strlit("maddld"),
        }
    }
}

/// The length of a name and its fourth to seventh characters.
spec fn name_fingerprint(name: Seq<char>) -> (nat, char, char, char, char) {
    (
        name.len(),
        char_or_space(name, 3),
        char_or_space(name, 4),
        char_or_space(name, 5),
        char_or_space(name, 6),
    )
}

/// The character of `name` at `index`, or a space where it has none.
spec fn char_or_space(name: Seq<char>, index: int) -> char {
    if 0 <= index < name.len() {
        name[index]
    } else {
        ' '
    }
}

/// `VALUES` lists every instruction exactly once.
pub proof fn lemma_values_lists_every_instr(instr: Instr)
    ensures
        0 <= instr.index() < Instr::VALUES@.len(),
        Instr::VALUES@[instr.index()] == instr,
        forall|i: int|
            0 <= i < Instr::VALUES@.len() ==> (#[trigger] Instr::VALUES@[i]).index() == i,
{
}

/// Every instruction performs its operation in a form that the operation
/// comes in.
pub proof fn lemma_instr_has_form(instr: Instr)
    ensures
        instr.operation().has_form(instr.form()),
{
}

/// The registry is consistent with the models: an instruction's model fails
/// if and only if the inputs lack one of the registers that the registry
/// declares for it, and then the error names such a register.
pub proof fn lemma_registry_matches_model(instr: Instr, inputs: InstructionInput)
    ensures
        instr.spec_model(inputs) is Err <==> exists|i: int|
            0 <= i < instr.spec_used_input_registers().len() && !inputs.has(
                #[trigger] instr.spec_used_input_registers()[i],
            ),
        instr.spec_model(inputs) matches Err(error) ==> instr.spec_used_input_registers().contains(
            error.input,
        ) && !inputs.has(error.input),
{
    inputs.lemma_first_missing(instr.spec_used_input_registers());
}

/// No two instructions have the same name, so `from_name` gives back the
/// instruction whose name it is handed.
pub proof fn lemma_names_are_distinct(a: Instr, b: Instr)
    requires
        a.spec_name() == b.spec_name(),
    ensures
        a == b,
{
    a.lemma_name_fingerprint();
    b.lemma_name_fingerprint();
}

/// No instruction is declared to read a register twice.
pub proof fn lemma_used_input_registers_are_distinct(instr: Instr)
    ensures
        forall|i: int, j: int|
            0 <= i < j < instr.spec_used_input_registers().len()
                ==> instr.spec_used_input_registers()[i] != instr.spec_used_input_registers()[j],
{
}

/// The instructions that perform one operation in its four forms agree on
/// the result register. The condition field of the dot forms is the
/// comparison of that result with zero, next to the summary overflow that
/// the O form leaves; the overflow flags of the O-dot form are those of the
/// O form, and the plain and the dot form write none.
pub proof fn lemma_forms_of_an_operation_agree(
    plain: Instr,
    o: Instr,
    dot: Instr,
    o_dot: Instr,
    inputs: InstructionInput,
)
    requires
        plain.form() is Plain,
        o.form() is O,
        dot.form() is Dot,
        o_dot.form() is ODot,
        plain.operation() == o.operation(),
        dot.operation() == o.operation(),
        o_dot.operation() == o.operation(),
        o.spec_model(inputs) is Ok,
    ensures
        plain.spec_model(inputs) is Ok,
        dot.spec_model(inputs) is Ok,
        o_dot.spec_model(inputs) is Ok,
        o.spec_model(inputs).unwrap().rt is Some,
        o.spec_model(inputs).unwrap().overflow is Some,
        plain.spec_model(inputs).unwrap().rt == o.spec_model(inputs).unwrap().rt,
        dot.spec_model(inputs).unwrap().rt == o.spec_model(inputs).unwrap().rt,
        o_dot.spec_model(inputs).unwrap().rt == o.spec_model(inputs).unwrap().rt,
        dot.spec_model(inputs).unwrap().cr0 == Some(
            ConditionRegister::spec_from_signed_int(
                signed64(o.spec_model(inputs).unwrap().rt.unwrap()),
                o.spec_model(inputs).unwrap().overflow.unwrap().so,
            ),
        ),
        o_dot.spec_model(inputs).unwrap().cr0 == dot.spec_model(inputs).unwrap().cr0,
        o_dot.spec_model(inputs).unwrap().overflow == o.spec_model(inputs).unwrap().overflow,
        plain.spec_model(inputs).unwrap().overflow is None,
        dot.spec_model(inputs).unwrap().overflow is None,
{
    lemma_forms_agree(o.operation(), inputs);
}

/// The summary overflow is sticky: an instruction that writes the overflow
/// flags and is handed a set summary overflow leaves it set, whether or not
/// its own operation overflowed.
pub proof fn lemma_instr_keeps_summary_overflow(instr: Instr, inputs: InstructionInput)
    requires
        instr.form().writes_overflow(),
        inputs.overflow is Some,
        inputs.overflow.unwrap().so,
        instr.spec_model(inputs) is Ok,
    ensures
        instr.spec_model(inputs).unwrap().overflow is Some,
        instr.spec_model(inputs).unwrap().overflow.unwrap().so,
{
    lemma_summary_overflow_is_sticky(instr.operation(), instr.form(), inputs);
}

/// `mulhd` and `mulhdu` give the same output when `ra` and `rb` change
/// places.
pub proof fn lemma_multiply_high_doubleword_commutes(a: u64, b: u64, inputs: InstructionInput)
    ensures
        Instr::MulHD.spec_model(InstructionInput { ra: Some(a), rb: Some(b), ..inputs })
            == Instr::MulHD.spec_model(InstructionInput { ra: Some(b), rb: Some(a), ..inputs }),
        Instr::MulHDU.spec_model(InstructionInput { ra: Some(a), rb: Some(b), ..inputs })
            == Instr::MulHDU.spec_model(InstructionInput { ra: Some(b), rb: Some(a), ..inputs }),
{
    lemma_multiply_high_commutes(a, b, inputs);
}

} // verus!
