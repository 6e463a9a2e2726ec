use power_instruction_analyzer::instr_models::{
    add, add_, addo, addo_, divd, divd_, divde, divde_, divdeo, divdeo_, divdeu, divdeu_, divdeuo,
    divdeuo_, divdo, divdo_, divdu, divdu_, divduo, divduo_, divw, divw_, divwe, divwe_, divweo,
    divweo_, divweu, divweu_, divweuo, divweuo_, divwo, divwo_, divwu, divwu_, divwuo, divwuo_,
    maddhd, maddhdu, maddld, modsd, modsw, modud, moduw, mulhd, mulhd_, mulhdu, mulhdu_, mulhw,
    mulhw_, mulhwu, mulhwu_, mulld, mulld_, mulldo, mulldo_, mullw, mullw_, mullwo, mullwo_, subf,
    subf_, subfo, subfo_,
};
use power_instruction_analyzer::{
    CarryFlags, Instr, InstructionInput, InstructionInputRegister, InstructionResult,
    OverflowFlags,
};

type Model = fn(InstructionInput) -> InstructionResult;

const REGISTRY: [(Instr, &str, Model); 63] = [
    (Instr::Add, "add", add),
    (Instr::AddO, "addo", addo),
    (Instr::Add_, "add.", add_),
    (Instr::AddO_, "addo.", addo_),
    (Instr::SubF, "subf", subf),
    (Instr::SubFO, "subfo", subfo),
    (Instr::SubF_, "subf.", subf_),
    (Instr::SubFO_, "subfo.", subfo_),
    (Instr::DivDE, "divde", divde),
    (Instr::DivDEO, "divdeo", divdeo),
    (Instr::DivDE_, "divde.", divde_),
    (Instr::DivDEO_, "divdeo.", divdeo_),
    (Instr::DivDEU, "divdeu", divdeu),
    (Instr::DivDEUO, "divdeuo", divdeuo),
    (Instr::DivDEU_, "divdeu.", divdeu_),
    (Instr::DivDEUO_, "divdeuo.", divdeuo_),
    (Instr::DivD, "divd", divd),
    (Instr::DivDO, "divdo", divdo),
    (Instr::DivD_, "divd.", divd_),
    (Instr::DivDO_, "divdo.", divdo_),
    (Instr::DivDU, "divdu", divdu),
    (Instr::DivDUO, "divduo", divduo),
    (Instr::DivDU_, "divdu.", divdu_),
    (Instr::DivDUO_, "divduo.", divduo_),
    (Instr::DivWE, "divwe", divwe),
    (Instr::DivWEO, "divweo", divweo),
    (Instr::DivWE_, "divwe.", divwe_),
    (Instr::DivWEO_, "divweo.", divweo_),
    (Instr::DivWEU, "divweu", divweu),
    (Instr::DivWEUO, "divweuo", divweuo),
    (Instr::DivWEU_, "divweu.", divweu_),
    (Instr::DivWEUO_, "divweuo.", divweuo_),
    (Instr::DivW, "divw", divw),
    (Instr::DivWO, "divwo", divwo),
    (Instr::DivW_, "divw.", divw_),
    (Instr::DivWO_, "divwo.", divwo_),
    (Instr::DivWU, "divwu", divwu),
    (Instr::DivWUO, "divwuo", divwuo),
    (Instr::DivWU_, "divwu.", divwu_),
    (Instr::DivWUO_, "divwuo.", divwuo_),
    (Instr::ModSD, "modsd", modsd),
    (Instr::ModUD, "modud", modud),
    (Instr::ModSW, "modsw", modsw),
    (Instr::ModUW, "moduw", moduw),
    (Instr::MulLW, "mullw", mullw),
    (Instr::MulLWO, "mullwo", mullwo),
    (Instr::MulLW_, "mullw.", mullw_),
    (Instr::MulLWO_, "mullwo.", mullwo_),
    (Instr::MulHW, "mulhw", mulhw),
    (Instr::MulHW_, "mulhw.", mulhw_),
    (Instr::MulHWU, "mulhwu", mulhwu),
    (Instr::MulHWU_, "mulhwu.", mulhwu_),
    (Instr::MulLD, "mulld", mulld),
    (Instr::MulLDO, "mulldo", mulldo),
    (Instr::MulLD_, "mulld.", mulld_),
    (Instr::MulLDO_, "mulldo.", mulldo_),
    (Instr::MulHD, "mulhd", mulhd),
    (Instr::MulHD_, "mulhd.", mulhd_),
    (Instr::MulHDU, "mulhdu", mulhdu),
    (Instr::MulHDU_, "mulhdu.", mulhdu_),
    (Instr::MAddHD, "maddhd", maddhd),
    (Instr::MAddHDU, "maddhdu", maddhdu),
    (Instr::MAddLD, "maddld", maddld),
];

#[test]
fn values_lists_every_instruction_once_in_registry_order() {
    assert_eq!(Instr::VALUES.len(), 63);
    for (index, (instr, _, _)) in REGISTRY.iter().enumerate() {
        assert_eq!(Instr::VALUES[index], *instr);
    }
    for (i, a) in Instr::VALUES.iter().enumerate() {
        for (j, b) in Instr::VALUES.iter().enumerate() {
            assert_eq!(a == b, i == j);
        }
    }
}

#[test]
fn instructions_have_their_assembly_names() {
    for (instr, name, _) in REGISTRY {
        assert_eq!(instr.name(), name);
    }
}

#[test]
fn instruction_names_are_distinct() {
    for (i, a) in Instr::VALUES.iter().enumerate() {
        for (j, b) in Instr::VALUES.iter().enumerate() {
            assert_eq!(a.name() == b.name(), i == j);
        }
    }
}

#[test]
fn used_input_registers_follow_the_form_of_the_instruction() {
    let ra = InstructionInputRegister::Ra;
    let rb = InstructionInputRegister::Rb;
    let rc = InstructionInputRegister::Rc;
    let overflow = InstructionInputRegister::Overflow;
    assert_eq!(Instr::Add.get_used_input_registers(), [ra, rb]);
    assert_eq!(Instr::AddO.get_used_input_registers(), [ra, rb, overflow]);
    assert_eq!(Instr::Add_.get_used_input_registers(), [ra, rb, overflow]);
    assert_eq!(Instr::AddO_.get_used_input_registers(), [ra, rb, overflow]);
    assert_eq!(Instr::ModSD.get_used_input_registers(), [ra, rb]);
    assert_eq!(Instr::MulHW.get_used_input_registers(), [ra, rb]);
    assert_eq!(Instr::MulHW_.get_used_input_registers(), [ra, rb, overflow]);
    assert_eq!(Instr::MAddHD.get_used_input_registers(), [ra, rb, rc]);
    assert_eq!(Instr::MAddHDU.get_used_input_registers(), [ra, rb, rc]);
    assert_eq!(Instr::MAddLD.get_used_input_registers(), [ra, rb, rc]);
    for instr in Instr::VALUES {
        let registers = instr.get_used_input_registers();
        let name = instr.name();
        let reads_overflow = name.ends_with('.') || name.ends_with('o');
        let reads_rc = name.starts_with("madd");
        let mut expected = vec![ra, rb];
        if reads_rc {
            expected.push(rc);
        }
        if reads_overflow {
            expected.push(overflow);
        }
        assert_eq!(registers, expected.as_slice(), "{}", name);
        assert!(!registers.contains(&InstructionInputRegister::Carry));
    }
}

#[test]
fn model_runs_the_model_of_the_instruction() {
    let mut all_inputs = Vec::new();
    for ra in [0u64, 7, 0x8000_0000_0000_0000, 0x1234_5678_FFFF_FFFF, u64::MAX] {
        for rb in [0u64, 2, 0x7FFF_FFFF_FFFF_FFFF, 0x1234_5678_8000_0000, u64::MAX] {
            for so in [false, true] {
                all_inputs.push(InstructionInput {
                    ra: Some(ra),
                    rb: Some(rb),
                    rc: Some(0x1234_5678_7FFF_FFFF),
                    carry: Some(CarryFlags { ca: false, ca32: true }),
                    overflow: Some(OverflowFlags { so, ov: false, ov32: true }),
                });
            }
        }
    }
    all_inputs.push(InstructionInput::default());
    all_inputs.push(InstructionInput { ra: Some(1), rb: Some(2), ..InstructionInput::default() });
    for (instr, name, model) in REGISTRY {
        for inputs in &all_inputs {
            assert_eq!(instr.model(*inputs), model(*inputs), "{}", name);
        }
    }
}

#[test]
fn from_name_finds_every_instruction_by_its_name() {
    for (instr, name, _) in REGISTRY {
        assert_eq!(Instr::from_name(name), Some(instr));
        assert_eq!(Instr::from_name(instr.name()), Some(instr));
    }
}

#[test]
fn from_name_knows_no_other_name() {
    let unknown = [
        "", " ", ".", "o", "o.", "ADD", "Add", "add ", " add", "add..", "addo_", "add_", "addoo",
        "addc", "addco", "subfc", "modsd.", "modsdo", "maddld.", "mulhwo", "mulhdo.", "divdeux",
        "mul", "div", "divd\u{0}",
    ];
    for name in unknown {
        assert_eq!(Instr::from_name(name), None, "{:?}", name);
    }
}
