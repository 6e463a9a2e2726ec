use power_instruction_analyzer::harness::TEST_VALUES;
use power_instruction_analyzer::instr_models::{
    add, add_, addo, addo_, divd, divd_, divde, divde_, divdeo, divdeo_, divdeu, divdeu_, divdeuo,
    divdeuo_, divdo, divdo_, divdu, divdu_, divduo, divduo_, divw, divw_, divwe, divwe_, divweo,
    divweo_, divweu, divweu_, divweuo, divweuo_, divwo, divwo_, divwu, divwu_, divwuo, divwuo_,
    mulhd, mulhd_, mulhdu, mulhdu_, mulhw, mulhw_, mulhwu, mulhwu_, mulld, mulld_, mulldo,
    mulldo_, mullw, mullw_, mullwo, mullwo_, propagate_so, subf, subf_, subfo, subfo_,
};
use power_instruction_analyzer::{
    CarryFlags, ConditionRegister, Instr, InstructionInput, InstructionInputRegister,
    InstructionOutput, InstructionResult, MissingInstructionInput, OverflowFlags,
};

type Model = fn(InstructionInput) -> InstructionResult;

const OVERFLOW_FAMILIES: [(Model, Model, Model, Model); 12] = [
    (add, addo, add_, addo_),
    (subf, subfo, subf_, subfo_),
    (divde, divdeo, divde_, divdeo_),
    (divdeu, divdeuo, divdeu_, divdeuo_),
    (divd, divdo, divd_, divdo_),
    (divdu, divduo, divdu_, divduo_),
    (divwe, divweo, divwe_, divweo_),
    (divweu, divweuo, divweu_, divweuo_),
    (divw, divwo, divw_, divwo_),
    (divwu, divwuo, divwu_, divwuo_),
    (mullw, mullwo, mullw_, mullwo_),
    (mulld, mulldo, mulld_, mulldo_),
];

const CONDITION_ONLY_FAMILIES: [(Model, Model); 4] =
    [(mulhw, mulhw_), (mulhwu, mulhwu_), (mulhd, mulhd_), (mulhdu, mulhdu_)];

fn all_overflow_flags() -> Vec<OverflowFlags> {
    let mut all = Vec::new();
    for so in [false, true] {
        for ov in [false, true] {
            for ov32 in [false, true] {
                all.push(OverflowFlags { so, ov, ov32 });
            }
        }
    }
    all
}

fn has(inputs: InstructionInput, register: InstructionInputRegister) -> bool {
    match register {
        InstructionInputRegister::Ra => inputs.ra.is_some(),
        InstructionInputRegister::Rb => inputs.rb.is_some(),
        InstructionInputRegister::Rc => inputs.rc.is_some(),
        InstructionInputRegister::Carry => inputs.carry.is_some(),
        InstructionInputRegister::Overflow => inputs.overflow.is_some(),
    }
}

#[test]
fn missing_input_fires_exactly_where_a_declared_register_is_absent() {
    for instr in Instr::VALUES {
        let declared = instr.get_used_input_registers();
        for subset in 0..32u32 {
            let inputs = InstructionInput {
                ra: if subset & 1 != 0 { Some(0x1234_5678_8000_0001) } else { None },
                rb: if subset & 2 != 0 { Some(0x7FFF_FFFF_FFFF_FFFE) } else { None },
                rc: if subset & 4 != 0 { Some(0xFFFF_FFFF_FFFF_FFFF) } else { None },
                carry: if subset & 8 != 0 { Some(CarryFlags { ca: true, ca32: false }) } else { None },
                overflow: if subset & 16 != 0 {
                    Some(OverflowFlags { so: false, ov: true, ov32: false })
                } else {
                    None
                },
            };
            let first_missing = declared.iter().copied().find(|register| !has(inputs, *register));
            match instr.model(inputs) {
                Ok(_) => assert_eq!(first_missing, None, "{} {:?}", instr.name(), inputs),
                Err(error) => assert_eq!(
                    Some(error.input),
                    first_missing,
                    "{} {:?}",
                    instr.name(),
                    inputs
                ),
            }
        }
    }
}

#[test]
fn missing_input_names_the_first_register_read() {
    let none = InstructionInput::default();
    let ra = InstructionInputRegister::Ra;
    let rb = InstructionInputRegister::Rb;
    let rc = InstructionInputRegister::Rc;
    let overflow = InstructionInputRegister::Overflow;
    assert_eq!(addo(none), Err(MissingInstructionInput { input: ra }));
    assert_eq!(
        addo(InstructionInput { ra: Some(1), ..none }),
        Err(MissingInstructionInput { input: rb })
    );
    assert_eq!(
        addo(InstructionInput { ra: Some(1), rb: Some(2), ..none }),
        Err(MissingInstructionInput { input: overflow })
    );
    assert_eq!(
        addo(InstructionInput { rb: Some(2), overflow: Some(OverflowFlags::default()), ..none }),
        Err(MissingInstructionInput { input: ra })
    );
    assert_eq!(
        Instr::MAddHD.model(InstructionInput { ra: Some(1), rb: Some(2), ..none }),
        Err(MissingInstructionInput { input: rc })
    );
    assert_eq!(
        mulhw_(InstructionInput { ra: Some(1), rb: Some(2), ..none }),
        Err(MissingInstructionInput { input: overflow })
    );
    assert_eq!(
        add_(InstructionInput { ra: Some(1), rb: Some(2), ..none }),
        Err(MissingInstructionInput { input: overflow })
    );
    assert_eq!(
        addo_(InstructionInput { ra: Some(1), rb: Some(2), ..none }),
        Err(MissingInstructionInput { input: overflow })
    );
    assert!(add(InstructionInput { ra: Some(1), rb: Some(2), ..none }).is_ok());
}

#[test]
fn the_four_forms_of_an_operation_agree() {
    for (plain, o, dot, o_dot) in OVERFLOW_FAMILIES {
        for ra in TEST_VALUES {
            for rb in TEST_VALUES {
                for overflow in all_overflow_flags() {
                    let inputs = InstructionInput {
                        ra: Some(ra),
                        rb: Some(rb),
                        overflow: Some(overflow),
                        ..InstructionInput::default()
                    };
                    let o_output = o(inputs).unwrap();
                    let plain_output = plain(inputs).unwrap();
                    let dot_output = dot(inputs).unwrap();
                    let o_dot_output = o_dot(inputs).unwrap();
                    let rt = o_output.rt.unwrap();
                    let so = o_output.overflow.unwrap().so;
                    let cr0 = ConditionRegister::from_signed_int(rt as i64, so);
                    assert_eq!(
                        plain_output,
                        InstructionOutput { rt: Some(rt), ..InstructionOutput::default() }
                    );
                    assert_eq!(
                        dot_output,
                        InstructionOutput {
                            rt: Some(rt),
                            cr0: Some(cr0),
                            ..InstructionOutput::default()
                        }
                    );
                    assert_eq!(
                        o_dot_output,
                        InstructionOutput {
                            rt: Some(rt),
                            overflow: o_output.overflow,
                            cr0: Some(cr0),
                            ..InstructionOutput::default()
                        }
                    );
                    assert_eq!(o_output.cr0, None);
                }
            }
        }
    }
}

#[test]
fn plain_forms_do_not_depend_on_the_overflow_flags() {
    for (plain, _, _, _) in OVERFLOW_FAMILIES {
        for ra in TEST_VALUES {
            for rb in TEST_VALUES {
                let bare =
                    InstructionInput { ra: Some(ra), rb: Some(rb), ..InstructionInput::default() };
                let expected = plain(bare);
                for overflow in all_overflow_flags() {
                    let inputs = InstructionInput { overflow: Some(overflow), ..bare };
                    assert_eq!(plain(inputs), expected);
                }
            }
        }
    }
}

#[test]
fn condition_only_dot_forms_agree_with_their_plain_forms() {
    for (plain, dot) in CONDITION_ONLY_FAMILIES {
        for ra in TEST_VALUES {
            for rb in TEST_VALUES {
                for overflow in all_overflow_flags() {
                    let inputs = InstructionInput {
                        ra: Some(ra),
                        rb: Some(rb),
                        overflow: Some(overflow),
                        ..InstructionInput::default()
                    };
                    let rt = plain(inputs).unwrap().rt.unwrap();
                    assert_eq!(
                        dot(inputs),
                        Ok(InstructionOutput {
                            rt: Some(rt),
                            cr0: Some(ConditionRegister::from_signed_int(rt as i64, overflow.so)),
                            ..InstructionOutput::default()
                        })
                    );
                }
            }
        }
    }
}

#[test]
fn word_multiply_high_compares_alike_as_a_word_and_as_a_doubleword() {
    for model in [mulhw_ as Model, mulhwu_ as Model] {
        for ra in TEST_VALUES {
            for rb in TEST_VALUES {
                let inputs = InstructionInput {
                    ra: Some(ra),
                    rb: Some(rb),
                    overflow: Some(OverflowFlags::default()),
                    ..InstructionInput::default()
                };
                let output = model(inputs).unwrap();
                let rt = output.rt.unwrap();
                assert_eq!(
                    output.cr0,
                    Some(ConditionRegister::from_signed_int(i64::from(rt as i32), false))
                );
            }
        }
    }
}

#[test]
fn summary_overflow_is_sticky() {
    for (_, o, dot, o_dot) in OVERFLOW_FAMILIES {
        for ra in TEST_VALUES {
            for rb in TEST_VALUES {
                for ov in [false, true] {
                    for ov32 in [false, true] {
                        let inputs = InstructionInput {
                            ra: Some(ra),
                            rb: Some(rb),
                            overflow: Some(OverflowFlags { so: true, ov, ov32 }),
                            ..InstructionInput::default()
                        };
                        assert!(o(inputs).unwrap().overflow.unwrap().so);
                        assert!(o_dot(inputs).unwrap().overflow.unwrap().so);
                        assert!(o_dot(inputs).unwrap().cr0.unwrap().so);
                        assert!(dot(inputs).unwrap().cr0.unwrap().so);
                    }
                }
            }
        }
    }
}

#[test]
fn summary_overflow_is_set_by_an_overflow_and_otherwise_kept() {
    for (_, o, _, _) in OVERFLOW_FAMILIES {
        for ra in TEST_VALUES {
            for rb in TEST_VALUES {
                for incoming in all_overflow_flags() {
                    let inputs = InstructionInput {
                        ra: Some(ra),
                        rb: Some(rb),
                        overflow: Some(incoming),
                        ..InstructionInput::default()
                    };
                    let fresh = InstructionInput {
                        overflow: Some(OverflowFlags::default()),
                        ..inputs
                    };
                    let outgoing = o(inputs).unwrap().overflow.unwrap();
                    let alone = o(fresh).unwrap().overflow.unwrap();
                    assert_eq!(outgoing.ov, alone.ov);
                    assert_eq!(outgoing.ov32, alone.ov32);
                    assert_eq!(outgoing.so, incoming.so || alone.ov);
                }
            }
        }
    }
}

#[test]
fn multiply_high_commutes() {
    for model in [mulhd as Model, mulhdu as Model, mulhw as Model, mulhwu as Model] {
        for a in TEST_VALUES {
            for b in TEST_VALUES {
                let forwards =
                    InstructionInput { ra: Some(a), rb: Some(b), ..InstructionInput::default() };
                let backwards =
                    InstructionInput { ra: Some(b), rb: Some(a), ..InstructionInput::default() };
                assert_eq!(model(forwards), model(backwards));
            }
        }
    }
}

#[test]
fn models_never_write_carry_or_the_other_condition_fields() {
    for instr in Instr::VALUES {
        let inputs = InstructionInput {
            ra: Some(0x1234_5678_8000_0001),
            rb: Some(0x7FFF_FFFF_FFFF_FFFE),
            rc: Some(0xFFFF_FFFF_FFFF_FFFF),
            carry: Some(CarryFlags { ca: true, ca32: true }),
            overflow: Some(OverflowFlags { so: true, ov: true, ov32: true }),
        };
        let output = instr.model(inputs).unwrap();
        assert!(output.rt.is_some());
        assert_eq!(output.carry, None);
        assert_eq!(output.cr1, None);
        assert_eq!(output.cr2, None);
        assert_eq!(output.cr3, None);
        assert_eq!(output.cr4, None);
        assert_eq!(output.cr5, None);
        assert_eq!(output.cr6, None);
        assert_eq!(output.cr7, None);
    }
}

#[test]
fn propagate_so_ors_the_incoming_summary_overflow_in() {
    for overflow in all_overflow_flags() {
        for incoming in all_overflow_flags() {
            let inputs =
                InstructionInput { overflow: Some(incoming), ..InstructionInput::default() };
            assert_eq!(
                propagate_so(overflow, inputs),
                Ok(OverflowFlags {
                    so: overflow.so || incoming.so,
                    ov: overflow.ov,
                    ov32: overflow.ov32,
                })
            );
        }
    }
}

#[test]
fn propagate_so_keeps_a_set_summary_overflow() {
    for overflow in all_overflow_flags() {
        for ov in [false, true] {
            for ov32 in [false, true] {
                let inputs = InstructionInput {
                    ra: Some(1),
                    overflow: Some(OverflowFlags { so: true, ov, ov32 }),
                    ..InstructionInput::default()
                };
                let flags = propagate_so(overflow, inputs).unwrap();
                assert!(flags.so);
                assert_eq!(flags.ov, overflow.ov);
                assert_eq!(flags.ov32, overflow.ov32);
            }
        }
    }
}

#[test]
fn propagate_so_wants_the_overflow_flags() {
    for overflow in all_overflow_flags() {
        let inputs = InstructionInput {
            ra: Some(1),
            rb: Some(2),
            rc: Some(3),
            carry: Some(CarryFlags { ca: true, ca32: true }),
            overflow: None,
        };
        assert_eq!(
            propagate_so(overflow, inputs),
            Err(MissingInstructionInput { input: InstructionInputRegister::Overflow })
        );
    }
}
