use power_instruction_analyzer::harness::{
    call_with_inputs, enumerate_inputs, run_tests, test_instr, BOOL_VALUES, TEST_VALUES,
};
use power_instruction_analyzer::{
    CarryFlags, ConditionRegister, Instr, InstructionInput, InstructionInputRegister,
    InstructionOutput, MissingInstructionInput, OverflowFlags, TestCase, TestError, WholeTest,
};

fn domain_len(register: InstructionInputRegister) -> usize {
    match register {
        InstructionInputRegister::Ra => 15,
        InstructionInputRegister::Rb => 15,
        InstructionInputRegister::Rc => 15,
        InstructionInputRegister::Carry => 4,
        InstructionInputRegister::Overflow => 8,
    }
}

fn case(model_mismatch: bool) -> TestCase {
    TestCase {
        instr: Instr::Add,
        inputs: InstructionInput::default(),
        native_outputs: None,
        model_outputs: InstructionOutput::default(),
        model_mismatch,
    }
}

#[test]
fn test_values_cover_the_boundaries() {
    assert_eq!(TEST_VALUES.len(), 15);
    let wanted = [
        0,
        1,
        2,
        u64::MAX,
        u64::MAX - 1,
        i64::MAX as u64,
        i64::MAX as u64 - 1,
        i64::MIN as u64,
        i64::MIN as u64 + 1,
        0x1234_5678_0000_0000,
        0x1234_5678_0000_0000 | i32::MAX as u64,
        0x1234_5678_0000_0000 | i32::MIN as u32 as u64,
        0x1234_5678_0000_0000 | u32::MAX as u64,
    ];
    for value in wanted {
        assert!(TEST_VALUES.contains(&value), "{:#X}", value);
    }
    for (i, a) in TEST_VALUES.iter().enumerate() {
        for (j, b) in TEST_VALUES.iter().enumerate() {
            assert_eq!(a == b, i == j);
        }
    }
    assert_eq!(BOOL_VALUES, [false, true]);
}

#[test]
fn call_with_inputs_without_registers_collects_the_inputs_themselves() {
    let inputs = InstructionInput { ra: Some(5), ..InstructionInput::default() };
    let mut collected = Vec::new();
    call_with_inputs(inputs, &[], &mut collected);
    assert_eq!(collected, vec![inputs]);
}

#[test]
fn call_with_inputs_appends_to_what_was_collected() {
    let first = InstructionInput { rc: Some(9), ..InstructionInput::default() };
    let mut collected = vec![first];
    call_with_inputs(InstructionInput::default(), &[InstructionInputRegister::Ra], &mut collected);
    assert_eq!(collected.len(), 16);
    assert_eq!(collected[0], first);
    for (index, value) in TEST_VALUES.iter().enumerate() {
        assert_eq!(
            collected[index + 1],
            InstructionInput { ra: Some(*value), ..InstructionInput::default() }
        );
    }
}

#[test]
fn call_with_inputs_binds_each_register_to_its_domain_in_order() {
    let base = InstructionInput { ra: Some(77), ..InstructionInput::default() };
    let mut collected = Vec::new();
    call_with_inputs(base, &[InstructionInputRegister::Rb], &mut collected);
    let expected: Vec<InstructionInput> =
        TEST_VALUES.iter().map(|value| InstructionInput { rb: Some(*value), ..base }).collect();
    assert_eq!(collected, expected);

    let mut collected = Vec::new();
    call_with_inputs(base, &[InstructionInputRegister::Rc], &mut collected);
    let expected: Vec<InstructionInput> =
        TEST_VALUES.iter().map(|value| InstructionInput { rc: Some(*value), ..base }).collect();
    assert_eq!(collected, expected);

    let mut collected = Vec::new();
    call_with_inputs(base, &[InstructionInputRegister::Carry], &mut collected);
    assert_eq!(
        collected,
        vec![
            InstructionInput { carry: Some(CarryFlags { ca: false, ca32: false }), ..base },
            InstructionInput { carry: Some(CarryFlags { ca: false, ca32: true }), ..base },
            InstructionInput { carry: Some(CarryFlags { ca: true, ca32: false }), ..base },
            InstructionInput { carry: Some(CarryFlags { ca: true, ca32: true }), ..base },
        ]
    );

    let mut collected = Vec::new();
    call_with_inputs(base, &[InstructionInputRegister::Overflow], &mut collected);
    let mut expected = Vec::new();
    for so in [false, true] {
        for ov in [false, true] {
            for ov32 in [false, true] {
                expected.push(InstructionInput {
                    overflow: Some(OverflowFlags { so, ov, ov32 }),
                    ..base
                });
            }
        }
    }
    assert_eq!(collected, expected);
}

#[test]
fn call_with_inputs_varies_the_first_register_slowest() {
    let mut collected = Vec::new();
    call_with_inputs(
        InstructionInput::default(),
        &[
            InstructionInputRegister::Ra,
            InstructionInputRegister::Rb,
            InstructionInputRegister::Overflow,
        ],
        &mut collected,
    );
    let mut expected = Vec::new();
    for ra in TEST_VALUES {
        for rb in TEST_VALUES {
            for so in BOOL_VALUES {
                for ov in BOOL_VALUES {
                    for ov32 in BOOL_VALUES {
                        expected.push(InstructionInput {
                            ra: Some(ra),
                            rb: Some(rb),
                            rc: None,
                            carry: None,
                            overflow: Some(OverflowFlags { so, ov, ov32 }),
                        });
                    }
                }
            }
        }
    }
    assert_eq!(collected, expected);
}

#[test]
fn call_with_inputs_follows_the_order_of_the_register_list() {
    let mut collected = Vec::new();
    call_with_inputs(
        InstructionInput::default(),
        &[InstructionInputRegister::Carry, InstructionInputRegister::Rc],
        &mut collected,
    );
    let mut expected = Vec::new();
    for ca in BOOL_VALUES {
        for ca32 in BOOL_VALUES {
            for rc in TEST_VALUES {
                expected.push(InstructionInput {
                    rc: Some(rc),
                    carry: Some(CarryFlags { ca, ca32 }),
                    ..InstructionInput::default()
                });
            }
        }
    }
    assert_eq!(collected, expected);
}

#[test]
fn enumeration_grows_only_with_the_registers_used() {
    assert_eq!(enumerate_inputs(Instr::Add).len(), 15 * 15);
    assert_eq!(enumerate_inputs(Instr::AddO).len(), 15 * 15 * 8);
    assert_eq!(enumerate_inputs(Instr::MulHW_).len(), 15 * 15 * 8);
    assert_eq!(enumerate_inputs(Instr::MAddLD).len(), 15 * 15 * 15);
    for instr in Instr::VALUES {
        let expected: usize =
            instr.get_used_input_registers().iter().map(|register| domain_len(*register)).product();
        assert_eq!(enumerate_inputs(instr).len(), expected);
    }
}

#[test]
fn enumerated_inputs_supply_exactly_the_registers_used() {
    for instr in Instr::VALUES {
        let registers = instr.get_used_input_registers();
        for inputs in enumerate_inputs(instr) {
            assert_eq!(inputs.ra.is_some(), registers.contains(&InstructionInputRegister::Ra));
            assert_eq!(inputs.rb.is_some(), registers.contains(&InstructionInputRegister::Rb));
            assert_eq!(inputs.rc.is_some(), registers.contains(&InstructionInputRegister::Rc));
            assert_eq!(
                inputs.carry.is_some(),
                registers.contains(&InstructionInputRegister::Carry)
            );
            assert_eq!(
                inputs.overflow.is_some(),
                registers.contains(&InstructionInputRegister::Overflow)
            );
        }
    }
}

#[test]
fn enumerated_inputs_are_distinct() {
    let all_inputs = enumerate_inputs(Instr::DivDEO);
    for (i, a) in all_inputs.iter().enumerate().step_by(37) {
        for (j, b) in all_inputs.iter().enumerate() {
            assert_eq!(a == b, i == j);
        }
    }
}

#[test]
fn test_case_without_reference_outputs_is_no_mismatch() {
    let inputs = InstructionInput { ra: Some(1), rb: Some(2), ..InstructionInput::default() };
    assert_eq!(
        TestCase::new(Instr::Add, inputs, None),
        Ok(TestCase {
            instr: Instr::Add,
            inputs,
            native_outputs: None,
            model_outputs: InstructionOutput { rt: Some(3), ..InstructionOutput::default() },
            model_mismatch: false,
        })
    );
}

#[test]
fn test_case_with_equal_reference_outputs_is_no_mismatch() {
    let inputs = InstructionInput { ra: Some(1), rb: Some(2), ..InstructionInput::default() };
    let native = InstructionOutput { rt: Some(3), ..InstructionOutput::default() };
    assert_eq!(
        TestCase::new(Instr::Add, inputs, Some(native)),
        Ok(TestCase {
            instr: Instr::Add,
            inputs,
            native_outputs: Some(native),
            model_outputs: native,
            model_mismatch: false,
        })
    );
}

#[test]
fn test_case_with_other_reference_outputs_is_a_mismatch() {
    let inputs = InstructionInput { ra: Some(1), rb: Some(2), ..InstructionInput::default() };
    let model = InstructionOutput { rt: Some(3), ..InstructionOutput::default() };
    let native = InstructionOutput { rt: Some(4), ..InstructionOutput::default() };
    assert_eq!(
        TestCase::new(Instr::Add, inputs, Some(native)),
        Ok(TestCase {
            instr: Instr::Add,
            inputs,
            native_outputs: Some(native),
            model_outputs: model,
            model_mismatch: true,
        })
    );
}

#[test]
fn test_case_with_a_register_only_one_side_wrote_is_a_mismatch() {
    let inputs = InstructionInput { ra: Some(1), rb: Some(2), ..InstructionInput::default() };
    let with_overflow = InstructionOutput {
        rt: Some(3),
        overflow: Some(OverflowFlags::default()),
        ..InstructionOutput::default()
    };
    assert!(TestCase::new(Instr::Add, inputs, Some(with_overflow)).unwrap().model_mismatch);
    let without_rt = InstructionOutput::default();
    assert!(TestCase::new(Instr::Add, inputs, Some(without_rt)).unwrap().model_mismatch);
    let with_cr0 = InstructionOutput {
        rt: Some(3),
        cr0: Some(ConditionRegister { lt: false, gt: true, eq: false, so: false }),
        ..InstructionOutput::default()
    };
    assert!(TestCase::new(Instr::Add, inputs, Some(with_cr0)).unwrap().model_mismatch);
    let with_cr7 = InstructionOutput {
        rt: Some(3),
        cr7: Some(ConditionRegister { lt: false, gt: false, eq: false, so: false }),
        ..InstructionOutput::default()
    };
    assert!(TestCase::new(Instr::Add, inputs, Some(with_cr7)).unwrap().model_mismatch);
    let with_carry = InstructionOutput {
        rt: Some(3),
        carry: Some(CarryFlags::default()),
        ..InstructionOutput::default()
    };
    assert!(TestCase::new(Instr::Add, inputs, Some(with_carry)).unwrap().model_mismatch);
}

#[test]
fn test_case_fails_where_the_model_lacks_a_register() {
    let inputs = InstructionInput { ra: Some(1), ..InstructionInput::default() };
    assert_eq!(
        TestCase::new(Instr::Add, inputs, None),
        Err(MissingInstructionInput { input: InstructionInputRegister::Rb })
    );
    assert_eq!(
        TestCase::new(Instr::AddO, InstructionInput { rb: Some(1), ..inputs }, None),
        Err(MissingInstructionInput { input: InstructionInputRegister::Overflow })
    );
}

#[test]
fn whole_test_tells_a_mismatch_where_any_case_does() {
    let empty = WholeTest::new(Vec::new());
    assert!(empty.test_cases.is_empty());
    assert!(!empty.any_model_mismatch);
    let clean = WholeTest::new(vec![case(false), case(false), case(false)]);
    assert_eq!(clean.test_cases, vec![case(false), case(false), case(false)]);
    assert!(!clean.any_model_mismatch);
    assert!(WholeTest::new(vec![case(true)]).any_model_mismatch);
    assert!(WholeTest::new(vec![case(true), case(false)]).any_model_mismatch);
    assert!(WholeTest::new(vec![case(false), case(true)]).any_model_mismatch);
    assert!(WholeTest::new(vec![case(false), case(true), case(false)]).any_model_mismatch);
    let mixed = WholeTest::new(vec![case(false), case(false), case(true)]);
    assert!(mixed.any_model_mismatch);
    assert_eq!(mixed.test_cases, vec![case(false), case(false), case(true)]);
}

#[test]
fn test_instr_appends_one_case_for_each_input() {
    let mut test_cases = vec![case(true)];
    assert_eq!(test_instr(Instr::DivDO, &mut test_cases), Ok(()));
    let all_inputs = enumerate_inputs(Instr::DivDO);
    assert_eq!(test_cases.len(), 1 + all_inputs.len());
    assert_eq!(test_cases[0], case(true));
    for (index, inputs) in all_inputs.iter().enumerate() {
        assert_eq!(
            test_cases[index + 1],
            TestCase {
                instr: Instr::DivDO,
                inputs: *inputs,
                native_outputs: None,
                model_outputs: Instr::DivDO.model(*inputs).unwrap(),
                model_mismatch: false,
            }
        );
    }
}

#[test]
fn run_without_reference_tells_no_mismatch() {
    let whole_test = run_tests().unwrap();
    assert!(!whole_test.any_model_mismatch);
    assert!(!whole_test.test_cases.is_empty());
    for test_case in &whole_test.test_cases {
        assert_eq!(test_case.native_outputs, None);
        assert!(!test_case.model_mismatch);
    }
}

#[test]
fn run_lists_the_cases_in_registry_then_enumeration_order() {
    let whole_test = run_tests().unwrap();
    let mut expected = Vec::new();
    for instr in Instr::VALUES {
        for inputs in enumerate_inputs(instr) {
            expected.push(TestCase {
                instr,
                inputs,
                native_outputs: None,
                model_outputs: instr.model(inputs).unwrap(),
                model_mismatch: false,
            });
        }
    }
    assert_eq!(whole_test.test_cases.len(), 86625);
    assert_eq!(whole_test.test_cases, expected);
}

#[test]
fn run_is_the_same_every_time() {
    let first = run_tests().unwrap();
    let second = run_tests().unwrap();
    assert_eq!(first.test_cases, second.test_cases);
    assert_eq!(first.any_model_mismatch, second.any_model_mismatch);
}

#[test]
fn test_error_message_names_the_instruction_and_the_register() {
    let error = TestError {
        instr: Instr::DivDEO_,
        error: MissingInstructionInput { input: InstructionInputRegister::Overflow },
    };
    assert_eq!(error.message(), "instruction divdeo.: missing instruction input: overflow");
    let error = TestError {
        instr: Instr::MAddLD,
        error: MissingInstructionInput { input: InstructionInputRegister::Rc },
    };
    assert_eq!(error.message(), "instruction maddld: missing instruction input: rc");
}
