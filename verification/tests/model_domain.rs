use power_instruction_analyzer::harness::TEST_VALUES;
use power_instruction_analyzer::instr_models::{
    addo, divdeo, divdeuo, divdo, divduo, divweo, divweuo, divwo, divwuo, maddhd, maddhdu, maddld,
    modsd, modsw, modud, moduw, mulhd, mulhdu, mulhw, mulhwu, mulldo, mullwo, subfo,
};
use power_instruction_analyzer::{
    InstructionInput, InstructionOutput, InstructionResult, OverflowFlags,
};

fn run_o(model: fn(InstructionInput) -> InstructionResult, ra: u64, rb: u64) -> (u64, bool, bool) {
    let inputs = InstructionInput {
        ra: Some(ra),
        rb: Some(rb),
        overflow: Some(OverflowFlags { so: false, ov: false, ov32: false }),
        ..InstructionInput::default()
    };
    let output = model(inputs).unwrap();
    let overflow = output.overflow.unwrap();
    assert_eq!(overflow.so, overflow.ov);
    assert_eq!(
        output,
        InstructionOutput {
            rt: output.rt,
            overflow: output.overflow,
            ..InstructionOutput::default()
        }
    );
    (output.rt.unwrap(), overflow.ov, overflow.ov32)
}

fn run_plain(model: fn(InstructionInput) -> InstructionResult, ra: u64, rb: u64) -> u64 {
    let inputs = InstructionInput { ra: Some(ra), rb: Some(rb), ..InstructionInput::default() };
    let output = model(inputs).unwrap();
    assert_eq!(output, InstructionOutput { rt: output.rt, ..InstructionOutput::default() });
    output.rt.unwrap()
}

fn run_three(
    model: fn(InstructionInput) -> InstructionResult,
    ra: u64,
    rb: u64,
    rc: u64,
) -> u64 {
    let inputs =
        InstructionInput { ra: Some(ra), rb: Some(rb), rc: Some(rc), ..InstructionInput::default() };
    let output = model(inputs).unwrap();
    assert_eq!(output, InstructionOutput { rt: output.rt, ..InstructionOutput::default() });
    output.rt.unwrap()
}

#[test]
fn addo_on_every_pair_of_test_values() {
    for ra in TEST_VALUES {
        for rb in TEST_VALUES {
            let (sum, ov) = (ra as i64).overflowing_add(rb as i64);
            let ov32 = (ra as i32).overflowing_add(rb as i32).1;
            assert_eq!(run_o(addo, ra, rb), (sum as u64, ov, ov32), "{:#X} {:#X}", ra, rb);
        }
    }
}

#[test]
fn subfo_on_every_pair_of_test_values() {
    for ra in TEST_VALUES {
        for rb in TEST_VALUES {
            let (difference, ov) = (rb as i64).overflowing_sub(ra as i64);
            let ov32 = (rb as i32).overflowing_sub(ra as i32).1;
            assert_eq!(run_o(subfo, ra, rb), (difference as u64, ov, ov32), "{:#X} {:#X}", ra, rb);
        }
    }
}

#[test]
fn divdeo_on_every_pair_of_test_values() {
    for ra in TEST_VALUES {
        for rb in TEST_VALUES {
            let dividend = i128::from(ra as i64) << 64;
            let divisor = i128::from(rb as i64);
            let expected = if divisor == 0 || (divisor == -1 && dividend == i128::MIN) {
                (0, true, true)
            } else {
                let quotient = dividend / divisor;
                if quotient as i64 as i128 != quotient {
                    (0, true, true)
                } else {
                    (quotient as u64, false, false)
                }
            };
            assert_eq!(run_o(divdeo, ra, rb), expected, "{:#X} {:#X}", ra, rb);
        }
    }
}

#[test]
fn divdeuo_on_every_pair_of_test_values() {
    for ra in TEST_VALUES {
        for rb in TEST_VALUES {
            let dividend = u128::from(ra) << 64;
            let divisor = u128::from(rb);
            let expected = if divisor == 0 {
                (0, true, true)
            } else {
                let quotient = dividend / divisor;
                if quotient > u128::from(u64::MAX) {
                    (0, true, true)
                } else {
                    (quotient as u64, false, false)
                }
            };
            assert_eq!(run_o(divdeuo, ra, rb), expected, "{:#X} {:#X}", ra, rb);
        }
    }
}

#[test]
fn divdo_on_every_pair_of_test_values() {
    for ra in TEST_VALUES {
        for rb in TEST_VALUES {
            let dividend = ra as i64;
            let divisor = rb as i64;
            let expected = if divisor == 0 || (divisor == -1 && dividend == i64::MIN) {
                (0, true, true)
            } else {
                ((dividend / divisor) as u64, false, false)
            };
            assert_eq!(run_o(divdo, ra, rb), expected, "{:#X} {:#X}", ra, rb);
        }
    }
}

#[test]
fn divduo_on_every_pair_of_test_values() {
    for ra in TEST_VALUES {
        for rb in TEST_VALUES {
            let expected = if rb == 0 { (0, true, true) } else { (ra / rb, false, false) };
            assert_eq!(run_o(divduo, ra, rb), expected, "{:#X} {:#X}", ra, rb);
        }
    }
}

#[test]
fn divweo_on_every_pair_of_test_values() {
    for ra in TEST_VALUES {
        for rb in TEST_VALUES {
            let dividend = i64::from(ra as i32) << 32;
            let divisor = i64::from(rb as i32);
            let expected = if divisor == 0 || (divisor == -1 && dividend == i64::MIN) {
                (0, true, true)
            } else {
                let quotient = dividend / divisor;
                if quotient as i32 as i64 != quotient {
                    (0, true, true)
                } else {
                    (quotient as u32 as u64, false, false)
                }
            };
            assert_eq!(run_o(divweo, ra, rb), expected, "{:#X} {:#X}", ra, rb);
        }
    }
}

#[test]
fn divweuo_on_every_pair_of_test_values() {
    for ra in TEST_VALUES {
        for rb in TEST_VALUES {
            let dividend = u64::from(ra as u32) << 32;
            let divisor = u64::from(rb as u32);
            let expected = if divisor == 0 {
                (0, true, true)
            } else {
                let quotient = dividend / divisor;
                if quotient > u64::from(u32::MAX) {
                    (0, true, true)
                } else {
                    (quotient as u32 as u64, false, false)
                }
            };
            assert_eq!(run_o(divweuo, ra, rb), expected, "{:#X} {:#X}", ra, rb);
        }
    }
}

#[test]
fn divwo_on_every_pair_of_test_values() {
    for ra in TEST_VALUES {
        for rb in TEST_VALUES {
            let dividend = ra as i32;
            let divisor = rb as i32;
            let expected = if divisor == 0 || (divisor == -1 && dividend == i32::MIN) {
                (0, true, true)
            } else {
                ((dividend / divisor) as u32 as u64, false, false)
            };
            assert_eq!(run_o(divwo, ra, rb), expected, "{:#X} {:#X}", ra, rb);
        }
    }
}

#[test]
fn divwuo_on_every_pair_of_test_values() {
    for ra in TEST_VALUES {
        for rb in TEST_VALUES {
            let dividend = ra as u32;
            let divisor = rb as u32;
            let expected = if divisor == 0 {
                (0, true, true)
            } else {
                ((dividend / divisor) as u64, false, false)
            };
            assert_eq!(run_o(divwuo, ra, rb), expected, "{:#X} {:#X}", ra, rb);
        }
    }
}

#[test]
fn modsd_on_every_pair_of_test_values() {
    for ra in TEST_VALUES {
        for rb in TEST_VALUES {
            let dividend = ra as i64;
            let divisor = rb as i64;
            let expected = if divisor == 0 || (divisor == -1 && dividend == i64::MIN) {
                0
            } else {
                (dividend % divisor) as u64
            };
            assert_eq!(run_plain(modsd, ra, rb), expected, "{:#X} {:#X}", ra, rb);
        }
    }
}

#[test]
fn modud_on_every_pair_of_test_values() {
    for ra in TEST_VALUES {
        for rb in TEST_VALUES {
            let expected = if rb == 0 { 0 } else { ra % rb };
            assert_eq!(run_plain(modud, ra, rb), expected, "{:#X} {:#X}", ra, rb);
        }
    }
}

#[test]
fn modsw_on_every_pair_of_test_values() {
    for ra in TEST_VALUES {
        for rb in TEST_VALUES {
            let dividend = ra as i32;
            let divisor = rb as i32;
            let expected = if divisor == 0 || (divisor == -1 && dividend == i32::MIN) {
                0
            } else {
                (dividend % divisor) as u64
            };
            assert_eq!(run_plain(modsw, ra, rb), expected, "{:#X} {:#X}", ra, rb);
        }
    }
}

#[test]
fn moduw_on_every_pair_of_test_values() {
    for ra in TEST_VALUES {
        for rb in TEST_VALUES {
            let dividend = ra as u32;
            let divisor = rb as u32;
            let expected = if divisor == 0 { 0 } else { (dividend % divisor) as u64 };
            assert_eq!(run_plain(moduw, ra, rb), expected, "{:#X} {:#X}", ra, rb);
        }
    }
}

#[test]
fn mullwo_on_every_pair_of_test_values() {
    for ra in TEST_VALUES {
        for rb in TEST_VALUES {
            let a = ra as i32 as i64;
            let b = rb as i32 as i64;
            let product = a * b;
            let low_word = product as i32;
            let overflow = i64::from(low_word) != product;
            assert_eq!(
                run_o(mullwo, ra, rb),
                (low_word as i64 as u64, overflow, overflow),
                "{:#X} {:#X}",
                ra,
                rb
            );
            assert_eq!(overflow, a.checked_mul(b).map_or(true, |p| i32::try_from(p).is_err()));
            if !overflow {
                assert_eq!(run_o(mullwo, ra, rb).0, product as u64);
            }
        }
    }
}

#[test]
fn mulhw_on_every_pair_of_test_values() {
    for ra in TEST_VALUES {
        for rb in TEST_VALUES {
            let a = ra as i32 as i64;
            let b = rb as i32 as i64;
            let high = ((a * b) >> 32) as u32 as u64;
            assert_eq!(run_plain(mulhw, ra, rb), high | (high << 32), "{:#X} {:#X}", ra, rb);
        }
    }
}

#[test]
fn mulhwu_on_every_pair_of_test_values() {
    for ra in TEST_VALUES {
        for rb in TEST_VALUES {
            let a = ra as u32 as u64;
            let b = rb as u32 as u64;
            let high = ((a * b) >> 32) as u32 as u64;
            assert_eq!(run_plain(mulhwu, ra, rb), high | (high << 32), "{:#X} {:#X}", ra, rb);
        }
    }
}

#[test]
fn mulldo_on_every_pair_of_test_values() {
    for ra in TEST_VALUES {
        for rb in TEST_VALUES {
            let a = ra as i64;
            let b = rb as i64;
            let product = a.wrapping_mul(b) as u64;
            let overflow = a.checked_mul(b).is_none();
            assert_eq!(run_o(mulldo, ra, rb), (product, overflow, overflow), "{:#X} {:#X}", ra, rb);
        }
    }
}

#[test]
fn mulhd_on_every_pair_of_test_values() {
    for ra in TEST_VALUES {
        for rb in TEST_VALUES {
            let a = ra as i64 as i128;
            let b = rb as i64 as i128;
            let high = ((a * b) >> 64) as i64 as u64;
            assert_eq!(run_plain(mulhd, ra, rb), high, "{:#X} {:#X}", ra, rb);
        }
    }
}

#[test]
fn mulhdu_on_every_pair_of_test_values() {
    for ra in TEST_VALUES {
        for rb in TEST_VALUES {
            let a = ra as u128;
            let b = rb as u128;
            let high = ((a * b) >> 64) as u64;
            assert_eq!(run_plain(mulhdu, ra, rb), high, "{:#X} {:#X}", ra, rb);
        }
    }
}

#[test]
fn maddhd_on_every_triple_of_test_values() {
    for ra in TEST_VALUES {
        for rb in TEST_VALUES {
            for rc in TEST_VALUES {
                let a = ra as i64 as i128;
                let b = rb as i64 as i128;
                let c = rc as i64 as i128;
                let high = ((a * b + c) >> 64) as u64;
                assert_eq!(run_three(maddhd, ra, rb, rc), high, "{:#X} {:#X} {:#X}", ra, rb, rc);
            }
        }
    }
}

#[test]
fn maddhdu_on_every_triple_of_test_values() {
    for ra in TEST_VALUES {
        for rb in TEST_VALUES {
            for rc in TEST_VALUES {
                let a = ra as u128;
                let b = rb as u128;
                let c = rc as u128;
                let high = ((a * b + c) >> 64) as u64;
                assert_eq!(run_three(maddhdu, ra, rb, rc), high, "{:#X} {:#X} {:#X}", ra, rb, rc);
            }
        }
    }
}

#[test]
fn maddld_on_every_triple_of_test_values() {
    for ra in TEST_VALUES {
        for rb in TEST_VALUES {
            for rc in TEST_VALUES {
                let low = (ra as i64).wrapping_mul(rb as i64).wrapping_add(rc as i64) as u64;
                assert_eq!(run_three(maddld, ra, rb, rc), low, "{:#X} {:#X} {:#X}", ra, rb, rc);
            }
        }
    }
}
