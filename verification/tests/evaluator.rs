use uplc_zkvm::impls::{
    EngineOutcome, UplcAikenEvaluator, classify_outcome, decode_program_hex, make_result,
};
use uplc_zkvm::{UplcError, UplcEvaluator, get_evaluator};

/// Flat encoding of `(program 1.0.0 (con integer 42))`.
const PROGRAM_42_HEX: &str = "010000481501";

/// The engine run as the host performs it, stage by stage.
fn run_engine(program: &[u8]) -> EngineOutcome {
    let program = match uplc::ast::Program::<uplc::ast::DeBruijn>::from_flat(program) {
        Ok(p) => p,
        Err(e) => return EngineOutcome::DecodeFailed(format!("Program decode error: {:?}", e)),
    };
    let eval_result = program.eval(uplc::machine::cost_model::ExBudget::default());
    let cost = format!("{:?}", eval_result.cost());
    match eval_result.result() {
        Ok(uplc::ast::Term::Constant(c)) => EngineOutcome::Constant {
            result: c.to_pretty(),
            cost,
        },
        Ok(_) => EngineOutcome::NotConstant("Evaluation result is not a constant".to_string()),
        Err(e) => EngineOutcome::MachineFailed(format!("Evaluation error: {:?}", e)),
    }
}

/// Flat-encode a term under version 1.0.0 and return its bytes.
fn program_bytes_of(term: uplc::ast::Term<uplc::ast::DeBruijn>) -> Vec<u8> {
    let program = uplc::ast::Program::<uplc::ast::DeBruijn> {
        version: (1, 0, 0),
        term,
    };
    program.to_flat().unwrap()
}

#[test]
fn version_names_the_engine() {
    assert_eq!(UplcAikenEvaluator::new().version(), "uplc-aiken");
    assert_eq!(get_evaluator().version(), "uplc-aiken");
}

#[test]
fn make_result_keeps_fields() {
    let r = make_result("integer 1".to_string(), Some("cost".to_string()));
    assert_eq!(r.result, "integer 1");
    assert_eq!(r.cost.as_deref(), Some("cost"));
    let r = make_result("unit ()".to_string(), None);
    assert!(r.cost.is_none());
}

#[test]
fn decode_program_hex_trims_and_decodes() {
    let bytes = decode_program_hex(" 010000481501\n").unwrap();
    assert_eq!(bytes, vec![0x01, 0x00, 0x00, 0x48, 0x15, 0x01]);
}

#[test]
fn decode_program_hex_rejects_bad_input_with_the_reason() {
    match decode_program_hex("xyzt") {
        Err(UplcError::DecodeError(m)) => {
            assert_eq!(m, "Hex decode error: invalid character")
        }
        _ => panic!("bad characters must be a decode error"),
    }
    match decode_program_hex("012") {
        Err(UplcError::DecodeError(m)) => {
            assert_eq!(m, "Hex decode error: odd number of digits")
        }
        _ => panic!("odd length must be a decode error"),
    }
}

#[test]
fn error_message_carries_the_class() {
    let e = UplcError::EvaluationError("budget exhausted".to_string());
    assert_eq!(e.message(), "Evaluation error: budget exhausted");
    let e = UplcError::DecodeError("bad tag".to_string());
    assert_eq!(e.message(), "Program decoding error: bad tag");
    let e = UplcError::ResultError("still reducible".to_string());
    assert_eq!(e.message(), "Result conversion error: still reducible");
}

#[test]
fn prepare_program_trims_and_decodes() {
    let evaluator = get_evaluator();
    let bytes = evaluator.prepare_program(" 010000481501\n").unwrap();
    assert_eq!(bytes, vec![0x01, 0x00, 0x00, 0x48, 0x15, 0x01]);
}

#[test]
fn prepare_program_rejects_bad_hex() {
    let evaluator = get_evaluator();
    assert!(matches!(
        evaluator.prepare_program("not-hex"),
        Err(UplcError::DecodeError(_))
    ));
}

#[test]
fn classify_outcome_maps_each_stage_to_its_class() {
    let r = classify_outcome(EngineOutcome::DecodeFailed("bad flat".to_string()));
    assert!(matches!(r, Err(UplcError::DecodeError(m)) if m == "bad flat"));
    let r = classify_outcome(EngineOutcome::MachineFailed("explicit error".to_string()));
    assert!(matches!(r, Err(UplcError::EvaluationError(m)) if m == "explicit error"));
    let r = classify_outcome(EngineOutcome::NotConstant("a lambda".to_string()));
    assert!(matches!(r, Err(UplcError::ResultError(m)) if m == "a lambda"));
    let r = classify_outcome(EngineOutcome::Constant {
        result: "integer\n42".to_string(),
        cost: "budget".to_string(),
    });
    let res = r.unwrap();
    assert_eq!(res.result, "integer\n42");
    assert_eq!(res.cost.as_deref(), Some("budget"));
}

#[test]
fn evaluates_constant_program() {
    let program = decode_program_hex(PROGRAM_42_HEX).unwrap();
    let r = classify_outcome(run_engine(&program)).unwrap();
    assert_eq!(r.result, "integer\n42");
    assert!(r.cost.is_some());
}

#[test]
fn evaluation_is_deterministic() {
    let program = decode_program_hex(PROGRAM_42_HEX).unwrap();
    let a = classify_outcome(run_engine(&program)).unwrap();
    let b = classify_outcome(run_engine(&program)).unwrap();
    assert_eq!(a.result, b.result);
    assert_eq!(a.cost, b.cost);
}

#[test]
fn malformed_flat_encoding_is_a_decode_error() {
    // Valid hex, but not a valid flat-encoded program.
    let r = classify_outcome(run_engine(&[0xff; 6]));
    assert!(matches!(r, Err(UplcError::DecodeError(_))));
}

#[test]
fn empty_program_is_a_decode_error() {
    let program = decode_program_hex("").unwrap();
    assert_eq!(program, Vec::<u8>::new());
    let r = classify_outcome(run_engine(&program));
    assert!(matches!(r, Err(UplcError::DecodeError(_))));
}

#[test]
fn machine_failure_is_an_evaluation_error() {
    let program = program_bytes_of(uplc::ast::Term::Error);
    let r = classify_outcome(run_engine(&program));
    assert!(matches!(r, Err(UplcError::EvaluationError(_))));
}

#[test]
fn non_constant_final_value_is_a_result_error() {
    let inner = uplc::ast::Term::Constant(std::rc::Rc::new(uplc::ast::Constant::Integer(
        1.into(),
    )));
    let program = program_bytes_of(uplc::ast::Term::Delay(std::rc::Rc::new(inner)));
    let r = classify_outcome(run_engine(&program));
    assert!(matches!(r, Err(UplcError::ResultError(_))));
}
