//! Evaluator implementations.
//!
//! The engine — the flat decoder and CEK machine — is an external
//! collaborator that can abort on adversarial encodings, so the host runs it
//! where an abort is contained (the zkVM guest, a browser panic hook, a
//! catch boundary) and reports each run stage by stage as an
//! [`EngineOutcome`]. What stands here, verified, is everything around that
//! run: input preparation (hex decoding and trimming) and the classification
//! of the reported outcome into the evaluation result.

use vstd::prelude::*;
use vstd::string::StringSliceAdditionalSpecFns;

use crate::hexcodec::{
    hex_bytes, hex_decode, hex_fault_reason, hex_fault_spec, is_hex_seq, trim_bytes,
};
use crate::{program_input, EvaluationResult, UplcError, UplcEvaluator};

verus! {

/// Decode a hex-encoded UPLC program into raw bytes, ignoring surrounding
/// ASCII whitespace (and only that: other padding is rejected as malformed
/// hex). Malformed hex yields `DecodeError` carrying the reason.
pub fn decode_program_hex(program_hex: &str) -> (r: Result<Vec<u8>, UplcError>)
    ensures
        r is Ok <==> is_hex_seq(program_input(program_hex)),
        r matches Ok(v) ==> v@ == hex_bytes(program_input(program_hex)),
        r matches Err(e) ==> (e matches UplcError::DecodeError(m) && m@ == "Hex decode error: "@
            + hex_fault_spec(program_input(program_hex))),
{
    let trimmed = trim_bytes(program_hex.as_bytes());
    match hex_decode(trimmed) {
        Some(program) => Ok(program),
        None => {
            let mut detail: String = "Hex decode error: ".to_owned();
            detail.append(hex_fault_reason(trimmed));
            Err(UplcError::DecodeError(detail))
        },
    }
}

/// Build an `EvaluationResult` from a result string and optional cost string.
pub fn make_result(result: String, cost: Option<String>) -> (r: EvaluationResult)
    ensures
        r.result == result,
        r.cost == cost,
{
    EvaluationResult { result, cost }
}

/// What one engine run reported, stage by stage: the flat decode failed, the
/// machine failed, the final value was no displayable constant, or a
/// constant was reached — rendered, with the rendered consumed budget.
pub enum EngineOutcome {
    DecodeFailed(String),
    MachineFailed(String),
    NotConstant(String),
    Constant { result: String, cost: String },
}

/// Classify a reported engine run into the evaluation result: each failing
/// stage becomes exactly its error class, a reached constant becomes the
/// result with its cost.
pub fn classify_outcome(outcome: EngineOutcome) -> (r: Result<EvaluationResult, UplcError>)
    ensures
        outcome matches EngineOutcome::DecodeFailed(m) ==> (r matches Err(
            UplcError::DecodeError(d),
        ) && d == m),
        outcome matches EngineOutcome::MachineFailed(m) ==> (r matches Err(
            UplcError::EvaluationError(d),
        ) && d == m),
        outcome matches EngineOutcome::NotConstant(m) ==> (r matches Err(
            UplcError::ResultError(d),
        ) && d == m),
        outcome matches EngineOutcome::Constant { result, cost } ==> (r matches Ok(res)
            && res.result == result && res.cost == Some(cost)),
        r is Ok <==> outcome is Constant,
{
    match outcome {
        EngineOutcome::DecodeFailed(m) => Err(UplcError::DecodeError(m)),
        EngineOutcome::MachineFailed(m) => Err(UplcError::EvaluationError(m)),
        EngineOutcome::NotConstant(m) => Err(UplcError::ResultError(m)),
        EngineOutcome::Constant { result, cost } => Ok(EvaluationResult {
            result,
            cost: Some(cost),
        }),
    }
}

/// The evaluator backed by the uplc crate's CEK machine: it prepares the
/// engine's input and names the engine build; the host performs the run.
#[derive(Default)]
pub struct UplcAikenEvaluator;

impl UplcAikenEvaluator {
    pub fn new() -> (s: Self) {
        UplcAikenEvaluator
    }
}

impl UplcEvaluator for UplcAikenEvaluator {
    open spec fn version_model(&self) -> Seq<char> {
        "uplc-aiken"@
    }

    fn prepare_program(&self, program_hex: &str) -> (r: Result<Vec<u8>, UplcError>) {
        decode_program_hex(program_hex)
    }

    fn version(&self) -> (v: &str) {
        "uplc-aiken"
    }
}

} // verus!
