//! Commit-and-prove pipeline for UPLC (Untyped Plutus Core) programs run
//! inside a zkVM guest.
//!
//! The library covers the guest-side commitment protocol (a SHA-256 hash
//! binding a program to its evaluation result), the evaluator abstraction over
//! interchangeable UPLC engines, the provisioning planner for the proving
//! artifacts, the staged proving-service request pipeline, and the two-path
//! verification protocol (cheap commitment recomputation, and the decision
//! rules for the cryptographic proof check).

use vstd::prelude::*;
use vstd::string::{StringExecFns, StringSliceAdditionalSpecFns};

pub mod commitment;
pub mod guest;
pub mod hexcodec;
pub mod impls;
pub mod mallocx;
pub mod provisioning;
pub mod service;
pub mod verification;

use crate::hexcodec::{hex_bytes, is_hex_seq, trim_ascii};

verus! {

/// The program bytes a hex input stands for, after ASCII-whitespace trimming.
pub open spec fn program_input(program_hex: &str) -> Seq<u8> {
    trim_ascii(program_hex.spec_bytes())
}

/// Error taxonomy for UPLC evaluation: malformed input (hex or flat
/// encoding), an engine-reported runtime failure, or a final value that is
/// not a displayable constant.
#[derive(Debug, Clone)]
pub enum UplcError {
    DecodeError(String),
    EvaluationError(String),
    ResultError(String),
}

impl UplcError {
    /// The full human-readable rendering of the error: its class followed by
    /// the carried detail.
    pub open spec fn spec_message(&self) -> Seq<char> {
        match self {
            UplcError::DecodeError(m) => "Program decoding error: "@ + m@,
            UplcError::EvaluationError(m) => "Evaluation error: "@ + m@,
            UplcError::ResultError(m) => "Result conversion error: "@ + m@,
        }
    }

    /// Render the error as its class followed by the carried detail.
    pub fn message(&self) -> (m: String)
        ensures
            m@ == self.spec_message(),
    {
        match self {
            UplcError::DecodeError(d) => {
                let mut m: String = "Program decoding error: ".to_owned();
                m.append(d.as_str());
                m
            },
            UplcError::EvaluationError(d) => {
                let mut m: String = "Evaluation error: ".to_owned();
                m.append(d.as_str());
                m
            },
            UplcError::ResultError(d) => {
                let mut m: String = "Result conversion error: ".to_owned();
                m.append(d.as_str());
                m
            },
        }
    }
}

/// The outcome of evaluating a UPLC program: the canonical textual rendering
/// of the final value, and an optional resource-usage figure.
#[derive(Debug, Clone)]
pub struct EvaluationResult {
    pub result: String,
    pub cost: Option<String>,
}

/// Abstraction over interchangeable UPLC evaluation engines.
///
/// An evaluator prepares the engine's input and names the engine build; the
/// engine run itself is the host's, performed where an engine abort is
/// contained (the zkVM guest, a browser panic hook, a catch boundary), and
/// reported back as an [`impls::EngineOutcome`] for verified classification.
/// `prepare_program` takes the program as hex, padded by at most ASCII
/// whitespace, and yields exactly the bytes the engine is to be given;
/// malformed hex is `DecodeError` and never reaches an engine.
pub trait UplcEvaluator {
    spec fn version_model(&self) -> Seq<char>;

    fn prepare_program(&self, program_hex: &str) -> (r: Result<Vec<u8>, UplcError>)
        ensures
            r is Ok <==> is_hex_seq(program_input(program_hex)),
            r matches Ok(v) ==> v@ == hex_bytes(program_input(program_hex)),
            r matches Err(e) ==> e is DecodeError,
    ;

    fn version(&self) -> (v: &str)
        ensures
            v@ == self.version_model(),
    ;
}

/// The evaluation engine active in this deployment. Engine selection is a
/// configuration concern made once at process construction; request handling
/// never branches on it.
pub fn get_evaluator() -> (e: impls::UplcAikenEvaluator)
    ensures
        e.version_model() == "uplc-aiken"@,
{
    impls::UplcAikenEvaluator::new()
}

} // verus!
