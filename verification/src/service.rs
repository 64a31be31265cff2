//! The proving service's request pipeline.
//!
//! A request carries a hex-encoded program and moves through three stages:
//! validation (here, verified), a fast execution of the guest for early
//! feedback, and the slow STARK proof generation. The two expensive stages
//! run outside this library — on the zkVM and prover, off the request
//! threads — and report back as events; this module fixes what each event
//! does to the request's state and what response the caller finally sees.
//! Empty or malformed input is rejected with a client error and never
//! reaches the expensive path.

use vstd::prelude::*;
use vstd::string::{StringExecFns, StringSliceAdditionalSpecFns};

use crate::hexcodec::{
    hex_bytes, hex_decode, hex_fault_reason, hex_fault_spec, hex_str_of, hex_encode, is_hex_seq,
    trim_bytes,
};
use crate::program_input;

verus! {

pub const HTTP_OK: u16 = 200;

pub const HTTP_BAD_REQUEST: u16 = 400;

pub const HTTP_NOT_FOUND: u16 = 404;

pub const HTTP_INTERNAL_ERROR: u16 = 500;

/// Result of a STARK proof generation: the serialized proof, the commits
/// identifying which executable and VM configuration produced it, and the
/// public values the proof reveals (the 32-byte commitment).
pub struct StarkProveResult {
    pub proof_json: String,
    pub app_exe_commit: String,
    pub app_vm_commit: String,
    pub public_values: Vec<u8>,
}

/// What a proving request answers: a stable shape whose `success` flag and
/// human-readable `error` are always coherent with the outcome.
pub struct ProveResponse {
    pub success: bool,
    pub commitment: Option<String>,
    pub stark_proof_json: Option<String>,
    pub app_exe_commit: Option<String>,
    pub app_vm_commit: Option<String>,
    pub error: Option<String>,
    pub duration_millis: Option<u64>,
}

/// A proving request's position in the pipeline. The program bytes carried
/// by the waiting states are the validated, non-empty decoded program.
pub enum ProveState {
    AwaitingExecute { program: Vec<u8> },
    AwaitingProve { program: Vec<u8>, commitment: Option<String> },
    Finished { status: u16, response: ProveResponse },
}

/// Build the failure response: `success` is false, the message is kept, and
/// no proof fields are populated.
pub fn prove_error(error: String, commitment: Option<String>, duration_millis: Option<u64>) -> (r:
    ProveResponse)
    ensures
        !r.success,
        r.error == Some(error),
        r.commitment == commitment,
        r.duration_millis == duration_millis,
        r.stark_proof_json is None,
        r.app_exe_commit is None,
        r.app_vm_commit is None,
{
    ProveResponse {
        success: false,
        commitment,
        stark_proof_json: None,
        app_exe_commit: None,
        app_vm_commit: None,
        error: Some(error),
        duration_millis,
    }
}

/// Validate a request: decode the program hex (ignoring surrounding
/// whitespace) and admit it to the pipeline only if it is well-formed and
/// non-empty; otherwise finish at once with a client error.
pub fn start_prove(program_hex: &str) -> (s: ProveState)
    ensures
        s is AwaitingExecute <==> is_hex_seq(program_input(program_hex)) && hex_bytes(
            program_input(program_hex),
        ).len() > 0,
        s matches ProveState::AwaitingExecute { program } ==> program@ == hex_bytes(
            program_input(program_hex),
        ),
        s matches ProveState::Finished { status, response } ==> ({
            &&& status == HTTP_BAD_REQUEST
            &&& !response.success
            &&& response.error matches Some(m)
            &&& (is_hex_seq(program_input(program_hex)) ==> m@ == "Empty program"@)
            &&& (!is_hex_seq(program_input(program_hex)) ==> m@ == "Invalid hex: "@
                + hex_fault_spec(program_input(program_hex)))
            &&& response.commitment is None
            &&& response.stark_proof_json is None
        }),
        s is AwaitingProve == false,
{
    let trimmed = trim_bytes(program_hex.as_bytes());
    match hex_decode(trimmed) {
        Some(program) => {
            if program.len() == 0 {
                ProveState::Finished {
                    status: HTTP_BAD_REQUEST,
                    response: prove_error("Empty program".to_owned(), None, None),
                }
            } else {
                ProveState::AwaitingExecute { program }
            }
        },
        None => {
            let mut message: String = "Invalid hex: ".to_owned();
            message.append(hex_fault_reason(trimmed));
            ProveState::Finished {
                status: HTTP_BAD_REQUEST,
                response: prove_error(message, None, None),
            }
        },
    }
}

/// Record the fast-execution event. A successful run whose output is the
/// 32-byte commitment is kept (hex-encoded) for the response; a failure
/// finishes the request with a server error and never reaches proving.
pub fn on_execute(state: ProveState, outcome: Result<Vec<u8>, String>, duration_millis: u64) -> (s2:
    ProveState)
    requires
        state is AwaitingExecute,
    ensures
        outcome matches Ok(output) ==> ({
            &&& s2 matches ProveState::AwaitingProve { program, commitment }
            &&& program == state->AwaitingExecute_program
            &&& (commitment is Some <==> output@.len() == 32)
            &&& (commitment matches Some(h) ==> h@ == hex_str_of(output@))
        }),
        outcome matches Err(e) ==> ({
            &&& s2 matches ProveState::Finished { status, response }
            &&& status == HTTP_INTERNAL_ERROR
            &&& !response.success
            &&& response.error matches Some(m)
            &&& m@ == "Guest execution failed: "@ + e@
            &&& response.stark_proof_json is None
            &&& response.duration_millis == Some(duration_millis)
        }),
{
    match state {
        ProveState::AwaitingExecute { program } => match outcome {
            Ok(output) => {
                let commitment = if output.len() == 32 {
                    Some(hex_encode(output.as_slice()))
                } else {
                    None
                };
                ProveState::AwaitingProve { program, commitment }
            },
            Err(e) => {
                let mut message: String = "Guest execution failed: ".to_owned();
                message.append(e.as_str());
                ProveState::Finished {
                    status: HTTP_INTERNAL_ERROR,
                    response: prove_error(message, None, Some(duration_millis)),
                }
            },
        },
        _ => vstd::pervasive::unreached(),
    }
}

/// Record the proving event and finish the request: on success, the
/// response carries the proof, the commits, the commitment kept from the
/// fast execution, and the elapsed time; on failure, a server error.
pub fn on_prove(
    state: ProveState,
    outcome: Result<StarkProveResult, String>,
    duration_millis: u64,
) -> (s2: ProveState)
    requires
        state is AwaitingProve,
    ensures
        outcome matches Ok(res) ==> ({
            &&& s2 matches ProveState::Finished { status, response }
            &&& status == HTTP_OK
            &&& response.success
            &&& response.commitment == state->AwaitingProve_commitment
            &&& response.stark_proof_json == Some(res.proof_json)
            &&& response.app_exe_commit == Some(res.app_exe_commit)
            &&& response.app_vm_commit == Some(res.app_vm_commit)
            &&& response.error is None
            &&& response.duration_millis == Some(duration_millis)
        }),
        outcome matches Err(e) ==> ({
            &&& s2 matches ProveState::Finished { status, response }
            &&& status == HTTP_INTERNAL_ERROR
            &&& !response.success
            &&& response.error matches Some(m)
            &&& m@ == "STARK proof generation failed: "@ + e@
            &&& response.stark_proof_json is None
            &&& response.duration_millis == Some(duration_millis)
        }),
{
    match state {
        ProveState::AwaitingProve { program: _, commitment } => match outcome {
            Ok(res) => ProveState::Finished {
                status: HTTP_OK,
                response: ProveResponse {
                    success: true,
                    commitment,
                    stark_proof_json: Some(res.proof_json),
                    app_exe_commit: Some(res.app_exe_commit),
                    app_vm_commit: Some(res.app_vm_commit),
                    error: None,
                    duration_millis: Some(duration_millis),
                },
            },
            Err(e) => {
                let mut message: String = "STARK proof generation failed: ".to_owned();
                message.append(e.as_str());
                ProveState::Finished {
                    status: HTTP_INTERNAL_ERROR,
                    response: prove_error(message, None, Some(duration_millis)),
                }
            },
        },
        _ => vstd::pervasive::unreached(),
    }
}

/// The health check's answer.
pub struct HealthResponse {
    pub status: String,
    pub service: String,
}

/// The service stays responsive while proofs are in flight; the health
/// check always answers "ok".
pub fn health() -> (r: HealthResponse)
    ensures
        r.status@ == "ok"@,
        r.service@ == "openvm-web-backend"@,
{
    HealthResponse { status: "ok".to_owned(), service: "openvm-web-backend".to_owned() }
}

/// What the verifying-key endpoint serves: the key's bytes, or a
/// remediation message.
pub enum VkFileResponse {
    Found(Vec<u8>),
    Missing(String),
}

/// Serve the aggregation verifying key read from provisioning storage: the
/// raw bytes when it is present, a not-found status with a remediation
/// message when provisioning has not run.
pub fn serve_agg_stark_vk(file: Option<Vec<u8>>) -> (r: (u16, VkFileResponse))
    ensures
        file matches Some(bytes) ==> (r.0 == HTTP_OK && (r.1 matches VkFileResponse::Found(b)
            && b == bytes)),
        file is None ==> (r.0 == HTTP_NOT_FOUND && (r.1 matches VkFileResponse::Missing(m) && m@
            == "agg_stark.vk not found. Run setup on the server."@)),
{
    match file {
        Some(bytes) => (HTTP_OK, VkFileResponse::Found(bytes)),
        None => (
            HTTP_NOT_FOUND,
            VkFileResponse::Missing("agg_stark.vk not found. Run setup on the server.".to_owned()),
        ),
    }
}

} // verus!
