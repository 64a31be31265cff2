//! The zkVM guest entrypoint.
//!
//! Inside the zkVM the guest runs once per proof through the states
//! Start → Decoded → Evaluated → Committed → Revealed, or ends in the
//! terminal Failed state. The host shell reads the program bytes from the
//! input channel and performs the engine run — inside the zkVM an engine
//! abort is a contained abort of the one attempt, a "proof of abort" that
//! callers treat as proof-generation failure. This function fixes the rest:
//! an empty input fails before any evaluation, an evaluation failure aborts
//! before anything is revealed, and a successful run reveals the 32-byte
//! commitment over the program and its result — and nothing else. Retries
//! are the host's concern.

use vstd::prelude::*;
use vstd::string::StringExecFns;

use crate::commitment::{commit, commitment_of};
use crate::{EvaluationResult, UplcError};

verus! {

/// What a single guest execution produces: the revealed commitment, or the
/// message of the failure that aborted the run.
#[derive(Debug)]
pub enum GuestOutcome {
    Revealed(Vec<u8>),
    Failed(String),
}

/// Conclude one guest execution from the program bytes read from the host
/// and the engine's evaluation outcome for them: commit to the input program
/// and the rendered result, revealing only the commitment.
///
/// An empty input fails regardless of the evaluation outcome — the original
/// aborts before evaluating — and an evaluation failure fails the run with
/// the original's message.
pub fn run_guest(input: &[u8], evaluation: Result<EvaluationResult, UplcError>) -> (out:
    GuestOutcome)
    ensures
        out is Revealed <==> input@.len() > 0 && evaluation is Ok,
        out matches GuestOutcome::Revealed(c) ==> ({
            &&& evaluation matches Ok(res)
            &&& c@ == commitment_of(input@, res.result@)
            &&& c@.len() == 32
        }),
        input@.len() == 0 ==> (out matches GuestOutcome::Failed(m) ==> m@
            == "No program provided"@),
        input@.len() > 0 ==> (out matches GuestOutcome::Failed(m)
            ==> "UPLC evaluation failed: "@.is_prefix_of(m@)),
{
    if input.len() == 0 {
        proof {
            reveal_strlit("No program provided");
        }
        return GuestOutcome::Failed("No program provided".to_owned());
    }
    match evaluation {
        Ok(res) => GuestOutcome::Revealed(commit(input, res.result.as_str())),
        Err(e) => {
            let detail = e.message();
            let mut message: String = "UPLC evaluation failed: ".to_owned();
            message.append(detail.as_str());
            proof {
                assert(message@.subrange(0, "UPLC evaluation failed: "@.len() as int)
                    =~= "UPLC evaluation failed: "@);
            }
            GuestOutcome::Failed(message)
        },
    }
}

} // verus!
