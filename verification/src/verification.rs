//! The two-path verification protocol.
//!
//! Path one recomputes the commitment from the program bytes and a claimed
//! result string and compares it with the commitment a proof revealed; it is
//! cheap and runs anywhere, but only establishes consistency between claim
//! and commitment. Path two checks the cryptographic proof itself against
//! the verifying key; the deserializer and the proving system's verification
//! algorithm are external collaborators, and this module turns their
//! outcomes into the caller's answer: a deserialization failure is a hard error,
//! never a `false` validity result.

use vstd::prelude::*;
use vstd::string::{StringExecFns, StringSliceAdditionalSpecFns};

use crate::UplcError;
use crate::commitment::{commit, commitment_of};
use crate::hexcodec::{
    hex_ascii_of, hex_bytes, hex_decode, hex_encode, hex_fault_reason, is_hex_seq,
    lemma_hex_str_bytes,
};

verus! {

/// Compare a commitment against the one recomputed from the program bytes
/// and a claimed result string.
///
/// A `true` answer alone does not establish that the result came from a
/// correct evaluation — only that claim and commitment are consistent.
pub fn check_commitment(program: &[u8], claimed_result: &str, commitment: &[u8]) -> (r: bool)
    ensures
        r == (commitment@ == commitment_of(program@, claimed_result@)),
{
    let recomputed = commit(program, claimed_result);
    let n = commitment.len();
    if recomputed.len() != n {
        return false;
    }
    let mut i: usize = 0;
    while i < n
        invariant
            n == commitment@.len() == recomputed@.len(),
            i <= n,
            forall|k: int| 0 <= k < i ==> recomputed@[k] == commitment@[k],
            recomputed@ == commitment_of(program@, claimed_result@),
        decreases n - i,
    {
        if recomputed[i] != commitment[i] {
            return false;
        }
        i = i + 1;
    }
    proof {
        assert(recomputed@ =~= commitment@);
    }
    true
}

/// Compare two strings by their UTF-8 bytes.
fn str_bytes_eq(a: &str, b: &str) -> (r: bool)
    ensures
        r == (a.spec_bytes() == b.spec_bytes()),
{
    let ab = a.as_bytes();
    let bb = b.as_bytes();
    let n = ab.len();
    if bb.len() != n {
        return false;
    }
    let mut i: usize = 0;
    while i < n
        invariant
            n == ab@.len() == bb@.len(),
            i <= n,
            forall|k: int| 0 <= k < i ==> ab@[k] == bb@[k],
            ab@ == a.spec_bytes(),
            bb@ == b.spec_bytes(),
        decreases n - i,
    {
        if ab[i] != bb[i] {
            return false;
        }
        i = i + 1;
    }
    proof {
        assert(ab@ =~= bb@);
    }
    true
}

/// Recompute the commitment for a hex-encoded program and a claimed result
/// string, and compare its hex digest with the given one.
///
/// The program hex is taken as-is here (no trimming): this is the
/// stand-alone verifier's interface, whose caller passes exact arguments.
pub fn check_commitment_hex(program_hex: &str, expected_result: &str, commitment_hex: &str) -> (r:
    Result<bool, UplcError>)
    ensures
        r is Ok <==> is_hex_seq(program_hex.spec_bytes()),
        r matches Ok(b) ==> b == (commitment_hex.spec_bytes() == hex_ascii_of(
            commitment_of(hex_bytes(program_hex.spec_bytes()), expected_result@),
        )),
        r matches Err(e) ==> e is DecodeError,
{
    match hex_decode(program_hex.as_bytes()) {
        Some(program) => {
            let digest = commit(program.as_slice(), expected_result);
            let digest_hex = hex_encode(digest.as_slice());
            proof {
                lemma_hex_str_bytes(digest@);
            }
            Ok(str_bytes_eq(digest_hex.as_str(), commitment_hex))
        },
        None => {
            let mut detail: String = "Hex decode error: ".to_owned();
            detail.append(hex_fault_reason(program_hex.as_bytes()));
            Err(UplcError::DecodeError(detail))
        },
    }
}

/// The outcome of deserializing the verifying key, reported by the outside
/// deserializer.
pub enum VkDecode {
    Decoded,
    Malformed(String),
}

/// The outcome of the proving system's verification algorithm on a
/// well-formed key: the proof is cryptographically valid, or it is not.
pub enum ProofCheck {
    Accepted,
    Rejected(String),
}

/// Turn the outcomes of the two proof-check stages into the caller-visible
/// answer.
///
/// A malformed verifying key is a hard error, kept distinct from a
/// well-formed but invalid proof, which is an ordinary `false` — callers can
/// always tell "proof rejected" from "could not check the proof".
pub fn verify_stark(vk: VkDecode, check: Option<ProofCheck>) -> (r: Result<bool, String>)
    requires
        vk is Decoded <==> check is Some,
    ensures
        vk matches VkDecode::Malformed(m) ==> (r matches Err(e) && e@
            == "Failed to deserialize verification key: "@ + m@),
        check matches Some(ProofCheck::Accepted) ==> (r matches Ok(b) && b),
        check matches Some(ProofCheck::Rejected(_)) ==> (r matches Ok(b) && !b),
        r is Err <==> vk is Malformed,
{
    match vk {
        VkDecode::Malformed(m) => {
            let mut message: String = "Failed to deserialize verification key: ".to_owned();
            message.append(m.as_str());
            Err(message)
        },
        VkDecode::Decoded => match check {
            Some(ProofCheck::Accepted) => Ok(true),
            Some(ProofCheck::Rejected(_)) => Ok(false),
            None => vstd::pervasive::unreached(),
        },
    }
}

} // verus!
