//! The commitment scheme: a single SHA-256 hash binding a program to its
//! evaluation result.
//!
//! The commitment is computed over the raw program bytes immediately followed
//! by the UTF-8 bytes of the canonical result string, with no length prefix
//! or separator. Every component that computes or checks a commitment (the
//! zkVM guest, the proving service, the verifiers) uses this one definition.

use vstd::prelude::*;
use vstd::string::{StringExecFns, StringSliceAdditionalSpecFns};
use vstd::utf8::encode_utf8;

use sha2::Digest;

use crate::UplcError;
use crate::hexcodec::{
    hex_bytes, hex_decode, hex_encode, hex_fault_reason, hex_str_of, is_hex_seq, trim_ascii,
    trim_bytes,
};

verus! {

/// The SHA-256 digest of a byte sequence, as sha2 computes it.
pub uninterp spec fn sha256_of(message: Seq<u8>) -> Seq<u8>;

/// Relies on sha2's `Sha256` (FIPS 180-4 SHA-256): the digest is 32 bytes
/// long and a function of the message bytes alone.
#[verifier::external_body]
fn sha256_digest(message: &[u8]) -> (r: Vec<u8>)
    ensures
        r@ == sha256_of(message@),
        r@.len() == 32,
{
    sha2::Sha256::digest(message).to_vec()
}

/// The commitment binding a program to a result string:
/// SHA-256 over the program bytes followed by the UTF-8 result bytes.
pub open spec fn commitment_of(program: Seq<u8>, result: Seq<char>) -> Seq<u8> {
    sha256_of(program + encode_utf8(result))
}

/// Compute the 32-byte commitment for a program and its result string.
pub fn commit(program: &[u8], result_str: &str) -> (r: Vec<u8>)
    ensures
        r@ == commitment_of(program@, result_str@),
        r@.len() == 32,
{
    let mut message: Vec<u8> = vstd::slice::slice_to_vec(program);
    let rb: &[u8] = result_str.as_bytes();
    let n = rb.len();
    let mut i: usize = 0;
    while i < n
        invariant
            n == rb@.len(),
            i <= n,
            message@ == program@ + rb@.subrange(0, i as int),
        decreases n - i,
    {
        message.push(rb[i]);
        proof {
            assert(program@ + rb@.subrange(0, i as int + 1) =~= (program@ + rb@.subrange(
                0,
                i as int,
            )).push(rb@[i as int]));
        }
        i = i + 1;
    }
    proof {
        assert(rb@.subrange(0, n as int) =~= rb@);
        assert(message@ =~= program@ + result_str.spec_bytes());
    }
    sha256_digest(message.as_slice())
}

/// Compute the commitment for a hex-encoded program and a result string, and
/// return it as a lower-case hex digest.
pub fn compute_commitment(program_hex: &str, result_str: &str) -> (r: Result<
    String,
    UplcError,
>)
    ensures
        r is Ok <==> is_hex_seq(trim_ascii(program_hex.spec_bytes())),
        r matches Ok(h) ==> h@ == hex_str_of(
            commitment_of(hex_bytes(trim_ascii(program_hex.spec_bytes())), result_str@),
        ),
        r matches Err(e) ==> e is DecodeError,
{
    let trimmed = trim_bytes(program_hex.as_bytes());
    match hex_decode(trimmed) {
        Some(program) => {
            let digest = commit(program.as_slice(), result_str);
            Ok(hex_encode(digest.as_slice()))
        },
        None => {
            let mut detail: String = "Hex decode error: ".to_owned();
            detail.append(hex_fault_reason(trimmed));
            Err(UplcError::DecodeError(detail))
        },
    }
}

/// The commitment is a pure function of the program and the result string:
/// identical inputs always yield the identical commitment, in every component
/// that computes one.
pub proof fn lemma_commitment_deterministic(
    program1: Seq<u8>,
    result1: Seq<char>,
    program2: Seq<u8>,
    result2: Seq<char>,
)
    requires
        program1 == program2,
        result1 == result2,
    ensures
        commitment_of(program1, result1) == commitment_of(program2, result2),
{
}

/// Recomputing the commitment from the program bytes and a claimed result
/// string matches the revealed commitment exactly when the claim equals the
/// true result. (The converse — that a mismatching claim never matches —
/// rests on the hash function's collision resistance and is exercised by
/// tests, not proved.)
pub proof fn lemma_recompute_matches(
    program: Seq<u8>,
    actual: Seq<char>,
    claimed: Seq<char>,
    revealed: Seq<u8>,
)
    requires
        revealed == commitment_of(program, actual),
        claimed == actual,
    ensures
        revealed == commitment_of(program, claimed),
{
}

} // verus!
