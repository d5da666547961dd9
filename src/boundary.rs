use vstd::prelude::*;
use vstd::utf8::*;
use crate::outcome::{
    outcome_status, status_code, STATUS_BAD_STRING, STATUS_INVALID_ARGUMENT, STATUS_OK,
    STATUS_OTHER_FAILURE,
};
use crate::verifiers::{
    checked_hash, groth16_outcome, plonk_outcome, verify_groth16, verify_plonk,
};

verus! {

/// The bytes a caller handed over, or `None` where it passed no buffer.
pub open spec fn bytes_of(buffer: Option<&[u8]>) -> Option<Seq<u8>> {
    match buffer {
        Some(b) => Some(b@),
        None => None,
    }
}

/// The status a call is rejected with before any verifier runs, if any: a
/// missing buffer or an empty proof or input buffer is an invalid argument,
/// and a hash that is not UTF-8 text is a bad string.
pub open spec fn argument_status(
    proof: Option<Seq<u8>>,
    inputs: Option<Seq<u8>>,
    hash: Option<Seq<u8>>,
) -> Option<i32> {
    if proof is None || inputs is None || hash is None {
        Some(STATUS_INVALID_ARGUMENT)
    } else if proof->0.len() == 0 || inputs->0.len() == 0 {
        Some(STATUS_INVALID_ARGUMENT)
    } else if !valid_utf8(hash->0) {
        Some(STATUS_BAD_STRING)
    } else {
        None
    }
}

/// The status of a Groth16 verification call on the given buffers, where `hash`
/// holds the bytes of the hash text before its terminator.
pub open spec fn groth16_status_of(
    proof: Option<Seq<u8>>,
    inputs: Option<Seq<u8>>,
    hash: Option<Seq<u8>>,
) -> i32 {
    match argument_status(proof, inputs, hash) {
        Some(code) => code,
        None => status_code(
            groth16_outcome(proof->0, inputs->0, checked_hash(decode_utf8(hash->0))),
        ),
    }
}

/// The status of a PLONK verification call on the given buffers, where `hash`
/// holds the bytes of the hash text before its terminator.
pub open spec fn plonk_status_of(
    proof: Option<Seq<u8>>,
    inputs: Option<Seq<u8>>,
    hash: Option<Seq<u8>>,
) -> i32 {
    match argument_status(proof, inputs, hash) {
        Some(code) => code,
        None => status_code(
            plonk_outcome(proof->0, inputs->0, checked_hash(decode_utf8(hash->0))),
        ),
    }
}

/// Relies on `std::str::from_utf8`: it accepts exactly the byte sequences that
/// are valid UTF-8, and the text it returns is those bytes decoded.
#[verifier::external_body]
fn text_of(bytes: &[u8]) -> (r: Option<&str>)
    ensures
        r is Some <==> valid_utf8(bytes@),
        r matches Some(s) ==> s@ == decode_utf8(bytes@),
{
    std::str::from_utf8(bytes).ok()
}

/// Checks the buffers a caller handed over before any of them is read as proof
/// data: hands back the proof, the inputs and the hash text, or the status the
/// call is rejected with.
pub fn screen_arguments<'a>(
    proof: Option<&'a [u8]>,
    inputs: Option<&'a [u8]>,
    hash: Option<&'a [u8]>,
) -> (r: Result<(&'a [u8], &'a [u8], &'a str), i32>)
    ensures
        argument_status(bytes_of(proof), bytes_of(inputs), bytes_of(hash)) matches Some(code)
            ==> r == Err::<(&'a [u8], &'a [u8], &'a str), i32>(code),
        argument_status(bytes_of(proof), bytes_of(inputs), bytes_of(hash)) is None ==> (r matches Ok(
            (p, i, h),
        ) && p@ == proof->0@ && i@ == inputs->0@ && h@ == decode_utf8(hash->0@)),
{
    match (proof, inputs, hash) {
        (Some(p), Some(i), Some(h)) => {
            if p.len() == 0 || i.len() == 0 {
                Err(STATUS_INVALID_ARGUMENT)
            } else {
                match text_of(h) {
                    Some(text) => Ok((p, i, text)),
                    None => Err(STATUS_BAD_STRING),
                }
            }
        },
        _ => Err(STATUS_INVALID_ARGUMENT),
    }
}

/// Verifies a Groth16 proof handed over as raw buffers and reports the outcome
/// as a status code. `hash` holds the bytes of the vkey hash text before its
/// terminator; `None` stands for a buffer the caller did not pass.
pub fn groth16_status(proof: Option<&[u8]>, inputs: Option<&[u8]>, hash: Option<&[u8]>) -> (r:
    i32)
    ensures
        r == groth16_status_of(bytes_of(proof), bytes_of(inputs), bytes_of(hash)),
        proof is None || inputs is None || hash is None ==> r == STATUS_INVALID_ARGUMENT,
        proof matches Some(p) && p@.len() == 0 ==> r == STATUS_INVALID_ARGUMENT,
        inputs matches Some(i) && i@.len() == 0 ==> r == STATUS_INVALID_ARGUMENT,
        (proof matches Some(p) && p@.len() > 0) && (inputs matches Some(i) && i@.len() > 0) && (
        hash matches Some(h) && !valid_utf8(h@)) ==> r == STATUS_BAD_STRING,
{
    match screen_arguments(proof, inputs, hash) {
        Ok((p, i, h)) => outcome_status(verify_groth16(p, i, h)),
        Err(code) => code,
    }
}

/// Verifies a PLONK proof handed over as raw buffers and reports the outcome
/// as a status code. `hash` holds the bytes of the vkey hash text before its
/// terminator; `None` stands for a buffer the caller did not pass.
pub fn plonk_status(proof: Option<&[u8]>, inputs: Option<&[u8]>, hash: Option<&[u8]>) -> (r:
    i32)
    ensures
        r == plonk_status_of(bytes_of(proof), bytes_of(inputs), bytes_of(hash)),
        proof is None || inputs is None || hash is None ==> r == STATUS_INVALID_ARGUMENT,
        proof matches Some(p) && p@.len() == 0 ==> r == STATUS_INVALID_ARGUMENT,
        inputs matches Some(i) && i@.len() == 0 ==> r == STATUS_INVALID_ARGUMENT,
        (proof matches Some(p) && p@.len() > 0) && (inputs matches Some(i) && i@.len() > 0) && (
        hash matches Some(h) && !valid_utf8(h@)) ==> r == STATUS_BAD_STRING,
{
    match screen_arguments(proof, inputs, hash) {
        Ok((p, i, h)) => outcome_status(verify_plonk(p, i, h)),
        Err(code) => code,
    }
}

/// Every Groth16 call reports one of the six status codes, and success only
/// when its arguments passed screening and the verifier accepted the proof.
pub proof fn lemma_groth16_status_closed(
    proof: Option<Seq<u8>>,
    inputs: Option<Seq<u8>>,
    hash: Option<Seq<u8>>,
)
    ensures
        STATUS_OK <= groth16_status_of(proof, inputs, hash) <= STATUS_OTHER_FAILURE,
        groth16_status_of(proof, inputs, hash) == STATUS_OK <==> (argument_status(
            proof,
            inputs,
            hash,
        ) is None && groth16_outcome(
            proof->0,
            inputs->0,
            checked_hash(decode_utf8(hash->0)),
        ) is Ok),
{
}

/// Every PLONK call reports one of the six status codes, and success only
/// when its arguments passed screening and the verifier accepted the proof.
pub proof fn lemma_plonk_status_closed(
    proof: Option<Seq<u8>>,
    inputs: Option<Seq<u8>>,
    hash: Option<Seq<u8>>,
)
    ensures
        STATUS_OK <= plonk_status_of(proof, inputs, hash) <= STATUS_OTHER_FAILURE,
        plonk_status_of(proof, inputs, hash) == STATUS_OK <==> (argument_status(
            proof,
            inputs,
            hash,
        ) is None && plonk_outcome(proof->0, inputs->0, checked_hash(decode_utf8(hash->0))) is Ok),
{
}

/// Verifying twice with the same buffers gives the same status: a Groth16 call
/// keeps no state between calls.
pub proof fn lemma_groth16_status_repeatable(
    proof: Option<Seq<u8>>,
    inputs: Option<Seq<u8>>,
    hash: Option<Seq<u8>>,
    first: i32,
    second: i32,
)
    requires
        first == groth16_status_of(proof, inputs, hash),
        second == groth16_status_of(proof, inputs, hash),
    ensures
        first == second,
{
}

/// Verifying twice with the same buffers gives the same status: a PLONK call
/// keeps no state between calls.
pub proof fn lemma_plonk_status_repeatable(
    proof: Option<Seq<u8>>,
    inputs: Option<Seq<u8>>,
    hash: Option<Seq<u8>>,
    first: i32,
    second: i32,
)
    requires
        first == plonk_status_of(proof, inputs, hash),
        second == plonk_status_of(proof, inputs, hash),
    ensures
        first == second,
{
}

} // verus!
