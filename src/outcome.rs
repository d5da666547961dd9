use vstd::prelude::*;

verus! {

/// Why a verification did not succeed.
#[derive(Clone, Copy, Debug, PartialEq, Eq, Structural)]
pub enum Failure {
    /// The algebraic check (pairing check) did not hold.
    CheckFailed,
    /// The proof was made for another verification key than the embedded one.
    VkeyHashMismatch,
    /// Any other failure: malformed proof or input data, an undecodable hash, ...
    Other,
}

/// The outcome of one verification: success, or why it failed.
pub type Verdict = Result<(), Failure>;

/// Verification succeeded.
pub const STATUS_OK: i32 = 0;

/// A required pointer was null or a required length was zero.
pub const STATUS_INVALID_ARGUMENT: i32 = 1;

/// The vkey hash was not valid UTF-8 text.
pub const STATUS_BAD_STRING: i32 = 2;

/// The cryptographic check failed.
pub const STATUS_CHECK_FAILED: i32 = 3;

/// The proof does not belong to the embedded verification key.
pub const STATUS_VKEY_HASH_MISMATCH: i32 = 4;

/// Any other verification failure.
pub const STATUS_OTHER_FAILURE: i32 = 5;

/// The status code reported for a verification outcome.
pub open spec fn status_code(outcome: Verdict) -> i32 {
    match outcome {
        Ok(()) => STATUS_OK,
        Err(Failure::CheckFailed) => STATUS_CHECK_FAILED,
        Err(Failure::VkeyHashMismatch) => STATUS_VKEY_HASH_MISMATCH,
        Err(Failure::Other) => STATUS_OTHER_FAILURE,
    }
}

/// Maps a verification outcome to its status code.
pub fn outcome_status(outcome: Verdict) -> (r: i32)
    ensures
        r == status_code(outcome),
{
    match outcome {
        Ok(()) => STATUS_OK,
        Err(Failure::CheckFailed) => STATUS_CHECK_FAILED,
        Err(Failure::VkeyHashMismatch) => STATUS_VKEY_HASH_MISMATCH,
        Err(Failure::Other) => STATUS_OTHER_FAILURE,
    }
}

/// Only a successful verification reports the success code, and every outcome
/// reports one of the verifier codes, never an argument code.
pub proof fn lemma_status_code_exact(outcome: Verdict)
    ensures
        (status_code(outcome) == STATUS_OK) <==> outcome is Ok,
        STATUS_CHECK_FAILED <= status_code(outcome) <= STATUS_OTHER_FAILURE || status_code(
            outcome,
        ) == STATUS_OK,
{
}

} // verus!
