use vstd::prelude::*;
use vstd::utf8::*;
use sp1_verifier::{Groth16Error, Groth16Verifier, PlonkError, PlonkVerifier};
use crate::outcome::{Failure, Verdict};

verus! {

/// Bytes at the front of a proof of either system that carry the key prefix,
/// the exit code, the vkey root and the nonce.
pub const PROOF_HEADER_LEN: usize = 100;

/// What the Groth16 verifier reports for a proof, public inputs and vkey hash
/// text, checked against the embedded Groth16 verification key.
pub uninterp spec fn groth16_outcome(proof: Seq<u8>, inputs: Seq<u8>, hash: Seq<char>) -> Verdict;

/// What the PLONK verifier reports for a proof, public inputs and vkey hash
/// text, checked against the embedded PLONK verification key.
pub uninterp spec fn plonk_outcome(proof: Seq<u8>, inputs: Seq<u8>, hash: Seq<char>) -> Verdict;

/// Whether the verifiers can cut the two-character `0x` prefix off the hash
/// text: it is shorter than two bytes, or byte two starts a character.
pub open spec fn hash_splits(hash: Seq<char>) -> bool {
    encode_utf8(hash).len() < 2 || is_char_boundary(encode_utf8(hash), 2)
}

/// The hash text handed to a verifier: the caller's text where it can be cut
/// after two bytes, else the empty text, which the verifiers reject as an
/// invalid vkey hash just as they would that text.
pub open spec fn checked_hash(hash: Seq<char>) -> Seq<char> {
    if hash_splits(hash) {
        hash
    } else {
        Seq::empty()
    }
}

/// Relies on `sp1_verifier::Groth16Verifier::verify` with the embedded
/// `sp1_verifier::GROTH16_VK_BYTES`: its result depends on the arguments alone,
/// and a proof shorter than its header is rejected as invalid data first. It
/// slices the hash text at byte two, which panics unless that is a boundary.
#[verifier::external_body]
fn groth16_verify(proof: &[u8], inputs: &[u8], hash: &str) -> (r: Verdict)
    requires
        hash_splits(hash@),
    ensures
        r == groth16_outcome(proof@, inputs@, hash@),
        proof@.len() < PROOF_HEADER_LEN ==> r == Verdict::Err(Failure::Other),
{
    match Groth16Verifier::verify(proof, inputs, hash, *sp1_verifier::GROTH16_VK_BYTES) {
        Ok(()) => Ok(()),
        Err(Groth16Error::ProofVerificationFailed) => Err(Failure::CheckFailed),
        Err(Groth16Error::Groth16VkeyHashMismatch) => Err(Failure::VkeyHashMismatch),
        Err(_) => Err(Failure::Other),
    }
}

/// Relies on `sp1_verifier::PlonkVerifier::verify` with the embedded
/// `sp1_verifier::PLONK_VK_BYTES`: its result depends on the arguments alone,
/// and a proof shorter than its header is rejected as invalid data first. It
/// slices the hash text at byte two, which panics unless that is a boundary.
#[verifier::external_body]
fn plonk_verify(proof: &[u8], inputs: &[u8], hash: &str) -> (r: Verdict)
    requires
        hash_splits(hash@),
    ensures
        r == plonk_outcome(proof@, inputs@, hash@),
        proof@.len() < PROOF_HEADER_LEN ==> r == Verdict::Err(Failure::Other),
{
    match PlonkVerifier::verify(proof, inputs, hash, *sp1_verifier::PLONK_VK_BYTES) {
        Ok(()) => Ok(()),
        Err(PlonkError::PairingCheckFailed) => Err(Failure::CheckFailed),
        Err(PlonkError::PlonkVkeyHashMismatch) => Err(Failure::VkeyHashMismatch),
        Err(_) => Err(Failure::Other),
    }
}

/// The hash text to hand a verifier, as `checked_hash` describes it.
fn verifier_hash(hash: &str) -> (r: &str)
    ensures
        r@ == checked_hash(hash@),
        hash_splits(r@),
{
    proof {
        encode_utf8_valid_utf8(hash@);
    }
    if hash.as_bytes().len() < 2 || hash.is_char_boundary(2) {
        hash
    } else {
        let unreadable: &str = "";
        proof {
            reveal_strlit("");
            assert(unreadable@ =~= Seq::<char>::empty());
            assert(encode_utf8(unreadable@) =~= Seq::<u8>::empty());
        }
        unreadable
    }
}

/// Verifies a Groth16 proof of `sp1_public_inputs` for the program whose vkey
/// hash is `sp1_vkey_hash`, against the embedded Groth16 verification key.
pub fn verify_groth16(proof: &[u8], sp1_public_inputs: &[u8], sp1_vkey_hash: &str) -> (r: Verdict)
    ensures
        r == groth16_outcome(proof@, sp1_public_inputs@, checked_hash(sp1_vkey_hash@)),
        hash_splits(sp1_vkey_hash@) ==> r == groth16_outcome(
            proof@,
            sp1_public_inputs@,
            sp1_vkey_hash@,
        ),
        proof@.len() < PROOF_HEADER_LEN ==> r == Verdict::Err(Failure::Other),
{
    let hash = verifier_hash(sp1_vkey_hash);
    groth16_verify(proof, sp1_public_inputs, hash)
}

/// Verifies a PLONK proof of `sp1_public_inputs` for the program whose vkey
/// hash is `sp1_vkey_hash`, against the embedded PLONK verification key.
pub fn verify_plonk(proof: &[u8], sp1_public_inputs: &[u8], sp1_vkey_hash: &str) -> (r: Verdict)
    ensures
        r == plonk_outcome(proof@, sp1_public_inputs@, checked_hash(sp1_vkey_hash@)),
        hash_splits(sp1_vkey_hash@) ==> r == plonk_outcome(
            proof@,
            sp1_public_inputs@,
            sp1_vkey_hash@,
        ),
        proof@.len() < PROOF_HEADER_LEN ==> r == Verdict::Err(Failure::Other),
{
    let hash = verifier_hash(sp1_vkey_hash);
    plonk_verify(proof, sp1_public_inputs, hash)
}

} // verus!
