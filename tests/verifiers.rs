use sp1verifier::boundary::{groth16_status, plonk_status};
use sp1verifier::outcome::Failure;
use sp1verifier::verifiers::{verify_groth16, verify_plonk};

const HASH: &str = "0x00aa36a9c0d58a4ec2d1fa1f5f2d1c7d8a1e2b0e3c4d5f60718293a4b5c6d7e8";

/// A proof whose header matches the embedded key and vkey root, followed by a
/// body of `body_len` zero bytes.
fn proof_with_header(vk: &[u8], body_len: usize) -> Vec<u8> {
    let mut proof = Vec::new();
    proof.extend_from_slice(&sp1_verifier::sha256_hash(vk)[..4]);
    proof.extend_from_slice(&[0u8; 32]);
    proof.extend_from_slice(&*sp1_verifier::VK_ROOT_BYTES);
    proof.extend_from_slice(&[0u8; 32]);
    proof.extend_from_slice(&vec![0u8; body_len]);
    proof
}

#[test]
fn short_groth16_proof_is_other() {
    assert_eq!(verify_groth16(&[1u8; 10], &[1, 2], HASH), Err(Failure::Other));
}

#[test]
fn short_plonk_proof_is_other() {
    assert_eq!(verify_plonk(&[1u8; 10], &[1, 2], HASH), Err(Failure::Other));
}

#[test]
fn foreign_key_prefix_is_hash_mismatch() {
    let proof = [0u8; 356];
    assert_eq!(verify_groth16(&proof, &[1, 2, 3], HASH), Err(Failure::VkeyHashMismatch));
    assert_eq!(groth16_status(Some(&proof), Some(&[1, 2, 3]), Some(HASH.as_bytes())), 4);
    let proof = [0u8; 868];
    assert_eq!(verify_plonk(&proof, &[1, 2, 3], HASH), Err(Failure::VkeyHashMismatch));
    assert_eq!(plonk_status(Some(&proof), Some(&[1, 2, 3]), Some(HASH.as_bytes())), 4);
}

#[test]
fn undecodable_groth16_points_are_other() {
    let proof = proof_with_header(&sp1_verifier::GROTH16_VK_BYTES, 256);
    assert_eq!(verify_groth16(&proof, &[1, 2, 3], HASH), Err(Failure::Other));
    assert_eq!(groth16_status(Some(&proof), Some(&[1, 2, 3]), Some(HASH.as_bytes())), 5);
}

#[test]
fn undecodable_plonk_points_are_other() {
    let proof = proof_with_header(&sp1_verifier::PLONK_VK_BYTES, 864);
    assert_eq!(verify_plonk(&proof, &[1, 2, 3], HASH), Err(Failure::Other));
    assert_eq!(plonk_status(Some(&proof), Some(&[1, 2, 3]), Some(HASH.as_bytes())), 5);
}

#[test]
fn hash_not_cut_after_two_bytes_is_other() {
    let text = "a\u{20ac}00aa";
    let proof = proof_with_header(&sp1_verifier::GROTH16_VK_BYTES, 256);
    assert_eq!(verify_groth16(&proof, &[1, 2, 3], text), Err(Failure::Other));
    assert_eq!(groth16_status(Some(&proof), Some(&[1, 2, 3]), Some(text.as_bytes())), 5);
    let proof = proof_with_header(&sp1_verifier::PLONK_VK_BYTES, 864);
    assert_eq!(verify_plonk(&proof, &[1, 2, 3], text), Err(Failure::Other));
    let text = "\u{20ac}";
    assert_eq!(verify_plonk(&proof, &[1, 2, 3], text), Err(Failure::Other));
}

#[test]
fn too_short_hash_is_other() {
    let proof = proof_with_header(&sp1_verifier::GROTH16_VK_BYTES, 256);
    assert_eq!(verify_groth16(&proof, &[1, 2, 3], "0"), Err(Failure::Other));
    assert_eq!(groth16_status(Some(&proof), Some(&[1, 2, 3]), Some(b"0")), 5);
}
