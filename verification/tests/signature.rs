use schnorrkel::{ExpansionMode, MiniSecretKey};
use subspace_verification::signature::{check_reward_signature, SignatureError};

const CONTEXT: &[u8] = b"subspace_reward";

fn keypair() -> schnorrkel::Keypair {
    MiniSecretKey::from_bytes(&[7u8; 32]).unwrap().expand_to_keypair(ExpansionMode::Ed25519)
}

#[test]
fn valid_reward_signature() {
    let keypair = keypair();
    let hash = [1u8; 32];
    let signature = keypair.sign_simple(CONTEXT, &hash).to_bytes();
    let public_key = keypair.public.to_bytes();
    assert_eq!(check_reward_signature(&hash, &signature, &public_key, CONTEXT), Ok(()));
}

#[test]
fn wrong_message_or_context_fails_equation() {
    let keypair = keypair();
    let hash = [1u8; 32];
    let signature = keypair.sign_simple(CONTEXT, &hash).to_bytes();
    let public_key = keypair.public.to_bytes();
    assert_eq!(
        check_reward_signature(&[2u8; 32], &signature, &public_key, CONTEXT),
        Err(SignatureError::EquationFalse)
    );
    assert_eq!(
        check_reward_signature(&hash, &signature, &public_key, b"another_context"),
        Err(SignatureError::EquationFalse)
    );
}

#[test]
fn unmarked_signature_is_refused() {
    let keypair = keypair();
    let hash = [1u8; 32];
    let mut signature = keypair.sign_simple(CONTEXT, &hash).to_bytes();
    signature[63] &= 127;
    let public_key = keypair.public.to_bytes();
    assert_eq!(
        check_reward_signature(&hash, &signature, &public_key, CONTEXT),
        Err(SignatureError::NotMarkedSchnorrkel)
    );
}

#[test]
fn non_canonical_scalar_is_refused() {
    let keypair = keypair();
    let public_key = keypair.public.to_bytes();
    let signature = [0xffu8; 64];
    assert_eq!(
        check_reward_signature(&[1u8; 32], &signature, &public_key, CONTEXT),
        Err(SignatureError::ScalarFormatError)
    );
}

#[test]
fn invalid_public_key_is_refused_first() {
    let public_key = [0xffu8; 32];
    let signature = [0u8; 64];
    assert_eq!(
        check_reward_signature(&[1u8; 32], &signature, &public_key, CONTEXT),
        Err(SignatureError::PointDecompressionError)
    );
}

#[test]
fn context_and_message_are_not_interchangeable() {
    let keypair = keypair();
    let hash = [1u8; 32];
    let signature = keypair.sign_simple(CONTEXT, &hash).to_bytes();
    let public_key = keypair.public.to_bytes();
    assert_eq!(
        check_reward_signature(CONTEXT, &signature, &public_key, &hash),
        Err(SignatureError::EquationFalse)
    );
}
