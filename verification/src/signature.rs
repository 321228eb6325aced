//! Reward signature checks with Schnorr signatures over Ristretto (schnorrkel).

use vstd::prelude::*;

verus! {

/// Why a reward signature was refused.
#[derive(Debug, Clone, Copy, PartialEq, Eq, Structural)]
pub enum SignatureError {
    /// The signature verification equation failed
    EquationFalse,
    /// The public key is not a valid compressed Ristretto point
    PointDecompressionError,
    /// The signature's scalar is not canonical
    ScalarFormatError,
    /// The signature does not carry the schnorrkel marker bit
    NotMarkedSchnorrkel,
}

/// Whether the 32 bytes are the compressed form of a Ristretto point.
pub uninterp spec fn ristretto_point_decodes(bytes: Seq<u8>) -> bool;

/// Whether the Schnorr signature (64 bytes) verifies under the public key (32 bytes) on the
/// message in the signing context with the given label.
pub uninterp spec fn schnorrkel_verifies(
    public_key: Seq<u8>,
    context: Seq<u8>,
    message: Seq<u8>,
    signature: Seq<u8>,
) -> bool;

/// The schnorrkel marker bit: the top bit of the last byte of a signature.
pub open spec fn marked_schnorrkel(signature: Seq<u8>) -> bool {
    signature[63] & 128u8 != 0
}

/// The number that `bytes` encode in little-endian order.
pub open spec fn le_bytes_value(bytes: Seq<u8>) -> nat
    decreases bytes.len(),
{
    if bytes.len() == 0 {
        0
    } else {
        (bytes[0] + 256 * le_bytes_value(bytes.drop_first())) as nat
    }
}

/// The order of the Ristretto group, 2^252 + 27742317777372353535851937790883648493.
pub open spec fn group_order() -> nat {
    7237005577332262213973186563042994240857116359379907606001950938285454250989nat
}

/// Whether the upper half of a marked signature, with the marker bit cleared, is a canonical
/// scalar: its little-endian value is below the group order.
pub open spec fn signature_scalar_canonical(signature: Seq<u8>) -> bool {
    le_bytes_value(signature.subrange(32, 63).push(signature[63] & 127u8)) < group_order()
}

/// Decodes the public key with `schnorrkel::PublicKey::from_bytes`, keeping only whether it
/// decodes. For 32 bytes that function fails only with `PointDecompressionError`, when the bytes
/// do not decompress to a Ristretto point.
#[verifier::external_body]
fn decode_public_key(bytes: &[u8; 32]) -> (decoded: Result<(), SignatureError>)
    ensures
        decoded is Ok <==> ristretto_point_decodes(bytes@),
        decoded matches Err(e) ==> e == SignatureError::PointDecompressionError,
{
    match schnorrkel::PublicKey::from_bytes(bytes) {
        Ok(_) => Ok(()),
        Err(_) => Err(SignatureError::PointDecompressionError),
    }
}

/// Decodes the signature with `schnorrkel::Signature::from_bytes`, keeping only whether it
/// decodes. For 64 bytes that function fails with `NotMarkedSchnorrkel` when the marker bit is
/// clear; otherwise it clears the marker bit and succeeds exactly when the upper 32 bytes are a
/// canonical scalar, failing with `ScalarFormatError` when they are not.
#[verifier::external_body]
fn decode_signature(bytes: &[u8; 64]) -> (decoded: Result<(), SignatureError>)
    ensures
        !marked_schnorrkel(bytes@) ==> decoded is Err && decoded->Err_0 == SignatureError::NotMarkedSchnorrkel,
        marked_schnorrkel(bytes@) ==> (decoded is Ok <==> signature_scalar_canonical(bytes@)),
        marked_schnorrkel(bytes@) ==> (decoded matches Err(e) ==> e == SignatureError::ScalarFormatError),
{
    match schnorrkel::Signature::from_bytes(bytes) {
        Ok(_) => Ok(()),
        Err(schnorrkel::SignatureError::NotMarkedSchnorrkel) => Err(
            SignatureError::NotMarkedSchnorrkel,
        ),
        Err(_) => Err(SignatureError::ScalarFormatError),
    }
}

/// Verifies the signature with `schnorrkel::PublicKey::verify_simple`, on the message in the
/// signing context labelled `context`, after decoding the key and the signature. The outcome
/// depends on these four byte strings alone, and the only error of the verification is
/// `EquationFalse`. The transcript that it builds takes the context and the message only when
/// their lengths fit in a `u32`.
#[verifier::external_body]
fn verify_simple(
    public_key: &[u8; 32],
    context: &[u8],
    message: &[u8],
    signature: &[u8; 64],
) -> (verified: Result<(), SignatureError>)
    requires
        ristretto_point_decodes(public_key@),
        marked_schnorrkel(signature@),
        signature_scalar_canonical(signature@),
        context@.len() <= u32::MAX,
        message@.len() <= u32::MAX,
    ensures
        verified is Ok <==> schnorrkel_verifies(public_key@, context@, message@, signature@),
        verified matches Err(e) ==> e == SignatureError::EquationFalse,
{
    let key = schnorrkel::PublicKey::from_bytes(public_key).expect("Key decodes; qed");
    let signature = schnorrkel::Signature::from_bytes(signature).expect("Signature decodes; qed");
    match key.verify_simple(context, message, &signature) {
        Ok(()) => Ok(()),
        Err(_) => Err(SignatureError::EquationFalse),
    }
}

/// Check the reward signature validity: the public key must decode, then the signature, then
/// the signature must verify on `hash` in the signing context labelled
/// `reward_signing_context`. Signing transcripts take messages and context labels whose lengths
/// fit in a `u32`.
pub fn check_reward_signature(
    hash: &[u8],
    signature: &[u8; 64],
    public_key: &[u8; 32],
    reward_signing_context: &[u8],
) -> (checked: Result<(), SignatureError>)
    requires
        hash@.len() <= u32::MAX,
        reward_signing_context@.len() <= u32::MAX,
    ensures
        !ristretto_point_decodes(public_key@) ==> checked == Err::<(), SignatureError>(
            SignatureError::PointDecompressionError,
        ),
        ristretto_point_decodes(public_key@) && !marked_schnorrkel(signature@) ==> checked == Err::<
            (),
            SignatureError,
        >(SignatureError::NotMarkedSchnorrkel),
        ristretto_point_decodes(public_key@) && marked_schnorrkel(signature@)
            && !signature_scalar_canonical(signature@) ==> checked == Err::<(), SignatureError>(
            SignatureError::ScalarFormatError,
        ),
        ristretto_point_decodes(public_key@) && marked_schnorrkel(signature@)
            && signature_scalar_canonical(signature@) ==> (checked is Ok <==> schnorrkel_verifies(
            public_key@,
            reward_signing_context@,
            hash@,
            signature@,
        )),
        ristretto_point_decodes(public_key@) && marked_schnorrkel(signature@)
            && signature_scalar_canonical(signature@) ==> (checked matches Err(e) ==> e
            == SignatureError::EquationFalse),
{
    if let Err(e) = decode_public_key(public_key) {
        return Err(e);
    }
    if let Err(e) = decode_signature(signature) {
        return Err(e);
    }
    verify_simple(public_key, reward_signing_context, hash, signature)
}

} // verus!
