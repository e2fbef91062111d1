//! The secp256k1 primitives the oracle signs with.
use vstd::prelude::*;

use secp256k1_zkp::rand::RngCore;

verus! {

#[verifier::external_type_specification]
#[verifier::external_body]
pub struct ExKeyPair(secp256k1_zkp::KeyPair);

#[verifier::external_type_specification]
#[verifier::external_body]
pub struct ExSecretKey(secp256k1_zkp::SecretKey);

#[verifier::external_type_specification]
#[verifier::external_body]
pub struct ExXOnlyPublicKey(secp256k1_zkp::XOnlyPublicKey);

#[verifier::external_type_specification]
#[verifier::external_body]
pub struct ExSignature(secp256k1_zkp::schnorr::Signature);

#[verifier::external_type_specification]
#[verifier::external_body]
pub struct ExMessage(secp256k1_zkp::Message);

/// The x-only public key of a key pair.
pub uninterp spec fn keypair_public_key_of(kp: secp256k1_zkp::KeyPair) -> secp256k1_zkp::XOnlyPublicKey;

/// The x-only public key of a secret key.
pub uninterp spec fn secret_public_key_of(sk: secp256k1_zkp::SecretKey) -> secp256k1_zkp::XOnlyPublicKey;

/// The message that is the SHA-256 digest of `data`.
pub uninterp spec fn sha256_message_of(data: Seq<u8>) -> secp256k1_zkp::Message;

/// The Schnorr signature of `msg` by `kp` made with the fixed nonce `nonce`.
pub uninterp spec fn nonce_signature_of(
    msg: secp256k1_zkp::Message,
    kp: secp256k1_zkp::KeyPair,
    nonce: secp256k1_zkp::SecretKey,
) -> secp256k1_zkp::schnorr::Signature;

/// Relies on `KeyPair::new`: a key pair drawn from the thread's random generator.
#[verifier::external_body]
pub(crate) fn generate_keypair() -> (r: secp256k1_zkp::KeyPair) {
    let secp = secp256k1_zkp::Secp256k1::new();
    secp256k1_zkp::KeyPair::new(&secp, &mut secp256k1_zkp::rand::thread_rng())
}

/// Relies on `SecretKey::new`: a secret scalar drawn from the thread's random generator.
#[verifier::external_body]
pub(crate) fn generate_secret_key() -> (r: secp256k1_zkp::SecretKey) {
    secp256k1_zkp::SecretKey::new(&mut secp256k1_zkp::rand::thread_rng())
}

/// Relies on `KeyPair::x_only_public_key`: the key pair's public key, without its parity.
#[verifier::external_body]
pub(crate) fn keypair_public_key(kp: &secp256k1_zkp::KeyPair) -> (r: secp256k1_zkp::XOnlyPublicKey)
    ensures
        r == keypair_public_key_of(*kp),
{
    kp.x_only_public_key().0
}

/// Relies on `SecretKey::x_only_public_key`: the point of a secret scalar, without its parity.
#[verifier::external_body]
pub(crate) fn secret_public_key(
    sk: &secp256k1_zkp::SecretKey,
) -> (r: secp256k1_zkp::XOnlyPublicKey)
    ensures
        r == secret_public_key_of(*sk),
{
    let secp = secp256k1_zkp::Secp256k1::new();
    sk.x_only_public_key(&secp).0
}

/// Relies on `Message::from_hashed_data` with SHA-256: the digest of `data` as a message.
#[verifier::external_body]
pub(crate) fn sha256_message(data: &[u8]) -> (r: secp256k1_zkp::Message)
    ensures
        r == sha256_message_of(data@),
{
    secp256k1_zkp::Message::from_hashed_data::<secp256k1_zkp::hashes::sha256::Hash>(data)
}

/// Whether `sig` is a valid BIP-340 signature of `msg` under `pk`.
pub uninterp spec fn schnorr_verifies(
    sig: secp256k1_zkp::schnorr::Signature,
    msg: secp256k1_zkp::Message,
    pk: secp256k1_zkp::XOnlyPublicKey,
) -> bool;

/// Relies on `Secp256k1::verify_schnorr`: BIP-340 verification of `sig` over `msg` by `pk`.
#[verifier::external_body]
pub(crate) fn verify_schnorr(
    sig: &secp256k1_zkp::schnorr::Signature,
    msg: &secp256k1_zkp::Message,
    pk: &secp256k1_zkp::XOnlyPublicKey,
) -> (r: bool)
    ensures
        r == schnorr_verifies(*sig, *msg, *pk),
{
    let secp = secp256k1_zkp::Secp256k1::new();
    secp.verify_schnorr(sig, msg, pk).is_ok()
}

/// Relies on `Secp256k1::sign_schnorr`: a BIP-340 signature whose auxiliary data is random,
/// valid for the key pair's public key.
#[verifier::external_body]
pub(crate) fn sign_schnorr(
    msg: &secp256k1_zkp::Message,
    kp: &secp256k1_zkp::KeyPair,
) -> (r: secp256k1_zkp::schnorr::Signature)
    ensures
        schnorr_verifies(r, *msg, keypair_public_key_of(*kp)),
{
    let secp = secp256k1_zkp::Secp256k1::new();
    secp.sign_schnorr(msg, kp)
}

/// Relies on `dlc::secp_utils::schnorrsig_sign_with_nonce`: a Schnorr signature that uses
/// the given secret as its nonce, so that it opens the nonce point announced beforehand; it
/// is a BIP-340 signature, valid for the key pair's public key.
#[verifier::external_body]
pub(crate) fn sign_with_nonce(
    msg: &secp256k1_zkp::Message,
    kp: &secp256k1_zkp::KeyPair,
    nonce: &secp256k1_zkp::SecretKey,
) -> (r: secp256k1_zkp::schnorr::Signature)
    ensures
        r == nonce_signature_of(*msg, *kp, *nonce),
        schnorr_verifies(r, *msg, keypair_public_key_of(*kp)),
{
    let secp = secp256k1_zkp::Secp256k1::new();
    dlc::secp_utils::schnorrsig_sign_with_nonce(&secp, msg, kp, nonce.as_ref())
}

/// Relies on `RngCore::fill_bytes` of the thread's random generator: 32 random bytes.
#[verifier::external_body]
pub(crate) fn random_bytes() -> (r: [u8; 32]) {
    let mut bytes = [0u8; 32];
    secp256k1_zkp::rand::thread_rng().fill_bytes(&mut bytes);
    bytes
}

/// The lower-case hexadecimal digit of `n < 16`.
pub open spec fn hex_digit(n: u8) -> char {
    if n < 10 {
        (n + 48) as char
    } else {
        (n + 87) as char
    }
}

/// Lower-case hexadecimal, two digits per byte, high digit first.
pub open spec fn hex_of(b: Seq<u8>) -> Seq<char> {
    Seq::new(
        2 * b.len(),
        |j: int|
            if j % 2 == 0 {
                hex_digit(b[j / 2] / 16)
            } else {
                hex_digit(b[j / 2] % 16)
            },
    )
}

/// Relies on `hex::encode`: two lower-case digits per byte.
#[verifier::external_body]
pub(crate) fn hex_encode(b: &[u8; 32]) -> (r: String)
    ensures
        r@ == hex_of(b@),
{
    hex::encode(b)
}

} // verus!
