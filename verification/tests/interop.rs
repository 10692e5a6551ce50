use anyhow::Result;
use digest::typenum::U32;
use digest::{Digest, FixedOutput, HashMarker, Output, OutputSizeUser, Update};
use double_hash::DoubleHash256;
use k256::ecdsa::signature::{DigestSigner, DigestVerifier};
use k256::ecdsa::{Signature, SigningKey};
use k256::elliptic_curve::rand_core::OsRng;
use sha2::Sha256;

/// The hasher behind the traits that a signer asks of a digest.
struct SignerDigest(DoubleHash256);

impl Default for SignerDigest {
    fn default() -> Self {
        SignerDigest(DoubleHash256::new())
    }
}

impl Update for SignerDigest {
    fn update(&mut self, data: &[u8]) {
        self.0.update(data);
    }
}

impl OutputSizeUser for SignerDigest {
    type OutputSize = U32;
}

impl FixedOutput for SignerDigest {
    fn finalize_into(self, out: &mut Output<Self>) {
        out.copy_from_slice(&self.0.finalize());
    }
}

impl HashMarker for SignerDigest {}

#[test]
fn double_hash_is_same_as_sha256_twice() {
    let message = "hello world";

    let double_hasher = DoubleHash256::new_with_prefix(message.as_bytes());
    let double_hash = double_hasher.finalize();

    let hasher_one = Sha256::new_with_prefix(message.as_bytes());
    let hash_one = hasher_one.finalize();
    let hasher_two = Sha256::new_with_prefix(hash_one);
    let hash_two = hasher_two.finalize();

    assert_eq!(double_hash.as_slice(), hash_two.as_slice());
}

#[test]
fn verifies_signature_with_digest() -> Result<()> {
    let message = "hello world";

    let double_hasher = SignerDigest::new_with_prefix(message.as_bytes());
    let signing_key = SigningKey::random(&mut OsRng);
    let sig: Signature = signing_key.try_sign_digest(double_hasher)?;

    let verifying_key = signing_key.verifying_key();
    let double_hasher = SignerDigest::new_with_prefix(message.as_bytes());
    verifying_key.verify_digest(double_hasher, &sig)?;

    Ok(())
}
