//! Hash-based signatures (FIPS 205): key pairs.
//!
//! This toolkit generates no keys for these algorithms: each function
//! returns keys of the right length that hold only zeros.

use vstd::prelude::*;
use crate::sdk::crypto::{Algorithm, Keypair};
use crate::sdk::SdkError;

verus! {

pub const SPHINCS_PUBLIC_KEY_SIZE: usize = 32;

pub const SPHINCS_SECRET_KEY_SIZE: usize = 64;

/// `length` bytes that are all zero.
pub open spec fn zeros(length: nat) -> Seq<u8> {
    Seq::new(length, |i: int| 0u8)
}

/// The key pair of zeros for `algorithm`: a public key of 32 zero bytes
/// and a secret key of 64.
fn zero_keypair(algorithm: Algorithm) -> (keypair: Keypair)
    ensures
        keypair.algorithm == algorithm,
        keypair.public_key@ == zeros(32),
        keypair.secret_key@ == zeros(64),
{
    let public_key: Vec<u8> = vec![0u8; SPHINCS_PUBLIC_KEY_SIZE];
    let secret_key: Vec<u8> = vec![0u8; SPHINCS_SECRET_KEY_SIZE];
    assert(public_key@ =~= zeros(32));
    assert(secret_key@ =~= zeros(64));
    Keypair { public_key, secret_key, algorithm }
}

/// Returns the SPHINCS+-SHA2-128s key pair of zeros. It cannot fail.
pub fn generate_sphincs_sha2_128s_keypair() -> (result: Result<Keypair, SdkError>)
    ensures
        result matches Ok(keypair) && keypair.algorithm == Algorithm::SphincsSha2128s
            && keypair.public_key@ == zeros(32) && keypair.secret_key@ == zeros(64),
{
    Ok(zero_keypair(Algorithm::SphincsSha2128s))
}

/// Returns the SPHINCS+-SHA2-128f key pair of zeros. It cannot fail.
pub fn generate_sphincs_sha2_128f_keypair() -> (result: Result<Keypair, SdkError>)
    ensures
        result matches Ok(keypair) && keypair.algorithm == Algorithm::SphincsSha2128f
            && keypair.public_key@ == zeros(32) && keypair.secret_key@ == zeros(64),
{
    Ok(zero_keypair(Algorithm::SphincsSha2128f))
}

/// Returns the SPHINCS+-SHAKE-128s key pair of zeros. It cannot fail.
pub fn generate_sphincs_shake_128s_keypair() -> (result: Result<Keypair, SdkError>)
    ensures
        result matches Ok(keypair) && keypair.algorithm == Algorithm::SphincsShake128s
            && keypair.public_key@ == zeros(32) && keypair.secret_key@ == zeros(64),
{
    Ok(zero_keypair(Algorithm::SphincsShake128s))
}

/// Returns the SPHINCS+-SHAKE-128f key pair of zeros. It cannot fail.
pub fn generate_sphincs_shake_128f_keypair() -> (result: Result<Keypair, SdkError>)
    ensures
        result matches Ok(keypair) && keypair.algorithm == Algorithm::SphincsShake128f
            && keypair.public_key@ == zeros(32) && keypair.secret_key@ == zeros(64),
{
    Ok(zero_keypair(Algorithm::SphincsShake128f))
}

} // verus!
