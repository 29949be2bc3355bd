//! Lattice key encapsulation (FIPS 203): key pairs.

use pqcrypto_kyber::{kyber1024, kyber512, kyber768};
use pqcrypto_traits::kem::{PublicKey, SecretKey};
use vstd::prelude::*;
use crate::sdk::crypto::{Algorithm, Keypair};
use crate::sdk::SdkError;

verus! {

pub const KYBER512_PUBLIC_KEY_SIZE: usize = 800;

pub const KYBER512_SECRET_KEY_SIZE: usize = 1632;

pub const KYBER768_PUBLIC_KEY_SIZE: usize = 1184;

pub const KYBER768_SECRET_KEY_SIZE: usize = 2400;

pub const KYBER1024_PUBLIC_KEY_SIZE: usize = 1568;

pub const KYBER1024_SECRET_KEY_SIZE: usize = 3168;

/// Calls `pqcrypto_kyber::kyber512::keypair` and returns the public and
/// the secret key as bytes. Trusted: the keys are random, and the public
/// key has 800 bytes, the secret key 1632. The call draws from the random
/// source of the system and does not return if that source fails.
#[verifier::external_body]
fn kyber512_keypair() -> (keys: (Vec<u8>, Vec<u8>))
    ensures
        keys.0@.len() == KYBER512_PUBLIC_KEY_SIZE,
        keys.1@.len() == KYBER512_SECRET_KEY_SIZE,
{
    let (public_key, secret_key) = kyber512::keypair();
    (public_key.as_bytes().to_vec(), secret_key.as_bytes().to_vec())
}

/// Calls `pqcrypto_kyber::kyber768::keypair` and returns the public and
/// the secret key as bytes. Trusted: the keys are random, and the public
/// key has 1184 bytes, the secret key 2400. The call draws from the random
/// source of the system and does not return if that source fails.
#[verifier::external_body]
fn kyber768_keypair() -> (keys: (Vec<u8>, Vec<u8>))
    ensures
        keys.0@.len() == KYBER768_PUBLIC_KEY_SIZE,
        keys.1@.len() == KYBER768_SECRET_KEY_SIZE,
{
    let (public_key, secret_key) = kyber768::keypair();
    (public_key.as_bytes().to_vec(), secret_key.as_bytes().to_vec())
}

/// Calls `pqcrypto_kyber::kyber1024::keypair` and returns the public and
/// the secret key as bytes. Trusted: the keys are random, and the public
/// key has 1568 bytes, the secret key 3168. The call draws from the random
/// source of the system and does not return if that source fails.
#[verifier::external_body]
fn kyber1024_keypair() -> (keys: (Vec<u8>, Vec<u8>))
    ensures
        keys.0@.len() == KYBER1024_PUBLIC_KEY_SIZE,
        keys.1@.len() == KYBER1024_SECRET_KEY_SIZE,
{
    let (public_key, secret_key) = kyber1024::keypair();
    (public_key.as_bytes().to_vec(), secret_key.as_bytes().to_vec())
}

/// Generates a Kyber512 key pair. It cannot fail. The keys are random; the
/// public key has 800 bytes and the secret key 1632.
pub fn generate_kyber512_keypair() -> (result: Result<Keypair, SdkError>)
    ensures
        result matches Ok(keypair) && keypair.algorithm == Algorithm::Kyber512
            && keypair.public_key@.len() == KYBER512_PUBLIC_KEY_SIZE
            && keypair.secret_key@.len() == KYBER512_SECRET_KEY_SIZE,
{
    let (public_key, secret_key) = kyber512_keypair();
    Ok(Keypair { public_key, secret_key, algorithm: Algorithm::Kyber512 })
}

/// Generates a Kyber768 key pair. It cannot fail. The keys are random; the
/// public key has 1184 bytes and the secret key 2400.
pub fn generate_kyber768_keypair() -> (result: Result<Keypair, SdkError>)
    ensures
        result matches Ok(keypair) && keypair.algorithm == Algorithm::Kyber768
            && keypair.public_key@.len() == KYBER768_PUBLIC_KEY_SIZE
            && keypair.secret_key@.len() == KYBER768_SECRET_KEY_SIZE,
{
    let (public_key, secret_key) = kyber768_keypair();
    Ok(Keypair { public_key, secret_key, algorithm: Algorithm::Kyber768 })
}

/// Generates a Kyber1024 key pair. It cannot fail. The keys are random;
/// the public key has 1568 bytes and the secret key 3168.
pub fn generate_kyber1024_keypair() -> (result: Result<Keypair, SdkError>)
    ensures
        result matches Ok(keypair) && keypair.algorithm == Algorithm::Kyber1024
            && keypair.public_key@.len() == KYBER1024_PUBLIC_KEY_SIZE
            && keypair.secret_key@.len() == KYBER1024_SECRET_KEY_SIZE,
{
    let (public_key, secret_key) = kyber1024_keypair();
    Ok(Keypair { public_key, secret_key, algorithm: Algorithm::Kyber1024 })
}

} // verus!
