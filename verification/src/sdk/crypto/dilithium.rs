//! Lattice signatures (FIPS 204): key pairs and signing.

use pqcrypto_dilithium::{dilithium2, dilithium3, dilithium5};
use pqcrypto_traits::sign::{PublicKey, SecretKey, SignedMessage};
use vstd::prelude::*;
use vstd::string::StringExecFns;
use crate::sdk::crypto::{Algorithm, Keypair};
use crate::sdk::SdkError;

verus! {

pub const DILITHIUM2_PUBLIC_KEY_SIZE: usize = 1312;

pub const DILITHIUM2_SECRET_KEY_SIZE: usize = 2560;

/// Length of the signature in front of a message signed with Dilithium2.
pub const DILITHIUM2_SIGNATURE_SIZE: usize = 2420;

pub const DILITHIUM3_PUBLIC_KEY_SIZE: usize = 1952;

pub const DILITHIUM3_SECRET_KEY_SIZE: usize = 4032;

/// Length of the signature in front of a message signed with Dilithium3.
pub const DILITHIUM3_SIGNATURE_SIZE: usize = 3309;

pub const DILITHIUM5_PUBLIC_KEY_SIZE: usize = 2592;

pub const DILITHIUM5_SECRET_KEY_SIZE: usize = 4896;

/// Length of the signature in front of a message signed with Dilithium5.
pub const DILITHIUM5_SIGNATURE_SIZE: usize = 4627;

/// The error with which `pqcrypto_traits` refuses bytes of the wrong
/// length.
#[verifier::external_type_specification]
#[verifier::external_body]
pub struct ExKeyError(pqcrypto_traits::Error);

/// The signed message that `pqcrypto_dilithium::dilithium2::sign` returns
/// for a message and the bytes of a secret key. Signing draws no
/// randomness: the same message and key give the same bytes.
pub uninterp spec fn dilithium2_signed_message(message: Seq<u8>, secret_key: Seq<u8>) -> Seq<u8>;

/// The signed message that `pqcrypto_dilithium::dilithium3::sign` returns
/// for a message and the bytes of a secret key.
pub uninterp spec fn dilithium3_signed_message(message: Seq<u8>, secret_key: Seq<u8>) -> Seq<u8>;

/// The signed message that `pqcrypto_dilithium::dilithium5::sign` returns
/// for a message and the bytes of a secret key.
pub uninterp spec fn dilithium5_signed_message(message: Seq<u8>, secret_key: Seq<u8>) -> Seq<u8>;

/// What a signed message is made of: a signature of `signature_size`
/// bytes, then the message itself.
pub open spec fn frames(signed: Seq<u8>, signature_size: usize, message: Seq<u8>) -> bool {
    &&& signed.len() == signature_size + message.len()
    &&& signed.subrange(signature_size as int, signed.len() as int) == message
}

/// Calls `pqcrypto_dilithium::dilithium2::keypair` and returns the public
/// and the secret key as bytes. Trusted: the keys are random, and the
/// public key has 1312 bytes, the secret key 2560. The call draws from the
/// random source of the system and does not return if that source fails.
#[verifier::external_body]
fn dilithium2_keypair() -> (keys: (Vec<u8>, Vec<u8>))
    ensures
        keys.0@.len() == DILITHIUM2_PUBLIC_KEY_SIZE,
        keys.1@.len() == DILITHIUM2_SECRET_KEY_SIZE,
{
    let (public_key, secret_key) = dilithium2::keypair();
    (public_key.as_bytes().to_vec(), secret_key.as_bytes().to_vec())
}

/// Calls `pqcrypto_dilithium::dilithium3::keypair` and returns the public
/// and the secret key as bytes. Trusted: the keys are random, and the
/// public key has 1952 bytes, the secret key 4032. The call draws from the
/// random source of the system and does not return if that source fails.
#[verifier::external_body]
fn dilithium3_keypair() -> (keys: (Vec<u8>, Vec<u8>))
    ensures
        keys.0@.len() == DILITHIUM3_PUBLIC_KEY_SIZE,
        keys.1@.len() == DILITHIUM3_SECRET_KEY_SIZE,
{
    let (public_key, secret_key) = dilithium3::keypair();
    (public_key.as_bytes().to_vec(), secret_key.as_bytes().to_vec())
}

/// Calls `pqcrypto_dilithium::dilithium5::keypair` and returns the public
/// and the secret key as bytes. Trusted: the keys are random, and the
/// public key has 2592 bytes, the secret key 4896. The call draws from the
/// random source of the system and does not return if that source fails.
#[verifier::external_body]
fn dilithium5_keypair() -> (keys: (Vec<u8>, Vec<u8>))
    ensures
        keys.0@.len() == DILITHIUM5_PUBLIC_KEY_SIZE,
        keys.1@.len() == DILITHIUM5_SECRET_KEY_SIZE,
{
    let (public_key, secret_key) = dilithium5::keypair();
    (public_key.as_bytes().to_vec(), secret_key.as_bytes().to_vec())
}

/// Calls `pqcrypto_dilithium::dilithium2::sign` with the secret key that
/// `secret_key` holds. Trusted: bytes that are not 2560 long are refused
/// and nothing else is; the result is a function of the message and the
/// key alone, and is a signature of 2420 bytes followed by the message.
#[verifier::external_body]
fn dilithium2_sign(message: &[u8], secret_key: &[u8]) -> (result: Result<
    Vec<u8>,
    pqcrypto_traits::Error,
>)
    ensures
        result is Ok <==> secret_key@.len() == DILITHIUM2_SECRET_KEY_SIZE,
        result matches Ok(signed) ==> signed@ == dilithium2_signed_message(message@, secret_key@)
            && frames(signed@, DILITHIUM2_SIGNATURE_SIZE, message@),
{
    let key = dilithium2::SecretKey::from_bytes(secret_key)?;
    Ok(dilithium2::sign(message, &key).as_bytes().to_vec())
}

/// Calls `pqcrypto_dilithium::dilithium3::sign` with the secret key that
/// `secret_key` holds. Trusted: bytes that are not 4032 long are refused
/// and nothing else is; the result is a function of the message and the
/// key alone, and is a signature of 3309 bytes followed by the message.
#[verifier::external_body]
fn dilithium3_sign(message: &[u8], secret_key: &[u8]) -> (result: Result<
    Vec<u8>,
    pqcrypto_traits::Error,
>)
    ensures
        result is Ok <==> secret_key@.len() == DILITHIUM3_SECRET_KEY_SIZE,
        result matches Ok(signed) ==> signed@ == dilithium3_signed_message(message@, secret_key@)
            && frames(signed@, DILITHIUM3_SIGNATURE_SIZE, message@),
{
    let key = dilithium3::SecretKey::from_bytes(secret_key)?;
    Ok(dilithium3::sign(message, &key).as_bytes().to_vec())
}

/// Calls `pqcrypto_dilithium::dilithium5::sign` with the secret key that
/// `secret_key` holds. Trusted: bytes that are not 4896 long are refused
/// and nothing else is; the result is a function of the message and the
/// key alone, and is a signature of 4627 bytes followed by the message.
#[verifier::external_body]
fn dilithium5_sign(message: &[u8], secret_key: &[u8]) -> (result: Result<
    Vec<u8>,
    pqcrypto_traits::Error,
>)
    ensures
        result is Ok <==> secret_key@.len() == DILITHIUM5_SECRET_KEY_SIZE,
        result matches Ok(signed) ==> signed@ == dilithium5_signed_message(message@, secret_key@)
            && frames(signed@, DILITHIUM5_SIGNATURE_SIZE, message@),
{
    let key = dilithium5::SecretKey::from_bytes(secret_key)?;
    Ok(dilithium5::sign(message, &key).as_bytes().to_vec())
}

/// Renders a refusal of `pqcrypto_traits` with its `Debug` form. Nothing
/// is claimed of the text.
#[verifier::external_body]
fn key_error_text(error: &pqcrypto_traits::Error) -> (text: String) {
    format!("{:?}", error)
}

/// Whether `failure` tells that a secret key was refused: a `CryptoError`
/// whose text starts with `Invalid secret key: `.
pub open spec fn is_invalid_secret_key(failure: SdkError) -> bool {
    failure matches SdkError::CryptoError(text) && exists|detail: Seq<char>|
        text@ == "Invalid secret key: "@ + detail
}

/// Turns the refusal of a secret key into this toolkit's failure.
pub fn invalid_secret_key(error: &pqcrypto_traits::Error) -> (failure: SdkError)
    ensures
        is_invalid_secret_key(failure),
{
    let detail = key_error_text(error);
    let text = String::from_str("Invalid secret key: ").concat(detail.as_str());
    assert(text@ == "Invalid secret key: "@ + detail@);
    SdkError::CryptoError(text)
}

/// Generates a Dilithium2 key pair. It cannot fail. The keys are random;
/// the public key has 1312 bytes and the secret key 2560.
pub fn generate_dilithium2_keypair() -> (result: Result<Keypair, SdkError>)
    ensures
        result matches Ok(keypair) && keypair.algorithm == Algorithm::Dilithium2
            && keypair.public_key@.len() == DILITHIUM2_PUBLIC_KEY_SIZE
            && keypair.secret_key@.len() == DILITHIUM2_SECRET_KEY_SIZE,
{
    let (public_key, secret_key) = dilithium2_keypair();
    Ok(Keypair { public_key, secret_key, algorithm: Algorithm::Dilithium2 })
}

/// Generates a Dilithium3 key pair. It cannot fail. The keys are random;
/// the public key has 1952 bytes and the secret key 4032.
pub fn generate_dilithium3_keypair() -> (result: Result<Keypair, SdkError>)
    ensures
        result matches Ok(keypair) && keypair.algorithm == Algorithm::Dilithium3
            && keypair.public_key@.len() == DILITHIUM3_PUBLIC_KEY_SIZE
            && keypair.secret_key@.len() == DILITHIUM3_SECRET_KEY_SIZE,
{
    let (public_key, secret_key) = dilithium3_keypair();
    Ok(Keypair { public_key, secret_key, algorithm: Algorithm::Dilithium3 })
}

/// Generates a Dilithium5 key pair. It cannot fail. The keys are random;
/// the public key has 2592 bytes and the secret key 4896.
pub fn generate_dilithium5_keypair() -> (result: Result<Keypair, SdkError>)
    ensures
        result matches Ok(keypair) && keypair.algorithm == Algorithm::Dilithium5
            && keypair.public_key@.len() == DILITHIUM5_PUBLIC_KEY_SIZE
            && keypair.secret_key@.len() == DILITHIUM5_SECRET_KEY_SIZE,
{
    let (public_key, secret_key) = dilithium5_keypair();
    Ok(Keypair { public_key, secret_key, algorithm: Algorithm::Dilithium5 })
}

/// Signs `message` with Dilithium2 and returns the signed message: the
/// signature of 2420 bytes, then the message.
///
/// It fails exactly when `secret_key` is not 2560 bytes long, with a
/// `CryptoError` whose text starts with `Invalid secret key: `.
pub fn sign_dilithium2(message: &[u8], secret_key: &[u8]) -> (result: Result<Vec<u8>, SdkError>)
    ensures
        match result {
            Ok(signed) => {
                &&& secret_key@.len() == DILITHIUM2_SECRET_KEY_SIZE
                &&& signed@ == dilithium2_signed_message(message@, secret_key@)
                &&& frames(signed@, DILITHIUM2_SIGNATURE_SIZE, message@)
            },
            Err(failure) => {
                &&& secret_key@.len() != DILITHIUM2_SECRET_KEY_SIZE
                &&& is_invalid_secret_key(failure)
            },
        },
{
    match dilithium2_sign(message, secret_key) {
        Ok(signed) => Ok(signed),
        Err(error) => Err(invalid_secret_key(&error)),
    }
}

/// Signs `message` with Dilithium3 and returns the signed message: the
/// signature of 3309 bytes, then the message.
///
/// It fails exactly when `secret_key` is not 4032 bytes long, with a
/// `CryptoError` whose text starts with `Invalid secret key: `.
pub fn sign_dilithium3(message: &[u8], secret_key: &[u8]) -> (result: Result<Vec<u8>, SdkError>)
    ensures
        match result {
            Ok(signed) => {
                &&& secret_key@.len() == DILITHIUM3_SECRET_KEY_SIZE
                &&& signed@ == dilithium3_signed_message(message@, secret_key@)
                &&& frames(signed@, DILITHIUM3_SIGNATURE_SIZE, message@)
            },
            Err(failure) => {
                &&& secret_key@.len() != DILITHIUM3_SECRET_KEY_SIZE
                &&& is_invalid_secret_key(failure)
            },
        },
{
    match dilithium3_sign(message, secret_key) {
        Ok(signed) => Ok(signed),
        Err(error) => Err(invalid_secret_key(&error)),
    }
}

/// Signs `message` with Dilithium5 and returns the signed message: the
/// signature of 4627 bytes, then the message.
///
/// It fails exactly when `secret_key` is not 4896 bytes long, with a
/// `CryptoError` whose text starts with `Invalid secret key: `.
pub fn sign_dilithium5(message: &[u8], secret_key: &[u8]) -> (result: Result<Vec<u8>, SdkError>)
    ensures
        match result {
            Ok(signed) => {
                &&& secret_key@.len() == DILITHIUM5_SECRET_KEY_SIZE
                &&& signed@ == dilithium5_signed_message(message@, secret_key@)
                &&& frames(signed@, DILITHIUM5_SIGNATURE_SIZE, message@)
            },
            Err(failure) => {
                &&& secret_key@.len() != DILITHIUM5_SECRET_KEY_SIZE
                &&& is_invalid_secret_key(failure)
            },
        },
{
    match dilithium5_sign(message, secret_key) {
        Ok(signed) => Ok(signed),
        Err(error) => Err(invalid_secret_key(&error)),
    }
}

} // verus!
