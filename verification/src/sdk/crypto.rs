//! Algorithms and key pairs.

pub mod dilithium;
pub mod kyber;
pub mod sphincs;

use vstd::prelude::*;
use vstd::string::StringExecFns;
use zeroize::Zeroize;
use crate::sdk::crypto::dilithium::{
    dilithium2_signed_message, dilithium3_signed_message, dilithium5_signed_message, frames,
    is_invalid_secret_key,
};
use crate::sdk::SdkError;

verus! {

/// The algorithms that a client can name.
#[derive(Debug, Clone, Copy, PartialEq, Eq, Structural)]
pub enum Algorithm {
    Dilithium2,
    Dilithium3,
    Dilithium5,
    SphincsSha2128s,
    SphincsSha2128f,
    SphincsShake128s,
    SphincsShake128f,
    Kyber512,
    Kyber768,
    Kyber1024,
}

/// The character of a decimal digit.
pub open spec fn digit_char(digit: nat) -> char {
    if digit == 0 {
        '0'
    } else if digit == 1 {
        '1'
    } else if digit == 2 {
        '2'
    } else if digit == 3 {
        '3'
    } else if digit == 4 {
        '4'
    } else if digit == 5 {
        '5'
    } else if digit == 6 {
        '6'
    } else if digit == 7 {
        '7'
    } else if digit == 8 {
        '8'
    } else {
        '9'
    }
}

/// A number written in decimal digits, without leading zeros.
pub open spec fn decimal_text(number: nat) -> Seq<char>
    decreases number,
{
    if number < 10 {
        seq![digit_char(number)]
    } else {
        decimal_text(number / 10).push(digit_char(number % 10))
    }
}

/// The text of one decimal digit.
fn digit_text(digit: u8) -> (text: &'static str)
    requires
        digit < 10,
    ensures
        text@ == seq![digit_char(digit as nat)],
{
    proof {
        reveal_strlit("0");
        reveal_strlit("1");
        reveal_strlit("2");
        reveal_strlit("3");
        reveal_strlit("4");
        reveal_strlit("5");
        reveal_strlit("6");
        reveal_strlit("7");
        reveal_strlit("8");
        reveal_strlit("9");
    }
    let text = match digit {
        0 => "0",
        1 => "1",
        2 => "2",
        3 => "3",
        4 => "4",
        5 => "5",
        6 => "6",
        7 => "7",
        8 => "8",
        _ => "9",
    };
    assert(text@ =~= seq![digit_char(digit as nat)]);
    text
}

/// Appends `number` in decimal digits to `text`.
fn append_decimal(text: String, number: u8) -> (extended: String)
    ensures
        extended@ == text@ + decimal_text(number as nat),
{
    reveal_with_fuel(decimal_text, 3);
    let mut extended = text;
    if number >= 100 {
        extended.append(digit_text(number / 100));
    }
    if number >= 10 {
        extended.append(digit_text((number / 10) % 10));
    }
    extended.append(digit_text(number % 10));
    assert(extended@ =~= text@ + decimal_text(number as nat));
    extended
}

impl Algorithm {
    /// The numeric code of the algorithm.
    pub open spec fn spec_to_u8(&self) -> u8 {
        match self {
            Algorithm::Dilithium2 => 0,
            Algorithm::Dilithium3 => 1,
            Algorithm::Dilithium5 => 2,
            Algorithm::SphincsSha2128s => 3,
            Algorithm::SphincsSha2128f => 4,
            Algorithm::SphincsShake128s => 5,
            Algorithm::SphincsShake128f => 6,
            Algorithm::Kyber512 => 7,
            Algorithm::Kyber768 => 8,
            Algorithm::Kyber1024 => 9,
        }
    }

    /// The algorithm that a numeric code stands for, if any.
    pub open spec fn spec_from_u8(value: u8) -> Option<Algorithm> {
        match value {
            0 => Some(Algorithm::Dilithium2),
            1 => Some(Algorithm::Dilithium3),
            2 => Some(Algorithm::Dilithium5),
            3 => Some(Algorithm::SphincsSha2128s),
            4 => Some(Algorithm::SphincsSha2128f),
            5 => Some(Algorithm::SphincsShake128s),
            6 => Some(Algorithm::SphincsShake128f),
            7 => Some(Algorithm::Kyber512),
            8 => Some(Algorithm::Kyber768),
            9 => Some(Algorithm::Kyber1024),
            _ => None,
        }
    }

    /// The algorithm's security category.
    pub open spec fn spec_security_level(&self) -> u8 {
        match self {
            Algorithm::Dilithium2 => 2,
            Algorithm::Kyber512 => 2,
            Algorithm::SphincsSha2128s => 2,
            Algorithm::SphincsSha2128f => 2,
            Algorithm::SphincsShake128s => 2,
            Algorithm::SphincsShake128f => 2,
            Algorithm::Dilithium3 => 3,
            Algorithm::Kyber768 => 3,
            Algorithm::Dilithium5 => 5,
            Algorithm::Kyber1024 => 5,
        }
    }

    /// Returns the numeric code of the algorithm, from 0 to 9.
    #[verifier::when_used_as_spec(spec_to_u8)]
    pub fn to_u8(&self) -> (value: u8)
        ensures
            value == self.spec_to_u8(),
            value <= 9,
            Self::spec_from_u8(value) == Some(*self),
    {
        match self {
            Algorithm::Dilithium2 => 0,
            Algorithm::Dilithium3 => 1,
            Algorithm::Dilithium5 => 2,
            Algorithm::SphincsSha2128s => 3,
            Algorithm::SphincsSha2128f => 4,
            Algorithm::SphincsShake128s => 5,
            Algorithm::SphincsShake128f => 6,
            Algorithm::Kyber512 => 7,
            Algorithm::Kyber768 => 8,
            Algorithm::Kyber1024 => 9,
        }
    }

    /// Resolves a numeric code. Codes 0 to 9 name an algorithm. Every other
    /// code fails with `InvalidAlgorithm` and the text `Unknown algorithm: `
    /// followed by the code in decimal digits.
    pub fn from_u8(value: u8) -> (result: Result<Algorithm, SdkError>)
        ensures
            match Self::spec_from_u8(value) {
                Some(algorithm) => result == Ok::<Algorithm, SdkError>(algorithm),
                None => result matches Err(SdkError::InvalidAlgorithm(text)) && text@
                    == "Unknown algorithm: "@ + decimal_text(value as nat),
            },
            result is Ok <==> value <= 9,
            result matches Ok(algorithm) ==> algorithm.spec_to_u8() == value,
    {
        match value {
            0 => Ok(Algorithm::Dilithium2),
            1 => Ok(Algorithm::Dilithium3),
            2 => Ok(Algorithm::Dilithium5),
            3 => Ok(Algorithm::SphincsSha2128s),
            4 => Ok(Algorithm::SphincsSha2128f),
            5 => Ok(Algorithm::SphincsShake128s),
            6 => Ok(Algorithm::SphincsShake128f),
            7 => Ok(Algorithm::Kyber512),
            8 => Ok(Algorithm::Kyber768),
            9 => Ok(Algorithm::Kyber1024),
            _ => Err(
                SdkError::InvalidAlgorithm(
                    append_decimal(String::from_str("Unknown algorithm: "), value),
                ),
            ),
        }
    }

    /// Returns the algorithm's security category: 2, 3 or 5.
    #[verifier::when_used_as_spec(spec_security_level)]
    pub fn security_level(&self) -> (level: u8)
        ensures
            level == self.spec_security_level(),
    {
        match self {
            Algorithm::Dilithium2
            | Algorithm::Kyber512
            | Algorithm::SphincsSha2128s
            | Algorithm::SphincsSha2128f
            | Algorithm::SphincsShake128s
            | Algorithm::SphincsShake128f => 2,
            Algorithm::Dilithium3 | Algorithm::Kyber768 => 3,
            Algorithm::Dilithium5 | Algorithm::Kyber1024 => 5,
        }
    }
}

/// A public key with its secret key.
#[derive(Clone)]
pub struct Keypair {
    pub public_key: Vec<u8>,
    pub secret_key: Vec<u8>,
    pub algorithm: Algorithm,
}

impl Algorithm {
    /// Whether key pairs of the algorithm can be generated: those of the
    /// lattice algorithms can.
    pub open spec fn generates_keys(&self) -> bool {
        match self {
            Algorithm::Dilithium2 => true,
            Algorithm::Dilithium3 => true,
            Algorithm::Dilithium5 => true,
            Algorithm::Kyber512 => true,
            Algorithm::Kyber768 => true,
            Algorithm::Kyber1024 => true,
            _ => false,
        }
    }

    /// Whether the algorithm can sign: the lattice signatures can.
    pub open spec fn signs(&self) -> bool {
        match self {
            Algorithm::Dilithium2 => true,
            Algorithm::Dilithium3 => true,
            Algorithm::Dilithium5 => true,
            _ => false,
        }
    }

    /// Length of the public key of a key pair of the algorithm, in bytes.
    pub open spec fn generated_public_key_size(&self) -> nat {
        match self {
            Algorithm::Dilithium2 => 1312,
            Algorithm::Dilithium3 => 1952,
            Algorithm::Dilithium5 => 2592,
            Algorithm::Kyber512 => 800,
            Algorithm::Kyber768 => 1184,
            Algorithm::Kyber1024 => 1568,
            _ => 32,
        }
    }

    /// Length of the secret key of a key pair of the algorithm, in bytes.
    pub open spec fn generated_secret_key_size(&self) -> nat {
        match self {
            Algorithm::Dilithium2 => 2560,
            Algorithm::Dilithium3 => 4032,
            Algorithm::Dilithium5 => 4896,
            Algorithm::Kyber512 => 1632,
            Algorithm::Kyber768 => 2400,
            Algorithm::Kyber1024 => 3168,
            _ => 64,
        }
    }

    /// Length of the signature in front of a signed message, in bytes.
    pub open spec fn signed_prefix_size(&self) -> usize {
        match self {
            Algorithm::Dilithium2 => 2420,
            Algorithm::Dilithium3 => 3309,
            Algorithm::Dilithium5 => 4627,
            _ => 0,
        }
    }
}

/// The signed message that a key pair of `algorithm` with the given secret
/// key makes of `message`, if it makes one: the algorithm must sign and
/// the secret key must have the algorithm's length.
pub open spec fn signed_message(algorithm: Algorithm, message: Seq<u8>, secret_key: Seq<u8>)
    -> Option<Seq<u8>> {
    if !algorithm.signs() || secret_key.len() != algorithm.generated_secret_key_size() {
        None
    } else {
        match algorithm {
            Algorithm::Dilithium2 => Some(dilithium2_signed_message(message, secret_key)),
            Algorithm::Dilithium3 => Some(dilithium3_signed_message(message, secret_key)),
            _ => Some(dilithium5_signed_message(message, secret_key)),
        }
    }
}

/// Whether `failure` is the `CryptoError` with the given text.
pub open spec fn is_crypto_error(failure: SdkError, text: Seq<char>) -> bool {
    failure matches SdkError::CryptoError(told) && told@ == text
}

/// Whether `failure` is the one that signing with `algorithm` ends in: an
/// algorithm that cannot sign says so, and one that can has refused the
/// secret key.
pub open spec fn is_signing_failure(algorithm: Algorithm, failure: SdkError) -> bool {
    if algorithm.signs() {
        is_invalid_secret_key(failure)
    } else {
        is_crypto_error(failure, "Algorithm does not support signing"@)
    }
}

/// Calls `zeroize::Zeroize::zeroize` on the bytes, which overwrites every
/// byte with zero and then empties the vector. Trusted: the vector is
/// empty afterwards.
#[verifier::external_body]
fn wipe(bytes: &mut Vec<u8>)
    ensures
        final(bytes)@ == Seq::<u8>::empty(),
{
    bytes.zeroize();
}

impl Keypair {
    /// Wipes both keys: their bytes are overwritten with zeros and the
    /// key pair holds no key afterwards. The algorithm stays.
    pub fn zeroize(&mut self)
        ensures
            final(self).public_key@ == Seq::<u8>::empty(),
            final(self).secret_key@ == Seq::<u8>::empty(),
            final(self).algorithm == old(self).algorithm,
    {
        wipe(&mut self.public_key);
        wipe(&mut self.secret_key);
    }

    /// Generates a key pair of `algorithm`.
    ///
    /// It succeeds exactly for the lattice algorithms: Dilithium2, 3 and 5
    /// and Kyber512, 768 and 1024. The keys are random and have the
    /// lengths of the algorithm. For every other algorithm it fails with
    /// the `CryptoError` `Algorithm not yet implemented`.
    pub fn generate(algorithm: Algorithm) -> (result: Result<Keypair, SdkError>)
        ensures
            match result {
                Ok(keypair) => {
                    &&& algorithm.generates_keys()
                    &&& keypair.algorithm == algorithm
                    &&& keypair.public_key@.len() == algorithm.generated_public_key_size()
                    &&& keypair.secret_key@.len() == algorithm.generated_secret_key_size()
                },
                Err(failure) => {
                    &&& !algorithm.generates_keys()
                    &&& is_crypto_error(failure, "Algorithm not yet implemented"@)
                },
            },
    {
        match algorithm {
            Algorithm::Dilithium2 => dilithium::generate_dilithium2_keypair(),
            Algorithm::Dilithium3 => dilithium::generate_dilithium3_keypair(),
            Algorithm::Dilithium5 => dilithium::generate_dilithium5_keypair(),
            Algorithm::Kyber512 => kyber::generate_kyber512_keypair(),
            Algorithm::Kyber768 => kyber::generate_kyber768_keypair(),
            Algorithm::Kyber1024 => kyber::generate_kyber1024_keypair(),
            _ => Err(SdkError::CryptoError(String::from_str("Algorithm not yet implemented"))),
        }
    }

    /// Signs `message` with the secret key and returns the signed message:
    /// the signature, then the message.
    ///
    /// It succeeds exactly when the algorithm is Dilithium2, 3 or 5 and
    /// the secret key has the algorithm's length. An algorithm that cannot
    /// sign fails with the `CryptoError` `Algorithm does not support
    /// signing`; a secret key of the wrong length fails with a
    /// `CryptoError` whose text starts with `Invalid secret key: `.
    pub fn sign(&self, message: &[u8]) -> (result: Result<Vec<u8>, SdkError>)
        ensures
            match result {
                Ok(signed) => {
                    &&& signed_message(self.algorithm, message@, self.secret_key@) == Some(signed@)
                    &&& frames(signed@, self.algorithm.signed_prefix_size(), message@)
                },
                Err(failure) => {
                    &&& signed_message(self.algorithm, message@, self.secret_key@) is None
                    &&& is_signing_failure(self.algorithm, failure)
                },
            },
    {
        match self.algorithm {
            Algorithm::Dilithium2 => dilithium::sign_dilithium2(message, self.secret_key.as_slice()),
            Algorithm::Dilithium3 => dilithium::sign_dilithium3(message, self.secret_key.as_slice()),
            Algorithm::Dilithium5 => dilithium::sign_dilithium5(message, self.secret_key.as_slice()),
            _ => Err(SdkError::CryptoError(String::from_str("Algorithm does not support signing"))),
        }
    }
}

} // verus!
