//! The client side: key pairs, signed transactions, vault records as a
//! client sees them, and compliance reports.

pub mod clock;
pub mod compliance;
pub mod crypto;
pub mod transaction;
pub mod vault;

use vstd::prelude::*;
use vstd::std_specs::convert::FromSpecImpl;
use vstd::string::StringExecFns;

verus! {

/// The version of this toolkit.
pub const VERSION: &'static str = "0.1.0";

/// The version of FIPS 203 that the key encapsulation follows.
pub const NIST_FIPS_203_VERSION: &'static str = "1.0";

/// The version of FIPS 204 that the lattice signatures follow.
pub const NIST_FIPS_204_VERSION: &'static str = "1.0";

/// The version of FIPS 205 that the hash-based signatures follow.
pub const NIST_FIPS_205_VERSION: &'static str = "1.0";

/// The error type of Solana programs, carried through as it is.
#[verifier::external_type_specification]
#[verifier::external_body]
pub struct ExProgramError(solana_sdk::program_error::ProgramError);

/// Why a client-side operation failed.
#[derive(Debug)]
pub enum SdkError {
    CryptoError(String),
    InvalidAlgorithm(String),
    VerificationFailed,
    KeyGenerationFailed(String),
    SolanaError(solana_sdk::program_error::ProgramError),
    SerializationError(String),
    InvalidPublicKeySize,
    InvalidSignatureSize,
}

impl From<solana_sdk::program_error::ProgramError> for SdkError {
    /// Wraps a program's error.
    fn from(error: solana_sdk::program_error::ProgramError) -> (wrapped: SdkError) {
        SdkError::SolanaError(error)
    }
}

impl FromSpecImpl<solana_sdk::program_error::ProgramError> for SdkError {
    open spec fn obeys_from_spec() -> bool {
        true
    }

    open spec fn from_spec(error: solana_sdk::program_error::ProgramError) -> SdkError {
        SdkError::SolanaError(error)
    }
}

impl SdkError {
    /// Whether `text` is the text of the failure: a fixed heading, followed
    /// by the detail that the failure carries, if it carries one. The
    /// detail of a program's error is the text that it displays as.
    pub open spec fn is_message(&self, text: Seq<char>) -> bool {
        match self {
            SdkError::CryptoError(detail) => text == "Cryptographic operation failed: "@ + detail@,
            SdkError::InvalidAlgorithm(detail) => text == "Invalid algorithm: "@ + detail@,
            SdkError::VerificationFailed => text == "Signature verification failed"@,
            SdkError::KeyGenerationFailed(detail) => text == "Key generation failed: "@ + detail@,
            SdkError::SolanaError(error) => exists|shown: String|
                vstd::string::to_string_from_display_ensures::<
                    solana_sdk::program_error::ProgramError,
                >(error, shown) && text == "Solana error: "@ + shown@,
            SdkError::SerializationError(detail) => text == "Serialization error: "@ + detail@,
            SdkError::InvalidPublicKeySize => text == "Invalid public key size"@,
            SdkError::InvalidSignatureSize => text == "Invalid signature size"@,
        }
    }

    /// Returns the text of the failure.
    pub fn message(&self) -> (text: String)
        ensures
            self.is_message(text@),
    {
        match self {
            SdkError::CryptoError(detail) => String::from_str(
                "Cryptographic operation failed: ",
            ).concat(detail.as_str()),
            SdkError::InvalidAlgorithm(detail) => String::from_str("Invalid algorithm: ").concat(
                detail.as_str(),
            ),
            SdkError::VerificationFailed => String::from_str("Signature verification failed"),
            SdkError::KeyGenerationFailed(detail) => String::from_str(
                "Key generation failed: ",
            ).concat(detail.as_str()),
            SdkError::SolanaError(error) => {
                let shown = error.to_string();
                String::from_str("Solana error: ").concat(shown.as_str())
            },
            SdkError::SerializationError(detail) => String::from_str(
                "Serialization error: ",
            ).concat(detail.as_str()),
            SdkError::InvalidPublicKeySize => String::from_str("Invalid public key size"),
            SdkError::InvalidSignatureSize => String::from_str("Invalid signature size"),
        }
    }
}

} // verus!
