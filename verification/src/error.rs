//! Failures of the custody operations.

use vstd::prelude::*;

verus! {

/// Why a custody operation was refused. Every failure ends the operation
/// before anything was changed.
#[derive(Debug, Clone, Copy, PartialEq, Eq, Structural)]
pub enum QuantumCustodyError {
    /// The numeric algorithm code is not in the catalog.
    InvalidAlgorithm,
    /// The public key is not as long as the algorithm demands.
    InvalidPublicKeySize,
    /// The signature is not as long as the algorithm demands.
    InvalidSignatureSize,
    /// A signature was checked and found wrong.
    SignatureVerificationFailed,
    /// The key is older than the rotation period allows.
    KeyRotationRequired,
    /// The caller is not the owner of the vault.
    Unauthorized,
    /// The vault does not satisfy a required standard.
    ComplianceViolation,
    /// The message is longer than the limit.
    MessageTooLarge,
    /// Compliance data was malformed.
    InvalidComplianceData,
    /// The readiness score is under the required minimum.
    InsufficientQuantumReadiness,
    /// The algorithm cannot perform the operation.
    UnsupportedOperation,
    /// A vault already exists in the addressed record.
    VaultAlreadyInitialized,
    /// A counter would have passed its largest value.
    MathOverflow,
}

impl QuantumCustodyError {
    /// The text that describes the failure.
    pub open spec fn spec_message(self) -> Seq<char> {
        match self {
            QuantumCustodyError::InvalidAlgorithm => "Invalid cryptographic algorithm specified"@,
            QuantumCustodyError::InvalidPublicKeySize => "Public key size does not match algorithm requirements"@,
            QuantumCustodyError::InvalidSignatureSize => "Signature size does not match algorithm requirements"@,
            QuantumCustodyError::SignatureVerificationFailed => "Signature verification failed"@,
            QuantumCustodyError::KeyRotationRequired => "Key rotation is required before performing this operation"@,
            QuantumCustodyError::Unauthorized => "Unauthorized access attempt"@,
            QuantumCustodyError::ComplianceViolation => "Vault is not compliant with required standards"@,
            QuantumCustodyError::MessageTooLarge => "Message exceeds maximum allowed size"@,
            QuantumCustodyError::InvalidComplianceData => "Invalid compliance data provided"@,
            QuantumCustodyError::InsufficientQuantumReadiness => "Quantum readiness score below minimum threshold"@,
            QuantumCustodyError::UnsupportedOperation => "Algorithm not supported for this operation"@,
            QuantumCustodyError::VaultAlreadyInitialized => "Vault already initialized"@,
            QuantumCustodyError::MathOverflow => "Mathematical overflow occurred"@,
        }
    }

    /// Returns the text that describes the failure.
    pub fn message(&self) -> (text: &'static str)
        ensures
            text@ == self.spec_message(),
    {
        match self {
            QuantumCustodyError::InvalidAlgorithm => "Invalid cryptographic algorithm specified",
            QuantumCustodyError::InvalidPublicKeySize => "Public key size does not match algorithm requirements",
            QuantumCustodyError::InvalidSignatureSize => "Signature size does not match algorithm requirements",
            QuantumCustodyError::SignatureVerificationFailed => "Signature verification failed",
            QuantumCustodyError::KeyRotationRequired => "Key rotation is required before performing this operation",
            QuantumCustodyError::Unauthorized => "Unauthorized access attempt",
            QuantumCustodyError::ComplianceViolation => "Vault is not compliant with required standards",
            QuantumCustodyError::MessageTooLarge => "Message exceeds maximum allowed size",
            QuantumCustodyError::InvalidComplianceData => "Invalid compliance data provided",
            QuantumCustodyError::InsufficientQuantumReadiness => "Quantum readiness score below minimum threshold",
            QuantumCustodyError::UnsupportedOperation => "Algorithm not supported for this operation",
            QuantumCustodyError::VaultAlreadyInitialized => "Vault already initialized",
            QuantumCustodyError::MathOverflow => "Mathematical overflow occurred",
        }
    }
}

} // verus!
