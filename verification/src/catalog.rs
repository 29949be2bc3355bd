//! The algorithm catalog: the fixed parameters of every algorithm.

use vstd::prelude::*;
use crate::error::QuantumCustodyError;

verus! {

/// The longest public key of the catalog, in bytes.
pub const MAX_PUBLIC_KEY_SIZE: usize = 2592;

/// The algorithms of the catalog.
#[derive(Debug, Clone, Copy, PartialEq, Eq, Structural)]
pub enum CryptoAlgorithm {
    Dilithium2,
    Dilithium3,
    Dilithium5,
    SphincsSha2128s,
    SphincsSha2128f,
    SphincsShake128s,
    SphincsShake128f,
    Kyber512,
    Kyber768,
    Kyber1024,
}

/// The standard that an algorithm belongs to.
#[derive(Debug, Clone, Copy, PartialEq, Eq, Structural)]
pub enum StandardFamily {
    /// Lattice-based key encapsulation.
    Fips203,
    /// Lattice-based signatures.
    Fips204,
    /// Hash-based signatures.
    Fips205,
}

/// The fixed parameters of one algorithm.
#[derive(Debug, Clone, Copy, PartialEq, Eq, Structural)]
pub struct AlgorithmParameters {
    /// Length of a public key, in bytes.
    pub public_key_size: usize,
    /// Length of a signature, in bytes; 0 for an algorithm that cannot sign.
    pub signature_size: usize,
    /// The security category: 2, 3 or 5.
    pub security_level: u8,
    /// The standard that the algorithm belongs to.
    pub standard_family: StandardFamily,
}

impl CryptoAlgorithm {
    /// The algorithm that a numeric code stands for, if any.
    pub open spec fn spec_from_numeric_code(code: u8) -> Option<CryptoAlgorithm> {
        match code {
            0 => Some(CryptoAlgorithm::Dilithium2),
            1 => Some(CryptoAlgorithm::Dilithium3),
            2 => Some(CryptoAlgorithm::Dilithium5),
            3 => Some(CryptoAlgorithm::SphincsSha2128s),
            4 => Some(CryptoAlgorithm::SphincsSha2128f),
            5 => Some(CryptoAlgorithm::SphincsShake128s),
            6 => Some(CryptoAlgorithm::SphincsShake128f),
            7 => Some(CryptoAlgorithm::Kyber512),
            8 => Some(CryptoAlgorithm::Kyber768),
            9 => Some(CryptoAlgorithm::Kyber1024),
            _ => None,
        }
    }

    /// The numeric code of the algorithm.
    pub open spec fn spec_numeric_code(self) -> u8 {
        match self {
            CryptoAlgorithm::Dilithium2 => 0,
            CryptoAlgorithm::Dilithium3 => 1,
            CryptoAlgorithm::Dilithium5 => 2,
            CryptoAlgorithm::SphincsSha2128s => 3,
            CryptoAlgorithm::SphincsSha2128f => 4,
            CryptoAlgorithm::SphincsShake128s => 5,
            CryptoAlgorithm::SphincsShake128f => 6,
            CryptoAlgorithm::Kyber512 => 7,
            CryptoAlgorithm::Kyber768 => 8,
            CryptoAlgorithm::Kyber1024 => 9,
        }
    }

    /// Length of the algorithm's public key, in bytes.
    pub open spec fn spec_public_key_size(&self) -> usize {
        match self {
            CryptoAlgorithm::Dilithium2 => 1312,
            CryptoAlgorithm::Dilithium3 => 1952,
            CryptoAlgorithm::Dilithium5 => 2592,
            CryptoAlgorithm::SphincsSha2128s => 32,
            CryptoAlgorithm::SphincsSha2128f => 32,
            CryptoAlgorithm::SphincsShake128s => 32,
            CryptoAlgorithm::SphincsShake128f => 32,
            CryptoAlgorithm::Kyber512 => 800,
            CryptoAlgorithm::Kyber768 => 1184,
            CryptoAlgorithm::Kyber1024 => 1568,
        }
    }

    /// Length of the algorithm's signature, in bytes; 0 where it cannot
    /// sign.
    pub open spec fn spec_signature_size(&self) -> usize {
        match self {
            CryptoAlgorithm::Dilithium2 => 2420,
            CryptoAlgorithm::Dilithium3 => 3293,
            CryptoAlgorithm::Dilithium5 => 4595,
            CryptoAlgorithm::SphincsSha2128s => 7856,
            CryptoAlgorithm::SphincsSha2128f => 17088,
            CryptoAlgorithm::SphincsShake128s => 7856,
            CryptoAlgorithm::SphincsShake128f => 17088,
            CryptoAlgorithm::Kyber512 => 0,
            CryptoAlgorithm::Kyber768 => 0,
            CryptoAlgorithm::Kyber1024 => 0,
        }
    }

    /// The algorithm's security category.
    pub open spec fn spec_security_level(&self) -> u8 {
        match self {
            CryptoAlgorithm::Dilithium2 => 2,
            CryptoAlgorithm::Kyber512 => 2,
            CryptoAlgorithm::SphincsSha2128s => 2,
            CryptoAlgorithm::SphincsSha2128f => 2,
            CryptoAlgorithm::SphincsShake128s => 2,
            CryptoAlgorithm::SphincsShake128f => 2,
            CryptoAlgorithm::Dilithium3 => 3,
            CryptoAlgorithm::Kyber768 => 3,
            CryptoAlgorithm::Dilithium5 => 5,
            CryptoAlgorithm::Kyber1024 => 5,
        }
    }

    /// The standard that the algorithm belongs to.
    pub open spec fn spec_standard_family(&self) -> StandardFamily {
        match self {
            CryptoAlgorithm::Kyber512 => StandardFamily::Fips203,
            CryptoAlgorithm::Kyber768 => StandardFamily::Fips203,
            CryptoAlgorithm::Kyber1024 => StandardFamily::Fips203,
            CryptoAlgorithm::Dilithium2 => StandardFamily::Fips204,
            CryptoAlgorithm::Dilithium3 => StandardFamily::Fips204,
            CryptoAlgorithm::Dilithium5 => StandardFamily::Fips204,
            CryptoAlgorithm::SphincsSha2128s => StandardFamily::Fips205,
            CryptoAlgorithm::SphincsSha2128f => StandardFamily::Fips205,
            CryptoAlgorithm::SphincsShake128s => StandardFamily::Fips205,
            CryptoAlgorithm::SphincsShake128f => StandardFamily::Fips205,
        }
    }

    /// Resolves a numeric code. Codes 0 to 9 name an algorithm; every other
    /// code is refused with `InvalidAlgorithm`.
    pub fn from_numeric_code(code: u8) -> (result: Result<CryptoAlgorithm, QuantumCustodyError>)
        ensures
            result == match Self::spec_from_numeric_code(code) {
                Some(algorithm) => Ok::<CryptoAlgorithm, QuantumCustodyError>(algorithm),
                None => Err(QuantumCustodyError::InvalidAlgorithm),
            },
            result is Ok <==> code <= 9,
    {
        match code {
            0 => Ok(CryptoAlgorithm::Dilithium2),
            1 => Ok(CryptoAlgorithm::Dilithium3),
            2 => Ok(CryptoAlgorithm::Dilithium5),
            3 => Ok(CryptoAlgorithm::SphincsSha2128s),
            4 => Ok(CryptoAlgorithm::SphincsSha2128f),
            5 => Ok(CryptoAlgorithm::SphincsShake128s),
            6 => Ok(CryptoAlgorithm::SphincsShake128f),
            7 => Ok(CryptoAlgorithm::Kyber512),
            8 => Ok(CryptoAlgorithm::Kyber768),
            9 => Ok(CryptoAlgorithm::Kyber1024),
            _ => Err(QuantumCustodyError::InvalidAlgorithm),
        }
    }

    /// Returns the numeric code of the algorithm.
    #[verifier::when_used_as_spec(spec_numeric_code)]
    pub fn numeric_code(self) -> (code: u8)
        ensures
            code == self.spec_numeric_code(),
            code <= 9,
    {
        match self {
            CryptoAlgorithm::Dilithium2 => 0,
            CryptoAlgorithm::Dilithium3 => 1,
            CryptoAlgorithm::Dilithium5 => 2,
            CryptoAlgorithm::SphincsSha2128s => 3,
            CryptoAlgorithm::SphincsSha2128f => 4,
            CryptoAlgorithm::SphincsShake128s => 5,
            CryptoAlgorithm::SphincsShake128f => 6,
            CryptoAlgorithm::Kyber512 => 7,
            CryptoAlgorithm::Kyber768 => 8,
            CryptoAlgorithm::Kyber1024 => 9,
        }
    }

    /// Returns the length of the algorithm's public key, in bytes.
    #[verifier::when_used_as_spec(spec_public_key_size)]
    pub fn public_key_size(&self) -> (size: usize)
        ensures
            size == self.spec_public_key_size(),
    {
        match self {
            CryptoAlgorithm::Dilithium2 => 1312,
            CryptoAlgorithm::Dilithium3 => 1952,
            CryptoAlgorithm::Dilithium5 => 2592,
            CryptoAlgorithm::SphincsSha2128s => 32,
            CryptoAlgorithm::SphincsSha2128f => 32,
            CryptoAlgorithm::SphincsShake128s => 32,
            CryptoAlgorithm::SphincsShake128f => 32,
            CryptoAlgorithm::Kyber512 => 800,
            CryptoAlgorithm::Kyber768 => 1184,
            CryptoAlgorithm::Kyber1024 => 1568,
        }
    }

    /// Returns the length of the algorithm's signature, in bytes, and 0 for
    /// an algorithm that cannot sign.
    #[verifier::when_used_as_spec(spec_signature_size)]
    pub fn signature_size(&self) -> (size: usize)
        ensures
            size == self.spec_signature_size(),
    {
        match self {
            CryptoAlgorithm::Dilithium2 => 2420,
            CryptoAlgorithm::Dilithium3 => 3293,
            CryptoAlgorithm::Dilithium5 => 4595,
            CryptoAlgorithm::SphincsSha2128s => 7856,
            CryptoAlgorithm::SphincsSha2128f => 17088,
            CryptoAlgorithm::SphincsShake128s => 7856,
            CryptoAlgorithm::SphincsShake128f => 17088,
            _ => 0,
        }
    }

    /// Returns the algorithm's security category: 2, 3 or 5.
    #[verifier::when_used_as_spec(spec_security_level)]
    pub fn security_level(&self) -> (level: u8)
        ensures
            level == self.spec_security_level(),
    {
        match self {
            CryptoAlgorithm::Dilithium2
            | CryptoAlgorithm::Kyber512
            | CryptoAlgorithm::SphincsSha2128s
            | CryptoAlgorithm::SphincsSha2128f
            | CryptoAlgorithm::SphincsShake128s
            | CryptoAlgorithm::SphincsShake128f => 2,
            CryptoAlgorithm::Dilithium3 | CryptoAlgorithm::Kyber768 => 3,
            CryptoAlgorithm::Dilithium5 | CryptoAlgorithm::Kyber1024 => 5,
        }
    }

    /// Returns the standard that the algorithm belongs to.
    #[verifier::when_used_as_spec(spec_standard_family)]
    pub fn standard_family(&self) -> (family: StandardFamily)
        ensures
            family == self.spec_standard_family(),
    {
        match self {
            CryptoAlgorithm::Kyber512 | CryptoAlgorithm::Kyber768 | CryptoAlgorithm::Kyber1024 => {
                StandardFamily::Fips203
            },
            CryptoAlgorithm::Dilithium2
            | CryptoAlgorithm::Dilithium3
            | CryptoAlgorithm::Dilithium5 => StandardFamily::Fips204,
            _ => StandardFamily::Fips205,
        }
    }
}

/// The parameters of an algorithm, as the catalog fixes them.
pub open spec fn spec_parameters_of(id: CryptoAlgorithm) -> AlgorithmParameters {
    AlgorithmParameters {
        public_key_size: id.spec_public_key_size(),
        signature_size: id.spec_signature_size(),
        security_level: id.spec_security_level(),
        standard_family: id.spec_standard_family(),
    }
}

/// Looks an algorithm up in the catalog. The lookup is total: every
/// algorithm has parameters.
#[verifier::when_used_as_spec(spec_parameters_of)]
pub fn parameters_of(id: CryptoAlgorithm) -> (parameters: AlgorithmParameters)
    ensures
        parameters == spec_parameters_of(id),
{
    AlgorithmParameters {
        public_key_size: id.public_key_size(),
        signature_size: id.signature_size(),
        security_level: id.security_level(),
        standard_family: id.standard_family(),
    }
}

} // verus!
