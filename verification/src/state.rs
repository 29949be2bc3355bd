//! The persisted records: the compliance status, the registry and the
//! vault.

use vstd::prelude::*;
use crate::catalog::{CryptoAlgorithm, StandardFamily};
use crate::error::QuantumCustodyError;
use crate::identity::Identity;

verus! {

/// Seconds after which a key must be rotated before the vault may authorize
/// another signature: 90 days.
pub const ROTATION_PERIOD: i64 = 90 * 24 * 60 * 60;

/// The largest message, in bytes, that a vault authorizes.
pub const MAX_MESSAGE_SIZE: usize = 10_240;

/// The readiness score of a new vault.
pub const INITIAL_READINESS_SCORE: u8 = 75;

/// What one key rotation adds to the readiness score.
pub const ROTATION_SCORE_STEP: u8 = 5;

/// The largest readiness score.
pub const MAX_READINESS_SCORE: u8 = 100;

/// How a vault stands against the three standards, and its readiness score.
#[derive(Debug, Clone, Copy, PartialEq, Eq, Structural)]
pub struct ComplianceStatus {
    pub nist_fips_203_compliant: bool,
    pub nist_fips_204_compliant: bool,
    pub nist_fips_205_compliant: bool,
    /// When the status was last audited, in seconds since the epoch.
    pub last_audit: i64,
    /// The readiness score, from 0 to 100.
    pub quantum_readiness_score: u8,
}

impl Default for ComplianceStatus {
    /// The status of a record that holds no vault yet: no standard met,
    /// never audited, score 0.
    fn default() -> (status: Self)
        ensures
            status == (ComplianceStatus {
                nist_fips_203_compliant: false,
                nist_fips_204_compliant: false,
                nist_fips_205_compliant: false,
                last_audit: 0,
                quantum_readiness_score: 0,
            }),
    {
        Self {
            nist_fips_203_compliant: false,
            nist_fips_204_compliant: false,
            nist_fips_205_compliant: false,
            last_audit: 0,
            quantum_readiness_score: 0,
        }
    }
}

impl ComplianceStatus {
    /// The score is in range.
    pub open spec fn well_formed(self) -> bool {
        self.quantum_readiness_score <= MAX_READINESS_SCORE
    }

    /// Exactly the flag of the given standard is set.
    pub open spec fn certifies(self, family: StandardFamily) -> bool {
        &&& self.nist_fips_203_compliant == (family == StandardFamily::Fips203)
        &&& self.nist_fips_204_compliant == (family == StandardFamily::Fips204)
        &&& self.nist_fips_205_compliant == (family == StandardFamily::Fips205)
    }

    /// How many of the three flags are set.
    pub open spec fn flags_set(self) -> int {
        (if self.nist_fips_203_compliant { 1int } else { 0int })
            + (if self.nist_fips_204_compliant { 1int } else { 0int })
            + (if self.nist_fips_205_compliant { 1int } else { 0int })
    }

    /// The status of a vault created at `now` for `algorithm`.
    pub open spec fn spec_initial(algorithm: CryptoAlgorithm, now: i64) -> ComplianceStatus {
        ComplianceStatus {
            nist_fips_203_compliant: algorithm.spec_standard_family() == StandardFamily::Fips203,
            nist_fips_204_compliant: algorithm.spec_standard_family() == StandardFamily::Fips204,
            nist_fips_205_compliant: algorithm.spec_standard_family() == StandardFamily::Fips205,
            last_audit: now,
            quantum_readiness_score: INITIAL_READINESS_SCORE,
        }
    }

    /// The score after one more rotation: 5 more, and never above 100.
    pub open spec fn rotated_score(score: u8) -> u8 {
        if score + ROTATION_SCORE_STEP <= MAX_READINESS_SCORE {
            (score + ROTATION_SCORE_STEP) as u8
        } else {
            MAX_READINESS_SCORE
        }
    }

    /// The status after one key rotation: only the score moves.
    pub open spec fn spec_after_rotation(self) -> ComplianceStatus {
        ComplianceStatus {
            quantum_readiness_score: Self::rotated_score(self.quantum_readiness_score),
            ..self
        }
    }

    /// Builds the status of a vault created at `now` for `algorithm`: the
    /// one flag of the algorithm's standard, score 75, audited at `now`.
    pub fn initial(algorithm: CryptoAlgorithm, now: i64) -> (status: ComplianceStatus)
        ensures
            status == Self::spec_initial(algorithm, now),
            status.certifies(algorithm.spec_standard_family()),
            status.flags_set() == 1,
            status.quantum_readiness_score == 75,
            status.last_audit == now,
            status.well_formed(),
    {
        let mut status = ComplianceStatus::default();
        match algorithm.standard_family() {
            StandardFamily::Fips203 => {
                status.nist_fips_203_compliant = true;
            },
            StandardFamily::Fips204 => {
                status.nist_fips_204_compliant = true;
            },
            StandardFamily::Fips205 => {
                status.nist_fips_205_compliant = true;
            },
        }
        status.quantum_readiness_score = INITIAL_READINESS_SCORE;
        status.last_audit = now;
        status
    }

    /// Returns the status after one key rotation: the score grows by 5 and
    /// stops at 100; the flags and the audit time stay.
    pub fn after_rotation(self) -> (status: ComplianceStatus)
        ensures
            status == self.spec_after_rotation(),
            status.well_formed(),
            self.well_formed() ==> status.quantum_readiness_score >= self.quantum_readiness_score,
    {
        let raised = self.quantum_readiness_score.saturating_add(ROTATION_SCORE_STEP);
        let score = if raised < MAX_READINESS_SCORE {
            raised
        } else {
            MAX_READINESS_SCORE
        };
        ComplianceStatus {
            nist_fips_203_compliant: self.nist_fips_203_compliant,
            nist_fips_204_compliant: self.nist_fips_204_compliant,
            nist_fips_205_compliant: self.nist_fips_205_compliant,
            last_audit: self.last_audit,
            quantum_readiness_score: score,
        }
    }
}

/// The counters that every vault operation keeps up to date.
#[derive(Debug, Clone, Copy, PartialEq, Eq)]
pub struct GlobalState {
    /// Who set the registry up.
    pub authority: Identity,
    /// How many vaults were created.
    pub total_vaults: u64,
    /// How many signatures were authorized.
    pub total_transactions: u64,
    pub bump: u8,
}

impl GlobalState {
    /// Bytes that the record takes when persisted.
    pub const SPACE: usize = 32 + 8 + 8 + 1;

    /// Builds the registry of `authority`, with both counters at 0.
    pub fn new(authority: Identity, bump: u8) -> (registry: GlobalState)
        ensures
            registry == (GlobalState { authority, total_vaults: 0, total_transactions: 0, bump }),
    {
        GlobalState { authority, total_vaults: 0, total_transactions: 0, bump }
    }

    /// Counts one more vault. At the largest count the registry stays as
    /// it is and the call fails with `MathOverflow`.
    pub fn record_vault_created(&mut self) -> (result: Result<(), QuantumCustodyError>)
        ensures
            old(self).total_vaults < u64::MAX ==> result is Ok && *final(self) == (GlobalState {
                total_vaults: (old(self).total_vaults + 1) as u64,
                ..*old(self)
            }),
            old(self).total_vaults == u64::MAX ==> result == Err::<(), QuantumCustodyError>(
                QuantumCustodyError::MathOverflow,
            ) && *final(self) == *old(self),
    {
        match self.total_vaults.checked_add(1) {
            Some(count) => {
                self.total_vaults = count;
                Ok(())
            },
            None => Err(QuantumCustodyError::MathOverflow),
        }
    }

    /// Counts one more authorized signature. At the largest count the
    /// registry stays as it is and the call fails with `MathOverflow`.
    pub fn record_transaction(&mut self) -> (result: Result<(), QuantumCustodyError>)
        ensures
            old(self).total_transactions < u64::MAX ==> result is Ok && *final(self) == (
            GlobalState {
                total_transactions: (old(self).total_transactions + 1) as u64,
                ..*old(self)
            }),
            old(self).total_transactions == u64::MAX ==> result == Err::<(), QuantumCustodyError>(
                QuantumCustodyError::MathOverflow,
            ) && *final(self) == *old(self),
    {
        match self.total_transactions.checked_add(1) {
            Some(count) => {
                self.total_transactions = count;
                Ok(())
            },
            None => Err(QuantumCustodyError::MathOverflow),
        }
    }
}

/// A custody vault: one owner bound to one post-quantum public key, with
/// the history that the policy needs.
#[derive(Debug, Clone, PartialEq, Eq)]
pub struct QuantumVault {
    pub owner: Identity,
    pub algorithm: CryptoAlgorithm,
    /// The current public key; as long as the algorithm demands.
    pub public_key: Vec<u8>,
    /// When the vault was created, in seconds since the epoch.
    pub created_at: i64,
    /// When the key was last replaced; at first the time of creation.
    pub last_key_rotation: i64,
    /// How many signatures the vault has authorized.
    pub transaction_count: u64,
    pub compliance_status: ComplianceStatus,
    pub bump: u8,
}

/// A vault as a mathematical value: the public key is a sequence of bytes.
pub struct QuantumVaultView {
    pub owner: Identity,
    pub algorithm: CryptoAlgorithm,
    pub public_key: Seq<u8>,
    pub created_at: i64,
    pub last_key_rotation: i64,
    pub transaction_count: u64,
    pub compliance_status: ComplianceStatus,
    pub bump: u8,
}

impl View for QuantumVault {
    type V = QuantumVaultView;

    open spec fn view(&self) -> QuantumVaultView {
        QuantumVaultView {
            owner: self.owner,
            algorithm: self.algorithm,
            public_key: self.public_key@,
            created_at: self.created_at,
            last_key_rotation: self.last_key_rotation,
            transaction_count: self.transaction_count,
            compliance_status: self.compliance_status,
            bump: self.bump,
        }
    }
}

impl QuantumVaultView {
    /// What holds of every vault that the operations made: the key has the
    /// algorithm's length, the key was never rotated before the vault was
    /// created, the score is in range, and exactly the flag of the
    /// algorithm's standard is set.
    pub open spec fn well_formed(self) -> bool {
        &&& self.public_key.len() == self.algorithm.spec_public_key_size()
        &&& self.created_at <= self.last_key_rotation
        &&& self.compliance_status.well_formed()
        &&& self.compliance_status.certifies(self.algorithm.spec_standard_family())
    }

    /// Whether the key is older at `current_time` than the rotation period
    /// allows. The difference is taken over the integers.
    pub open spec fn key_rotation_required(self, current_time: i64) -> bool {
        current_time - self.last_key_rotation > ROTATION_PERIOD
    }

    /// Bytes that the vault takes when persisted: each field in turn, the
    /// key behind a four-byte length.
    pub open spec fn encoded_len(self) -> nat {
        32 + 1 + (4 + self.public_key.len()) + 8 + 8 + 8 + (1 + 1 + 1 + 8 + 1) + 1
    }
}

impl QuantumVault {
    /// Bytes reserved for a persisted vault: room for the longest key of
    /// the catalog.
    pub const SPACE: usize = 32 + 1 + 4 + 2592 + 8 + 8 + 8 + 32 + 1;

    /// See [`QuantumVaultView::well_formed`].
    pub open spec fn well_formed(&self) -> bool {
        self@.well_formed()
    }

    /// Tells whether the key must be rotated before the vault authorizes
    /// another signature: whether more than the rotation period lies
    /// between the last rotation and `current_time`.
    pub fn is_key_rotation_required(&self, current_time: i64) -> (required: bool)
        ensures
            required == self@.key_rotation_required(current_time),
            required == (current_time - self.last_key_rotation > 7_776_000),
    {
        current_time as i128 - self.last_key_rotation as i128 > ROTATION_PERIOD as i128
    }
}

} // verus!
