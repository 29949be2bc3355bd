//! Creating a vault.

use vstd::prelude::*;
use crate::catalog::CryptoAlgorithm;
use crate::error::QuantumCustodyError;
use crate::identity::Identity;
use crate::program::{CreateVault, CreateVaultView};
use crate::state::{ComplianceStatus, GlobalState, QuantumVault, QuantumVaultView};

verus! {

/// Tells that a vault was created.
#[derive(Debug, Clone, Copy, PartialEq, Eq)]
pub struct VaultCreatedEvent {
    /// The address of the vault's record.
    pub vault: Identity,
    pub owner: Identity,
    pub algorithm: CryptoAlgorithm,
    pub timestamp: i64,
}

/// Why a creation is refused, if it is. The checks run in this order: the
/// algorithm code, the length of the key, the record, the counter.
pub open spec fn refusal(ctx: CreateVaultView, algorithm: u8, public_key: Seq<u8>) -> Option<
    QuantumCustodyError,
> {
    match CryptoAlgorithm::spec_from_numeric_code(algorithm) {
        None => Some(QuantumCustodyError::InvalidAlgorithm),
        Some(id) => {
            if public_key.len() != id.spec_public_key_size() {
                Some(QuantumCustodyError::InvalidPublicKeySize)
            } else if ctx.vault is Some {
                Some(QuantumCustodyError::VaultAlreadyInitialized)
            } else if ctx.global_state.total_vaults == u64::MAX {
                Some(QuantumCustodyError::MathOverflow)
            } else {
                None
            }
        },
    }
}

/// The vault that a creation at `now` makes.
pub open spec fn new_vault(
    owner: Identity,
    id: CryptoAlgorithm,
    public_key: Seq<u8>,
    now: i64,
    bump: u8,
) -> QuantumVaultView {
    QuantumVaultView {
        owner,
        algorithm: id,
        public_key,
        created_at: now,
        last_key_rotation: now,
        transaction_count: 0,
        compliance_status: ComplianceStatus::spec_initial(id, now),
        bump,
    }
}

/// The records after a creation that was not refused: the vault is in its
/// record and the registry has counted it.
pub open spec fn created(
    ctx: CreateVaultView,
    id: CryptoAlgorithm,
    public_key: Seq<u8>,
    now: i64,
) -> CreateVaultView {
    CreateVaultView {
        vault: Some(new_vault(ctx.owner, id, public_key, now, ctx.vault_bump)),
        global_state: GlobalState {
            total_vaults: (ctx.global_state.total_vaults + 1) as u64,
            ..ctx.global_state
        },
        ..ctx
    }
}

/// Creates the owner's vault at `now`.
///
/// The creation is refused, and every record left as it was,
/// - with `InvalidAlgorithm` when `algorithm` is not a code of the catalog;
/// - else with `InvalidPublicKeySize` when `public_key` is not as long as
///   the algorithm demands;
/// - else with `VaultAlreadyInitialized` when the record holds a vault;
/// - else with `MathOverflow` when the registry cannot count another vault.
///
/// Otherwise the record holds the new vault: created and last rotated at
/// `now`, no signature authorized, exactly the flag of the algorithm's
/// standard set, score 75, audited at `now`. The registry counts one vault
/// more.
pub fn handler(ctx: &mut CreateVault, algorithm: u8, public_key: Vec<u8>, now: i64) -> (result:
    Result<VaultCreatedEvent, QuantumCustodyError>)
    ensures
        match refusal(old(ctx)@, algorithm, public_key@) {
            Some(error) => result == Err::<VaultCreatedEvent, QuantumCustodyError>(error)
                && *final(ctx) == *old(ctx),
            None => {
                let id = CryptoAlgorithm::spec_from_numeric_code(algorithm).unwrap();
                &&& result == Ok::<VaultCreatedEvent, QuantumCustodyError>(
                    VaultCreatedEvent {
                        vault: old(ctx).vault_key,
                        owner: old(ctx).owner,
                        algorithm: id,
                        timestamp: now,
                    },
                )
                &&& final(ctx)@ == created(old(ctx)@, id, public_key@, now)
                &&& final(ctx)@.vault.unwrap().well_formed()
            },
        },
{
    let id = CryptoAlgorithm::from_numeric_code(algorithm)?;
    if public_key.len() != id.public_key_size() {
        return Err(QuantumCustodyError::InvalidPublicKeySize);
    }
    if ctx.vault.is_some() {
        return Err(QuantumCustodyError::VaultAlreadyInitialized);
    }
    ctx.global_state.record_vault_created()?;
    ctx.vault = Some(
        QuantumVault {
            owner: ctx.owner,
            algorithm: id,
            public_key,
            created_at: now,
            last_key_rotation: now,
            transaction_count: 0,
            compliance_status: ComplianceStatus::initial(id, now),
            bump: ctx.vault_bump,
        },
    );
    Ok(VaultCreatedEvent { vault: ctx.vault_key, owner: ctx.owner, algorithm: id, timestamp: now })
}

} // verus!
