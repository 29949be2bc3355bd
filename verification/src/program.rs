//! The operations as the host calls them, and the records that each one is
//! handed.
//!
//! The host runs one operation at a time. It hands the operation the
//! records it may touch, and keeps what the operation left in them only
//! when the operation succeeded.

use vstd::prelude::*;
use crate::catalog::CryptoAlgorithm;
use crate::error::QuantumCustodyError;
use crate::identity::{lemma_identity_is_its_bytes, Identity};
use crate::instructions::create_vault::VaultCreatedEvent;
use crate::instructions::initialize::ProgramInitializedEvent;
use crate::instructions::rotate_keys::KeyRotatedEvent;
use crate::instructions::sign_transaction::TransactionSignedEvent;
use crate::state::{GlobalState, QuantumVault, QuantumVaultView};

verus! {

/// What `initialize` is handed.
#[derive(Debug, Clone, Copy, PartialEq, Eq)]
pub struct Initialize {
    /// The registry record: empty until the registry is set up.
    pub global_state: Option<GlobalState>,
    pub bump: u8,
}

/// What `create_vault` is handed.
#[derive(Debug, Clone, PartialEq, Eq)]
pub struct CreateVault {
    /// The record that the owner's identity addresses: empty until the
    /// owner's vault is created.
    pub vault: Option<QuantumVault>,
    /// The address of that record.
    pub vault_key: Identity,
    pub vault_bump: u8,
    /// Who asks for the vault.
    pub owner: Identity,
    pub global_state: GlobalState,
}

/// What `sign_transaction` is handed.
#[derive(Debug, Clone, PartialEq, Eq)]
pub struct SignTransaction {
    pub vault: QuantumVault,
    /// The address of the vault's record.
    pub vault_key: Identity,
    /// Who asks for the authorization.
    pub owner: Identity,
    pub global_state: GlobalState,
}

/// What `rotate_keys` is handed.
#[derive(Debug, Clone, PartialEq, Eq)]
pub struct RotateKeys {
    pub vault: QuantumVault,
    /// The address of the vault's record.
    pub vault_key: Identity,
    /// Who asks for the rotation.
    pub owner: Identity,
}

/// [`CreateVault`] as a mathematical value.
pub struct CreateVaultView {
    pub vault: Option<QuantumVaultView>,
    pub vault_key: Identity,
    pub vault_bump: u8,
    pub owner: Identity,
    pub global_state: GlobalState,
}

/// [`SignTransaction`] as a mathematical value.
pub struct SignTransactionView {
    pub vault: QuantumVaultView,
    pub vault_key: Identity,
    pub owner: Identity,
    pub global_state: GlobalState,
}

/// [`RotateKeys`] as a mathematical value.
pub struct RotateKeysView {
    pub vault: QuantumVaultView,
    pub vault_key: Identity,
    pub owner: Identity,
}

impl View for CreateVault {
    type V = CreateVaultView;

    open spec fn view(&self) -> CreateVaultView {
        CreateVaultView {
            vault: match self.vault {
                Some(vault) => Some(vault@),
                None => None,
            },
            vault_key: self.vault_key,
            vault_bump: self.vault_bump,
            owner: self.owner,
            global_state: self.global_state,
        }
    }
}

impl View for SignTransaction {
    type V = SignTransactionView;

    open spec fn view(&self) -> SignTransactionView {
        SignTransactionView {
            vault: self.vault@,
            vault_key: self.vault_key,
            owner: self.owner,
            global_state: self.global_state,
        }
    }
}

impl View for RotateKeys {
    type V = RotateKeysView;

    open spec fn view(&self) -> RotateKeysView {
        RotateKeysView { vault: self.vault@, vault_key: self.vault_key, owner: self.owner }
    }
}

/// Why `sign_transaction` is refused, if it is: the caller must own the
/// vault, and then the authorization must pass its own checks.
pub open spec fn sign_transaction_refusal(
    ctx: SignTransactionView,
    message: Seq<u8>,
    signature: Seq<u8>,
    now: i64,
) -> Option<QuantumCustodyError> {
    if ctx.vault.owner != ctx.owner {
        Some(QuantumCustodyError::Unauthorized)
    } else {
        crate::instructions::sign_transaction::refusal(ctx, message, signature, now)
    }
}

/// Why `rotate_keys` is refused, if it is: the caller must own the vault,
/// and then the rotation must pass its own checks.
pub open spec fn rotate_keys_refusal(
    ctx: RotateKeysView,
    new_public_key: Seq<u8>,
    signature: Seq<u8>,
) -> Option<QuantumCustodyError> {
    if ctx.vault.owner != ctx.owner {
        Some(QuantumCustodyError::Unauthorized)
    } else {
        crate::instructions::rotate_keys::refusal(ctx.vault, new_public_key, signature)
    }
}

/// Sets the registry up at `now` for `authority`, with both counters at 0.
/// The registry is set up once, so its record must still be empty.
pub fn initialize(ctx: &mut Initialize, authority: Identity, now: i64) -> (event:
    ProgramInitializedEvent)
    requires
        old(ctx).global_state is None,
    ensures
        final(ctx).global_state == Some(
            GlobalState { authority, total_vaults: 0, total_transactions: 0, bump: old(ctx).bump },
        ),
        final(ctx).bump == old(ctx).bump,
        event == (ProgramInitializedEvent { authority, timestamp: now }),
{
    crate::instructions::initialize::handler(ctx, authority, now)
}

/// Creates the vault of `ctx.owner` at `now`, for the algorithm with the
/// given code and with the given public key.
///
/// It is refused, and every record left as it was, with `InvalidAlgorithm`
/// for a code outside the catalog, else with `InvalidPublicKeySize` for a
/// key of the wrong length, else with `VaultAlreadyInitialized` when the
/// owner's record holds a vault, else with `MathOverflow` when the registry
/// cannot count another vault. Otherwise the record holds the new vault and
/// the registry counts one vault more.
pub fn create_vault(ctx: &mut CreateVault, algorithm: u8, public_key: Vec<u8>, now: i64) -> (result:
    Result<VaultCreatedEvent, QuantumCustodyError>)
    ensures
        match crate::instructions::create_vault::refusal(old(ctx)@, algorithm, public_key@) {
            Some(error) => result == Err::<VaultCreatedEvent, QuantumCustodyError>(error)
                && *final(ctx) == *old(ctx),
            None => {
                let id = CryptoAlgorithm::spec_from_numeric_code(algorithm).unwrap();
                &&& result == Ok::<VaultCreatedEvent, QuantumCustodyError>(
                    VaultCreatedEvent {
                        vault: old(ctx).vault_key,
                        owner: old(ctx).owner,
                        algorithm: id,
                        timestamp: now,
                    },
                )
                &&& final(ctx)@ == crate::instructions::create_vault::created(
                    old(ctx)@,
                    id,
                    public_key@,
                    now,
                )
                &&& final(ctx)@.vault.unwrap().well_formed()
            },
        },
{
    crate::instructions::create_vault::handler(ctx, algorithm, public_key, now)
}

/// Authorizes one signature of the vault at `now`.
///
/// It is refused, and every record left as it was, with `Unauthorized`
/// when `ctx.owner` does not own the vault, else with `KeyRotationRequired`
/// when the key is older than the rotation period, else with
/// `InvalidSignatureSize`, else with `MessageTooLarge` for a message of
/// more than 10 240 bytes, else with `MathOverflow` when a counter is at
/// its largest value. Otherwise the vault and the registry each count one
/// signature more.
pub fn sign_transaction(ctx: &mut SignTransaction, message: Vec<u8>, signature: Vec<u8>, now: i64)
    -> (result: Result<TransactionSignedEvent, QuantumCustodyError>)
    ensures
        match sign_transaction_refusal(old(ctx)@, message@, signature@, now) {
            Some(error) => result == Err::<TransactionSignedEvent, QuantumCustodyError>(error)
                && *final(ctx) == *old(ctx),
            None => {
                &&& result == Ok::<TransactionSignedEvent, QuantumCustodyError>(
                    TransactionSignedEvent {
                        vault: old(ctx).vault_key,
                        transaction_count: (old(ctx).vault.transaction_count + 1) as u64,
                        algorithm: old(ctx).vault.algorithm,
                        timestamp: now,
                    },
                )
                &&& final(ctx)@ == crate::instructions::sign_transaction::authorized(old(ctx)@)
                &&& old(ctx).vault.well_formed() ==> final(ctx).vault.well_formed()
            },
        },
{
    proof {
        lemma_identity_is_its_bytes(ctx.vault.owner, ctx.owner);
    }
    if !(ctx.vault.owner == ctx.owner) {
        return Err(QuantumCustodyError::Unauthorized);
    }
    crate::instructions::sign_transaction::handler(ctx, message, signature, now)
}

/// Replaces the vault's key at `now`.
///
/// It is refused, and the vault left as it was, with `Unauthorized` when
/// `ctx.owner` does not own the vault, else with `InvalidPublicKeySize`,
/// else with `InvalidSignatureSize`. Otherwise the vault holds the new key,
/// was last rotated at `now`, and its score is 5 higher and 100 at most.
pub fn rotate_keys(ctx: &mut RotateKeys, new_public_key: Vec<u8>, signature: Vec<u8>, now: i64)
    -> (result: Result<KeyRotatedEvent, QuantumCustodyError>)
    ensures
        match rotate_keys_refusal(old(ctx)@, new_public_key@, signature@) {
            Some(error) => result == Err::<KeyRotatedEvent, QuantumCustodyError>(error)
                && *final(ctx) == *old(ctx),
            None => {
                &&& result == Ok::<KeyRotatedEvent, QuantumCustodyError>(
                    KeyRotatedEvent { vault: old(ctx).vault_key, timestamp: now },
                )
                &&& final(ctx)@ == (RotateKeysView {
                    vault: crate::instructions::rotate_keys::rotated(
                        old(ctx)@.vault,
                        new_public_key@,
                        now,
                    ),
                    ..old(ctx)@
                })
                &&& old(ctx).vault.well_formed() && old(ctx).vault.created_at <= now
                    ==> final(ctx).vault.well_formed()
            },
        },
{
    proof {
        lemma_identity_is_its_bytes(ctx.vault.owner, ctx.owner);
    }
    if !(ctx.vault.owner == ctx.owner) {
        return Err(QuantumCustodyError::Unauthorized);
    }
    crate::instructions::rotate_keys::handler(ctx, new_public_key, signature, now)
}

} // verus!
