//! Authorizing a signature.

use vstd::prelude::*;
use crate::catalog::CryptoAlgorithm;
use crate::error::QuantumCustodyError;
use crate::identity::Identity;
use crate::program::{SignTransaction, SignTransactionView};
use crate::state::{GlobalState, QuantumVaultView, MAX_MESSAGE_SIZE};

verus! {

/// Tells that a vault authorized a signature.
#[derive(Debug, Clone, Copy, PartialEq, Eq)]
pub struct TransactionSignedEvent {
    /// The address of the vault's record.
    pub vault: Identity,
    /// The vault's count after this authorization.
    pub transaction_count: u64,
    pub algorithm: CryptoAlgorithm,
    pub timestamp: i64,
}

/// Why an authorization is refused, if it is. The checks run in this
/// order: the age of the key, the length of the signature, the length of
/// the message, the vault's counter, the registry's counter. Only lengths
/// are checked: the signature is not verified against the message.
pub open spec fn refusal(ctx: SignTransactionView, message: Seq<u8>, signature: Seq<u8>, now: i64)
    -> Option<QuantumCustodyError> {
    if ctx.vault.key_rotation_required(now) {
        Some(QuantumCustodyError::KeyRotationRequired)
    } else if signature.len() != ctx.vault.algorithm.spec_signature_size() {
        Some(QuantumCustodyError::InvalidSignatureSize)
    } else if message.len() > MAX_MESSAGE_SIZE {
        Some(QuantumCustodyError::MessageTooLarge)
    } else if ctx.vault.transaction_count == u64::MAX {
        Some(QuantumCustodyError::MathOverflow)
    } else if ctx.global_state.total_transactions == u64::MAX {
        Some(QuantumCustodyError::MathOverflow)
    } else {
        None
    }
}

/// The records after an authorization that was not refused: the vault and
/// the registry have each counted one more.
pub open spec fn authorized(ctx: SignTransactionView) -> SignTransactionView {
    SignTransactionView {
        vault: QuantumVaultView {
            transaction_count: (ctx.vault.transaction_count + 1) as u64,
            ..ctx.vault
        },
        global_state: GlobalState {
            total_transactions: (ctx.global_state.total_transactions + 1) as u64,
            ..ctx.global_state
        },
        ..ctx
    }
}

/// Authorizes one signature at `now`.
///
/// The authorization is refused, and every record left as it was,
/// - with `KeyRotationRequired` when more than 7 776 000 seconds lie
///   between the last rotation and `now`;
/// - else with `InvalidSignatureSize` when `signature` is not as long as
///   the signatures of the vault's algorithm;
/// - else with `MessageTooLarge` when `message` has more than 10 240 bytes;
/// - else with `MathOverflow` when the vault or the registry cannot count
///   another signature.
///
/// Otherwise the vault's count and the registry's count each grow by one,
/// and nothing else changes.
pub fn handler(ctx: &mut SignTransaction, message: Vec<u8>, signature: Vec<u8>, now: i64)
    -> (result: Result<TransactionSignedEvent, QuantumCustodyError>)
    ensures
        match refusal(old(ctx)@, message@, signature@, now) {
            Some(error) => result == Err::<TransactionSignedEvent, QuantumCustodyError>(error)
                && *final(ctx) == *old(ctx),
            None => {
                &&& result == Ok::<TransactionSignedEvent, QuantumCustodyError>(
                    TransactionSignedEvent {
                        vault: old(ctx).vault_key,
                        transaction_count: (old(ctx).vault.transaction_count + 1) as u64,
                        algorithm: old(ctx).vault.algorithm,
                        timestamp: now,
                    },
                )
                &&& final(ctx)@ == authorized(old(ctx)@)
                &&& old(ctx).vault.well_formed() ==> final(ctx).vault.well_formed()
            },
        },
{
    if ctx.vault.is_key_rotation_required(now) {
        return Err(QuantumCustodyError::KeyRotationRequired);
    }
    if signature.len() != ctx.vault.algorithm.signature_size() {
        return Err(QuantumCustodyError::InvalidSignatureSize);
    }
    if message.len() > MAX_MESSAGE_SIZE {
        return Err(QuantumCustodyError::MessageTooLarge);
    }
    let count = match ctx.vault.transaction_count.checked_add(1) {
        Some(count) => count,
        None => {
            return Err(QuantumCustodyError::MathOverflow);
        },
    };
    ctx.global_state.record_transaction()?;
    ctx.vault.transaction_count = count;
    Ok(
        TransactionSignedEvent {
            vault: ctx.vault_key,
            transaction_count: count,
            algorithm: ctx.vault.algorithm,
            timestamp: now,
        },
    )
}

} // verus!
