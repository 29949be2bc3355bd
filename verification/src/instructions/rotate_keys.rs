//! Replacing a vault's key.

use vstd::prelude::*;
use crate::error::QuantumCustodyError;
use crate::identity::Identity;
use crate::program::{RotateKeys, RotateKeysView};
use crate::state::QuantumVaultView;

verus! {

/// Tells that a vault's key was replaced.
#[derive(Debug, Clone, Copy, PartialEq, Eq)]
pub struct KeyRotatedEvent {
    /// The address of the vault's record.
    pub vault: Identity,
    pub timestamp: i64,
}

/// Why a rotation is refused, if it is. The key is checked before the
/// signature. Only lengths are checked: the signature is not verified
/// against any message or key.
pub open spec fn refusal(vault: QuantumVaultView, new_public_key: Seq<u8>, signature: Seq<u8>)
    -> Option<QuantumCustodyError> {
    if new_public_key.len() != vault.algorithm.spec_public_key_size() {
        Some(QuantumCustodyError::InvalidPublicKeySize)
    } else if signature.len() != vault.algorithm.spec_signature_size() {
        Some(QuantumCustodyError::InvalidSignatureSize)
    } else {
        None
    }
}

/// The vault after a rotation at `now` that was not refused: it holds the
/// new key, was last rotated at `now`, and its score is 5 higher, 100 at
/// most.
pub open spec fn rotated(vault: QuantumVaultView, new_public_key: Seq<u8>, now: i64)
    -> QuantumVaultView {
    QuantumVaultView {
        public_key: new_public_key,
        last_key_rotation: now,
        compliance_status: vault.compliance_status.spec_after_rotation(),
        ..vault
    }
}

/// Replaces the vault's key at `now`.
///
/// The rotation is refused, and the vault left as it was,
/// - with `InvalidPublicKeySize` when `new_public_key` is not as long as
///   the vault's algorithm demands;
/// - else with `InvalidSignatureSize` when `signature` is not as long as
///   the algorithm's signatures are.
///
/// Otherwise the vault holds `new_public_key`, was last rotated at `now`,
/// and its score is 5 higher and 100 at most. Nothing else changes. A
/// well-formed vault stays well-formed unless `now` lies before its
/// creation.
pub fn handler(ctx: &mut RotateKeys, new_public_key: Vec<u8>, signature: Vec<u8>, now: i64)
    -> (result: Result<KeyRotatedEvent, QuantumCustodyError>)
    ensures
        match refusal(old(ctx)@.vault, new_public_key@, signature@) {
            Some(error) => result == Err::<KeyRotatedEvent, QuantumCustodyError>(error)
                && *final(ctx) == *old(ctx),
            None => {
                &&& result == Ok::<KeyRotatedEvent, QuantumCustodyError>(
                    KeyRotatedEvent { vault: old(ctx).vault_key, timestamp: now },
                )
                &&& final(ctx)@ == (RotateKeysView {
                    vault: rotated(old(ctx)@.vault, new_public_key@, now),
                    ..old(ctx)@
                })
                &&& old(ctx).vault.well_formed() && old(ctx).vault.created_at <= now
                    ==> final(ctx).vault.well_formed()
            },
        },
{
    if new_public_key.len() != ctx.vault.algorithm.public_key_size() {
        return Err(QuantumCustodyError::InvalidPublicKeySize);
    }
    if signature.len() != ctx.vault.algorithm.signature_size() {
        return Err(QuantumCustodyError::InvalidSignatureSize);
    }
    ctx.vault.public_key = new_public_key;
    ctx.vault.last_key_rotation = now;
    ctx.vault.compliance_status = ctx.vault.compliance_status.after_rotation();
    Ok(KeyRotatedEvent { vault: ctx.vault_key, timestamp: now })
}

} // verus!
