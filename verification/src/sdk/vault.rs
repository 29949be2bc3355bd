//! A vault as a client sees it.

use vstd::prelude::*;
use crate::identity::Identity;
use crate::sdk::clock::unix_timestamp;
use crate::sdk::crypto::Algorithm;
use crate::state::ROTATION_PERIOD;

verus! {

/// What a client knows of a vault.
#[derive(Debug, Clone)]
pub struct QuantumVault {
    /// The address of the vault's record.
    pub address: Identity,
    pub owner: Identity,
    pub algorithm: Algorithm,
    pub public_key: Vec<u8>,
    pub created_at: i64,
    pub last_key_rotation: i64,
    pub transaction_count: u64,
}

impl QuantumVault {
    /// Whether the key is older at `now` than the rotation period allows.
    /// The difference is taken over the integers.
    pub open spec fn key_rotation_required_at(&self, now: i64) -> bool {
        now - self.last_key_rotation > ROTATION_PERIOD
    }

    /// Tells whether more than the rotation period lies between the last
    /// rotation and `now`.
    pub fn is_key_rotation_required_at(&self, now: i64) -> (required: bool)
        ensures
            required == self.key_rotation_required_at(now),
            required == (now - self.last_key_rotation > 7_776_000),
    {
        now as i128 - self.last_key_rotation as i128 > ROTATION_PERIOD as i128
    }

    /// Tells whether the key must be rotated now, by the clock of the
    /// machine: whether more than the rotation period lies between the
    /// last rotation and the time that the clock shows.
    pub fn is_key_rotation_required(&self) -> (required: bool)
        ensures
            exists|now: i64| required == self.key_rotation_required_at(now),
    {
        let now = unix_timestamp();
        self.is_key_rotation_required_at(now)
    }
}

} // verus!
