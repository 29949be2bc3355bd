//! Setting the registry up.

use vstd::prelude::*;
use crate::identity::Identity;
use crate::program::Initialize;
use crate::state::GlobalState;

verus! {

/// Tells that the registry was set up.
#[derive(Debug, Clone, Copy, PartialEq, Eq)]
pub struct ProgramInitializedEvent {
    pub authority: Identity,
    pub timestamp: i64,
}

/// Sets the registry up at `now`: it belongs to `authority` and both
/// counters start at 0. The registry is set up once, so its record must
/// still be empty.
pub fn handler(ctx: &mut Initialize, authority: Identity, now: i64) -> (event:
    ProgramInitializedEvent)
    requires
        old(ctx).global_state is None,
    ensures
        final(ctx).global_state == Some(
            GlobalState { authority, total_vaults: 0, total_transactions: 0, bump: old(ctx).bump },
        ),
        final(ctx).bump == old(ctx).bump,
        event == (ProgramInitializedEvent { authority, timestamp: now }),
{
    ctx.global_state = Some(GlobalState::new(authority, ctx.bump));
    ProgramInitializedEvent { authority, timestamp: now }
}

} // verus!
