//! Setting up the protocol record.

use vstd::prelude::*;
use crate::errors::ClawBetsError;
use crate::state::{Identity, Protocol};

verus! {

/// The records that the set-up touches.
#[derive(Clone, Copy, Debug, PartialEq, Eq)]
pub struct Initialize {
    /// The caller, who becomes the administrator.
    pub admin: Identity,
    /// The record to set up.
    pub protocol: Protocol,
}

/// Sets the protocol record up for the caller: no market yet, no volume.
/// It always succeeds.
pub fn handler(ctx: &mut Initialize) -> (r: Result<(), ClawBetsError>)
    ensures
        r.is_ok(),
        final(ctx).admin == old(ctx).admin,
        final(ctx).protocol == (Protocol {
            admin: old(ctx).admin,
            market_count: 0,
            total_volume: 0,
        }),
{
    ctx.protocol.admin = ctx.admin;
    ctx.protocol.market_count = 0;
    ctx.protocol.total_volume = 0;
    Ok(())
}

} // verus!
