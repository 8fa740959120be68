//! The operations, one module each. Every module holds the records that its
//! operation touches, a statement of when the operation succeeds and of what
//! it changes, and the `handler` that carries it out.

pub mod place_bet;
pub mod claim_winnings;
pub mod resolve_market;
pub mod create_market;
pub mod reclaim_bet;
pub mod cancel_market;
pub mod expire_market;
pub mod close_betting;
pub mod initialize;
