//! The records that the engine keeps: protocol, market, bet and reputation.

use vstd::prelude::*;

verus! {

/// Most characters that a market's title may have.
pub const MAX_TITLE_LEN: usize = 128;

/// Most characters that a market's description may have.
pub const MAX_DESCRIPTION_LEN: usize = 512;

/// The 32 bytes by which a participant, a market or a price feed is known.
#[derive(Clone, Copy, Debug, PartialEq, Eq)]
pub struct Identity {
    pub bytes: [u8; 32],
}

impl Identity {
    /// True of the identity of nobody: every byte is zero. A record that
    /// carries it has no owner yet.
    pub open spec fn is_unset(&self) -> bool {
        forall|i: int| 0 <= i < 32 ==> self.bytes@[i] == 0
    }

    /// The identity of nobody.
    pub fn unset() -> (id: Identity)
        ensures
            id.is_unset(),
    {
        Identity { bytes: [0u8; 32] }
    }

    /// Whether the two identities are the same 32 bytes.
    pub fn same(&self, other: &Identity) -> (r: bool)
        ensures
            r == (*self == *other),
    {
        let mut i: usize = 0;
        while i < 32
            invariant
                i <= 32,
                forall|j: int| 0 <= j < i ==> self.bytes@[j] == other.bytes@[j],
            decreases 32 - i,
        {
            if self.bytes[i] != other.bytes[i] {
                return false;
            }
            i += 1;
        }
        assert(self.bytes =~= other.bytes);
        true
    }

    /// Whether this is the identity of nobody.
    pub fn has_no_owner(&self) -> (r: bool)
        ensures
            r == self.is_unset(),
    {
        let mut i: usize = 0;
        while i < 32
            invariant
                i <= 32,
                forall|j: int| 0 <= j < i ==> self.bytes@[j] == 0,
            decreases 32 - i,
        {
            if self.bytes[i] != 0 {
                return false;
            }
            i += 1;
        }
        true
    }
}

/// The one record of a deployment.
#[derive(Clone, Copy, Debug, PartialEq, Eq)]
pub struct Protocol {
    /// Who initialised the deployment.
    pub admin: Identity,
    /// Number of markets created so far; the next market's id.
    pub market_count: u64,
    /// Everything ever wagered, over all markets.
    pub total_volume: u64,
}

/// Where a market stands in its life.
#[derive(Clone, Copy, Debug, PartialEq, Eq, Structural)]
pub enum MarketStatus {
    /// Accepting bets.
    Open,
    /// Betting deadline passed, awaiting resolution.
    Closed,
    /// Settled with an outcome.
    Resolved,
    /// Withdrawn by its creator before any bet.
    Cancelled,
    /// The resolution deadline passed without resolution.
    Expired,
}

/// One proposition with a betting window and a resolution window.
#[derive(Clone, Debug, PartialEq, Eq)]
pub struct Market {
    pub creator: Identity,
    /// Sequential id, taken from the protocol's counter at creation.
    pub market_id: u64,
    pub title: String,
    pub description: String,
    /// The price feed that settles the market.
    pub oracle_feed: Identity,
    /// Price to compare with, in the feed's own scale.
    pub target_price: i64,
    /// True: YES wins at or above the target. False: YES wins below it.
    pub target_above: bool,
    /// Time from which no bet is accepted.
    pub deadline: i64,
    /// Time after which the market can no longer be resolved.
    pub resolution_deadline: i64,
    pub min_bet: u64,
    pub max_bet: u64,
    /// Sum staked on YES.
    pub total_yes: u64,
    /// Sum staked on NO.
    pub total_no: u64,
    /// Number of bets on YES.
    pub yes_count: u32,
    /// Number of bets on NO.
    pub no_count: u32,
    pub status: MarketStatus,
    /// The winning side, once resolved.
    pub outcome: Option<bool>,
    /// The oracle price at resolution.
    pub resolved_price: Option<i64>,
    /// The time of resolution.
    pub resolved_at: Option<i64>,
    pub created_at: i64,
}

impl Market {
    /// What creation establishes and every operation keeps: the limits on the
    /// texts, the order of the two deadlines and of the two bet bounds, and
    /// that outcome, price and time of resolution are there exactly when the
    /// market is resolved.
    pub open spec fn wf(&self) -> bool {
        &&& self.title@.len() <= MAX_TITLE_LEN
        &&& self.description@.len() <= MAX_DESCRIPTION_LEN
        &&& self.deadline < self.resolution_deadline
        &&& 0 < self.min_bet <= self.max_bet
        &&& (self.status == MarketStatus::Resolved) == self.outcome.is_some()
        &&& self.outcome.is_some() == self.resolved_price.is_some()
        &&& self.outcome.is_some() == self.resolved_at.is_some()
    }

    /// The pool of the given side.
    pub open spec fn pool(&self, side: bool) -> u64 {
        if side {
            self.total_yes
        } else {
            self.total_no
        }
    }

    /// Number of bets on the given side.
    pub open spec fn count(&self, side: bool) -> u32 {
        if side {
            self.yes_count
        } else {
            self.no_count
        }
    }
}

/// One participant's stake on one market.
#[derive(Clone, Copy, Debug, PartialEq, Eq)]
pub struct Bet {
    pub bettor: Identity,
    /// The market that the bet belongs to.
    pub market: Identity,
    /// The escrowed amount.
    pub amount: u64,
    /// True for YES, false for NO.
    pub position: bool,
    /// Set once, by the payout or by the refund.
    pub claimed: bool,
    pub placed_at: i64,
}

/// What is known of one participant's record.
#[derive(Clone, Copy, Debug, PartialEq, Eq)]
pub struct AgentReputation {
    /// The participant; the identity of nobody until first used.
    pub agent: Identity,
    pub total_bets: u32,
    /// Number of bets paid out as winners.
    pub wins: u32,
    /// Number of bets lost. No operation counts a loss: a losing bet is
    /// never claimed, so nothing visits the loser's record. The field is
    /// kept and enters the accuracy ratio as it stands.
    pub losses: u32,
    pub total_wagered: u64,
    /// Sum of profits: payouts less the stakes returned with them.
    pub total_won: u64,
    pub total_lost: u64,
    pub markets_created: u32,
    /// Share of wins among wins and losses, in units of 1/10000.
    pub accuracy_bps: u16,
    pub last_active: i64,
}

/// A price observation of a feed.
#[derive(Clone, Copy, Debug, PartialEq, Eq)]
pub struct OracleReading {
    /// The feed that the price was read from.
    pub feed_id: Identity,
    /// The price, in the feed's own scale.
    pub price: i64,
    /// When the price was published.
    pub published_at: i64,
    /// The feed's decimal exponent.
    pub exponent: i32,
}

} // verus!
