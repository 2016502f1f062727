//! The per-tournament escrow record: pooled funds, player roster, lifecycle
//! status, and the rake mathematics every operation shares.

use vstd::prelude::*;
use crate::account::AccountId;

verus! {

/// Lifecycle of a tournament; strictly forward, `Completed` and `Cancelled`
/// are absorbing.
#[derive(Clone, Copy, PartialEq, Eq, Structural, Debug)]
pub enum TournamentStatus {
    Waiting,
    InProgress,
    Completed,
    Cancelled,
}

/// Descriptive tag with no effect on the fund mathematics.
#[derive(Clone, Copy, PartialEq, Eq, Structural, Debug)]
pub enum TournamentType {
    SitNGo,
    Scheduled,
    Bounty,
    Rebuy,
    FreeRoll,
}

/// Gates who may join: `Private` admits only the creator; `FriendsOnly`
/// currently admits anyone (friends-list enforcement is a declared gap, not a
/// silent bypass); `Public` admits anyone.
#[derive(Clone, Copy, PartialEq, Eq, Structural, Debug)]
pub enum TournamentPrivacy {
    Public,
    Private,
    FriendsOnly,
}

/// Descriptive tag with no effect on the fund mathematics.
#[derive(Clone, Copy, PartialEq, Eq, Structural, Debug)]
pub enum BlindStructure {
    Progressive,
    Turbo,
    Slow,
    HyperTurbo,
}

/// How a privacy tag stored as a small integer decodes; unknown values fall
/// back to `Public`.
pub open spec fn privacy_from_u8(value: u8) -> TournamentPrivacy {
    if value == 0 {
        TournamentPrivacy::Public
    } else if value == 1 {
        TournamentPrivacy::Private
    } else if value == 2 {
        TournamentPrivacy::FriendsOnly
    } else {
        TournamentPrivacy::Public
    }
}

impl From<u8> for TournamentPrivacy {
    fn from(value: u8) -> (r: Self) {
        match value {
            0 => TournamentPrivacy::Public,
            1 => TournamentPrivacy::Private,
            2 => TournamentPrivacy::FriendsOnly,
            _ => TournamentPrivacy::Public,
        }
    }
}

impl vstd::std_specs::convert::FromSpecImpl<u8> for TournamentPrivacy {
    open spec fn obeys_from_spec() -> bool {
        true
    }

    open spec fn from_spec(value: u8) -> Self {
        privacy_from_u8(value)
    }
}

/// Rake collected from one buy-in: `floor(buy_in * rake_bps / 10000)`.
pub open spec fn rake_of(buy_in: u64, rake_bps: u16) -> int {
    (buy_in as int * rake_bps as int) / 10000
}

/// Net contribution of one buy-in to the prize pool.
pub open spec fn net_of(buy_in: u64, rake_bps: u16) -> int {
    buy_in as int - rake_of(buy_in, rake_bps)
}

/// One party's percentage share of a rake amount: `floor(rake * pct / 100)`.
pub open spec fn share_of(rake: int, pct: u16) -> int {
    (rake * pct as int) / 100
}

/// One escrow record per tournament. It exclusively owns its custodied funds;
/// nothing debits it except the defined operations.
#[derive(Clone, Debug)]
pub struct TournamentEscrow {
    /// Identity that created the tournament; authorized for distribution,
    /// creator-rake withdrawal, and cancellation.
    pub creator: AccountId,
    /// Caller-chosen addressing key; the substrate rejects duplicates.
    pub tournament_id: String,
    /// Fixed entry fee in the smallest currency unit; immutable.
    pub buy_in: u64,
    /// Fee rate in basis points, at most 1000 (10%); immutable.
    pub rake_bps: u16,
    /// Sum of net buy-ins currently held for prize distribution.
    pub total_pot: u64,
    /// Total rake collected and not yet withdrawn.
    pub rake_amount: u64,
    /// Portion of the collected rake owed to the creator.
    pub creator_rake_amount: u64,
    /// Portion of the collected rake owed to the platform operator.
    pub admin_rake_amount: u64,
    /// Count of joined players; always equals the roster length.
    pub players_joined: u8,
    /// Roster capacity, between 2 and 10; immutable.
    pub max_players: u8,
    /// Descriptive tag; immutable.
    pub tournament_type: TournamentType,
    /// Who may join; immutable.
    pub privacy_mode: TournamentPrivacy,
    /// Descriptive tag; immutable.
    pub blind_structure: BlindStructure,
    /// Lifecycle state; moves only along the transition table.
    pub status: TournamentStatus,
    /// Ordered list of joined player identities, unique.
    pub player_addresses: Vec<AccountId>,
    /// Set exactly once, on prize distribution.
    pub winners: Option<Vec<AccountId>>,
    /// Stamped at creation.
    pub created_at: i64,
    /// Stamped by the join that fills the roster.
    pub started_at: Option<i64>,
    /// Stamped by prize distribution.
    pub completed_at: Option<i64>,
    /// Stamped by cancellation.
    pub cancelled_at: Option<i64>,
    /// Funds the record custodies, credited and debited only by the defined
    /// operations' prescribed transfers.
    pub balance: u64,
}

impl TournamentEscrow {
    /// The roster as a mathematical sequence.
    pub open spec fn roster(self) -> Seq<AccountId> {
        self.player_addresses@
    }

    /// No identity appears twice on the roster.
    pub open spec fn roster_unique(self) -> bool {
        forall|i: int, j: int|
            0 <= i < j < self.roster().len() ==> self.roster()[i] != self.roster()[j]
    }

    /// The record's invariant: creation parameters in range, the roster
    /// consistent with its count and capacity, and each timestamp present
    /// exactly for the statuses that stamp it.
    pub open spec fn well_formed(self) -> bool {
        &&& self.buy_in > 0
        &&& self.rake_bps <= 1000
        &&& 2 <= self.max_players <= 10
        &&& self.players_joined as int == self.roster().len()
        &&& self.roster().len() <= self.max_players as int
        &&& self.roster_unique()
        &&& (self.status == TournamentStatus::Waiting ==> self.roster().len()
            < self.max_players as int)
        &&& ((self.started_at is Some) <==> (self.status == TournamentStatus::InProgress
            || self.status == TournamentStatus::Completed))
        &&& ((self.completed_at is Some) <==> self.status == TournamentStatus::Completed)
        &&& ((self.cancelled_at is Some) <==> self.status == TournamentStatus::Cancelled)
        &&& ((self.winners is Some) <==> self.status == TournamentStatus::Completed)
        &&& (self.winners matches Some(w) ==> w@.len() == 1)
    }

    /// Runtime check of [`TournamentEscrow::well_formed`], for callers outside
    /// verified code.
    pub fn is_well_formed(&self) -> (r: bool)
        ensures
            r == self.well_formed(),
    {
        let structural_ok = self.buy_in > 0 && self.rake_bps <= 1000 && self.max_players >= 2
            && self.max_players <= 10
            && self.players_joined as usize == self.player_addresses.len()
            && self.player_addresses.len() <= self.max_players as usize;
        if !structural_ok {
            return false;
        }
        if !roster_has_unique_entries(&self.player_addresses) {
            return false;
        }
        if self.status == TournamentStatus::Waiting
            && !(self.player_addresses.len() < self.max_players as usize) {
            return false;
        }
        let started_ok = self.started_at.is_some() == (self.status
            == TournamentStatus::InProgress || self.status == TournamentStatus::Completed);
        let completed_ok = self.completed_at.is_some() == (self.status
            == TournamentStatus::Completed);
        let cancelled_ok = self.cancelled_at.is_some() == (self.status
            == TournamentStatus::Cancelled);
        let winners_status_ok = self.winners.is_some() == (self.status
            == TournamentStatus::Completed);
        let winners_len_ok = match &self.winners {
            Some(w) => w.len() == 1,
            None => true,
        };
        started_ok && completed_ok && cancelled_ok && winners_status_ok && winners_len_ok
    }

    /// Serialized size of a record with room for `max_players` roster entries
    /// and an equally sized optional winner list, as the fixed-capacity
    /// storage model requires: a fixed header plus 64 bytes per player slot.
    pub fn space_for(max_players: u8) -> (r: usize)
        ensures
            r == 169 + 64 * max_players as int,
    {
        8  // discriminator
        + 32  // creator
        + 4 + 32  // tournament id string
        + 8  // buy-in
        + 2  // rake rate
        + 8  // total pot
        + 8  // rake amount
        + 8  // creator rake amount
        + 8  // admin rake amount
        + 1  // players joined
        + 1  // max players
        + 1  // tournament type
        + 1  // privacy mode
        + 1  // blind structure
        + 1  // status
        + 4 + 32 * max_players as usize  // roster
        + 1 + 4 + 32 * max_players as usize  // optional winner list
        + 8  // created at
        + 1 + 8  // optional started at
        + 1 + 8  // optional completed at
        + 1 + 8  // optional cancelled at
        + 1  // bump seed
    }
}

/// Whether the roster holds the given identity; the executable face of
/// `Seq::contains` on the roster.
pub fn roster_contains(roster: &Vec<AccountId>, who: &AccountId) -> (r: bool)
    ensures
        r == roster@.contains(*who),
{
    let mut i: usize = 0;
    while i < roster.len()
        invariant
            i <= roster@.len(),
            forall|k: int| 0 <= k < i ==> roster@[k] != *who,
        decreases roster@.len() - i,
    {
        if roster[i] == *who {
            return true;
        }
        i = i + 1;
    }
    false
}

/// Whether no identity appears twice in the roster.
pub fn roster_has_unique_entries(roster: &Vec<AccountId>) -> (r: bool)
    ensures
        r == (forall|i: int, j: int|
            0 <= i < j < roster@.len() ==> roster@[i] != roster@[j]),
{
    let mut i: usize = 0;
    while i < roster.len()
        invariant
            i <= roster@.len(),
            forall|p: int, q: int| 0 <= p < q < roster@.len() && p < i ==> roster@[p] != roster@[q],
        decreases roster@.len() - i,
    {
        let mut j: usize = i + 1;
        while j < roster.len()
            invariant
                i < j <= roster@.len() || (i + 1 == j && j > roster@.len()),
                i < roster@.len(),
                forall|q: int| i < q < j ==> roster@[i as int] != roster@[q],
            decreases roster@.len() - j,
        {
            if roster[i] == roster[j] {
                return false;
            }
            j = j + 1;
        }
        i = i + 1;
    }
    true
}

} // verus!
