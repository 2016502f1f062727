//! The escrow operations: verified state transitions over the records. Each
//! operation validates the caller's identity and the record state, computes
//! amounts, updates the record, and reports the value transfers the substrate
//! must perform atomically with the state change.

use vstd::prelude::*;
use crate::account::{authorized, check_authorized, AccountId};
use crate::admin::AdminConfig;
use crate::errors::ErrorCode;
use crate::escrow::{
    net_of, rake_of, roster_contains, share_of, BlindStructure, TournamentEscrow,
    TournamentPrivacy, TournamentStatus, TournamentType,
};
use crate::math::{lemma_product_bound, lemma_scaled_fraction_bounds};

verus! {

/// Authenticated parties of an admin initialization: the deploying identity,
/// which becomes the platform authority.
#[derive(Clone, Copy, Debug)]
pub struct InitializeAdmin {
    pub admin: AccountId,
}

/// Authenticated parties of a tournament creation: the caller, which becomes
/// the tournament's creator.
#[derive(Clone, Copy, Debug)]
pub struct InitializeTournament {
    pub creator: AccountId,
}

/// Authenticated parties of a join: the depositing player.
#[derive(Clone, Copy, Debug)]
pub struct JoinTournament {
    pub player: AccountId,
}

/// Authenticated parties of a prize distribution: the claimed creator.
#[derive(Clone, Copy, Debug)]
pub struct DistributePrizes {
    pub creator: AccountId,
}

/// Authenticated parties of a creator-rake withdrawal: the claimed creator.
#[derive(Clone, Copy, Debug)]
pub struct WithdrawRake {
    pub creator: AccountId,
}

/// Authenticated parties of an admin-rake withdrawal: the claimed operator.
#[derive(Clone, Copy, Debug)]
pub struct WithdrawAdminRake {
    pub admin: AccountId,
}

/// Authenticated parties of a cancellation: the claimed creator.
#[derive(Clone, Copy, Debug)]
pub struct CancelTournament {
    pub creator: AccountId,
}

/// Authenticated parties of a leave: the withdrawing player.
#[derive(Clone, Copy, Debug)]
pub struct LeaveTournament {
    pub player: AccountId,
}

/// A value transfer the substrate owes a player out of escrow custody.
#[derive(Clone, Copy, PartialEq, Eq, Structural, Debug)]
pub struct Refund {
    pub player: AccountId,
    pub amount: u64,
}

/// The lifecycle transition table: everything else is rejected.
pub open spec fn status_step_allowed(pre: TournamentStatus, post: TournamentStatus) -> bool {
    ||| pre == post
    ||| (pre == TournamentStatus::Waiting && post == TournamentStatus::InProgress)
    ||| (pre == TournamentStatus::InProgress && post == TournamentStatus::Completed)
    ||| (pre == TournamentStatus::Waiting && post == TournamentStatus::Cancelled)
}

/// The fields no operation after creation may change.
pub open spec fn config_fields_unchanged(pre: TournamentEscrow, post: TournamentEscrow) -> bool {
    &&& post.creator == pre.creator
    &&& post.tournament_id@ == pre.tournament_id@
    &&& post.buy_in == pre.buy_in
    &&& post.rake_bps == pre.rake_bps
    &&& post.max_players == pre.max_players
    &&& post.tournament_type == pre.tournament_type
    &&& post.privacy_mode == pre.privacy_mode
    &&& post.blind_structure == pre.blind_structure
    &&& post.created_at == pre.created_at
}

/// Why admin initialization refuses, if it does: the two shares must split
/// the rake exactly, and each must be a percentage.
pub open spec fn initialize_admin_error(creator_share_pct: u16, admin_share_pct: u16) -> Option<
    ErrorCode,
> {
    if creator_share_pct as int + admin_share_pct as int != 100 {
        Some(ErrorCode::InvalidRakeSplit)
    } else if creator_share_pct > 100 {
        Some(ErrorCode::InvalidRakePercentage)
    } else if admin_share_pct > 100 {
        Some(ErrorCode::InvalidRakePercentage)
    } else {
        None
    }
}

/// Create the platform configuration record. Callable once per deployment:
/// the substrate refuses a second record at the configuration address. The
/// deploying identity becomes the platform authority and all audit counters
/// start at zero.
pub fn initialize_admin(
    accounts: &InitializeAdmin,
    default_rake_bps: u16,
    creator_share_pct: u16,
    admin_share_pct: u16,
) -> (r: Result<AdminConfig, ErrorCode>)
    ensures
        match r {
            Ok(cfg) => {
                &&& initialize_admin_error(creator_share_pct, admin_share_pct) is None
                &&& cfg == (AdminConfig {
                    admin_authority: accounts.admin,
                    default_rake_bps,
                    creator_rake_share_pct: creator_share_pct,
                    admin_rake_share_pct: admin_share_pct,
                    total_rake_collected: 0,
                    total_creator_rake_paid: 0,
                    total_admin_rake_collected: 0,
                })
                &&& cfg.well_formed()
            },
            Err(e) => initialize_admin_error(creator_share_pct, admin_share_pct) == Some(e),
        },
{
    if creator_share_pct as u32 + admin_share_pct as u32 != 100 {
        return Err(ErrorCode::InvalidRakeSplit);
    }
    if creator_share_pct > 100 {
        return Err(ErrorCode::InvalidRakePercentage);
    }
    if admin_share_pct > 100 {
        return Err(ErrorCode::InvalidRakePercentage);
    }
    Ok(
        AdminConfig {
            admin_authority: accounts.admin,
            default_rake_bps,
            creator_rake_share_pct: creator_share_pct,
            admin_rake_share_pct: admin_share_pct,
            total_rake_collected: 0,
            total_creator_rake_paid: 0,
            total_admin_rake_collected: 0,
        },
    )
}

/// Why tournament creation refuses, if it does.
pub open spec fn initialize_tournament_error(buy_in: u64, rake_bps: u16, max_players: u8) -> Option<
    ErrorCode,
> {
    if rake_bps > 1000 {
        Some(ErrorCode::RakeTooHigh)
    } else if buy_in == 0 {
        Some(ErrorCode::InvalidBuyIn)
    } else if max_players < 2 || max_players > 10 {
        Some(ErrorCode::InvalidMaxPlayers)
    } else {
        None
    }
}

/// What a freshly created record looks like: empty roster and accumulators,
/// waiting status, creation time stamped, no other stamps.
pub open spec fn fresh_tournament(
    t: TournamentEscrow,
    creator: AccountId,
    buy_in: u64,
    rake_bps: u16,
    tournament_id: Seq<char>,
    max_players: u8,
    tournament_type: TournamentType,
    privacy_mode: TournamentPrivacy,
    blind_structure: BlindStructure,
    now: i64,
) -> bool {
    &&& t.creator == creator
    &&& t.tournament_id@ == tournament_id
    &&& t.buy_in == buy_in
    &&& t.rake_bps == rake_bps
    &&& t.max_players == max_players
    &&& t.tournament_type == tournament_type
    &&& t.privacy_mode == privacy_mode
    &&& t.blind_structure == blind_structure
    &&& t.total_pot == 0
    &&& t.rake_amount == 0
    &&& t.creator_rake_amount == 0
    &&& t.admin_rake_amount == 0
    &&& t.players_joined == 0
    &&& t.roster() == Seq::<AccountId>::empty()
    &&& t.status == TournamentStatus::Waiting
    &&& t.winners is None
    &&& t.created_at == now
    &&& t.started_at is None
    &&& t.completed_at is None
    &&& t.cancelled_at is None
    &&& t.balance == 0
}

/// Create a tournament escrow record. The caller becomes the creator; the
/// substrate must refuse the record if the addressing key `tournament_id`
/// already holds one. On success the record is fresh: empty roster, zeroed
/// accumulators, waiting status, creation time `now`.
pub fn initialize_tournament(
    accounts: &InitializeTournament,
    buy_in: u64,
    rake_bps: u16,
    tournament_id: String,
    max_players: u8,
    tournament_type: TournamentType,
    privacy_mode: TournamentPrivacy,
    blind_structure: BlindStructure,
    now: i64,
) -> (r: Result<TournamentEscrow, ErrorCode>)
    ensures
        match r {
            Ok(t) => {
                &&& initialize_tournament_error(buy_in, rake_bps, max_players) is None
                &&& fresh_tournament(
                    t,
                    accounts.creator,
                    buy_in,
                    rake_bps,
                    tournament_id@,
                    max_players,
                    tournament_type,
                    privacy_mode,
                    blind_structure,
                    now,
                )
                &&& t.well_formed()
            },
            Err(e) => initialize_tournament_error(buy_in, rake_bps, max_players) == Some(e),
        },
{
    if rake_bps > 1000 {
        return Err(ErrorCode::RakeTooHigh);
    }
    if buy_in == 0 {
        return Err(ErrorCode::InvalidBuyIn);
    }
    if max_players < 2 || max_players > 10 {
        return Err(ErrorCode::InvalidMaxPlayers);
    }
    Ok(
        TournamentEscrow {
            creator: accounts.creator,
            tournament_id,
            buy_in,
            rake_bps,
            total_pot: 0,
            rake_amount: 0,
            creator_rake_amount: 0,
            admin_rake_amount: 0,
            players_joined: 0,
            max_players,
            tournament_type,
            privacy_mode,
            blind_structure,
            status: TournamentStatus::Waiting,
            player_addresses: Vec::new(),
            winners: None,
            created_at: now,
            started_at: None,
            completed_at: None,
            cancelled_at: None,
            balance: 0,
        },
    )
}

/// Rake taken from one buy-in, computed exactly as [`rake_of`].
fn rake_part(buy_in: u64, rake_bps: u16) -> (r: u64)
    requires
        rake_bps <= 1000,
    ensures
        r as int == rake_of(buy_in, rake_bps),
        r <= buy_in,
{
    proof {
        lemma_product_bound(buy_in as int, u64::MAX as int, rake_bps as int, 1000);
        lemma_scaled_fraction_bounds(buy_in as int, rake_bps as int, 10000);
    }
    ((buy_in as u128 * rake_bps as u128) / 10000) as u64
}

/// One party's percentage share of a rake amount, computed exactly as
/// [`share_of`].
fn share_part(rake: u64, pct: u16) -> (r: u64)
    requires
        pct <= 100,
    ensures
        r as int == share_of(rake as int, pct),
        r <= rake,
{
    proof {
        lemma_product_bound(rake as int, u64::MAX as int, pct as int, 100);
        lemma_scaled_fraction_bounds(rake as int, pct as int, 100);
    }
    ((rake as u128 * pct as u128) / 100) as u64
}

/// Why a join refuses, if it does: the tournament must be waiting with a free
/// seat, the privacy policy must admit the player, the player must be new,
/// and no accumulator may overflow.
pub open spec fn join_error(t: TournamentEscrow, cfg: AdminConfig, player: AccountId) -> Option<
    ErrorCode,
> {
    let rake = rake_of(t.buy_in, t.rake_bps);
    let net = net_of(t.buy_in, t.rake_bps);
    let creator_cut = share_of(rake, cfg.creator_rake_share_pct);
    let admin_cut = share_of(rake, cfg.admin_rake_share_pct);
    if t.status != TournamentStatus::Waiting {
        Some(ErrorCode::TournamentNotWaiting)
    } else if t.players_joined >= t.max_players {
        Some(ErrorCode::TournamentFull)
    } else if t.privacy_mode == TournamentPrivacy::Private && !authorized(player, t.creator) {
        Some(ErrorCode::PrivateTournamentAccessDenied)
    } else if t.roster().contains(player) {
        Some(ErrorCode::PlayerAlreadyJoined)
    } else if t.total_pot as int + net > u64::MAX as int || t.rake_amount as int + rake
        > u64::MAX as int || t.creator_rake_amount as int + creator_cut > u64::MAX as int
        || t.admin_rake_amount as int + admin_cut > u64::MAX as int || t.balance as int
        + t.buy_in as int > u64::MAX as int {
        Some(ErrorCode::ArithmeticOverflow)
    } else {
        None
    }
}

/// The record after a successful join: the deposit in custody, the rake split
/// captured from the configuration in force now, the player on the roster,
/// and the start stamped exactly when the roster fills.
pub open spec fn join_ok_state(
    pre: TournamentEscrow,
    post: TournamentEscrow,
    cfg: AdminConfig,
    player: AccountId,
    now: i64,
) -> bool {
    let rake = rake_of(pre.buy_in, pre.rake_bps);
    let net = net_of(pre.buy_in, pre.rake_bps);
    let filled = pre.players_joined as int + 1 == pre.max_players as int;
    &&& config_fields_unchanged(pre, post)
    &&& post.total_pot as int == pre.total_pot as int + net
    &&& post.rake_amount as int == pre.rake_amount as int + rake
    &&& post.creator_rake_amount as int == pre.creator_rake_amount as int + share_of(
        rake,
        cfg.creator_rake_share_pct,
    )
    &&& post.admin_rake_amount as int == pre.admin_rake_amount as int + share_of(
        rake,
        cfg.admin_rake_share_pct,
    )
    &&& post.balance as int == pre.balance as int + pre.buy_in as int
    &&& post.players_joined as int == pre.players_joined as int + 1
    &&& post.roster() == pre.roster().push(player)
    &&& post.status == (if filled {
        TournamentStatus::InProgress
    } else {
        TournamentStatus::Waiting
    })
    &&& post.started_at == (if filled {
        Some(now)
    } else {
        pre.started_at
    })
    &&& post.completed_at == pre.completed_at
    &&& post.cancelled_at == pre.cancelled_at
    &&& post.winners == pre.winners
}

/// A player joins by depositing the buy-in. On success the returned amount is
/// the deposit the substrate must move from the player into escrow custody,
/// atomically with this state change; the rake split uses the configuration
/// in force now and is not re-derived later. The join that fills the roster
/// starts the tournament and stamps `now`.
pub fn join_tournament(
    accounts: &JoinTournament,
    t: &mut TournamentEscrow,
    cfg: &AdminConfig,
    now: i64,
) -> (r: Result<u64, ErrorCode>)
    requires
        old(t).well_formed(),
        cfg.well_formed(),
    ensures
        final(t).well_formed(),
        status_step_allowed(old(t).status, final(t).status),
        match r {
            Ok(deposit) => {
                &&& join_error(*old(t), *cfg, accounts.player) is None
                &&& deposit == old(t).buy_in
                &&& join_ok_state(*old(t), *final(t), *cfg, accounts.player, now)
            },
            Err(e) => {
                &&& join_error(*old(t), *cfg, accounts.player) == Some(e)
                &&& *final(t) == *old(t)
            },
        },
{
    if t.status != TournamentStatus::Waiting {
        return Err(ErrorCode::TournamentNotWaiting);
    }
    if t.players_joined >= t.max_players {
        return Err(ErrorCode::TournamentFull);
    }
    if t.privacy_mode == TournamentPrivacy::Private && !check_authorized(&accounts.player, &t.creator) {
        return Err(ErrorCode::PrivateTournamentAccessDenied);
    }
    // FriendsOnly currently admits anyone: friends-list enforcement is a
    // declared gap of the design, not a silent bypass.
    if roster_contains(&t.player_addresses, &accounts.player) {
        return Err(ErrorCode::PlayerAlreadyJoined);
    }
    let rake = rake_part(t.buy_in, t.rake_bps);
    let net = t.buy_in - rake;
    proof {
        assert(cfg.creator_rake_share_pct <= 100);
        assert(cfg.admin_rake_share_pct <= 100);
    }
    let creator_cut = share_part(rake, cfg.creator_rake_share_pct);
    let admin_cut = share_part(rake, cfg.admin_rake_share_pct);
    // every accumulator update is checked; overflow fails the whole join
    if t.total_pot > u64::MAX - net || t.rake_amount > u64::MAX - rake || t.creator_rake_amount
        > u64::MAX - creator_cut || t.admin_rake_amount > u64::MAX - admin_cut || t.balance
        > u64::MAX - t.buy_in {
        return Err(ErrorCode::ArithmeticOverflow);
    }
    t.total_pot = t.total_pot + net;
    t.rake_amount = t.rake_amount + rake;
    t.creator_rake_amount = t.creator_rake_amount + creator_cut;
    t.admin_rake_amount = t.admin_rake_amount + admin_cut;
    t.balance = t.balance + t.buy_in;
    t.player_addresses.push(accounts.player);
    t.players_joined = t.players_joined + 1;
    if t.players_joined == t.max_players {
        t.status = TournamentStatus::InProgress;
        t.started_at = Some(now);
    }
    Ok(t.buy_in)
}

/// Index of the first roster entry equal to `who`; the roster must contain it.
fn roster_index_of(roster: &Vec<AccountId>, who: &AccountId) -> (i: usize)
    requires
        roster@.contains(*who),
    ensures
        i < roster@.len(),
        roster@[i as int] == *who,
        forall|k: int| 0 <= k < i ==> roster@[k] != *who,
{
    let mut i: usize = 0;
    while i < roster.len()
        invariant
            i <= roster@.len(),
            roster@.contains(*who),
            forall|k: int| 0 <= k < i ==> roster@[k] != *who,
        decreases roster@.len() - i,
    {
        if roster[i] == *who {
            return i;
        }
        i = i + 1;
    }
    proof {
        let w = choose|k: int| 0 <= k < roster@.len() && roster@[k] == *who;
        assert(roster@[w] != *who);  // contradicts the choice: the loop cannot fall through
    }
    0
}

/// Why a leave refuses, if it does: only a waiting tournament can be left,
/// only by a roster member, and only while custody can cover the refund.
pub open spec fn leave_error(t: TournamentEscrow, player: AccountId) -> Option<ErrorCode> {
    if t.status != TournamentStatus::Waiting {
        Some(ErrorCode::CannotLeaveStartedTournament)
    } else if !t.roster().contains(player) {
        Some(ErrorCode::PlayerNotInTournament)
    } else if t.balance < t.buy_in {
        Some(ErrorCode::InsufficientFunds)
    } else {
        None
    }
}

/// The record after a successful leave: the player off the roster, the full
/// buy-in out of custody, and the pot and rake reduced — saturating at zero —
/// by the same net and rake derived at join time. The creator and admin rake
/// sub-splits are not individually reversed: a declared approximation of the
/// accounting model.
pub open spec fn leave_ok_state(
    pre: TournamentEscrow,
    post: TournamentEscrow,
    player: AccountId,
) -> bool {
    let rake = rake_of(pre.buy_in, pre.rake_bps);
    let net = net_of(pre.buy_in, pre.rake_bps);
    &&& config_fields_unchanged(pre, post)
    &&& post.roster() == pre.roster().remove_value(player)
    &&& post.players_joined as int == pre.players_joined as int - 1
    &&& post.balance as int == pre.balance as int - pre.buy_in as int
    &&& post.total_pot as int == (if pre.total_pot as int >= net {
        pre.total_pot as int - net
    } else {
        0
    })
    &&& post.rake_amount as int == (if pre.rake_amount as int >= rake {
        pre.rake_amount as int - rake
    } else {
        0
    })
    &&& post.creator_rake_amount == pre.creator_rake_amount
    &&& post.admin_rake_amount == pre.admin_rake_amount
    &&& post.status == pre.status
    &&& post.started_at == pre.started_at
    &&& post.completed_at == pre.completed_at
    &&& post.cancelled_at == pre.cancelled_at
    &&& post.winners == pre.winners
}

/// A player leaves a waiting tournament. On success the returned amount is
/// the full buy-in the substrate must refund to the player, atomically with
/// this state change.
pub fn leave_tournament(accounts: &LeaveTournament, t: &mut TournamentEscrow) -> (r: Result<
    u64,
    ErrorCode,
>)
    requires
        old(t).well_formed(),
    ensures
        final(t).well_formed(),
        status_step_allowed(old(t).status, final(t).status),
        match r {
            Ok(refund) => {
                &&& leave_error(*old(t), accounts.player) is None
                &&& refund == old(t).buy_in
                &&& leave_ok_state(*old(t), *final(t), accounts.player)
            },
            Err(e) => {
                &&& leave_error(*old(t), accounts.player) == Some(e)
                &&& *final(t) == *old(t)
            },
        },
{
    if t.status != TournamentStatus::Waiting {
        return Err(ErrorCode::CannotLeaveStartedTournament);
    }
    if !roster_contains(&t.player_addresses, &accounts.player) {
        return Err(ErrorCode::PlayerNotInTournament);
    }
    if t.balance < t.buy_in {
        return Err(ErrorCode::InsufficientFunds);
    }
    let idx = roster_index_of(&t.player_addresses, &accounts.player);
    t.player_addresses.remove(idx);
    t.players_joined = t.players_joined - 1;
    t.balance = t.balance - t.buy_in;
    let rake = rake_part(t.buy_in, t.rake_bps);
    let net = t.buy_in - rake;
    t.total_pot = if t.total_pot >= net {
        t.total_pot - net
    } else {
        0
    };
    t.rake_amount = if t.rake_amount >= rake {
        t.rake_amount - rake
    } else {
        0
    };
    proof {
        old(t).player_addresses@.index_of_first_ensures(accounts.player);
    }
    Ok(t.buy_in)
}

/// Why a prize distribution refuses, if it does: only the creator may
/// distribute, only while the tournament runs, only a non-empty pot, and only
/// while custody covers it.
pub open spec fn distribute_error(t: TournamentEscrow, caller: AccountId) -> Option<ErrorCode> {
    if !authorized(caller, t.creator) {
        Some(ErrorCode::Unauthorized)
    } else if t.status != TournamentStatus::InProgress {
        Some(ErrorCode::InvalidTournamentStatus)
    } else if t.total_pot == 0 {
        Some(ErrorCode::NoPrizePool)
    } else if t.balance < t.total_pot {
        Some(ErrorCode::InsufficientFunds)
    } else {
        None
    }
}

/// The record after a successful distribution: the whole pot out of custody,
/// the single winner recorded, the tournament completed and stamped.
pub open spec fn distribute_ok_state(
    pre: TournamentEscrow,
    post: TournamentEscrow,
    winner: AccountId,
    now: i64,
) -> bool {
    &&& config_fields_unchanged(pre, post)
    &&& post.roster() == pre.roster()
    &&& post.players_joined == pre.players_joined
    &&& post.balance as int == pre.balance as int - pre.total_pot as int
    &&& post.total_pot == 0
    &&& post.rake_amount == pre.rake_amount
    &&& post.creator_rake_amount == pre.creator_rake_amount
    &&& post.admin_rake_amount == pre.admin_rake_amount
    &&& post.status == TournamentStatus::Completed
    &&& post.started_at == pre.started_at
    &&& post.completed_at == Some(now)
    &&& post.cancelled_at == pre.cancelled_at
    &&& (post.winners matches Some(w) && w@ == seq![winner])
}

/// The creator pays the entire pot to the declared winner. On success the
/// returned amount is the prize the substrate must transfer from escrow
/// custody to the winner, atomically with this state change. Single-winner
/// payout only: a multi-winner split is a declared future extension.
pub fn distribute_prizes(
    accounts: &DistributePrizes,
    t: &mut TournamentEscrow,
    winner: AccountId,
    now: i64,
) -> (r: Result<u64, ErrorCode>)
    requires
        old(t).well_formed(),
    ensures
        final(t).well_formed(),
        status_step_allowed(old(t).status, final(t).status),
        match r {
            Ok(prize) => {
                &&& distribute_error(*old(t), accounts.creator) is None
                &&& prize == old(t).total_pot
                &&& distribute_ok_state(*old(t), *final(t), winner, now)
            },
            Err(e) => {
                &&& distribute_error(*old(t), accounts.creator) == Some(e)
                &&& *final(t) == *old(t)
            },
        },
{
    if !check_authorized(&accounts.creator, &t.creator) {
        return Err(ErrorCode::Unauthorized);
    }
    if t.status != TournamentStatus::InProgress {
        return Err(ErrorCode::InvalidTournamentStatus);
    }
    if t.total_pot == 0 {
        return Err(ErrorCode::NoPrizePool);
    }
    if t.balance < t.total_pot {
        return Err(ErrorCode::InsufficientFunds);
    }
    let prize = t.total_pot;
    t.balance = t.balance - prize;
    t.total_pot = 0;
    t.status = TournamentStatus::Completed;
    t.completed_at = Some(now);
    let mut winner_list: Vec<AccountId> = Vec::new();
    winner_list.push(winner);
    proof {
        assert(winner_list@ =~= seq![winner]);
    }
    t.winners = Some(winner_list);
    Ok(prize)
}

/// Why a creator-rake withdrawal refuses, if it does.
pub open spec fn withdraw_rake_error(
    t: TournamentEscrow,
    cfg: AdminConfig,
    caller: AccountId,
) -> Option<ErrorCode> {
    if !authorized(caller, t.creator) {
        Some(ErrorCode::Unauthorized)
    } else if t.creator_rake_amount == 0 {
        Some(ErrorCode::NoRakeToWithdraw)
    } else if t.balance < t.creator_rake_amount {
        Some(ErrorCode::InsufficientFunds)
    } else if cfg.total_creator_rake_paid as int + t.creator_rake_amount as int
        > u64::MAX as int {
        Some(ErrorCode::ArithmeticOverflow)
    } else {
        None
    }
}

/// The records after a successful creator-rake withdrawal: the accumulator
/// zeroed, its amount out of custody, and the audit counter grown by it.
pub open spec fn withdraw_rake_ok_state(
    pre_t: TournamentEscrow,
    pre_cfg: AdminConfig,
    post_t: TournamentEscrow,
    post_cfg: AdminConfig,
) -> bool {
    &&& config_fields_unchanged(pre_t, post_t)
    &&& post_t.roster() == pre_t.roster()
    &&& post_t.players_joined == pre_t.players_joined
    &&& post_t.balance as int == pre_t.balance as int - pre_t.creator_rake_amount as int
    &&& post_t.total_pot == pre_t.total_pot
    &&& post_t.rake_amount == pre_t.rake_amount
    &&& post_t.creator_rake_amount == 0
    &&& post_t.admin_rake_amount == pre_t.admin_rake_amount
    &&& post_t.status == pre_t.status
    &&& post_t.started_at == pre_t.started_at
    &&& post_t.completed_at == pre_t.completed_at
    &&& post_t.cancelled_at == pre_t.cancelled_at
    &&& post_t.winners == pre_t.winners
    &&& post_cfg == (AdminConfig {
        total_creator_rake_paid: (pre_cfg.total_creator_rake_paid
            + pre_t.creator_rake_amount) as u64,
        ..pre_cfg
    })
}

/// The creator withdraws their accumulated rake portion. On success the
/// returned amount is what the substrate must transfer from escrow custody to
/// the creator, atomically with this state change. Independent of the admin
/// withdrawal path; effective only while the accumulator is positive.
pub fn withdraw_rake(
    accounts: &WithdrawRake,
    t: &mut TournamentEscrow,
    cfg: &mut AdminConfig,
) -> (r: Result<u64, ErrorCode>)
    requires
        old(t).well_formed(),
    ensures
        final(t).well_formed(),
        final(cfg).well_formed() == old(cfg).well_formed(),
        status_step_allowed(old(t).status, final(t).status),
        match r {
            Ok(amount) => {
                &&& withdraw_rake_error(*old(t), *old(cfg), accounts.creator) is None
                &&& amount == old(t).creator_rake_amount
                &&& withdraw_rake_ok_state(*old(t), *old(cfg), *final(t), *final(cfg))
            },
            Err(e) => {
                &&& withdraw_rake_error(*old(t), *old(cfg), accounts.creator) == Some(e)
                &&& *final(t) == *old(t)
                &&& *final(cfg) == *old(cfg)
            },
        },
{
    if !check_authorized(&accounts.creator, &t.creator) {
        return Err(ErrorCode::Unauthorized);
    }
    if t.creator_rake_amount == 0 {
        return Err(ErrorCode::NoRakeToWithdraw);
    }
    if t.balance < t.creator_rake_amount {
        return Err(ErrorCode::InsufficientFunds);
    }
    if cfg.total_creator_rake_paid > u64::MAX - t.creator_rake_amount {
        return Err(ErrorCode::ArithmeticOverflow);
    }
    let amount = t.creator_rake_amount;
    t.balance = t.balance - amount;
    t.creator_rake_amount = 0;
    cfg.total_creator_rake_paid = cfg.total_creator_rake_paid + amount;
    Ok(amount)
}

/// Why an admin-rake withdrawal refuses, if it does.
pub open spec fn withdraw_admin_rake_error(
    t: TournamentEscrow,
    cfg: AdminConfig,
    caller: AccountId,
) -> Option<ErrorCode> {
    if !authorized(caller, cfg.admin_authority) {
        Some(ErrorCode::Unauthorized)
    } else if t.admin_rake_amount == 0 {
        Some(ErrorCode::NoRakeToWithdraw)
    } else if t.balance < t.admin_rake_amount {
        Some(ErrorCode::InsufficientFunds)
    } else if cfg.total_admin_rake_collected as int + t.admin_rake_amount as int
        > u64::MAX as int {
        Some(ErrorCode::ArithmeticOverflow)
    } else {
        None
    }
}

/// The records after a successful admin-rake withdrawal.
pub open spec fn withdraw_admin_rake_ok_state(
    pre_t: TournamentEscrow,
    pre_cfg: AdminConfig,
    post_t: TournamentEscrow,
    post_cfg: AdminConfig,
) -> bool {
    &&& config_fields_unchanged(pre_t, post_t)
    &&& post_t.roster() == pre_t.roster()
    &&& post_t.players_joined == pre_t.players_joined
    &&& post_t.balance as int == pre_t.balance as int - pre_t.admin_rake_amount as int
    &&& post_t.total_pot == pre_t.total_pot
    &&& post_t.rake_amount == pre_t.rake_amount
    &&& post_t.creator_rake_amount == pre_t.creator_rake_amount
    &&& post_t.admin_rake_amount == 0
    &&& post_t.status == pre_t.status
    &&& post_t.started_at == pre_t.started_at
    &&& post_t.completed_at == pre_t.completed_at
    &&& post_t.cancelled_at == pre_t.cancelled_at
    &&& post_t.winners == pre_t.winners
    &&& post_cfg == (AdminConfig {
        total_admin_rake_collected: (pre_cfg.total_admin_rake_collected
            + pre_t.admin_rake_amount) as u64,
        ..pre_cfg
    })
}

/// The platform operator withdraws their accumulated rake portion. On success
/// the returned amount is what the substrate must transfer from escrow
/// custody to the operator, atomically with this state change.
pub fn withdraw_admin_rake(
    accounts: &WithdrawAdminRake,
    t: &mut TournamentEscrow,
    cfg: &mut AdminConfig,
) -> (r: Result<u64, ErrorCode>)
    requires
        old(t).well_formed(),
    ensures
        final(t).well_formed(),
        final(cfg).well_formed() == old(cfg).well_formed(),
        status_step_allowed(old(t).status, final(t).status),
        match r {
            Ok(amount) => {
                &&& withdraw_admin_rake_error(*old(t), *old(cfg), accounts.admin) is None
                &&& amount == old(t).admin_rake_amount
                &&& withdraw_admin_rake_ok_state(*old(t), *old(cfg), *final(t), *final(cfg))
            },
            Err(e) => {
                &&& withdraw_admin_rake_error(*old(t), *old(cfg), accounts.admin) == Some(e)
                &&& *final(t) == *old(t)
                &&& *final(cfg) == *old(cfg)
            },
        },
{
    if !check_authorized(&accounts.admin, &cfg.admin_authority) {
        return Err(ErrorCode::Unauthorized);
    }
    if t.admin_rake_amount == 0 {
        return Err(ErrorCode::NoRakeToWithdraw);
    }
    if t.balance < t.admin_rake_amount {
        return Err(ErrorCode::InsufficientFunds);
    }
    if cfg.total_admin_rake_collected > u64::MAX - t.admin_rake_amount {
        return Err(ErrorCode::ArithmeticOverflow);
    }
    let amount = t.admin_rake_amount;
    t.balance = t.balance - amount;
    t.admin_rake_amount = 0;
    cfg.total_admin_rake_collected = cfg.total_admin_rake_collected + amount;
    Ok(amount)
}

/// Why a cancellation refuses, if it does: only the creator may cancel, only
/// a waiting tournament, and only while custody covers one full buy-in per
/// joined player.
pub open spec fn cancel_error(t: TournamentEscrow, caller: AccountId) -> Option<ErrorCode> {
    if !authorized(caller, t.creator) {
        Some(ErrorCode::Unauthorized)
    } else if t.status != TournamentStatus::Waiting {
        Some(ErrorCode::CannotCancelStartedTournament)
    } else if (t.balance as int) < t.players_joined as int * t.buy_in as int {
        Some(ErrorCode::InsufficientFunds)
    } else {
        None
    }
}

/// The prescribed refunds of a cancellation: one full buy-in per roster
/// entry, in roster order.
pub open spec fn refunds_for(roster: Seq<AccountId>, buy_in: u64, refunds: Seq<Refund>) -> bool {
    &&& refunds.len() == roster.len()
    &&& forall|i: int|
        0 <= i < roster.len() ==> refunds[i] == (Refund { player: roster[i], amount: buy_in })
}

/// The record after a successful cancellation: the refunds out of custody,
/// the pot and rake zeroed, the tournament cancelled and stamped.
pub open spec fn cancel_ok_state(pre: TournamentEscrow, post: TournamentEscrow, now: i64) -> bool {
    &&& config_fields_unchanged(pre, post)
    &&& post.roster() == pre.roster()
    &&& post.players_joined == pre.players_joined
    &&& post.balance as int == pre.balance as int - pre.players_joined as int * pre.buy_in as int
    &&& post.total_pot == 0
    &&& post.rake_amount == 0
    &&& post.creator_rake_amount == pre.creator_rake_amount
    &&& post.admin_rake_amount == pre.admin_rake_amount
    &&& post.status == TournamentStatus::Cancelled
    &&& post.started_at == pre.started_at
    &&& post.completed_at == pre.completed_at
    &&& post.cancelled_at == Some(now)
    &&& post.winners == pre.winners
}

/// The creator cancels a waiting tournament. On success the returned list
/// prescribes the refunds the substrate must pay out of escrow custody,
/// atomically with this state change: every joined player receives their full
/// buy-in back.
pub fn cancel_tournament(
    accounts: &CancelTournament,
    t: &mut TournamentEscrow,
    now: i64,
) -> (r: Result<Vec<Refund>, ErrorCode>)
    requires
        old(t).well_formed(),
    ensures
        final(t).well_formed(),
        status_step_allowed(old(t).status, final(t).status),
        match r {
            Ok(refunds) => {
                &&& cancel_error(*old(t), accounts.creator) is None
                &&& refunds_for(old(t).roster(), old(t).buy_in, refunds@)
                &&& cancel_ok_state(*old(t), *final(t), now)
            },
            Err(e) => {
                &&& cancel_error(*old(t), accounts.creator) == Some(e)
                &&& *final(t) == *old(t)
            },
        },
{
    if !check_authorized(&accounts.creator, &t.creator) {
        return Err(ErrorCode::Unauthorized);
    }
    if t.status != TournamentStatus::Waiting {
        return Err(ErrorCode::CannotCancelStartedTournament);
    }
    proof {
        lemma_product_bound(t.players_joined as int, 255, t.buy_in as int, u64::MAX as int);
    }
    let owed_wide = t.players_joined as u128 * t.buy_in as u128;
    if (t.balance as u128) < owed_wide {
        return Err(ErrorCode::InsufficientFunds);
    }
    let owed = owed_wide as u64;
    let mut refunds: Vec<Refund> = Vec::new();
    let mut i: usize = 0;
    while i < t.player_addresses.len()
        invariant
            i <= t.player_addresses@.len(),
            refunds@.len() == i as int,
            forall|k: int|
                0 <= k < i ==> refunds@[k] == (Refund {
                    player: t.player_addresses@[k],
                    amount: t.buy_in,
                }),
        decreases t.player_addresses@.len() - i,
    {
        refunds.push(Refund { player: t.player_addresses[i], amount: t.buy_in });
        i = i + 1;
    }
    t.balance = t.balance - owed;
    t.total_pot = 0;
    t.rake_amount = 0;
    t.status = TournamentStatus::Cancelled;
    t.cancelled_at = Some(now);
    Ok(refunds)
}

} // verus!
