//! The library's laws: proof functions relating the operations to one
//! another — conservation of funds over joins, uniqueness of the start
//! transition, absorbing terminal statuses, idempotence-safety of the
//! withdrawals, and the refund guarantee of cancellation.

use vstd::prelude::*;
use crate::account::AccountId;
use crate::admin::AdminConfig;
use crate::errors::ErrorCode;
use crate::escrow::{net_of, rake_of, share_of, TournamentEscrow, TournamentStatus};
use crate::math::{lemma_percentage_split, lemma_scaled_fraction_bounds};
use crate::ops::{
    cancel_error, cancel_ok_state, distribute_error, distribute_ok_state, join_error,
    join_ok_state, leave_error, refunds_for, withdraw_admin_rake_error,
    withdraw_admin_rake_ok_state, withdraw_rake_error, withdraw_rake_ok_state, Refund,
};
use vstd::arithmetic::mul::{
    lemma_mul_inequality, lemma_mul_is_commutative, lemma_mul_is_distributive_add,
    lemma_mul_is_distributive_add_other_way, lemma_mul_is_distributive_sub_other_way,
};

verus! {

/// The accounting state a record reaches by joins alone: each accumulator is
/// the per-join amount times the number of joined players, and custody holds
/// exactly one buy-in per player.
pub open spec fn join_only_accounting(t: TournamentEscrow, cfg: AdminConfig) -> bool {
    let n = t.players_joined as int;
    let rake = rake_of(t.buy_in, t.rake_bps);
    let net = net_of(t.buy_in, t.rake_bps);
    &&& t.total_pot as int == n * net
    &&& t.rake_amount as int == n * rake
    &&& t.creator_rake_amount as int == n * share_of(rake, cfg.creator_rake_share_pct)
    &&& t.admin_rake_amount as int == n * share_of(rake, cfg.admin_rake_share_pct)
    &&& t.balance as int == n * t.buy_in as int
}

/// Law: a record whose roster and accumulators are empty — as a freshly
/// created tournament's are — satisfies the join-only accounting state.
pub proof fn lemma_fresh_accounting(t: TournamentEscrow, cfg: AdminConfig)
    requires
        t.players_joined == 0,
        t.total_pot == 0,
        t.rake_amount == 0,
        t.creator_rake_amount == 0,
        t.admin_rake_amount == 0,
        t.balance == 0,
    ensures
        join_only_accounting(t, cfg),
{
}

/// Law: every successful join preserves the join-only accounting state, so it
/// holds after any sequence of joins.
pub proof fn lemma_join_preserves_accounting(
    pre: TournamentEscrow,
    post: TournamentEscrow,
    cfg: AdminConfig,
    player: AccountId,
    now: i64,
)
    requires
        pre.well_formed(),
        cfg.well_formed(),
        join_error(pre, cfg, player) is None,
        join_ok_state(pre, post, cfg, player, now),
        join_only_accounting(pre, cfg),
    ensures
        join_only_accounting(post, cfg),
{
    let n = pre.players_joined as int;
    let rake = rake_of(pre.buy_in, pre.rake_bps);
    let net = net_of(pre.buy_in, pre.rake_bps);
    let creator_cut = share_of(rake, cfg.creator_rake_share_pct);
    let admin_cut = share_of(rake, cfg.admin_rake_share_pct);
    lemma_mul_is_distributive_add_other_way(net, n, 1);
    lemma_mul_is_distributive_add_other_way(rake, n, 1);
    lemma_mul_is_distributive_add_other_way(creator_cut, n, 1);
    lemma_mul_is_distributive_add_other_way(admin_cut, n, 1);
    lemma_mul_is_distributive_add_other_way(pre.buy_in as int, n, 1);
}

/// Law: consequences of the join-only accounting state — the pot and rake
/// together hold exactly one buy-in per player; the two rake sub-splits never
/// exceed the collected rake and fall short of it by at most one unit per
/// player, exactly reaching it whenever the per-join creator share divides
/// evenly; and custody covers the pot and both sub-splits.
pub proof fn lemma_accounting_conservation(t: TournamentEscrow, cfg: AdminConfig)
    requires
        t.well_formed(),
        cfg.well_formed(),
        join_only_accounting(t, cfg),
    ensures
        t.total_pot as int + t.rake_amount as int == t.players_joined as int * t.buy_in as int,
        t.creator_rake_amount as int + t.admin_rake_amount as int <= t.rake_amount as int,
        t.rake_amount as int - t.players_joined as int <= t.creator_rake_amount as int
            + t.admin_rake_amount as int,
        (rake_of(t.buy_in, t.rake_bps) * cfg.creator_rake_share_pct as int) % 100 == 0
            ==> t.creator_rake_amount as int + t.admin_rake_amount as int
            == t.rake_amount as int,
        t.balance as int >= t.total_pot as int + t.creator_rake_amount as int
            + t.admin_rake_amount as int,
{
    let n = t.players_joined as int;
    let rake = rake_of(t.buy_in, t.rake_bps);
    let net = net_of(t.buy_in, t.rake_bps);
    let creator_cut = share_of(rake, cfg.creator_rake_share_pct);
    let admin_cut = share_of(rake, cfg.admin_rake_share_pct);
    lemma_scaled_fraction_bounds(t.buy_in as int, t.rake_bps as int, 10000);
    lemma_percentage_split(
        rake,
        cfg.creator_rake_share_pct as int,
        cfg.admin_rake_share_pct as int,
    );
    lemma_mul_is_distributive_add(n, net, rake);
    lemma_mul_is_distributive_add(n, creator_cut, admin_cut);
    lemma_mul_inequality(creator_cut + admin_cut, rake, n);
    lemma_mul_is_commutative(creator_cut + admin_cut, n);
    lemma_mul_is_commutative(rake, n);
    lemma_mul_inequality(rake - 1, creator_cut + admin_cut, n);
    lemma_mul_is_commutative(rake - 1, n);
    lemma_mul_is_distributive_sub_other_way(n, rake, 1);
}

/// Law: whoever stands on the roster is refused by every further join,
/// whatever happened in between.
pub proof fn lemma_member_cannot_rejoin(t: TournamentEscrow, cfg: AdminConfig, player: AccountId)
    requires
        t.roster().contains(player),
    ensures
        join_error(t, cfg, player) is Some,
{
}

/// Law: after a player joins, a second join by the same identity always
/// fails — with the duplicate-membership error while the tournament still
/// waits — and the roster never exceeds the player cap.
pub proof fn lemma_rejoin_always_fails(
    pre: TournamentEscrow,
    mid: TournamentEscrow,
    cfg: AdminConfig,
    player: AccountId,
    now: i64,
)
    requires
        pre.well_formed(),
        cfg.well_formed(),
        join_error(pre, cfg, player) is None,
        join_ok_state(pre, mid, cfg, player, now),
    ensures
        join_error(mid, cfg, player) is Some,
        mid.status == TournamentStatus::Waiting ==> join_error(mid, cfg, player) == Some(
            ErrorCode::PlayerAlreadyJoined,
        ),
        mid.status != TournamentStatus::Waiting ==> join_error(mid, cfg, player) == Some(
            ErrorCode::TournamentNotWaiting,
        ),
        mid.roster().len() <= mid.max_players as int,
{
    assert(mid.roster()[mid.roster().len() - 1] == player);
    assert(mid.roster().contains(player));
}

/// Law: the start transition happens on exactly the join that fills the
/// roster — the record moves from `Waiting` to `InProgress` precisely then,
/// stamps the start time exactly once, and admits no further join.
pub proof fn lemma_start_transition(
    pre: TournamentEscrow,
    post: TournamentEscrow,
    cfg: AdminConfig,
    player: AccountId,
    now: i64,
)
    requires
        pre.well_formed(),
        cfg.well_formed(),
        join_error(pre, cfg, player) is None,
        join_ok_state(pre, post, cfg, player, now),
    ensures
        pre.status == TournamentStatus::Waiting,
        pre.started_at is None,
        (post.status == TournamentStatus::InProgress) <==> (post.players_joined
            == post.max_players),
        (post.status == TournamentStatus::Waiting) <==> (post.players_joined < post.max_players),
        post.status == TournamentStatus::InProgress ==> post.started_at == Some(now),
        post.status == TournamentStatus::Waiting ==> post.started_at is None,
        post.status == TournamentStatus::InProgress ==> (forall|p: AccountId|
            join_error(post, cfg, p) is Some),
{
}

/// Law: `Completed` and `Cancelled` are absorbing — every lifecycle operation
/// refuses a record in either status.
pub proof fn lemma_terminal_states_absorb(t: TournamentEscrow, cfg: AdminConfig)
    requires
        t.status == TournamentStatus::Completed || t.status == TournamentStatus::Cancelled,
    ensures
        forall|p: AccountId| join_error(t, cfg, p) is Some,
        forall|p: AccountId| leave_error(t, p) is Some,
        forall|c: AccountId| cancel_error(t, c) is Some,
        forall|c: AccountId| distribute_error(t, c) is Some,
{
}

/// Law: prizes distribute at most once — after a success the pot is empty,
/// the status is terminal, and every further distribution call fails, for the
/// creator specifically with the status error.
pub proof fn lemma_distribute_only_once(
    pre: TournamentEscrow,
    post: TournamentEscrow,
    caller: AccountId,
    winner: AccountId,
    now: i64,
)
    requires
        pre.well_formed(),
        distribute_error(pre, caller) is None,
        distribute_ok_state(pre, post, winner, now),
    ensures
        post.total_pot == 0,
        post.status == TournamentStatus::Completed,
        forall|c: AccountId| distribute_error(post, c) is Some,
        distribute_error(post, caller) == Some(ErrorCode::InvalidTournamentStatus),
{
}

/// Law: withdrawals are idempotent-safe — immediately after a successful
/// creator-rake withdrawal, a second call by the same caller fails with the
/// nothing-to-withdraw error (and, by the operation's contract, an erring
/// call leaves both records unchanged).
pub proof fn lemma_withdraw_rake_idempotent(
    pre_t: TournamentEscrow,
    pre_cfg: AdminConfig,
    mid_t: TournamentEscrow,
    mid_cfg: AdminConfig,
    caller: AccountId,
)
    requires
        withdraw_rake_error(pre_t, pre_cfg, caller) is None,
        withdraw_rake_ok_state(pre_t, pre_cfg, mid_t, mid_cfg),
    ensures
        withdraw_rake_error(mid_t, mid_cfg, caller) == Some(ErrorCode::NoRakeToWithdraw),
{
}

/// Law: the admin-rake withdrawal is idempotent-safe in the same way.
pub proof fn lemma_withdraw_admin_rake_idempotent(
    pre_t: TournamentEscrow,
    pre_cfg: AdminConfig,
    mid_t: TournamentEscrow,
    mid_cfg: AdminConfig,
    caller: AccountId,
)
    requires
        withdraw_admin_rake_error(pre_t, pre_cfg, caller) is None,
        withdraw_admin_rake_ok_state(pre_t, pre_cfg, mid_t, mid_cfg),
    ensures
        withdraw_admin_rake_error(mid_t, mid_cfg, caller) == Some(ErrorCode::NoRakeToWithdraw),
{
}

/// Total value a refund list pays out.
pub open spec fn total_refunded(refunds: Seq<Refund>) -> int
    decreases refunds.len(),
{
    if refunds.len() == 0 {
        0
    } else {
        refunds[0].amount as int + total_refunded(refunds.drop_first())
    }
}

/// A refund list paying one fixed amount per entry pays the amount times its
/// length in total.
proof fn lemma_total_refunded_constant(refunds: Seq<Refund>, amount: u64)
    requires
        forall|i: int| 0 <= i < refunds.len() ==> refunds[i].amount == amount,
    ensures
        total_refunded(refunds) == refunds.len() * amount as int,
    decreases refunds.len(),
{
    if refunds.len() == 0 {
    } else {
        lemma_total_refunded_constant(refunds.drop_first(), amount);
        lemma_mul_is_distributive_add_other_way(amount as int, 1, refunds.len() - 1);
    }
}

/// Law: a successful cancellation moves a waiting tournament to `Cancelled`
/// and prescribes a refund of exactly one full buy-in to every joined player,
/// together worth one buy-in per player — precisely what leaves custody.
pub proof fn lemma_cancel_refunds_everyone(
    pre: TournamentEscrow,
    post: TournamentEscrow,
    refunds: Seq<Refund>,
    caller: AccountId,
    now: i64,
)
    requires
        pre.well_formed(),
        cancel_error(pre, caller) is None,
        cancel_ok_state(pre, post, now),
        refunds_for(pre.roster(), pre.buy_in, refunds),
    ensures
        post.status == TournamentStatus::Cancelled,
        refunds.len() == pre.roster().len(),
        forall|i: int|
            0 <= i < refunds.len() ==> refunds[i] == (Refund {
                player: pre.roster()[i],
                amount: pre.buy_in,
            }),
        total_refunded(refunds) == pre.players_joined as int * pre.buy_in as int,
        total_refunded(refunds) == pre.balance as int - post.balance as int,
{
    lemma_total_refunded_constant(refunds, pre.buy_in);
}

} // verus!
