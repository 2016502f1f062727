use poker_escrow::account::AccountId;
use poker_escrow::admin::AdminConfig;
use poker_escrow::errors::ErrorCode;
use poker_escrow::escrow::{
    BlindStructure, TournamentEscrow, TournamentPrivacy, TournamentStatus, TournamentType,
};
use poker_escrow::ops::{
    initialize_admin, initialize_tournament, join_tournament, leave_tournament, withdraw_rake,
    InitializeAdmin, InitializeTournament, JoinTournament, LeaveTournament, WithdrawRake,
};

fn member(n: u128) -> AccountId {
    AccountId { hi: 3, lo: n }
}

fn fresh_table(cfg_creator_pct: u16, buy_in: u64, rake_bps: u16) -> (AdminConfig, TournamentEscrow)
{
    let admin = InitializeAdmin { admin: member(0) };
    let cfg = initialize_admin(&admin, rake_bps, cfg_creator_pct, 100 - cfg_creator_pct).unwrap();
    let create = InitializeTournament { creator: member(1) };
    let t = initialize_tournament(
        &create,
        buy_in,
        rake_bps,
        String::from("table-2"),
        4,
        TournamentType::Scheduled,
        TournamentPrivacy::Public,
        BlindStructure::Slow,
        100,
    )
    .unwrap();
    (cfg, t)
}

#[test]
fn leave_refunds_full_buy_in_and_reverses_contribution() {
    // Join at 1_000_000 with 500 bps adds net 950_000 and rake 50_000; the
    // leave refunds the full buy-in and subtracts the same net and rake.
    let (cfg, mut t) = fresh_table(70, 1_000_000, 500);
    join_tournament(&JoinTournament { player: member(10) }, &mut t, &cfg, 200).unwrap();
    join_tournament(&JoinTournament { player: member(11) }, &mut t, &cfg, 200).unwrap();
    let refund = leave_tournament(&LeaveTournament { player: member(10) }, &mut t).unwrap();
    assert_eq!(refund, 1_000_000);
    assert_eq!(t.total_pot, 950_000);
    assert_eq!(t.rake_amount, 50_000);
    assert_eq!(t.players_joined, 1);
    assert_eq!(t.player_addresses, vec![member(11)]);
    assert_eq!(t.balance, 1_000_000);
    assert_eq!(t.status, TournamentStatus::Waiting);
    // the per-player creator/admin sub-splits are deliberately not reversed
    assert_eq!(t.creator_rake_amount, 70_000);
    assert_eq!(t.admin_rake_amount, 30_000);
    assert!(t.is_well_formed());
}

#[test]
fn leave_requires_membership() {
    let (cfg, mut t) = fresh_table(70, 1_000_000, 500);
    join_tournament(&JoinTournament { player: member(10) }, &mut t, &cfg, 200).unwrap();
    let r = leave_tournament(&LeaveTournament { player: member(99) }, &mut t);
    assert_eq!(r.unwrap_err(), ErrorCode::PlayerNotInTournament);
}

#[test]
fn leave_after_start_rejected() {
    let (cfg, mut t) = fresh_table(70, 1_000_000, 500);
    for n in 0..4u128 {
        join_tournament(&JoinTournament { player: member(10 + n) }, &mut t, &cfg, 200).unwrap();
    }
    let r = leave_tournament(&LeaveTournament { player: member(10) }, &mut t);
    assert_eq!(r.unwrap_err(), ErrorCode::CannotLeaveStartedTournament);
}

#[test]
fn leave_fails_when_custody_cannot_cover_refund() {
    // After the creator withdraws their rake share, custody no longer holds a
    // full buy-in, so the refund is refused rather than over-withdrawn.
    let (mut cfg, mut t) = fresh_table(70, 1_000_000, 500);
    join_tournament(&JoinTournament { player: member(10) }, &mut t, &cfg, 200).unwrap();
    withdraw_rake(&WithdrawRake { creator: member(1) }, &mut t, &mut cfg).unwrap();
    assert_eq!(t.balance, 965_000);
    let r = leave_tournament(&LeaveTournament { player: member(10) }, &mut t);
    assert_eq!(r.unwrap_err(), ErrorCode::InsufficientFunds);
    assert_eq!(t.players_joined, 1);
}
