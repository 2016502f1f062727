use poker_escrow::account::AccountId;
use poker_escrow::admin::AdminConfig;
use poker_escrow::errors::ErrorCode;
use poker_escrow::escrow::{
    BlindStructure, TournamentEscrow, TournamentPrivacy, TournamentType,
};
use poker_escrow::ops::{
    initialize_admin, initialize_tournament, join_tournament, withdraw_admin_rake, withdraw_rake,
    InitializeAdmin, InitializeTournament, JoinTournament, WithdrawAdminRake, WithdrawRake,
};

fn actor(n: u128) -> AccountId {
    AccountId { hi: 6, lo: n }
}

fn funded_table() -> (AdminConfig, TournamentEscrow) {
    let admin = InitializeAdmin { admin: actor(0) };
    let cfg = initialize_admin(&admin, 500, 70, 30).unwrap();
    let create = InitializeTournament { creator: actor(1) };
    let mut t = initialize_tournament(
        &create,
        1_000_000,
        500,
        String::from("table-7"),
        4,
        TournamentType::Bounty,
        TournamentPrivacy::Public,
        BlindStructure::HyperTurbo,
        100,
    )
    .unwrap();
    join_tournament(&JoinTournament { player: actor(10) }, &mut t, &cfg, 200).unwrap();
    join_tournament(&JoinTournament { player: actor(11) }, &mut t, &cfg, 200).unwrap();
    (cfg, t)
}

#[test]
fn withdraw_rake_pays_creator_share_once() {
    let (mut cfg, mut t) = funded_table();
    let accounts = WithdrawRake { creator: actor(1) };
    let amount = withdraw_rake(&accounts, &mut t, &mut cfg).unwrap();
    assert_eq!(amount, 70_000);
    assert_eq!(t.creator_rake_amount, 0);
    assert_eq!(t.balance, 1_930_000);
    assert_eq!(cfg.total_creator_rake_paid, 70_000);
    // second call in a row: nothing to withdraw, nothing changes
    let again = withdraw_rake(&accounts, &mut t, &mut cfg);
    assert_eq!(again.unwrap_err(), ErrorCode::NoRakeToWithdraw);
    assert_eq!(t.balance, 1_930_000);
    assert_eq!(cfg.total_creator_rake_paid, 70_000);
}

#[test]
fn withdraw_admin_rake_pays_operator_share_once() {
    let (mut cfg, mut t) = funded_table();
    let accounts = WithdrawAdminRake { admin: actor(0) };
    let amount = withdraw_admin_rake(&accounts, &mut t, &mut cfg).unwrap();
    assert_eq!(amount, 30_000);
    assert_eq!(t.admin_rake_amount, 0);
    assert_eq!(t.balance, 1_970_000);
    assert_eq!(cfg.total_admin_rake_collected, 30_000);
    let again = withdraw_admin_rake(&accounts, &mut t, &mut cfg);
    assert_eq!(again.unwrap_err(), ErrorCode::NoRakeToWithdraw);
    assert_eq!(t.admin_rake_amount, 0);
    assert_eq!(cfg.total_admin_rake_collected, 30_000);
}

#[test]
fn withdraw_rake_requires_creator() {
    let (mut cfg, mut t) = funded_table();
    let accounts = WithdrawRake { creator: actor(99) };
    let r = withdraw_rake(&accounts, &mut t, &mut cfg);
    assert_eq!(r.unwrap_err(), ErrorCode::Unauthorized);
    assert_eq!(t.creator_rake_amount, 70_000);
}

#[test]
fn withdraw_admin_rake_requires_operator() {
    let (mut cfg, mut t) = funded_table();
    let accounts = WithdrawAdminRake { admin: actor(1) };
    let r = withdraw_admin_rake(&accounts, &mut t, &mut cfg);
    assert_eq!(r.unwrap_err(), ErrorCode::Unauthorized);
    assert_eq!(t.admin_rake_amount, 30_000);
}

#[test]
fn withdrawals_are_independent() {
    let (mut cfg, mut t) = funded_table();
    let admin_accounts = WithdrawAdminRake { admin: actor(0) };
    let creator_accounts = WithdrawRake { creator: actor(1) };
    assert_eq!(withdraw_admin_rake(&admin_accounts, &mut t, &mut cfg).unwrap(), 30_000);
    assert_eq!(withdraw_rake(&creator_accounts, &mut t, &mut cfg).unwrap(), 70_000);
    assert_eq!(t.balance, 1_900_000);
    assert_eq!(t.total_pot, 1_900_000);
}
