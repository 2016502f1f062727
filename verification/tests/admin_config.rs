use poker_escrow::account::AccountId;
use poker_escrow::errors::ErrorCode;
use poker_escrow::ops::{initialize_admin, InitializeAdmin};

fn operator() -> AccountId {
    AccountId { hi: 0, lo: 9001 }
}

#[test]
fn initialize_admin_sets_fields_and_counters() {
    let accounts = InitializeAdmin { admin: operator() };
    let cfg = initialize_admin(&accounts, 500, 70, 30).unwrap();
    assert_eq!(cfg.admin_authority, operator());
    assert_eq!(cfg.default_rake_bps, 500);
    assert_eq!(cfg.creator_rake_share_pct, 70);
    assert_eq!(cfg.admin_rake_share_pct, 30);
    assert_eq!(cfg.total_rake_collected, 0);
    assert_eq!(cfg.total_creator_rake_paid, 0);
    assert_eq!(cfg.total_admin_rake_collected, 0);
    assert!(cfg.is_well_formed());
}

#[test]
fn initialize_admin_rejects_split_under_100() {
    let accounts = InitializeAdmin { admin: operator() };
    let r = initialize_admin(&accounts, 500, 60, 30);
    assert_eq!(r.unwrap_err(), ErrorCode::InvalidRakeSplit);
}

#[test]
fn initialize_admin_rejects_split_over_100() {
    let accounts = InitializeAdmin { admin: operator() };
    let r = initialize_admin(&accounts, 500, 150, 50);
    assert_eq!(r.unwrap_err(), ErrorCode::InvalidRakeSplit);
}

#[test]
fn initialize_admin_accepts_one_sided_split() {
    let accounts = InitializeAdmin { admin: operator() };
    let cfg = initialize_admin(&accounts, 0, 100, 0).unwrap();
    assert_eq!(cfg.creator_rake_share_pct, 100);
    assert_eq!(cfg.admin_rake_share_pct, 0);
}
