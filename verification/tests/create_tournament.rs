use poker_escrow::account::AccountId;
use poker_escrow::errors::ErrorCode;
use poker_escrow::escrow::{
    BlindStructure, TournamentEscrow, TournamentPrivacy, TournamentStatus, TournamentType,
};
use poker_escrow::ops::{initialize_tournament, InitializeTournament};

fn creator() -> AccountId {
    AccountId { hi: 1, lo: 1 }
}

fn create(buy_in: u64, rake_bps: u16, max_players: u8) -> Result<TournamentEscrow, ErrorCode> {
    let accounts = InitializeTournament { creator: creator() };
    initialize_tournament(
        &accounts,
        buy_in,
        rake_bps,
        String::from("weekly-9"),
        max_players,
        TournamentType::SitNGo,
        TournamentPrivacy::Public,
        BlindStructure::Progressive,
        1_700_000_000,
    )
}

#[test]
fn create_tournament_makes_fresh_record() {
    let t = create(1_000_000, 500, 4).unwrap();
    assert_eq!(t.creator, creator());
    assert_eq!(t.tournament_id, "weekly-9");
    assert_eq!(t.buy_in, 1_000_000);
    assert_eq!(t.rake_bps, 500);
    assert_eq!(t.max_players, 4);
    assert_eq!(t.total_pot, 0);
    assert_eq!(t.rake_amount, 0);
    assert_eq!(t.creator_rake_amount, 0);
    assert_eq!(t.admin_rake_amount, 0);
    assert_eq!(t.players_joined, 0);
    assert!(t.player_addresses.is_empty());
    assert_eq!(t.status, TournamentStatus::Waiting);
    assert_eq!(t.created_at, 1_700_000_000);
    assert_eq!(t.started_at, None);
    assert_eq!(t.completed_at, None);
    assert_eq!(t.cancelled_at, None);
    assert_eq!(t.winners, None);
    assert_eq!(t.balance, 0);
    assert!(t.is_well_formed());
}

#[test]
fn create_rejects_rake_over_10_percent() {
    assert_eq!(create(1_000_000, 1001, 4).unwrap_err(), ErrorCode::RakeTooHigh);
}

#[test]
fn create_accepts_rake_at_cap() {
    assert!(create(1_000_000, 1000, 4).is_ok());
}

#[test]
fn create_rejects_zero_buy_in() {
    assert_eq!(create(0, 500, 4).unwrap_err(), ErrorCode::InvalidBuyIn);
}

#[test]
fn create_rejects_too_few_players() {
    assert_eq!(create(1_000_000, 500, 1).unwrap_err(), ErrorCode::InvalidMaxPlayers);
}

#[test]
fn create_rejects_too_many_players() {
    assert_eq!(create(1_000_000, 500, 11).unwrap_err(), ErrorCode::InvalidMaxPlayers);
}

#[test]
fn space_for_counts_header_and_player_slots() {
    assert_eq!(TournamentEscrow::space_for(2), 169 + 128);
    assert_eq!(TournamentEscrow::space_for(4), 169 + 256);
    assert_eq!(TournamentEscrow::space_for(10), 169 + 640);
}
