use poker_escrow::escrow::TournamentPrivacy;

#[test]
fn privacy_decodes_known_tags() {
    assert_eq!(TournamentPrivacy::from(0u8), TournamentPrivacy::Public);
    assert_eq!(TournamentPrivacy::from(1u8), TournamentPrivacy::Private);
    assert_eq!(TournamentPrivacy::from(2u8), TournamentPrivacy::FriendsOnly);
}

#[test]
fn privacy_decodes_unknown_tags_as_public() {
    assert_eq!(TournamentPrivacy::from(3u8), TournamentPrivacy::Public);
    assert_eq!(TournamentPrivacy::from(255u8), TournamentPrivacy::Public);
}
