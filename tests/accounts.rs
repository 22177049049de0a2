use mostro_program::error::ErrorCode;
use mostro_program::instructions::buy_perks::{buy_perks_artist_tokens, buy_perks_USDC};
use mostro_program::instructions::create_artist::{create_artist_handler, init_artist};
use mostro_program::instructions::create_config::create_config_handler;
use mostro_program::instructions::create_perk::create_perk;
use mostro_program::pubkey::Pubkey;
use mostro_program::state::artist::Artist;
use mostro_program::state::config::Config;
use mostro_program::state::perk::Perk;
use mostro_program::state::proposal::Proposal;
use mostro_program::state::vote::Vote;

fn key(b: u8) -> Pubkey {
    Pubkey::new_from_array([b; 32])
}

#[test]
fn account_sizes() {
    assert_eq!(Artist::space(), 382);
    assert_eq!(Config::space(), 74);
    assert_eq!(Proposal::space(), 740);
    assert_eq!(Vote::space(), 81);
    assert_eq!(Perk::init_space(), 656);
}

#[test]
fn pubkey_equality_and_default() {
    assert!(key(1) == key(1));
    assert!(key(1) != key(2));
    let mut bytes = [5u8; 32];
    bytes[31] = 6;
    assert!(Pubkey::new_from_array(bytes) != key(5));
    assert!(Pubkey::default() == key(0));
    assert!(Pubkey::zero() == Pubkey::default());
}

#[test]
fn create_config_accepts_split_up_to_100() {
    let c = create_config_handler(key(1), 10, 3, key(2)).unwrap();
    assert_eq!(c.percentage_artist, 10);
    assert_eq!(c.percentage_mostro, 3);
    assert!(c.admin_wallet == key(1));
    assert!(c.pump_fun_service_wallet == key(2));
    assert!(create_config_handler(key(1), 40, 60, key(2)).is_ok());
}

#[test]
fn create_config_rejects_split_over_100() {
    assert_eq!(create_config_handler(key(1), 60, 41, key(2)).unwrap_err(), ErrorCode::InvalidPercentage);
    assert_eq!(create_config_handler(key(1), 200, 100, key(2)).unwrap_err(), ErrorCode::InvalidPercentage);
}

#[test]
fn perk_prices() {
    let perk = create_perk(key(4), "Backstage".to_string(), "Meet the band".to_string(), 25, 300);
    assert!(perk.artist == key(4));
    assert_eq!(perk.title, "Backstage");
    assert_eq!(buy_perks_USDC(&perk), 25);
    assert_eq!(buy_perks_artist_tokens(&perk), 300);
}

#[test]
fn init_artist_checks_address() {
    let a = init_artist(key(1), Some((key(1), 250)), "Ana".to_string(), "img".to_string(), "Song".to_string(), "3:10".to_string(), key(2), 1000).unwrap();
    assert_eq!(a.name, "Ana");
    assert_eq!(a.latest_single.title, "Song");
    assert_eq!(a.latest_single.duration, "3:10");
    assert_eq!(a.total_tokens, 1000);
    assert_eq!(a.campaign_tokens_sold, 0);
    assert!(a.mint == key(2));
    let wrong = init_artist(key(1), Some((key(3), 250)), String::new(), String::new(), String::new(), String::new(), key(2), 1);
    assert_eq!(wrong.unwrap_err(), ErrorCode::InvalidArtist);
    let none = init_artist(key(1), None, String::new(), String::new(), String::new(), String::new(), key(2), 1);
    assert_eq!(none.unwrap_err(), ErrorCode::InvalidArtist);
}

fn derived_artist_key(name: &str, program: &anchor_lang::prelude::Pubkey) -> Pubkey {
    let (k, _) = anchor_lang::prelude::Pubkey::find_program_address(&[b"artist", name.as_bytes()], program);
    Pubkey::new_from_array(k.to_bytes())
}

#[test]
fn create_artist_at_derived_address() {
    let program = anchor_lang::prelude::Pubkey::new_from_array([9u8; 32]);
    let artist_key = derived_artist_key("Ana", &program);
    let a = create_artist_handler(
        artist_key,
        Pubkey::new_from_array(program.to_bytes()),
        "Ana".to_string(),
        "img".to_string(),
        "Song".to_string(),
        "3:10".to_string(),
        key(2),
        1000,
    )
    .unwrap();
    assert_eq!(a.name, "Ana");
    assert_eq!(a.total_tokens, 1000);
}

#[test]
fn create_artist_at_other_address_fails() {
    let program = anchor_lang::prelude::Pubkey::new_from_array([9u8; 32]);
    let other = derived_artist_key("Bea", &program);
    let r = create_artist_handler(
        other,
        Pubkey::new_from_array(program.to_bytes()),
        "Ana".to_string(),
        String::new(),
        String::new(),
        String::new(),
        key(2),
        1,
    );
    assert_eq!(r.unwrap_err(), ErrorCode::InvalidArtist);
    let program_key = Pubkey::new_from_array(program.to_bytes());
    let r2 = create_artist_handler(program_key, program_key, "Ana".to_string(), String::new(), String::new(), String::new(), key(2), 1);
    assert_eq!(r2.unwrap_err(), ErrorCode::InvalidArtist);
}

#[test]
fn create_artist_long_name_fails() {
    let program = Pubkey::new_from_array([9u8; 32]);
    let name = "A".repeat(40);
    let r = create_artist_handler(key(1), program, name, String::new(), String::new(), String::new(), key(2), 1);
    assert_eq!(r.unwrap_err(), ErrorCode::InvalidArtist);
}

#[test]
fn error_messages() {
    assert_eq!(ErrorCode::InvalidPercentage.msg(), "Percentages must sum to 100");
    assert_eq!(ErrorCode::AlreadyVoted.msg(), "User has already voted on this proposal");
    assert_eq!(ErrorCode::ProposalNotFinalized.msg(), "Proposal has not been finalized yet.");
}
