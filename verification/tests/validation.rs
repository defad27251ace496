use spl_token_mint::errors::TokenError;
use spl_token_mint::gate::{calculate_mint_cost, calculate_total_supply_after_mint,
    validate_batch_destinations, validate_freeze_authority, validate_mint_authority};
use spl_token_mint::metadata::TokenMetadata;
use spl_token_mint::state::{AuthoritySlot, Identity, MintDestination, MintState,
    TokenMintState};

fn id(n: u8) -> Identity {
    Identity::new([n; 32])
}

#[test]
fn test_token_metadata_validation() {
    let valid_metadata = TokenMetadata {
        name: "Test Token".to_string(),
        symbol: "TEST".to_string(),
        uri: "https://example.com/token.json".to_string(),
        seller_fee_basis_points: 500,
    };

    assert!(valid_metadata.validate().is_ok());

    let invalid_metadata = TokenMetadata {
        name: "".to_string(), // Empty name should fail
        symbol: "TEST".to_string(),
        uri: "https://example.com/token.json".to_string(),
        seller_fee_basis_points: 500,
    };

    assert!(invalid_metadata.validate().is_err());
}

#[test]
fn test_mint_destination_validation() {
    let valid_dest = MintDestination::new(Identity::default(), 1000);
    assert!(valid_dest.validate().is_ok());

    let invalid_dest = MintDestination::new(Identity::default(), 0);
    assert!(invalid_dest.validate().is_err());
}

#[test]
fn test_supply_overflow_check() {
    let max_supply = u64::MAX - 1000;
    let mint_amount = 2000;

    assert!(calculate_total_supply_after_mint(max_supply, mint_amount).is_err());

    let safe_mint = 500;
    assert!(calculate_total_supply_after_mint(max_supply, safe_mint).is_ok());
}

#[test]
fn test_batch_validation() {
    let valid_batch = vec![
        MintDestination::new(Identity::default(), 100),
        MintDestination::new(Identity::default(), 200),
    ];
    assert!(validate_batch_destinations(&valid_batch).is_ok());

    let empty_batch: Vec<MintDestination> = vec![];
    assert!(validate_batch_destinations(&empty_batch).is_err());

    let oversized_batch = vec![MintDestination::new(Identity::default(), 100); 11];
    assert!(validate_batch_destinations(&oversized_batch).is_err());
}

#[test]
fn test_cost_calculation() {
    let cost = calculate_mint_cost(1000, 6);
    assert!(cost > 0);

    let high_amount_cost = calculate_mint_cost(1_000_000, 6);
    assert!(high_amount_cost > cost);
}

#[test]
fn metadata_field_errors_in_order() {
    let base = TokenMetadata {
        name: "Token".to_string(),
        symbol: "TOK".to_string(),
        uri: "https://example.com".to_string(),
        seller_fee_basis_points: 0,
    };

    let mut m = base.clone();
    m.name = String::new();
    assert_eq!(m.validate(), Err(TokenError::InvalidName));

    let mut m = base.clone();
    m.symbol = String::new();
    assert_eq!(m.validate(), Err(TokenError::InvalidSymbol));

    let mut m = base.clone();
    m.uri = "u".repeat(201);
    assert_eq!(m.validate(), Err(TokenError::UriTooLong));
    m.uri = "u".repeat(200);
    assert_eq!(m.validate(), Ok(()));

    let mut m = base.clone();
    m.seller_fee_basis_points = 10001;
    assert_eq!(m.validate(), Err(TokenError::InvalidMintConfig));
    m.seller_fee_basis_points = 10000;
    assert_eq!(m.validate(), Ok(()));

    // the first violated field wins: empty name is reported before a bad fee
    let mut m = base.clone();
    m.name = String::new();
    m.seller_fee_basis_points = 10001;
    assert_eq!(m.validate(), Err(TokenError::InvalidName));
}

#[test]
fn batch_error_kinds() {
    let empty: Vec<MintDestination> = vec![];
    assert_eq!(validate_batch_destinations(&empty), Err(TokenError::InvalidAmount));

    let oversized = vec![MintDestination::new(id(1), 100); 11];
    assert_eq!(validate_batch_destinations(&oversized), Err(TokenError::BatchLimitExceeded));

    let zero_entry = vec![
        MintDestination::new(id(1), 100),
        MintDestination::new(id(2), 0),
    ];
    assert_eq!(validate_batch_destinations(&zero_entry), Err(TokenError::InvalidAmount));

    let full = vec![MintDestination::new(id(1), 1); 10];
    assert_eq!(validate_batch_destinations(&full), Ok(()));
}

#[test]
fn supply_overflow_boundary() {
    assert_eq!(calculate_total_supply_after_mint(u64::MAX - 1, 1), Ok(u64::MAX));
    assert_eq!(
        calculate_total_supply_after_mint(u64::MAX, 1),
        Err(TokenError::SupplyOverflow)
    );
    assert_eq!(calculate_total_supply_after_mint(0, 0), Ok(0));
}

#[test]
fn cost_exact_values() {
    // 1000 base units at 6 decimals is less than one whole token: base cost only
    assert_eq!(calculate_mint_cost(1000, 6), 1000);
    // one whole token adds one lamport
    assert_eq!(calculate_mint_cost(1_000_000, 6), 1001);
    // at 0 decimals every base unit is a whole token
    assert_eq!(calculate_mint_cost(25, 0), 1025);
}

#[test]
fn authority_validators() {
    let mint = MintState {
        id: id(9),
        decimals: 0,
        supply: 0,
        mint_authority: AuthoritySlot::Present(id(1)),
        freeze_authority: AuthoritySlot::Revoked,
    };
    assert_eq!(validate_mint_authority(&mint, &id(1)), Ok(()));
    assert_eq!(validate_mint_authority(&mint, &id(2)), Err(TokenError::Unauthorized));
    assert_eq!(validate_freeze_authority(&mint, &id(1)), Err(TokenError::Unauthorized));
    assert_eq!(validate_freeze_authority(&mint, &id(2)), Err(TokenError::Unauthorized));
}

#[test]
fn mint_record_layout() {
    // discriminator, two addresses, the issued total, a timestamp, and a bump
    assert_eq!(TokenMintState::LEN, 8 + 32 + 32 + 8 + 8 + 1);
    let record = TokenMintState {
        mint: id(9),
        mint_authority: id(1),
        total_minted: 250,
        created_at: 1_700_000_000,
        bump: 254,
    };
    assert_eq!(record.total_minted, 250);
    assert_eq!(record.mint, id(9));
}
