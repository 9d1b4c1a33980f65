use realstack::asset_token::{
    burn_asset_token, create_asset_token, distribute_income, toggle_tradability,
    update_asset_valuation, verify_asset, AssetToken, IncomeDistributionFrequency,
};
use realstack::errors::RealStackError;

const OWNER: u64 = 11;
const MINT: u64 = 22;
const STRANGER: u64 = 99;

fn sample_asset(now: i64) -> AssetToken {
    create_asset_token(
        OWNER,
        MINT,
        String::from("Warehouse 7"),
        String::from("WH7"),
        String::from("real-estate"),
        String::from("A bonded warehouse"),
        String::from("ipfs://warehouse-7"),
        1_000_000,
        10_000,
        100,
        now,
    )
}

#[test]
fn create_sets_initial_state() {
    let asset = sample_asset(1_700_000_000);
    assert_eq!(asset.authority, OWNER);
    assert_eq!(asset.mint, MINT);
    assert_eq!(asset.name, "Warehouse 7");
    assert_eq!(asset.symbol, "WH7");
    assert_eq!(asset.category, "real-estate");
    assert_eq!(asset.description, "A bonded warehouse");
    assert_eq!(asset.uri, "ipfs://warehouse-7");
    assert_eq!(asset.valuation, 1_000_000);
    assert_eq!(asset.total_shares, 10_000);
    assert_eq!(asset.initial_share_price, 100);
    assert_eq!(asset.current_share_price, 100);
    assert!(!asset.is_verified);
    assert_eq!(asset.verifier, None);
    assert_eq!(asset.verified_at, 0);
    assert!(!asset.is_tradable);
    assert_eq!(asset.created_at, 1_700_000_000);
    assert_eq!(asset.updated_at, 1_700_000_000);
    assert_eq!(asset.liquidity_pool, None);
    assert_eq!(
        asset.income_distribution_frequency,
        IncomeDistributionFrequency::Monthly
    );
    assert_eq!(asset.last_income_distribution, 0);
    assert_eq!(asset.total_income_distributed, 0);
    assert!(!asset.can_mint_additional);
    assert!(!asset.is_burned);
}

#[test]
fn update_valuation_by_authority() {
    let mut asset = sample_asset(100);
    let r = update_asset_valuation(&mut asset, OWNER, 2_000_000, 200, 150);
    assert_eq!(r, Ok(()));
    assert_eq!(asset.valuation, 2_000_000);
    assert_eq!(asset.current_share_price, 200);
    assert_eq!(asset.initial_share_price, 100);
    assert_eq!(asset.updated_at, 150);
    assert_eq!(asset.created_at, 100);
}

#[test]
fn update_valuation_unauthorized() {
    let mut asset = sample_asset(100);
    let r = update_asset_valuation(&mut asset, STRANGER, 2_000_000, 200, 150);
    assert_eq!(r, Err(RealStackError::Unauthorized));
    assert_eq!(asset.valuation, 1_000_000);
    assert_eq!(asset.current_share_price, 100);
    assert_eq!(asset.updated_at, 100);
}

#[test]
fn verify_sets_verifier() {
    let mut asset = sample_asset(100);
    let verifier: u64 = 77;
    let r = verify_asset(&mut asset, verifier, 160);
    assert_eq!(r, Ok(()));
    assert!(asset.is_verified);
    assert_eq!(asset.verifier, Some(verifier));
    assert_eq!(asset.verified_at, 160);
    assert_eq!(asset.updated_at, 160);
}

#[test]
fn reverify_overwrites_verifier() {
    // Re-verification has no guard: a later verifier overwrites the
    // earlier one and the timestamps.
    let mut asset = sample_asset(100);
    assert_eq!(verify_asset(&mut asset, 77, 160), Ok(()));
    assert_eq!(verify_asset(&mut asset, 78, 170), Ok(()));
    assert!(asset.is_verified);
    assert_eq!(asset.verifier, Some(78));
    assert_eq!(asset.verified_at, 170);
}

#[test]
fn toggle_tradability_by_authority() {
    let mut asset = sample_asset(100);
    assert_eq!(toggle_tradability(&mut asset, OWNER, true, 110), Ok(()));
    assert!(asset.is_tradable);
    assert_eq!(asset.updated_at, 110);
    assert_eq!(toggle_tradability(&mut asset, OWNER, false, 120), Ok(()));
    assert!(!asset.is_tradable);
}

#[test]
fn toggle_tradability_unauthorized() {
    let mut asset = sample_asset(100);
    let r = toggle_tradability(&mut asset, STRANGER, true, 110);
    assert_eq!(r, Err(RealStackError::Unauthorized));
    assert!(!asset.is_tradable);
}

#[test]
fn burn_is_terminal() {
    let mut asset = sample_asset(100);
    assert_eq!(toggle_tradability(&mut asset, OWNER, true, 105), Ok(()));
    assert!(asset.is_tradable);

    assert_eq!(burn_asset_token(&mut asset, OWNER, 110), Ok(()));
    assert!(asset.is_burned);
    assert!(!asset.is_tradable);
    assert_eq!(asset.updated_at, 110);

    // A second burn fails.
    assert_eq!(
        burn_asset_token(&mut asset, OWNER, 120),
        Err(RealStackError::AssetAlreadyBurned)
    );

    // Tradability stays pinned false after the burn.
    assert_eq!(
        toggle_tradability(&mut asset, OWNER, true, 130),
        Err(RealStackError::AssetBurned)
    );
    assert!(!asset.is_tradable);
}

#[test]
fn burn_unauthorized() {
    let mut asset = sample_asset(100);
    assert_eq!(
        burn_asset_token(&mut asset, STRANGER, 110),
        Err(RealStackError::Unauthorized)
    );
    assert!(!asset.is_burned);
}

#[test]
fn distribute_income_accumulates() {
    let mut asset = sample_asset(100);
    assert_eq!(distribute_income(&mut asset, OWNER, 500, 110), Ok(()));
    assert_eq!(asset.total_income_distributed, 500);
    assert_eq!(asset.last_income_distribution, 110);
    assert_eq!(asset.updated_at, 110);

    assert_eq!(distribute_income(&mut asset, OWNER, 250, 120), Ok(()));
    assert_eq!(asset.total_income_distributed, 750);
    assert_eq!(asset.last_income_distribution, 120);
}

#[test]
fn distribute_income_overflow_leaves_total() {
    let mut asset = sample_asset(100);
    assert_eq!(
        distribute_income(&mut asset, OWNER, u64::MAX - 10, 110),
        Ok(())
    );
    assert_eq!(asset.total_income_distributed, u64::MAX - 10);

    // An overflowing amount fails with no state change.
    let r = distribute_income(&mut asset, OWNER, 11, 120);
    assert_eq!(r, Err(RealStackError::MathOverflow));
    assert_eq!(asset.total_income_distributed, u64::MAX - 10);
    assert_eq!(asset.last_income_distribution, 110);

    // A smaller amount afterwards still applies.
    assert_eq!(distribute_income(&mut asset, OWNER, 10, 130), Ok(()));
    assert_eq!(asset.total_income_distributed, u64::MAX);
}

#[test]
fn distribute_income_unauthorized() {
    let mut asset = sample_asset(100);
    assert_eq!(
        distribute_income(&mut asset, STRANGER, 500, 110),
        Err(RealStackError::Unauthorized)
    );
    assert_eq!(asset.total_income_distributed, 0);
}

#[test]
fn distribute_income_on_burned_asset() {
    let mut asset = sample_asset(100);
    assert_eq!(burn_asset_token(&mut asset, OWNER, 110), Ok(()));
    assert_eq!(
        distribute_income(&mut asset, OWNER, 500, 120),
        Err(RealStackError::AssetBurned)
    );
    assert_eq!(asset.total_income_distributed, 0);
}
