use loan_core::property_registry::{
    register_property, update_property_value, verify_property, ErrorCode, Property,
};
use loan_core::state::PlatformConfig;
use loan_core::types::Pubkey;

fn key(tag: u8) -> Pubkey {
    Pubkey::new([tag; 32])
}

fn config() -> PlatformConfig {
    PlatformConfig {
        authority: key(1),
        treasury: key(3),
        max_ltv: 9000,
        min_loan_amount: 1_000,
        max_loan_amount: 10_000_000,
        origination_fee: 500,
        servicing_fee: 100,
        min_interest_rate: 300,
        default_interest_rate: 800,
        late_fee_rate: 200,
        grace_period_days: 5,
        treasury_token_account: key(4),
        paused: false,
    }
}

fn registered() -> Property {
    register_property(
        key(2),
        String::from("prop-1"),
        150_000,
        1_700_000_000,
        2,
        String::from("appraiser"),
        3,
        [9u8; 32],
        String::from("ipfs://x"),
    )
}

#[test]
fn register_property_starts_unverified_and_unencumbered() {
    let property = registered();
    assert_eq!(
        property,
        Property {
            owner: key(2),
            property_id: String::from("prop-1"),
            value: 150_000,
            valuation_date: 1_700_000_000,
            valuation_method: 2,
            valuation_provider: String::from("appraiser"),
            property_type: 3,
            location_hash: [9u8; 32],
            metadata_uri: String::from("ipfs://x"),
            active_loan: None,
            verified: false,
        }
    );
}

#[test]
fn update_property_value_is_for_the_owner_only() {
    let mut property = registered();
    let before = property.clone();
    let refused =
        update_property_value(&mut property, &key(1), 1, 2, 3, String::from("someone"));
    assert_eq!(refused, Err(ErrorCode::Unauthorized));
    assert_eq!(property, before);
    let done =
        update_property_value(&mut property, &key(2), 175_000, 1_700_100_000, 4, String::from("b"));
    assert_eq!(done, Ok(()));
    assert_eq!(
        property,
        Property {
            value: 175_000,
            valuation_date: 1_700_100_000,
            valuation_method: 4,
            valuation_provider: String::from("b"),
            ..before
        }
    );
}

#[test]
fn verify_property_is_for_the_authority_only() {
    let cfg = config();
    let mut property = registered();
    let before = property.clone();
    assert_eq!(verify_property(&mut property, &cfg, &key(2)), Err(ErrorCode::Unauthorized));
    assert_eq!(property, before);
    assert_eq!(verify_property(&mut property, &cfg, &key(1)), Ok(()));
    assert_eq!(property, Property { verified: true, ..before });
}
