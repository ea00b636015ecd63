//! The property registry: a record store for collateral, with an
//! owner-maintained valuation and an authority-gated verification flag.

use vstd::prelude::*;
use crate::state::PlatformConfig;
use crate::types::Pubkey;

verus! {

/// Why a registry operation was refused.
#[derive(Clone, Copy, Debug, PartialEq, Eq, Structural)]
pub enum ErrorCode {
    /// The caller is neither the owner nor the authority the operation asks for.
    Unauthorized,
    /// No such property is registered.
    PropertyNotFound,
    /// The property is already verified.
    AlreadyVerified,
}

/// A registered property.
#[derive(Clone, Debug, PartialEq, Eq)]
pub struct Property {
    pub owner: Pubkey,
    pub property_id: String,
    /// Assessed value.
    pub value: u64,
    pub valuation_date: i64,
    pub valuation_method: u8,
    pub valuation_provider: String,
    pub property_type: u8,
    pub location_hash: [u8; 32],
    pub metadata_uri: String,
    /// The loan secured by this property, if any.
    pub active_loan: Option<Pubkey>,
    /// Whether the platform authority has verified the property.
    pub verified: bool,
}

/// Registers a property for `owner`: unverified, securing no loan.
pub fn register_property(
    owner: Pubkey,
    property_id: String,
    value: u64,
    valuation_date: i64,
    valuation_method: u8,
    valuation_provider: String,
    property_type: u8,
    location_hash: [u8; 32],
    metadata_uri: String,
) -> (property: Property)
    ensures
        property == (Property {
            owner,
            property_id,
            value,
            valuation_date,
            valuation_method,
            valuation_provider,
            property_type,
            location_hash,
            metadata_uri,
            active_loan: None,
            verified: false,
        }),
{
    Property {
        owner,
        property_id,
        value,
        valuation_date,
        valuation_method,
        valuation_provider,
        property_type,
        location_hash,
        metadata_uri,
        active_loan: None,
        verified: false,
    }
}

/// Replaces the valuation of a property. Only its owner may do so.
pub fn update_property_value(
    property: &mut Property,
    caller: &Pubkey,
    new_value: u64,
    valuation_date: i64,
    valuation_method: u8,
    valuation_provider: String,
) -> (result: Result<(), ErrorCode>)
    ensures
        result is Ok <==> *caller == old(property).owner,
        result is Err ==> result->Err_0 == ErrorCode::Unauthorized && *final(property) == *old(
            property,
        ),
        result is Ok ==> *final(property) == (Property {
            value: new_value,
            valuation_date,
            valuation_method,
            valuation_provider,
            ..*old(property)
        }),
{
    if !caller.same_as(&property.owner) {
        return Err(ErrorCode::Unauthorized);
    }
    property.value = new_value;
    property.valuation_date = valuation_date;
    property.valuation_method = valuation_method;
    property.valuation_provider = valuation_provider;
    Ok(())
}

/// Marks a property verified. Only the platform authority may do so.
pub fn verify_property(property: &mut Property, config: &PlatformConfig, caller: &Pubkey) -> (result:
    Result<(), ErrorCode>)
    ensures
        result is Ok <==> *caller == config.authority,
        result is Err ==> result->Err_0 == ErrorCode::Unauthorized && *final(property) == *old(
            property,
        ),
        result is Ok ==> *final(property) == (Property { verified: true, ..*old(property) }),
{
    if !caller.same_as(&config.authority) {
        return Err(ErrorCode::Unauthorized);
    }
    property.verified = true;
    Ok(())
}

} // verus!
