//! Administrative operations on the platform configuration.

use vstd::prelude::*;
use crate::state::{rates_in_range, PlatformConfig, BASIS_POINTS};
use crate::types::{ErrorCode, Pubkey};

verus! {

/// Tests whether six rates all lie between zero and one hundred percent.
pub fn check_rates(
    max_ltv: u16,
    origination_fee: u16,
    servicing_fee: u16,
    min_interest_rate: u16,
    default_interest_rate: u16,
    late_fee_rate: u16,
) -> (ok: bool)
    ensures
        ok == rates_in_range(
            max_ltv,
            origination_fee,
            servicing_fee,
            min_interest_rate,
            default_interest_rate,
            late_fee_rate,
        ),
{
    max_ltv <= BASIS_POINTS && origination_fee <= BASIS_POINTS && servicing_fee <= BASIS_POINTS
        && min_interest_rate <= BASIS_POINTS && default_interest_rate <= BASIS_POINTS
        && late_fee_rate <= BASIS_POINTS
}

/// Creates the platform configuration, unpaused, with `authority` as its
/// administrator.
pub fn initialize(
    authority: Pubkey,
    treasury: Pubkey,
    treasury_token_account: Pubkey,
    max_ltv: u16,
    min_loan_amount: u64,
    max_loan_amount: u64,
    origination_fee: u16,
    servicing_fee: u16,
    min_interest_rate: u16,
    default_interest_rate: u16,
    late_fee_rate: u16,
    grace_period_days: u8,
) -> (config: PlatformConfig)
    requires
        rates_in_range(
            max_ltv,
            origination_fee,
            servicing_fee,
            min_interest_rate,
            default_interest_rate,
            late_fee_rate,
        ),
    ensures
        config.valid(),
        config == (PlatformConfig {
            authority,
            treasury,
            max_ltv,
            min_loan_amount,
            max_loan_amount,
            origination_fee,
            servicing_fee,
            min_interest_rate,
            default_interest_rate,
            late_fee_rate,
            grace_period_days,
            treasury_token_account,
            paused: false,
        }),
{
    PlatformConfig {
        authority,
        treasury,
        max_ltv,
        min_loan_amount,
        max_loan_amount,
        origination_fee,
        servicing_fee,
        min_interest_rate,
        default_interest_rate,
        late_fee_rate,
        grace_period_days,
        treasury_token_account,
        paused: false,
    }
}

/// Replaces the platform parameters. Only the authority may do so; the
/// identities and the pause switch stay as they are.
pub fn update_platform_config(
    config: &mut PlatformConfig,
    caller: &Pubkey,
    max_ltv: u16,
    min_loan_amount: u64,
    max_loan_amount: u64,
    origination_fee: u16,
    servicing_fee: u16,
    min_interest_rate: u16,
    default_interest_rate: u16,
    late_fee_rate: u16,
    grace_period_days: u8,
) -> (result: Result<(), ErrorCode>)
    requires
        rates_in_range(
            max_ltv,
            origination_fee,
            servicing_fee,
            min_interest_rate,
            default_interest_rate,
            late_fee_rate,
        ),
    ensures
        result is Ok <==> *caller == old(config).authority,
        result is Err ==> result->Err_0 == ErrorCode::UnauthorizedAccess && *final(config) == *old(
            config,
        ),
        result is Ok ==> final(config).valid() && *final(config) == (PlatformConfig {
            max_ltv,
            min_loan_amount,
            max_loan_amount,
            origination_fee,
            servicing_fee,
            min_interest_rate,
            default_interest_rate,
            late_fee_rate,
            grace_period_days,
            ..*old(config)
        }),
{
    if !caller.same_as(&config.authority) {
        return Err(ErrorCode::UnauthorizedAccess);
    }
    config.max_ltv = max_ltv;
    config.min_loan_amount = min_loan_amount;
    config.max_loan_amount = max_loan_amount;
    config.origination_fee = origination_fee;
    config.servicing_fee = servicing_fee;
    config.min_interest_rate = min_interest_rate;
    config.default_interest_rate = default_interest_rate;
    config.late_fee_rate = late_fee_rate;
    config.grace_period_days = grace_period_days;
    Ok(())
}

/// Pauses the platform. Only the authority may do so.
pub fn emergency_pause(config: &mut PlatformConfig, caller: &Pubkey) -> (result: Result<
    (),
    ErrorCode,
>)
    ensures
        result is Ok <==> *caller == old(config).authority,
        result is Err ==> result->Err_0 == ErrorCode::UnauthorizedAccess && *final(config) == *old(
            config,
        ),
        result is Ok ==> *final(config) == (PlatformConfig { paused: true, ..*old(config) }),
{
    if !caller.same_as(&config.authority) {
        return Err(ErrorCode::UnauthorizedAccess);
    }
    config.paused = true;
    Ok(())
}

/// Lifts the pause. Only the authority may do so.
pub fn emergency_unpause(config: &mut PlatformConfig, caller: &Pubkey) -> (result: Result<
    (),
    ErrorCode,
>)
    ensures
        result is Ok <==> *caller == old(config).authority,
        result is Err ==> result->Err_0 == ErrorCode::UnauthorizedAccess && *final(config) == *old(
            config,
        ),
        result is Ok ==> *final(config) == (PlatformConfig { paused: false, ..*old(config) }),
{
    if !caller.same_as(&config.authority) {
        return Err(ErrorCode::UnauthorizedAccess);
    }
    config.paused = false;
    Ok(())
}

} // verus!
