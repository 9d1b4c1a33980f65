//! Platform token ledger: the singleton platform-token record, its
//! percentage-allocated initial distribution, two-step authority transfer,
//! fee configuration and emergency transfer pause.

use vstd::prelude::*;

use vstd::arithmetic::div_mod::lemma_div_is_ordered;
use vstd::arithmetic::div_mod::lemma_div_multiples_vanish;
use vstd::arithmetic::div_mod::lemma_remainder_lower;
use vstd::arithmetic::mul::lemma_mul_inequality;

use crate::AccountId;
use crate::errors::RealStackError;

verus! {

/// Fee configuration for the platform token.
#[derive(Clone, Copy, Debug, PartialEq, Eq, Structural)]
pub struct FeeConfig {
    /// Transaction fee basis points (e.g., 25 = 0.25%)
    pub transaction_fee_bps: u16,
    /// Where fees are sent
    pub fee_recipient: AccountId,
    /// If fees are currently being collected
    pub fees_enabled: bool,
}

/// The five allocation buckets computed once at initialization, each an
/// integer-truncated percentage of the total supply.
#[derive(Clone, Copy, Debug, PartialEq, Eq, Structural)]
pub struct TokenDistribution {
    /// Community allocation (40%)
    pub community_allocation: u64,
    /// Asset acquisition reserve (25%)
    pub asset_reserve_allocation: u64,
    /// Development fund (20%)
    pub development_allocation: u64,
    /// Liquidity provision (10%)
    pub liquidity_allocation: u64,
    /// Team and advisors (5%)
    pub team_allocation: u64,
}

/// The singleton platform-token record.
#[derive(Clone, Debug)]
pub struct RealToken {
    /// Name of the token
    pub name: String,
    /// Symbol of the token (e.g., "REAL")
    pub symbol: String,
    /// URI to token metadata
    pub uri: String,
    /// Total supply of the token
    pub total_supply: u64,
    /// Authority that can perform admin functions
    pub authority: AccountId,
    /// Whether the token is initialized
    pub is_initialized: bool,
    /// Last update timestamp
    pub last_update_timestamp: i64,
    /// Token mint reference
    pub mint: AccountId,
    /// If transfers are paused (emergency only)
    pub transfers_paused: bool,
    /// Pending authority (for two-step authority transfer)
    pub pending_authority: Option<AccountId>,
    /// Fee configuration
    pub fee_config: FeeConfig,
    /// Token distribution details
    pub distribution: TokenDistribution,
}

impl RealToken {
    /// Fixed maximum size of the serialized platform-token record.
    pub const LEN: usize = 8 + 64 + 16 + 128 + 8 + 32 + 1 + 8 + 32 + 1 + 33 + 2 + 32 + 1 + 8 + 8
        + 8 + 8 + 8;
}

/// The integer-truncated share of `value` that `percentage` percent
/// allocates: `floor(value * percentage / 100)`.
pub open spec fn percentage_of(value: u64, percentage: u8) -> int {
    (value * percentage) / 100
}

/// Compute `floor(value * percentage / 100)` in widened arithmetic so the
/// multiplication cannot overflow.
fn calculate_percentage(value: u64, percentage: u8) -> (r: u64)
    requires
        percentage <= 100,
    ensures
        r == percentage_of(value, percentage),
{
    proof {
        lemma_mul_inequality(percentage as int, 100, value as int);
        lemma_div_is_ordered(value as int * percentage as int, value as int * 100, 100);
        lemma_div_multiples_vanish(value as int, 100);
    }
    ((value as u128 * percentage as u128) / 100) as u64
}

/// Law: the five allocation buckets computed at initialization never
/// exceed the total supply; integer truncation may only under-allocate.
pub proof fn lemma_allocations_bounded(total_supply: u64)
    ensures
        percentage_of(total_supply, 40) + percentage_of(total_supply, 25) + percentage_of(
            total_supply,
            20,
        ) + percentage_of(total_supply, 10) + percentage_of(total_supply, 5) <= total_supply,
{
    let v = total_supply as int;
    lemma_remainder_lower(v * 40, 100);
    lemma_remainder_lower(v * 25, 100);
    lemma_remainder_lower(v * 20, 100);
    lemma_remainder_lower(v * 10, 100);
    lemma_remainder_lower(v * 5, 100);
}

/// Initialize the singleton platform-token record: requires a non-empty
/// name and symbol and a positive total supply; computes the five
/// percentage allocations once, integer-truncated (the buckets may sum to
/// slightly less than the supply, which is accepted, not reconciled); and
/// sets the default fee of 25 basis points payable to the initializing
/// authority.
pub fn initialize(
    authority: AccountId,
    mint: AccountId,
    name: String,
    symbol: String,
    uri: String,
    total_supply: u64,
    now: i64,
) -> (r: Result<RealToken, RealStackError>)
    ensures
        r is Ok <==> name@.len() != 0 && symbol@.len() != 0 && total_supply > 0,
        (name@.len() == 0 || symbol@.len() == 0 || total_supply == 0) <==> r == Err::<
            RealToken,
            RealStackError,
        >(RealStackError::InvalidParameters),
        r is Ok ==> r->Ok_0 == (RealToken {
            name,
            symbol,
            uri,
            total_supply,
            authority,
            is_initialized: true,
            last_update_timestamp: now,
            mint,
            transfers_paused: false,
            pending_authority: None,
            fee_config: FeeConfig {
                transaction_fee_bps: 25,
                fee_recipient: authority,
                fees_enabled: true,
            },
            distribution: TokenDistribution {
                community_allocation: percentage_of(total_supply, 40) as u64,
                asset_reserve_allocation: percentage_of(total_supply, 25) as u64,
                development_allocation: percentage_of(total_supply, 20) as u64,
                liquidity_allocation: percentage_of(total_supply, 10) as u64,
                team_allocation: percentage_of(total_supply, 5) as u64,
            },
        }),
{
    if name.as_str().is_empty() || symbol.as_str().is_empty() || total_supply == 0 {
        return Err(RealStackError::InvalidParameters);
    }
    let community_allocation = calculate_percentage(total_supply, 40);
    let asset_reserve_allocation = calculate_percentage(total_supply, 25);
    let development_allocation = calculate_percentage(total_supply, 20);
    let liquidity_allocation = calculate_percentage(total_supply, 10);
    let team_allocation = calculate_percentage(total_supply, 5);
    Ok(
        RealToken {
            name,
            symbol,
            uri,
            total_supply,
            authority,
            is_initialized: true,
            last_update_timestamp: now,
            mint,
            transfers_paused: false,
            pending_authority: None,
            fee_config: FeeConfig {
                transaction_fee_bps: 25,
                fee_recipient: authority,
                fees_enabled: true,
            },
            distribution: TokenDistribution {
                community_allocation,
                asset_reserve_allocation,
                development_allocation,
                liquidity_allocation,
                team_allocation,
            },
        },
    )
}

/// Nominate `new_authority` as the pending authority: the first step of
/// the two-step handoff. Only the current authority may do so; the
/// transfer is not yet effective.
pub fn transfer_authority(
    token: &mut RealToken,
    caller: AccountId,
    new_authority: AccountId,
    now: i64,
) -> (r: Result<(), RealStackError>)
    ensures
        caller != old(token).authority ==> r == Err::<(), RealStackError>(
            RealStackError::Unauthorized,
        ) && *final(token) == *old(token),
        caller == old(token).authority ==> r == Ok::<(), RealStackError>(()) && *final(token)
            == (RealToken {
            pending_authority: Some(new_authority),
            last_update_timestamp: now,
            ..*old(token)
        }),
{
    if caller != token.authority {
        return Err(RealStackError::Unauthorized);
    }
    token.pending_authority = Some(new_authority);
    token.last_update_timestamp = now;
    Ok(())
}

/// Complete the two-step handoff: only the nominated pending authority may
/// accept, becoming the authority and clearing the nomination.
pub fn accept_authority(token: &mut RealToken, caller: AccountId, now: i64) -> (r: Result<
    (),
    RealStackError,
>)
    ensures
        old(token).pending_authority != Some(caller) ==> r == Err::<(), RealStackError>(
            RealStackError::Unauthorized,
        ) && *final(token) == *old(token),
        old(token).pending_authority == Some(caller) ==> r == Ok::<(), RealStackError>(())
            && *final(token) == (RealToken {
            authority: caller,
            pending_authority: None,
            last_update_timestamp: now,
            ..*old(token)
        }),
{
    let is_pending = match token.pending_authority {
        Some(pending) => pending == caller,
        None => false,
    };
    if !is_pending {
        return Err(RealStackError::Unauthorized);
    }
    token.authority = caller;
    token.pending_authority = None;
    token.last_update_timestamp = now;
    Ok(())
}

/// Overwrite the fee configuration wholesale. Only the authority may do
/// so, and the transaction fee is capped at 1000 basis points (10%).
pub fn update_fee_config(
    token: &mut RealToken,
    caller: AccountId,
    transaction_fee_bps: u16,
    fee_recipient: AccountId,
    fees_enabled: bool,
    now: i64,
) -> (r: Result<(), RealStackError>)
    ensures
        caller != old(token).authority ==> r == Err::<(), RealStackError>(
            RealStackError::Unauthorized,
        ) && *final(token) == *old(token),
        caller == old(token).authority && transaction_fee_bps > 1000 ==> r == Err::<
            (),
            RealStackError,
        >(RealStackError::InvalidParameters) && *final(token) == *old(token),
        caller == old(token).authority && transaction_fee_bps <= 1000 ==> r == Ok::<
            (),
            RealStackError,
        >(()) && *final(token) == (RealToken {
            fee_config: FeeConfig { transaction_fee_bps, fee_recipient, fees_enabled },
            last_update_timestamp: now,
            ..*old(token)
        }),
{
    if caller != token.authority {
        return Err(RealStackError::Unauthorized);
    }
    if transaction_fee_bps > 1000 {
        return Err(RealStackError::InvalidParameters);
    }
    token.fee_config = FeeConfig { transaction_fee_bps, fee_recipient, fees_enabled };
    token.last_update_timestamp = now;
    Ok(())
}

/// Set the emergency transfer-pause flag. Only the authority may do so.
pub fn set_transfer_pause(token: &mut RealToken, caller: AccountId, paused: bool, now: i64) -> (r:
    Result<(), RealStackError>)
    ensures
        caller != old(token).authority ==> r == Err::<(), RealStackError>(
            RealStackError::Unauthorized,
        ) && *final(token) == *old(token),
        caller == old(token).authority ==> r == Ok::<(), RealStackError>(()) && *final(token)
            == (RealToken {
            transfers_paused: paused,
            last_update_timestamp: now,
            ..*old(token)
        }),
{
    if caller != token.authority {
        return Err(RealStackError::Unauthorized);
    }
    token.transfers_paused = paused;
    token.last_update_timestamp = now;
    Ok(())
}

} // verus!
