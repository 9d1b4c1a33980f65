//! Asset registry: the record for one tokenized asset and the
//! authorization-checked operations that mutate it.

use vstd::prelude::*;

use crate::AccountId;
use crate::errors::RealStackError;

verus! {

/// How often income from the asset is distributed.
#[derive(Clone, Copy, Debug, PartialEq, Eq, Structural)]
pub enum IncomeDistributionFrequency {
    Monthly,
    Quarterly,
    SemiAnnually,
    Annually,
    Custom,
}

/// One tokenized asset. Created by `create_asset_token`, never deleted:
/// only amended in place or marked terminal by `burn_asset_token`.
#[derive(Clone, Debug)]
pub struct AssetToken {
    /// Authority that can update the asset
    pub authority: AccountId,
    /// Backing-token mint reference for this asset
    pub mint: AccountId,
    /// Asset name
    pub name: String,
    /// Asset symbol (typically 3-5 characters)
    pub symbol: String,
    /// Asset category
    pub category: String,
    /// Asset description
    pub description: String,
    /// URI to metadata and media
    pub uri: String,
    /// Current valuation of the asset in USD
    pub valuation: u64,
    /// Total number of tokens representing this asset
    pub total_shares: u64,
    /// Initial price per share at tokenization time
    pub initial_share_price: u64,
    /// Current share price
    pub current_share_price: u64,
    /// Is the asset verified
    pub is_verified: bool,
    /// Verifier of the asset (if verified)
    pub verifier: Option<AccountId>,
    /// Timestamp of verification
    pub verified_at: i64,
    /// Is the asset currently tradable
    pub is_tradable: bool,
    /// Creation timestamp
    pub created_at: i64,
    /// Last update timestamp
    pub updated_at: i64,
    /// Liquidity pool reference (if one exists)
    pub liquidity_pool: Option<AccountId>,
    /// Income distribution configuration
    pub income_distribution_frequency: IncomeDistributionFrequency,
    /// Last income distribution timestamp
    pub last_income_distribution: i64,
    /// Total income distributed
    pub total_income_distributed: u64,
    /// Can mint additional shares
    pub can_mint_additional: bool,
    /// Is the token burned/deactivated
    pub is_burned: bool,
}

impl AssetToken {
    /// Fixed maximum size of one serialized asset record, so that storage
    /// cost is statically computable: discriminator, two identities, the
    /// five bounded strings, the financial fields, status and income
    /// bookkeeping.
    pub const LEN: usize = 8 + 32 + 32 + 100 + 16 + 32 + 500 + 200 + 8 + 8 + 8 + 8 + 1 + 33 + 8
        + 1 + 8 + 8 + 33 + 1 + 8 + 8 + 1 + 1;
}

/// The standing invariant of an asset record: a burned asset is never
/// tradable.
pub open spec fn asset_wf(a: AssetToken) -> bool {
    a.is_burned ==> !a.is_tradable
}

/// Create a new asset record for `authority`, backed by `mint`: unverified,
/// not tradable, not burned, with both timestamps set to `now`. No
/// uniqueness check against `mint` is made here; that is the caller's
/// convention.
pub fn create_asset_token(
    authority: AccountId,
    mint: AccountId,
    name: String,
    symbol: String,
    category: String,
    description: String,
    uri: String,
    valuation: u64,
    total_shares: u64,
    share_price: u64,
    now: i64,
) -> (asset: AssetToken)
    ensures
        asset == (AssetToken {
            authority,
            mint,
            name,
            symbol,
            category,
            description,
            uri,
            valuation,
            total_shares,
            initial_share_price: share_price,
            current_share_price: share_price,
            is_verified: false,
            verifier: None,
            verified_at: 0,
            is_tradable: false,
            created_at: now,
            updated_at: now,
            liquidity_pool: None,
            income_distribution_frequency: IncomeDistributionFrequency::Monthly,
            last_income_distribution: 0,
            total_income_distributed: 0,
            can_mint_additional: false,
            is_burned: false,
        }),
        asset_wf(asset),
{
    AssetToken {
        authority,
        mint,
        name,
        symbol,
        category,
        description,
        uri,
        valuation,
        total_shares,
        initial_share_price: share_price,
        current_share_price: share_price,
        is_verified: false,
        verifier: None,
        verified_at: 0,
        is_tradable: false,
        created_at: now,
        updated_at: now,
        liquidity_pool: None,
        income_distribution_frequency: IncomeDistributionFrequency::Monthly,
        last_income_distribution: 0,
        total_income_distributed: 0,
        can_mint_additional: false,
        is_burned: false,
    }
}

/// Overwrite the asset's valuation and current share price. Only the
/// asset's authority may do so; no bounds validation beyond the type range.
pub fn update_asset_valuation(
    asset: &mut AssetToken,
    caller: AccountId,
    new_valuation: u64,
    new_share_price: u64,
    now: i64,
) -> (r: Result<(), RealStackError>)
    ensures
        caller != old(asset).authority ==> r == Err::<(), RealStackError>(
            RealStackError::Unauthorized,
        ) && *final(asset) == *old(asset),
        caller == old(asset).authority ==> r == Ok::<(), RealStackError>(()) && *final(asset)
            == (AssetToken {
            valuation: new_valuation,
            current_share_price: new_share_price,
            updated_at: now,
            ..*old(asset)
        }),
        asset_wf(*old(asset)) ==> asset_wf(*final(asset)),
{
    if caller != asset.authority {
        return Err(RealStackError::Unauthorized);
    }
    asset.valuation = new_valuation;
    asset.current_share_price = new_share_price;
    asset.updated_at = now;
    Ok(())
}

/// Mark the asset verified by `verifier` at time `now`. Any verifier
/// identity may do so, and re-verification overwrites the previous
/// verifier and timestamp.
pub fn verify_asset(asset: &mut AssetToken, verifier: AccountId, now: i64) -> (r: Result<
    (),
    RealStackError,
>)
    ensures
        r == Ok::<(), RealStackError>(()),
        *final(asset) == (AssetToken {
            is_verified: true,
            verifier: Some(verifier),
            verified_at: now,
            updated_at: now,
            ..*old(asset)
        }),
        asset_wf(*old(asset)) ==> asset_wf(*final(asset)),
{
    asset.is_verified = true;
    asset.verifier = Some(verifier);
    asset.verified_at = now;
    asset.updated_at = now;
    Ok(())
}

/// Set whether the asset is tradable. Only the asset's authority may do
/// so, and a burned asset stays pinned untradable.
pub fn toggle_tradability(
    asset: &mut AssetToken,
    caller: AccountId,
    is_tradable: bool,
    now: i64,
) -> (r: Result<(), RealStackError>)
    ensures
        caller != old(asset).authority ==> r == Err::<(), RealStackError>(
            RealStackError::Unauthorized,
        ) && *final(asset) == *old(asset),
        caller == old(asset).authority && old(asset).is_burned ==> r == Err::<(), RealStackError>(
            RealStackError::AssetBurned,
        ) && *final(asset) == *old(asset),
        caller == old(asset).authority && !old(asset).is_burned ==> r == Ok::<(), RealStackError>(
            (),
        ) && *final(asset) == (AssetToken { is_tradable, updated_at: now, ..*old(asset) }),
        asset_wf(*old(asset)) ==> asset_wf(*final(asset)),
{
    if caller != asset.authority {
        return Err(RealStackError::Unauthorized);
    }
    if asset.is_burned {
        return Err(RealStackError::AssetBurned);
    }
    asset.is_tradable = is_tradable;
    asset.updated_at = now;
    Ok(())
}

/// Burn (deactivate) the asset: a terminal, one-time transition. Only the
/// asset's authority may do so; a second burn fails, and tradability is
/// forced false forever after.
pub fn burn_asset_token(asset: &mut AssetToken, caller: AccountId, now: i64) -> (r: Result<
    (),
    RealStackError,
>)
    ensures
        caller != old(asset).authority ==> r == Err::<(), RealStackError>(
            RealStackError::Unauthorized,
        ) && *final(asset) == *old(asset),
        caller == old(asset).authority && old(asset).is_burned ==> r == Err::<(), RealStackError>(
            RealStackError::AssetAlreadyBurned,
        ) && *final(asset) == *old(asset),
        caller == old(asset).authority && !old(asset).is_burned ==> r == Ok::<(), RealStackError>(
            (),
        ) && *final(asset) == (AssetToken {
            is_burned: true,
            is_tradable: false,
            updated_at: now,
            ..*old(asset)
        }),
        asset_wf(*old(asset)) ==> asset_wf(*final(asset)),
        r is Ok ==> asset_wf(*final(asset)),
{
    if caller != asset.authority {
        return Err(RealStackError::Unauthorized);
    }
    if asset.is_burned {
        return Err(RealStackError::AssetAlreadyBurned);
    }
    asset.is_burned = true;
    asset.is_tradable = false;
    asset.updated_at = now;
    Ok(())
}

/// Add `amount` to the asset's aggregate income accounting with checked
/// addition, recording `now` as the last distribution time. Only the
/// asset's authority may do so, and never on a burned asset. The
/// per-holder payout fan-out is delegated to an external collaborator.
pub fn distribute_income(asset: &mut AssetToken, caller: AccountId, amount: u64, now: i64) -> (r:
    Result<(), RealStackError>)
    ensures
        caller != old(asset).authority ==> r == Err::<(), RealStackError>(
            RealStackError::Unauthorized,
        ) && *final(asset) == *old(asset),
        caller == old(asset).authority && old(asset).is_burned ==> r == Err::<(), RealStackError>(
            RealStackError::AssetBurned,
        ) && *final(asset) == *old(asset),
        caller == old(asset).authority && !old(asset).is_burned && old(
            asset,
        ).total_income_distributed + amount > u64::MAX ==> r == Err::<(), RealStackError>(
            RealStackError::MathOverflow,
        ) && *final(asset) == *old(asset),
        caller == old(asset).authority && !old(asset).is_burned && old(
            asset,
        ).total_income_distributed + amount <= u64::MAX ==> r == Ok::<(), RealStackError>(())
            && *final(asset) == (AssetToken {
            total_income_distributed: (old(asset).total_income_distributed + amount) as u64,
            last_income_distribution: now,
            updated_at: now,
            ..*old(asset)
        }),
        final(asset).total_income_distributed >= old(asset).total_income_distributed,
        asset_wf(*old(asset)) ==> asset_wf(*final(asset)),
{
    if caller != asset.authority {
        return Err(RealStackError::Unauthorized);
    }
    if asset.is_burned {
        return Err(RealStackError::AssetBurned);
    }
    match asset.total_income_distributed.checked_add(amount) {
        Some(new_total) => {
            asset.last_income_distribution = now;
            asset.total_income_distributed = new_total;
            asset.updated_at = now;
            Ok(())
        },
        None => Err(RealStackError::MathOverflow),
    }
}

/// Mathematical sum of a sequence of distribution amounts.
pub open spec fn seq_sum(amounts: Seq<u64>) -> int
    decreases amounts.len(),
{
    if amounts.len() == 0 {
        0
    } else {
        amounts[0] + seq_sum(amounts.subrange(1, amounts.len() as int))
    }
}

/// The aggregate income total after a sequence of `distribute_income`
/// calls starting from `total`, each applied with checked addition: a call
/// whose amount would overflow fails and leaves the total unchanged, and
/// later calls still apply.
pub open spec fn income_after(total: u64, amounts: Seq<u64>) -> u64
    decreases amounts.len(),
{
    if amounts.len() == 0 {
        total
    } else {
        let applied: u64 = if total + amounts[0] <= u64::MAX {
            (total + amounts[0]) as u64
        } else {
            total
        };
        income_after(applied, amounts.subrange(1, amounts.len() as int))
    }
}

proof fn lemma_seq_sum_nonneg(amounts: Seq<u64>)
    ensures
        seq_sum(amounts) >= 0,
    decreases amounts.len(),
{
    if amounts.len() != 0 {
        lemma_seq_sum_nonneg(amounts.subrange(1, amounts.len() as int));
    }
}

/// Law: over any sequence of `distribute_income` calls, the aggregate
/// `total_income_distributed` is monotonically non-decreasing, whether or
/// not any call overflows.
pub proof fn lemma_income_monotonic(total: u64, amounts: Seq<u64>)
    ensures
        income_after(total, amounts) >= total,
    decreases amounts.len(),
{
    if amounts.len() != 0 {
        let applied: u64 = if total + amounts[0] <= u64::MAX {
            (total + amounts[0]) as u64
        } else {
            total
        };
        lemma_income_monotonic(applied, amounts.subrange(1, amounts.len() as int));
    }
}

/// Law: as long as no call overflows, the aggregate after a sequence of
/// `distribute_income` calls equals the starting total plus the sum of
/// every amount applied.
pub proof fn lemma_income_equals_sum(total: u64, amounts: Seq<u64>)
    requires
        total + seq_sum(amounts) <= u64::MAX,
    ensures
        income_after(total, amounts) == total + seq_sum(amounts),
    decreases amounts.len(),
{
    if amounts.len() != 0 {
        let rest = amounts.subrange(1, amounts.len() as int);
        lemma_seq_sum_nonneg(rest);
        lemma_income_equals_sum((total + amounts[0]) as u64, rest);
    }
}

} // verus!
