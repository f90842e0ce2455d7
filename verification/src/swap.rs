use vstd::prelude::*;

use crate::errors::AmmError;
use crate::hooks::{is_hook_required, AssetInfo};
use crate::keys::Pubkey;
use crate::pool::{swap_amount_out, swap_err, swap_next, swap_ok, Pool, PoolConfig};
use crate::whitelist::HookWhitelist;

verus! {

/// Whether one asset may take part in a transfer: trivially true without a
/// registered callback, otherwise the callback program must be approved.
pub open spec fn asset_hook_allowed(wl: HookWhitelist, info: AssetInfo) -> bool {
    match info.hook_program {
        Option::Some(p) => wl.contains_key(p),
        Option::None => true,
    }
}

/// Whether both legs of a swap may run: each asset entering or leaving the
/// pool is checked independently.
pub open spec fn hooks_allowed(wl: HookWhitelist, info_in: AssetInfo, info_out: AssetInfo) -> bool {
    asset_hook_allowed(wl, info_in) && asset_hook_allowed(wl, info_out)
}

/// Checks one asset against the market's whitelist: an asset with no
/// registered callback always passes; one with a callback passes exactly when
/// that callback is approved.
pub fn check_asset_hook(whitelist: &HookWhitelist, info: &AssetInfo) -> (r: Result<(), AmmError>)
    ensures
        r is Ok <==> asset_hook_allowed(*whitelist, *info),
        r matches Err(e) ==> e == AmmError::HookNotWhitelisted,
{
    match is_hook_required(info) {
        Some(program_id) => whitelist.authorize(&program_id),
        None => Ok(()),
    }
}

/// Checks both assets of a swap against the market's whitelist; any failure
/// aborts with [`AmmError::HookNotWhitelisted`] before any funds move.
pub fn authorize_hooks(
    whitelist: &HookWhitelist,
    info_in: &AssetInfo,
    info_out: &AssetInfo,
) -> (r: Result<(), AmmError>)
    ensures
        r is Ok <==> hooks_allowed(*whitelist, *info_in, *info_out),
        r matches Err(e) ==> e == AmmError::HookNotWhitelisted,
{
    check_asset_hook(whitelist, info_in)?;
    check_asset_hook(whitelist, info_out)?;
    Ok(())
}

/// Everything the host needs to run the two transfer legs of an authorized,
/// priced swap: the direction, the two amounts, and the callback program of
/// each leg (already checked against the whitelist).
#[derive(Clone, Copy, Debug, PartialEq, Eq, Structural)]
pub struct SwapPlan {
    /// The asset the caller pays in.
    pub asset_in: Pubkey,
    /// The asset the caller is paid out.
    pub asset_out: Pubkey,
    /// Amount moved by the in-leg, caller to reserve.
    pub amount_in: u64,
    /// Amount moved by the out-leg, reserve to caller.
    pub amount_out: u64,
    /// Callback program the in-leg must route through, if any.
    pub hook_in: Option<Pubkey>,
    /// Callback program the out-leg must route through, if any.
    pub hook_out: Option<Pubkey>,
}

/// Authorizes and prices a swap against the current reserve snapshot without
/// mutating anything. The host performs the two transfer legs of the returned
/// plan — in-leg strictly before out-leg — and then commits the reserve
/// mutation through [`Pool::apply_swap`] with the planned output as the
/// minimum; under the host's whole-invocation atomicity a failed leg voids
/// the entire operation.
pub fn plan_swap(
    config: &PoolConfig,
    pool: &Pool,
    whitelist: &HookWhitelist,
    info_in: &AssetInfo,
    info_out: &AssetInfo,
    amount_in: u64,
    min_amount_out: u64,
) -> (r: Result<SwapPlan, AmmError>)
    requires
        config.wf(),
        pool.asset_a == config.asset_a,
        pool.asset_b == config.asset_b,
        info_in.id == config.asset_a || info_in.id == config.asset_b,
        info_out.id == config.asset_a || info_out.id == config.asset_b,
        info_in.id != info_out.id,
    ensures
        r is Ok <==> hooks_allowed(*whitelist, *info_in, *info_out) && swap_ok(
            *pool,
            *config,
            info_in.id,
            amount_in,
            min_amount_out,
        ),
        r matches Ok(plan) ==> plan == (SwapPlan {
            asset_in: info_in.id,
            asset_out: info_out.id,
            amount_in,
            amount_out: swap_amount_out(*pool, *config, info_in.id, amount_in) as u64,
            hook_in: info_in.hook_program,
            hook_out: info_out.hook_program,
        }),
        r matches Err(e) ==> e == (if !hooks_allowed(*whitelist, *info_in, *info_out) {
            AmmError::HookNotWhitelisted
        } else {
            swap_err(*pool, *config, info_in.id, amount_in, min_amount_out)
        }),
{
    authorize_hooks(whitelist, info_in, info_out)?;
    let mut priced = *pool;
    let amount_out = priced.apply_swap(config, info_in.id, amount_in, min_amount_out)?;
    Ok(
        SwapPlan {
            asset_in: info_in.id,
            asset_out: info_out.id,
            amount_in,
            amount_out,
            hook_in: info_in.hook_program,
            hook_out: info_out.hook_program,
        },
    )
}

/// The end-to-end swap decision: whitelist authorization for both assets
/// strictly first, then the priced reserve transition. On success the input
/// reserve grew by `amount_in` and the output reserve shrank by the returned
/// amount; on any failure — including a callback program missing from the
/// whitelist — the pool is exactly as it was.
pub fn swap(
    config: &PoolConfig,
    pool: &mut Pool,
    whitelist: &HookWhitelist,
    info_in: &AssetInfo,
    info_out: &AssetInfo,
    amount_in: u64,
    min_amount_out: u64,
) -> (r: Result<u64, AmmError>)
    requires
        config.wf(),
        old(pool).asset_a == config.asset_a,
        old(pool).asset_b == config.asset_b,
        info_in.id == config.asset_a || info_in.id == config.asset_b,
        info_out.id == config.asset_a || info_out.id == config.asset_b,
        info_in.id != info_out.id,
    ensures
        r is Ok <==> hooks_allowed(*whitelist, *info_in, *info_out) && swap_ok(
            *old(pool),
            *config,
            info_in.id,
            amount_in,
            min_amount_out,
        ),
        r matches Ok(o) ==> o == swap_amount_out(*old(pool), *config, info_in.id, amount_in)
            && *final(pool) == swap_next(*old(pool), *config, info_in.id, amount_in),
        r is Ok && old(pool).wf() ==> final(pool).wf(),
        r matches Err(e) ==> *final(pool) == *old(pool) && e == (if !hooks_allowed(
            *whitelist,
            *info_in,
            *info_out,
        ) {
            AmmError::HookNotWhitelisted
        } else {
            swap_err(*old(pool), *config, info_in.id, amount_in, min_amount_out)
        }),
{
    authorize_hooks(whitelist, info_in, info_out)?;
    pool.apply_swap(config, info_in.id, amount_in, min_amount_out)
}

/// Whitelist gating around one asset's gate: an asset whose registered
/// callback program is missing from the whitelist is rejected, and after
/// approving exactly that program — the state [`HookWhitelist::add_hook_program`]
/// ensures — the same asset passes.
pub proof fn lemma_whitelist_gating(
    wl: HookWhitelist,
    wl_after: HookWhitelist,
    info: AssetInfo,
    p: Pubkey,
)
    requires
        info.hook_program == Some(p),
        !wl.contains_key(p),
        forall|q: Pubkey| wl_after.contains_key(q) == (wl.contains_key(q) || q == p),
    ensures
        !asset_hook_allowed(wl, info),
        asset_hook_allowed(wl_after, info),
{
}

} // verus!
