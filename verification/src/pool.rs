use vstd::prelude::*;

use crate::errors::AmmError;
use crate::keys::{key_lt, spec_pair_key, Pubkey};
use crate::math::{
    compute_output, lemma_output_below_reserve, lemma_product_non_decrease, output_fits,
    swap_output,
};

verus! {

/// Global per-market configuration, created once per market and immutable
/// afterwards except through explicit whitelist administration.
#[derive(Clone, Copy, Debug, PartialEq, Eq, Structural)]
pub struct PoolConfig {
    /// Identity permitted to administer the market's hook whitelist.
    pub authority: Pubkey,
    /// Fee numerator of the rational fee; invariant `fee_numerator < fee_denominator`.
    pub fee_numerator: u64,
    /// Fee denominator of the rational fee.
    pub fee_denominator: u64,
    /// The canonically smaller of the two asset types.
    pub asset_a: Pubkey,
    /// The canonically larger of the two asset types.
    pub asset_b: Pubkey,
    /// Reserve location holding the `asset_a` balance.
    pub vault_a: Pubkey,
    /// Reserve location holding the `asset_b` balance.
    pub vault_b: Pubkey,
}

impl PoolConfig {
    /// Well-formedness: the fee is below one, and the asset pair is held in
    /// canonical order.
    pub open spec fn wf(self) -> bool {
        &&& self.fee_numerator < self.fee_denominator
        &&& key_lt(self.asset_a, self.asset_b)
    }

    /// Creates a market configuration. The two assets may be named in either
    /// order; they are stored canonically, each with its reserve location.
    ///
    /// Fails with [`AmmError::InvalidAmount`] when the fee is not below one
    /// or the two assets are the same type.
    pub fn new(
        authority: Pubkey,
        fee_numerator: u64,
        fee_denominator: u64,
        asset_x: Pubkey,
        vault_x: Pubkey,
        asset_y: Pubkey,
        vault_y: Pubkey,
    ) -> (r: Result<PoolConfig, AmmError>)
        ensures
            r is Ok <==> fee_numerator < fee_denominator && asset_x != asset_y,
            r matches Ok(c) ==> c.wf() && c == (PoolConfig {
                authority,
                fee_numerator,
                fee_denominator,
                asset_a: spec_pair_key(asset_x, asset_y).0,
                asset_b: spec_pair_key(asset_x, asset_y).1,
                vault_a: if key_lt(asset_y, asset_x) { vault_y } else { vault_x },
                vault_b: if key_lt(asset_y, asset_x) { vault_x } else { vault_y },
            }),
            r matches Err(e) ==> e == AmmError::InvalidAmount,
    {
        if fee_numerator >= fee_denominator {
            return Err(AmmError::InvalidAmount);
        }
        if asset_x == asset_y {
            return Err(AmmError::InvalidAmount);
        }
        if asset_y.is_below(&asset_x) {
            Ok(PoolConfig {
                authority,
                fee_numerator,
                fee_denominator,
                asset_a: asset_y,
                asset_b: asset_x,
                vault_a: vault_y,
                vault_b: vault_x,
            })
        } else {
            Ok(PoolConfig {
                authority,
                fee_numerator,
                fee_denominator,
                asset_a: asset_x,
                asset_b: asset_y,
                vault_a: vault_x,
                vault_b: vault_y,
            })
        }
    }
}

/// Mutable reserve state of one market. Reserves are written only by the
/// transitions below — `create`, `apply_swap` and `apply_add_liquidity` —
/// never directly by callers.
#[derive(Clone, Copy, Debug, PartialEq, Eq, Structural)]
pub struct Pool {
    /// The canonically smaller asset type.
    pub asset_a: Pubkey,
    /// The canonically larger asset type.
    pub asset_b: Pubkey,
    /// Custodial balance of `asset_a`.
    pub reserve_a: u64,
    /// Custodial balance of `asset_b`.
    pub reserve_b: u64,
    /// Total proportional-ownership units issued against the reserves.
    pub lp_supply: u64,
}

/// The reserve on the side the caller pays into, selected by comparing
/// `asset_in` against the pool's canonical `asset_a`.
pub open spec fn reserve_in_of(p: Pool, asset_in: Pubkey) -> int {
    if asset_in == p.asset_a {
        p.reserve_a as int
    } else {
        p.reserve_b as int
    }
}

/// The reserve on the side the caller is paid from.
pub open spec fn reserve_out_of(p: Pool, asset_in: Pubkey) -> int {
    if asset_in == p.asset_a {
        p.reserve_b as int
    } else {
        p.reserve_a as int
    }
}

/// The exact amount a swap of `amount_in` pays out of `p`.
pub open spec fn swap_amount_out(p: Pool, c: PoolConfig, asset_in: Pubkey, amount_in: u64) -> int {
    swap_output(
        amount_in as int,
        reserve_in_of(p, asset_in),
        reserve_out_of(p, asset_in),
        c.fee_numerator as int,
        c.fee_denominator as int,
    )
}

/// Whether a swap succeeds: a positive input, liquidity on both sides, all
/// intermediates within the 128-bit accumulator, a quote at or above the
/// caller's minimum, and an input-side balance that still fits 64 bits.
pub open spec fn swap_ok(
    p: Pool,
    c: PoolConfig,
    asset_in: Pubkey,
    amount_in: u64,
    min_amount_out: u64,
) -> bool {
    &&& amount_in > 0
    &&& reserve_in_of(p, asset_in) > 0
    &&& reserve_out_of(p, asset_in) > 0
    &&& output_fits(
        amount_in as int,
        reserve_in_of(p, asset_in),
        reserve_out_of(p, asset_in),
        c.fee_numerator as int,
        c.fee_denominator as int,
    )
    &&& swap_amount_out(p, c, asset_in, amount_in) >= min_amount_out
    &&& reserve_in_of(p, asset_in) + amount_in <= u64::MAX
}

/// The error a failing swap surfaces, in validation order.
pub open spec fn swap_err(
    p: Pool,
    c: PoolConfig,
    asset_in: Pubkey,
    amount_in: u64,
    min_amount_out: u64,
) -> AmmError {
    if amount_in == 0 {
        AmmError::InvalidAmount
    } else if reserve_in_of(p, asset_in) == 0 || reserve_out_of(p, asset_in) == 0 {
        AmmError::InsufficientLiquidity
    } else if !output_fits(
        amount_in as int,
        reserve_in_of(p, asset_in),
        reserve_out_of(p, asset_in),
        c.fee_numerator as int,
        c.fee_denominator as int,
    ) {
        AmmError::MathOverflow
    } else if swap_amount_out(p, c, asset_in, amount_in) < min_amount_out {
        AmmError::InsufficientOutputAmount
    } else {
        AmmError::MathOverflow
    }
}

/// The pool state after a successful swap: the input side grows by
/// `amount_in`, the output side shrinks by the exact quote, the ownership
/// supply is untouched.
pub open spec fn swap_next(p: Pool, c: PoolConfig, asset_in: Pubkey, amount_in: u64) -> Pool {
    let o = swap_amount_out(p, c, asset_in, amount_in);
    if asset_in == p.asset_a {
        Pool {
            reserve_a: (p.reserve_a + amount_in) as u64,
            reserve_b: (p.reserve_b - o) as u64,
            ..p
        }
    } else {
        Pool {
            reserve_b: (p.reserve_b + amount_in) as u64,
            reserve_a: (p.reserve_a - o) as u64,
            ..p
        }
    }
}

/// The proportional-ownership units minted for a deposit of
/// `(amount_a, amount_b)`: the full `amount_a` when bootstrapping an empty
/// supply, otherwise the smaller of the two proportional shares, protecting
/// existing holders from dilution by an imbalanced deposit.
pub open spec fn lp_mint_amount(p: Pool, amount_a: u64, amount_b: u64) -> int {
    if p.lp_supply == 0 {
        amount_a as int
    } else {
        let share_a = amount_a * p.lp_supply / (p.reserve_a as int);
        let share_b = amount_b * p.lp_supply / (p.reserve_b as int);
        if share_a <= share_b {
            share_a
        } else {
            share_b
        }
    }
}

/// Whether a deposit succeeds: issued supply implies live reserves, and every
/// checked 64-bit step stays in range.
pub open spec fn add_liquidity_ok(p: Pool, amount_a: u64, amount_b: u64) -> bool {
    &&& p.lp_supply > 0 ==> p.reserve_a > 0 && p.reserve_b > 0
    &&& p.lp_supply > 0 ==> amount_a * p.lp_supply <= u64::MAX && amount_b * p.lp_supply
        <= u64::MAX
    &&& p.reserve_a + amount_a <= u64::MAX
    &&& p.reserve_b + amount_b <= u64::MAX
    &&& p.lp_supply + lp_mint_amount(p, amount_a, amount_b) <= u64::MAX
}

/// The error a failing deposit surfaces.
pub open spec fn add_liquidity_err(p: Pool, amount_a: u64, amount_b: u64) -> AmmError {
    if p.lp_supply > 0 && (p.reserve_a == 0 || p.reserve_b == 0) {
        AmmError::InsufficientLiquidity
    } else {
        AmmError::MathOverflow
    }
}

/// The pool state after a successful deposit.
pub open spec fn add_liquidity_next(p: Pool, amount_a: u64, amount_b: u64) -> Pool {
    Pool {
        reserve_a: (p.reserve_a + amount_a) as u64,
        reserve_b: (p.reserve_b + amount_b) as u64,
        lp_supply: (p.lp_supply + lp_mint_amount(p, amount_a, amount_b)) as u64,
        ..p
    }
}

/// Slippage boundary: a swap whose minimum equals the computed output
/// succeeds, and the same swap with a minimum one unit higher fails with
/// exactly [`AmmError::InsufficientOutputAmount`].
pub proof fn lemma_slippage_boundary(p: Pool, c: PoolConfig, asset_in: Pubkey, amount_in: u64)
    requires
        c.wf(),
        swap_ok(p, c, asset_in, amount_in, 0),
    ensures
        swap_ok(p, c, asset_in, amount_in, swap_amount_out(p, c, asset_in, amount_in) as u64),
        !swap_ok(
            p,
            c,
            asset_in,
            amount_in,
            (swap_amount_out(p, c, asset_in, amount_in) + 1) as u64,
        ),
        swap_err(
            p,
            c,
            asset_in,
            amount_in,
            (swap_amount_out(p, c, asset_in, amount_in) + 1) as u64,
        ) == AmmError::InsufficientOutputAmount,
{
    lemma_output_below_reserve(
        amount_in as int,
        reserve_in_of(p, asset_in),
        reserve_out_of(p, asset_in),
        c.fee_numerator as int,
        c.fee_denominator as int,
    );
}

/// Product non-decrease net of fee, at the level of the state machine: a
/// successful swap with a positive fee never lowers the product of the two
/// reserves.
pub proof fn lemma_swap_preserves_product(
    p: Pool,
    c: PoolConfig,
    asset_in: Pubkey,
    amount_in: u64,
    min_amount_out: u64,
)
    requires
        c.wf(),
        c.fee_numerator > 0,
        swap_ok(p, c, asset_in, amount_in, min_amount_out),
    ensures
        reserve_in_of(swap_next(p, c, asset_in, amount_in), asset_in) * reserve_out_of(
            swap_next(p, c, asset_in, amount_in),
            asset_in,
        ) >= reserve_in_of(p, asset_in) * reserve_out_of(p, asset_in),
{
    let rin = reserve_in_of(p, asset_in);
    let rout = reserve_out_of(p, asset_in);
    lemma_output_below_reserve(
        amount_in as int,
        rin,
        rout,
        c.fee_numerator as int,
        c.fee_denominator as int,
    );
    lemma_product_non_decrease(
        amount_in as int,
        rin,
        rout,
        c.fee_numerator as int,
        c.fee_denominator as int,
    );
}

impl Pool {
    /// Well-formedness: canonical asset order, and a pool with issued supply
    /// never has an empty reserve.
    pub open spec fn wf(self) -> bool {
        &&& key_lt(self.asset_a, self.asset_b)
        &&& self.lp_supply > 0 ==> self.reserve_a > 0 && self.reserve_b > 0
    }

    /// Creates the market's pool with its initial deposit. The first
    /// provider's ownership units equal the asset-A amount — a deliberate
    /// simplification, not a general bonding-curve share price.
    ///
    /// Fails with [`AmmError::InvalidAmount`] unless both amounts are
    /// positive.
    pub fn create(config: &PoolConfig, reserve_a_in: u64, reserve_b_in: u64) -> (r: Result<
        Pool,
        AmmError,
    >)
        requires
            config.wf(),
        ensures
            r is Ok <==> reserve_a_in > 0 && reserve_b_in > 0,
            r matches Ok(p) ==> p.wf() && p == (Pool {
                asset_a: config.asset_a,
                asset_b: config.asset_b,
                reserve_a: reserve_a_in,
                reserve_b: reserve_b_in,
                lp_supply: reserve_a_in,
            }),
            r matches Err(e) ==> e == AmmError::InvalidAmount,
    {
        if reserve_a_in == 0 || reserve_b_in == 0 {
            return Err(AmmError::InvalidAmount);
        }
        Ok(
            Pool {
                asset_a: config.asset_a,
                asset_b: config.asset_b,
                reserve_a: reserve_a_in,
                reserve_b: reserve_b_in,
                lp_supply: reserve_a_in,
            },
        )
    }

    /// Swaps `amount_in` of `asset_in` against the pool, mutating the two
    /// reserves. The side paid into is re-derived by comparing `asset_in`
    /// with the canonical `asset_a`, never taken from caller-supplied order.
    ///
    /// On success the input reserve grows by exactly `amount_in`, the output
    /// reserve shrinks by exactly the returned amount and stays positive; on
    /// any failure the pool is unchanged and the error identifies the first
    /// failing validation step.
    pub fn apply_swap(
        &mut self,
        config: &PoolConfig,
        asset_in: Pubkey,
        amount_in: u64,
        min_amount_out: u64,
    ) -> (r: Result<u64, AmmError>)
        requires
            config.wf(),
            old(self).asset_a == config.asset_a,
            old(self).asset_b == config.asset_b,
            asset_in == config.asset_a || asset_in == config.asset_b,
        ensures
            r is Ok <==> swap_ok(*old(self), *config, asset_in, amount_in, min_amount_out),
            r matches Ok(o) ==> o == swap_amount_out(*old(self), *config, asset_in, amount_in)
                && *final(self) == swap_next(*old(self), *config, asset_in, amount_in),
            r is Ok ==> reserve_in_of(*final(self), asset_in) == reserve_in_of(
                *old(self),
                asset_in,
            ) + amount_in,
            r matches Ok(o) ==> reserve_out_of(*final(self), asset_in) == reserve_out_of(
                *old(self),
                asset_in,
            ) - o && reserve_out_of(*final(self), asset_in) > 0,
            r is Ok ==> final(self).lp_supply == old(self).lp_supply && final(self).asset_a
                == old(self).asset_a && final(self).asset_b == old(self).asset_b,
            r is Ok && old(self).wf() ==> final(self).wf(),
            r matches Err(e) ==> e == swap_err(
                *old(self),
                *config,
                asset_in,
                amount_in,
                min_amount_out,
            ) && *final(self) == *old(self),
    {
        let pays_into_a = asset_in == self.asset_a;
        let reserve_in: u64 = if pays_into_a {
            self.reserve_a
        } else {
            self.reserve_b
        };
        let reserve_out: u64 = if pays_into_a {
            self.reserve_b
        } else {
            self.reserve_a
        };
        if amount_in == 0 {
            return Err(AmmError::InvalidAmount);
        }
        if reserve_in == 0 || reserve_out == 0 {
            return Err(AmmError::InsufficientLiquidity);
        }
        let amount_out: u64 = match compute_output(
            amount_in,
            reserve_in,
            reserve_out,
            config.fee_numerator,
            config.fee_denominator,
        ) {
            Ok(o) => o,
            Err(e) => {
                return Err(e);
            },
        };
        if amount_out < min_amount_out {
            return Err(AmmError::InsufficientOutputAmount);
        }
        // Full-drain guard demanded by the state machine; the pricing bound
        // `amount_out < reserve_out` makes it unreachable.
        if amount_out >= reserve_out {
            return Err(AmmError::InsufficientLiquidity);
        }
        let new_reserve_in: u64 = match reserve_in.checked_add(amount_in) {
            Some(v) => v,
            None => {
                return Err(AmmError::MathOverflow);
            },
        };
        let new_reserve_out: u64 = reserve_out - amount_out;
        if pays_into_a {
            self.reserve_a = new_reserve_in;
            self.reserve_b = new_reserve_out;
        } else {
            self.reserve_b = new_reserve_in;
            self.reserve_a = new_reserve_out;
        }
        Ok(amount_out)
    }

    /// Deposits `(amount_a, amount_b)` into the reserves and returns the
    /// ownership units minted for the deposit, per [`lp_mint_amount`].
    ///
    /// On any failure the pool is unchanged.
    pub fn apply_add_liquidity(&mut self, amount_a: u64, amount_b: u64) -> (r: Result<
        u64,
        AmmError,
    >)
        ensures
            r is Ok <==> add_liquidity_ok(*old(self), amount_a, amount_b),
            r matches Ok(m) ==> m == lp_mint_amount(*old(self), amount_a, amount_b) && *final(self)
                == add_liquidity_next(*old(self), amount_a, amount_b),
            r is Ok && old(self).wf() && old(self).lp_supply > 0 ==> final(self).wf(),
            r is Ok && old(self).wf() && amount_a > 0 && amount_b > 0 ==> final(self).wf(),
            r matches Err(e) ==> e == add_liquidity_err(*old(self), amount_a, amount_b)
                && *final(self) == *old(self),
    {
        let minted: u64;
        if self.lp_supply == 0 {
            minted = amount_a;
        } else {
            if self.reserve_a == 0 || self.reserve_b == 0 {
                return Err(AmmError::InsufficientLiquidity);
            }
            let share_a: u64 = match amount_a.checked_mul(self.lp_supply) {
                Some(v) => v / self.reserve_a,
                None => {
                    return Err(AmmError::MathOverflow);
                },
            };
            let share_b: u64 = match amount_b.checked_mul(self.lp_supply) {
                Some(v) => v / self.reserve_b,
                None => {
                    return Err(AmmError::MathOverflow);
                },
            };
            minted = if share_a <= share_b {
                share_a
            } else {
                share_b
            };
        }
        let new_reserve_a: u64 = match self.reserve_a.checked_add(amount_a) {
            Some(v) => v,
            None => {
                return Err(AmmError::MathOverflow);
            },
        };
        let new_reserve_b: u64 = match self.reserve_b.checked_add(amount_b) {
            Some(v) => v,
            None => {
                return Err(AmmError::MathOverflow);
            },
        };
        let new_lp_supply: u64 = match self.lp_supply.checked_add(minted) {
            Some(v) => v,
            None => {
                return Err(AmmError::MathOverflow);
            },
        };
        self.reserve_a = new_reserve_a;
        self.reserve_b = new_reserve_b;
        self.lp_supply = new_lp_supply;
        Ok(minted)
    }
}

} // verus!
