//! Token transfer fees and their gross-up.
//!
//! A mint may carry two fee settings: the older one, and a newer one that
//! applies from its epoch on. The fee on an amount is that amount times the
//! basis points over ten thousand, rounded up and capped at the maximum fee.
use vstd::prelude::*;
use vstd::arithmetic::div_mod::{lemma_div_is_ordered, lemma_fundamental_div_mod};
use vstd::arithmetic::mul::lemma_mul_inequality;

verus! {

/// Ten thousand basis points make one whole.
pub const ONE_IN_BASIS_POINTS: u16 = 10000;

/// One fee setting of a mint.
#[derive(Clone, Copy, Debug, PartialEq, Eq, Structural)]
pub struct TransferFee {
    /// First epoch in which this setting applies.
    pub epoch: u64,
    /// Cap on the fee of one transfer.
    pub maximum_fee: u64,
    /// Fee rate in basis points.
    pub transfer_fee_basis_points: u16,
}

/// The transfer-fee extension of a mint.
#[derive(Clone, Copy, Debug, PartialEq, Eq, Structural)]
pub struct TransferFeeConfig {
    pub older_transfer_fee: TransferFee,
    pub newer_transfer_fee: TransferFee,
}

impl TransferFee {
    pub open spec fn wf(self) -> bool {
        self.transfer_fee_basis_points <= ONE_IN_BASIS_POINTS
    }
}

impl TransferFeeConfig {
    pub open spec fn wf(self) -> bool {
        self.older_transfer_fee.wf() && self.newer_transfer_fee.wf()
    }

    /// The setting in effect in `epoch`.
    pub open spec fn epoch_fee(self, epoch: u64) -> TransferFee {
        if epoch >= self.newer_transfer_fee.epoch {
            self.newer_transfer_fee
        } else {
            self.older_transfer_fee
        }
    }
}

/// A mint's fee parameters: `None` where the mint has no transfer-fee extension.
pub open spec fn mint_fee_wf(m: Option<TransferFeeConfig>) -> bool {
    match m {
        Some(c) => c.wf(),
        None => true,
    }
}

pub open spec fn ceil_div(n: int, d: int) -> int {
    (n + d - 1) / d
}

pub open spec fn min_int(a: int, b: int) -> int {
    if a <= b { a } else { b }
}

/// The fee that one setting charges on `amount`.
pub open spec fn fee_of(f: TransferFee, amount: int) -> int {
    if f.transfer_fee_basis_points == 0 || amount == 0 {
        0
    } else {
        min_int(ceil_div(amount * f.transfer_fee_basis_points, 10000), f.maximum_fee as int)
    }
}

/// The least amount that leaves `post` once the fee is taken, as one setting
/// computes it; `None` where it does not fit in `u64`.
pub open spec fn pre_fee_amount_of(f: TransferFee, post: int) -> Option<int> {
    let bps = f.transfer_fee_basis_points as int;
    let max = f.maximum_fee as int;
    if bps == 0 {
        Some(post)
    } else if post == 0 {
        Some(0)
    } else if bps == 10000 {
        if max + post <= u64::MAX { Some(max + post) } else { None }
    } else {
        let raw = ceil_div(post * 10000, 10000 - bps);
        if raw - post >= max {
            if post + max <= u64::MAX { Some(post + max) } else { None }
        } else if raw <= u64::MAX {
            Some(raw)
        } else {
            None
        }
    }
}

/// The fee to add to `post` so that `post` remains after the transfer.
pub open spec fn inverse_fee_of(f: TransferFee, post: int) -> Option<int> {
    match pre_fee_amount_of(f, post) {
        Some(pre) => Some(fee_of(f, pre)),
        None => None,
    }
}

/// The transfer fee of a mint in `epoch` on `amount`.
pub open spec fn transfer_fee_spec(m: Option<TransferFeeConfig>, epoch: u64, amount: int) -> int {
    match m {
        Some(c) => fee_of(c.epoch_fee(epoch), amount),
        None => 0,
    }
}

/// The gross-up fee of a mint in `epoch` for a net amount `post`.
pub open spec fn inverse_transfer_fee_spec(m: Option<TransferFeeConfig>, epoch: u64, post: int) -> Option<int> {
    match m {
        Some(c) => inverse_fee_of(c.epoch_fee(epoch), post),
        None => Some(0),
    }
}

/// Relies on spl_token_2022's `TransferFeeConfig::calculate_epoch_fee`: picks
/// the setting in effect in `epoch` and charges it on `amount`, rounding up and
/// capping at the maximum fee.
#[verifier::external_body]
fn calculate_epoch_fee(c: &TransferFeeConfig, epoch: u64, amount: u64) -> (r: Option<u64>)
    requires
        c.wf(),
    ensures
        r == Some(fee_of(c.epoch_fee(epoch), amount as int) as u64),
{
    let conv = |f: &TransferFee| spl_token_2022::extension::transfer_fee::TransferFee {
        epoch: f.epoch.into(),
        maximum_fee: f.maximum_fee.into(),
        transfer_fee_basis_points: f.transfer_fee_basis_points.into(),
    };
    spl_token_2022::extension::transfer_fee::TransferFeeConfig {
        older_transfer_fee: conv(&c.older_transfer_fee),
        newer_transfer_fee: conv(&c.newer_transfer_fee),
        ..Default::default()
    }.calculate_epoch_fee(epoch, amount)
}

/// Relies on spl_token_2022's `TransferFeeConfig::calculate_inverse_epoch_fee`:
/// the fee that the setting in effect in `epoch` charges on the least amount
/// that leaves `post` after the fee, or `None` where that amount overflows.
#[verifier::external_body]
fn calculate_inverse_epoch_fee(c: &TransferFeeConfig, epoch: u64, post: u64) -> (r: Option<u64>)
    requires
        c.wf(),
    ensures
        r == (match inverse_fee_of(c.epoch_fee(epoch), post as int) {
            Some(x) => Some(x as u64),
            None => None::<u64>,
        }),
{
    let conv = |f: &TransferFee| spl_token_2022::extension::transfer_fee::TransferFee {
        epoch: f.epoch.into(),
        maximum_fee: f.maximum_fee.into(),
        transfer_fee_basis_points: f.transfer_fee_basis_points.into(),
    };
    spl_token_2022::extension::transfer_fee::TransferFeeConfig {
        older_transfer_fee: conv(&c.older_transfer_fee),
        newer_transfer_fee: conv(&c.newer_transfer_fee),
        ..Default::default()
    }.calculate_inverse_epoch_fee(epoch, post)
}

proof fn lemma_fee_bounds(f: TransferFee, amount: int)
    requires
        f.wf(),
        0 <= amount,
    ensures
        0 <= fee_of(f, amount) <= f.maximum_fee,
        fee_of(f, amount) <= amount,
{
    if f.transfer_fee_basis_points != 0 && amount != 0 {
        let b = f.transfer_fee_basis_points as int;
        assert(amount * b <= amount * 10000) by (nonlinear_arith)
            requires b <= 10000, amount >= 0;
        assert(0 <= amount * b) by (nonlinear_arith)
            requires b >= 0, amount >= 0;
        lemma_div_is_ordered(amount * b + 9999, amount * 10000 + 9999, 10000);
        assert((amount * 10000 + 9999) / 10000 == amount) by (nonlinear_arith);
        lemma_div_is_ordered(0, amount * b + 9999, 10000);
    }
}

proof fn lemma_fee_monotone(f: TransferFee, x: int, y: int)
    requires
        f.wf(),
        0 <= x <= y,
    ensures
        fee_of(f, x) <= fee_of(f, y),
{
    lemma_fee_bounds(f, x);
    lemma_fee_bounds(f, y);
    if f.transfer_fee_basis_points != 0 && x != 0 {
        let b = f.transfer_fee_basis_points as int;
        lemma_mul_inequality(x, y, b);
        lemma_div_is_ordered(x * b + 9999, y * b + 9999, 10000);
    }
}

/// `ceil_div(n, d)` is at most any `k` with `k * d >= n`.
proof fn lemma_ceil_div_le(n: int, d: int, k: int)
    requires
        0 < d,
        n <= k * d,
    ensures
        ceil_div(n, d) <= k,
{
    lemma_div_is_ordered(n + d - 1, k * d + d - 1, d);
    assert((k * d + d - 1) / d == k) by (nonlinear_arith)
        requires 0 < d;
}

/// `ceil_div(n, d) * d` is at least `n`.
proof fn lemma_ceil_div_ge(n: int, d: int)
    requires
        0 < d,
    ensures
        ceil_div(n, d) * d >= n,
{
    lemma_fundamental_div_mod(n + d - 1, d);
    assert(ceil_div(n, d) * d >= n) by (nonlinear_arith)
        requires
            0 < d,
            n + d - 1 == d * ((n + d - 1) / d) + (n + d - 1) % d,
            0 <= (n + d - 1) % d < d,
            ceil_div(n, d) == (n + d - 1) / d;
}

/// Charging the fee on a net amount grossed up by its inverse fee takes no more
/// than that inverse fee: the gross-up always covers the transfer fee, so at
/// least the net amount arrives.
pub proof fn lemma_gross_up_covers(m: Option<TransferFeeConfig>, epoch: u64, net: u64)
    requires
        mint_fee_wf(m),
        inverse_transfer_fee_spec(m, epoch, net as int) is Some,
    ensures
        transfer_fee_spec(m, epoch, net + inverse_transfer_fee_spec(m, epoch, net as int)->Some_0)
            <= inverse_transfer_fee_spec(m, epoch, net as int)->Some_0,
{
    if let Some(c) = m {
        let f = c.epoch_fee(epoch);
        let post = net as int;
        let pre = pre_fee_amount_of(f, post)->Some_0;
        let inv = fee_of(f, pre);
        lemma_fee_bounds(f, pre);
        let b = f.transfer_fee_basis_points as int;
        if b != 0 && post != 0 && b != 10000 {
            let raw = ceil_div(post * 10000, 10000 - b);
            if raw - post < f.maximum_fee {
                // pre == raw, and the fee on raw is at most raw - post
                lemma_ceil_div_ge(post * 10000, 10000 - b);
                assert((raw - post) * 10000 >= raw * b) by (nonlinear_arith)
                    requires raw * (10000 - b) >= post * 10000;
                lemma_ceil_div_le(raw * b, 10000, raw - post);
            }
        }
        assert(post + inv <= pre);
        lemma_fee_monotone(f, post + inv, pre);
    }
}

/// The transfer fee of a mint in `epoch` on `amount`: zero without a
/// transfer-fee extension.
pub fn get_transfer_fee(m: &Option<TransferFeeConfig>, epoch: u64, amount: u64) -> (r: u64)
    requires
        mint_fee_wf(*m),
    ensures
        r == transfer_fee_spec(*m, epoch, amount as int),
        r <= amount,
        m matches Some(c) ==> r <= c.epoch_fee(epoch).maximum_fee,
        m matches Some(c) ==> c.epoch_fee(epoch).transfer_fee_basis_points == 0 ==> r == 0,
{
    match m {
        Some(c) => {
            proof {
                lemma_fee_bounds(c.epoch_fee(epoch), amount as int);
            }
            match calculate_epoch_fee(c, epoch, amount) {
                Some(fee) => fee,
                None => 0,
            }
        },
        None => 0,
    }
}

/// The fee to add to a net amount `post` so that `post` arrives after the
/// transfer; `None` where the grossed-up amount would overflow `u64`.
pub fn get_transfer_inverse_fee(m: &Option<TransferFeeConfig>, epoch: u64, post: u64) -> (r: Option<u64>)
    requires
        mint_fee_wf(*m),
    ensures
        r == (match inverse_transfer_fee_spec(*m, epoch, post as int) {
            Some(x) => Some(x as u64),
            None => None::<u64>,
        }),
{
    match m {
        Some(c) => calculate_inverse_epoch_fee(c, epoch, post),
        None => Some(0),
    }
}

} // verus!
