//! The quote pipeline: transfer fee off the input, the curve, slippage, and
//! the gross-up for the input mint's transfer fee.
//!
//! The curve computation over the tick arrays happens between two steps:
//! `QuoteCalculator::curve_request` says what to hand to the curve, and
//! `QuoteCalculator::calculate_quote` turns what the curve returned into a
//! quote.
use vstd::prelude::*;
use crate::types::{Address, ClmmError};
use crate::fee::{
    TransferFeeConfig, ceil_div, transfer_fee_spec, inverse_transfer_fee_spec, get_transfer_fee,
    get_transfer_inverse_fee, mint_fee_wf,
};
use crate::pool::{SwapIoClmmAdapter, PoolCache};

verus! {

/// Whether the input or the output amount is fixed.
#[derive(Clone, Copy, Debug, PartialEq, Eq, Structural)]
pub enum SwapMode {
    ExactIn,
    ExactOut,
}

/// A request for a quote.
#[derive(Clone, Copy, Debug)]
pub struct QuoteParams {
    pub amount: u64,
    pub input_mint: Address,
    pub output_mint: Address,
    pub swap_mode: SwapMode,
}

/// A decimal number: `mantissa` times ten to the power of minus `scale`.
#[derive(Clone, Copy, Debug, PartialEq, Eq, Structural)]
pub struct DecimalValue {
    pub mantissa: i64,
    pub scale: u32,
}

/// A quote.
#[derive(Clone, Copy, Debug, PartialEq, Eq)]
pub struct Quote {
    pub in_amount: u64,
    pub out_amount: u64,
    /// Fee the curve charges, in units of the input mint.
    pub fee_amount: u64,
    pub fee_mint: Address,
    /// The pool's trade fee as a fraction.
    pub fee_pct: DecimalValue,
}

/// What to hand to the curve.
#[derive(Clone, Copy, Debug, PartialEq, Eq, Structural)]
pub struct CurveRequest {
    /// The input amount that reaches the pool (exact-in) or the output amount
    /// asked for (exact-out).
    pub amount_specified: u64,
    /// Whether the swap goes from the pool's first mint to its second; the
    /// curve then crosses the tick arrays toward lower prices.
    pub zero_for_one: bool,
    /// Whether the input amount is fixed.
    pub base_in: bool,
}

/// What the curve returned.
#[derive(Clone, Copy, Debug, PartialEq, Eq, Structural)]
pub struct CurveOutcome {
    /// The output amount (exact-in) or the input amount needed (exact-out).
    pub other_amount: u64,
    /// Fee the curve charges.
    pub fee_amount: u64,
}

/// The request is for the pool's pair, in either direction.
pub open spec fn pair_ok(a: SwapIoClmmAdapter, p: QuoteParams) -> bool {
    let m0 = a.pool_state.token_mint_0.bytes@;
    let m1 = a.pool_state.token_mint_1.bytes@;
    (p.input_mint.bytes@ == m0 && p.output_mint.bytes@ == m1) || (p.input_mint.bytes@ == m1 && p.output_mint.bytes@ == m0)
}

pub open spec fn zero_for_one_spec(a: SwapIoClmmAdapter, p: QuoteParams) -> bool {
    p.input_mint.bytes@ == a.pool_state.token_mint_0.bytes@ && p.output_mint.bytes@ == a.pool_state.token_mint_1.bytes@
}

/// Transfer-fee parameters of the input mint.
pub open spec fn input_mint_fee(c: PoolCache, zero_for_one: bool) -> Option<TransferFeeConfig> {
    if zero_for_one { c.mint0 } else { c.mint1 }
}

/// Scales an amount down by the slippage tolerance, rounding down.
pub open spec fn slip_down(x: int, bps: int) -> int {
    x * (10000 - bps) / 10000
}

/// Scales an amount up by the slippage tolerance, rounding up.
pub open spec fn slip_up(x: int, bps: int) -> int {
    ceil_div(x * (10000 + bps), 10000)
}

/// What the curve is to be asked.
pub open spec fn curve_request_spec(a: SwapIoClmmAdapter, p: QuoteParams) -> Result<CurveRequest, ClmmError> {
    if a.cache is None {
        Err(ClmmError::NotReady)
    } else if !pair_ok(a, p) {
        Err(ClmmError::InvalidRequest)
    } else {
        let zfo = zero_for_one_spec(a, p);
        let base_in = p.swap_mode == SwapMode::ExactIn;
        let fee = if base_in {
            transfer_fee_spec(input_mint_fee(a.cache->Some_0, zfo), a.epoch, p.amount as int)
        } else {
            0
        };
        if fee > p.amount {
            Err(ClmmError::ArithmeticUnderflow)
        } else {
            Ok(CurveRequest { amount_specified: (p.amount - fee) as u64, zero_for_one: zfo, base_in })
        }
    }
}

/// The quote for a request, given what the curve returned for it (`None`
/// where the fetched tick arrays could not satisfy it).
pub open spec fn quote_spec(a: SwapIoClmmAdapter, p: QuoteParams, curve: Option<CurveOutcome>) -> Result<Quote, ClmmError> {
    match curve_request_spec(a, p) {
        Err(e) => Err(e),
        Ok(req) => match curve {
            None => Err(ClmmError::InsufficientLiquidity),
            Some(c) => {
                let cache = a.cache->Some_0;
                let fee_pct = DecimalValue { mantissa: cache.amm_config.trade_fee_rate as i64, scale: 6 };
                if req.base_in {
                    Ok(Quote {
                        in_amount: p.amount,
                        out_amount: slip_down(c.other_amount as int, a.slippage_bps as int) as u64,
                        fee_amount: c.fee_amount,
                        fee_mint: p.input_mint,
                        fee_pct,
                    })
                } else {
                    let x = slip_up(c.other_amount as int, a.slippage_bps as int);
                    if x > u64::MAX {
                        Err(ClmmError::ArithmeticOverflow)
                    } else {
                        match inverse_transfer_fee_spec(input_mint_fee(cache, req.zero_for_one), a.epoch, x) {
                            None => Err(ClmmError::ArithmeticOverflow),
                            Some(inv) => if x + inv > u64::MAX {
                                Err(ClmmError::ArithmeticOverflow)
                            } else {
                                Ok(Quote {
                                    in_amount: (x + inv) as u64,
                                    out_amount: p.amount,
                                    fee_amount: c.fee_amount,
                                    fee_mint: p.input_mint,
                                    fee_pct,
                                })
                            },
                        }
                    }
                }
            },
        },
    }
}

fn slip_down_exec(x: u64, bps: u16) -> (r: u64)
    requires
        bps <= 10000,
    ensures
        r == slip_down(x as int, bps as int),
{
    proof {
        let (xi, bi) = (x as int, bps as int);
        assert(0 <= xi * (10000 - bi) <= xi * 10000) by (nonlinear_arith)
            requires 0 <= bi <= 10000, xi >= 0;
        assert(xi * (10000 - bi) / 10000 <= xi) by (nonlinear_arith)
            requires 0 <= xi * (10000 - bi) <= xi * 10000;
    }
    let n: u128 = x as u128 * (10000u128 - bps as u128);
    (n / 10000) as u64
}

fn slip_up_exec(x: u64, bps: u16) -> (r: Option<u64>)
    requires
        bps <= 10000,
    ensures
        slip_up(x as int, bps as int) <= u64::MAX ==> r == Some(slip_up(x as int, bps as int) as u64),
        slip_up(x as int, bps as int) > u64::MAX ==> r is None,
{
    proof {
        let (xi, bi) = (x as int, bps as int);
        assert(0 <= xi * (10000 + bi) <= xi * 20000) by (nonlinear_arith)
            requires 0 <= bi <= 10000, xi >= 0;
    }
    let n: u128 = x as u128 * (10000u128 + bps as u128);
    let q: u128 = (n + 9999) / 10000;
    if q > u64::MAX as u128 {
        None
    } else {
        Some(q as u64)
    }
}

/// Computes quotes for a pool manager.
pub struct QuoteCalculator;

impl QuoteCalculator {
    /// What to hand to the curve for a request: the direction, the mode, and
    /// the amount, with the input mint's transfer fee taken off an exact-in
    /// amount. Fails with `NotReady` before a successful update and with
    /// `InvalidRequest` where the mints are not the pool's pair.
    pub fn curve_request(pool_manager: &SwapIoClmmAdapter, quote_params: &QuoteParams) -> (r: Result<CurveRequest, ClmmError>)
        requires
            pool_manager.wf(),
        ensures
            r == curve_request_spec(*pool_manager, *quote_params),
    {
        let cache = match &pool_manager.cache {
            None => {
                return Err(ClmmError::NotReady);
            },
            Some(c) => c,
        };
        let m0 = pool_manager.pool_state.token_mint_0;
        let m1 = pool_manager.pool_state.token_mint_1;
        let zero_for_one = quote_params.input_mint == m0 && quote_params.output_mint == m1;
        let reverse = quote_params.input_mint == m1 && quote_params.output_mint == m0;
        if !zero_for_one && !reverse {
            return Err(ClmmError::InvalidRequest);
        }
        let base_in = quote_params.swap_mode == SwapMode::ExactIn;
        let amount = quote_params.amount;
        let fee = if base_in {
            if zero_for_one {
                get_transfer_fee(&cache.mint0, pool_manager.epoch, amount)
            } else {
                get_transfer_fee(&cache.mint1, pool_manager.epoch, amount)
            }
        } else {
            0
        };
        match amount.checked_sub(fee) {
            None => Err(ClmmError::ArithmeticUnderflow),
            Some(amount_specified) => Ok(CurveRequest { amount_specified, zero_for_one, base_in }),
        }
    }

    /// The quote for a request, given what the curve returned for the
    /// request that `curve_request` made (`None` where the fetched tick arrays
    /// could not satisfy it). Exact-in: the stated input, and the curve's
    /// output scaled down by the slippage tolerance. Exact-out: the stated
    /// output, and the curve's input scaled up by the slippage tolerance and
    /// grossed up by the input mint's transfer fee.
    pub fn calculate_quote(
        quote_params: &QuoteParams,
        pool_manager: &SwapIoClmmAdapter,
        curve: Option<CurveOutcome>,
    ) -> (r: Result<Quote, ClmmError>)
        requires
            pool_manager.wf(),
        ensures
            r == quote_spec(*pool_manager, *quote_params, curve),
    {
        let req = match Self::curve_request(pool_manager, quote_params) {
            Err(e) => {
                return Err(e);
            },
            Ok(req) => req,
        };
        let c = match curve {
            None => {
                return Err(ClmmError::InsufficientLiquidity);
            },
            Some(c) => c,
        };
        let cache = match &pool_manager.cache {
            None => {
                return Err(ClmmError::NotReady);
            },
            Some(cache) => cache,
        };
        let fee_pct = DecimalValue { mantissa: cache.amm_config.trade_fee_rate as i64, scale: 6 };
        if req.base_in {
            Ok(Quote {
                in_amount: quote_params.amount,
                out_amount: slip_down_exec(c.other_amount, pool_manager.slippage_bps),
                fee_amount: c.fee_amount,
                fee_mint: quote_params.input_mint,
                fee_pct,
            })
        } else {
            let x = match slip_up_exec(c.other_amount, pool_manager.slippage_bps) {
                None => {
                    return Err(ClmmError::ArithmeticOverflow);
                },
                Some(x) => x,
            };
            let inv = if req.zero_for_one {
                get_transfer_inverse_fee(&cache.mint0, pool_manager.epoch, x)
            } else {
                get_transfer_inverse_fee(&cache.mint1, pool_manager.epoch, x)
            };
            let inv = match inv {
                None => {
                    return Err(ClmmError::ArithmeticOverflow);
                },
                Some(inv) => inv,
            };
            match x.checked_add(inv) {
                None => Err(ClmmError::ArithmeticOverflow),
                Some(in_amount) => Ok(Quote {
                    in_amount,
                    out_amount: quote_params.amount,
                    fee_amount: c.fee_amount,
                    fee_mint: quote_params.input_mint,
                    fee_pct,
                }),
            }
        }
    }
}

impl SwapIoClmmAdapter {
    /// The quote for a request with this manager's slippage tolerance; see
    /// `QuoteCalculator::calculate_quote`.
    pub fn quote(&self, quote_params: &QuoteParams, curve: Option<CurveOutcome>) -> (r: Result<Quote, ClmmError>)
        requires
            self.wf(),
        ensures
            r == quote_spec(*self, *quote_params, curve),
    {
        QuoteCalculator::calculate_quote(quote_params, self, curve)
    }
}

/// Before a successful update every quote fails with `NotReady`, whatever the
/// request and whatever the curve returned.
pub proof fn lemma_quote_needs_update(a: SwapIoClmmAdapter, p: QuoteParams, curve: Option<CurveOutcome>)
    requires
        a.cache is None,
    ensures
        quote_spec(a, p, curve) == Err::<Quote, ClmmError>(ClmmError::NotReady),
        curve_request_spec(a, p) == Err::<CurveRequest, ClmmError>(ClmmError::NotReady),
{
}

/// A mint charges no transfer fee in `epoch`.
pub open spec fn fee_free(m: Option<TransferFeeConfig>, epoch: u64) -> bool {
    m matches Some(c) ==> c.epoch_fee(epoch).transfer_fee_basis_points == 0
}

/// Without transfer fees and slippage tolerance the pipeline adds nothing to
/// the curve: an exact-in quote hands the stated input to the curve and
/// reports the curve's output, and an exact-out quote hands the stated output
/// to the curve and reports the curve's input. So where the curve maps an
/// input `A` to an output `O`, and `O` back to `A`, the exact-in quote for `A`
/// yields `O` and the exact-out quote for `O` yields `A`.
pub proof fn lemma_no_fee_round_trip(
    a: SwapIoClmmAdapter,
    p: QuoteParams,
    forward: CurveOutcome,
    backward: CurveOutcome,
)
    requires
        a.wf(),
        a.cache is Some,
        pair_ok(a, p),
        p.swap_mode == SwapMode::ExactIn,
        a.slippage_bps == 0,
        fee_free(a.cache->Some_0.mint0, a.epoch),
        fee_free(a.cache->Some_0.mint1, a.epoch),
    ensures
        curve_request_spec(a, p) matches Ok(req) && req.amount_specified == p.amount && req.base_in,
        quote_spec(a, p, Some(forward)) matches Ok(q) && q.in_amount == p.amount && q.out_amount == forward.other_amount,
        ({
            let back = QuoteParams { amount: forward.other_amount, swap_mode: SwapMode::ExactOut, ..p };
            &&& curve_request_spec(a, back) matches Ok(req) && req.amount_specified == forward.other_amount && !req.base_in
            &&& quote_spec(a, back, Some(backward)) matches Ok(q)
                && q.out_amount == forward.other_amount && q.in_amount == backward.other_amount
        }),
{
    let x = forward.other_amount as int;
    assert(x * (10000 - 0) / 10000 == x) by (nonlinear_arith);
    let y = backward.other_amount as int;
    assert((y * (10000 + 0) + 10000 - 1) / 10000 == y) by (nonlinear_arith);
}

} // verus!
