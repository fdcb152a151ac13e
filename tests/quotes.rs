use clmm_quote::fee::{TransferFee, TransferFeeConfig};
use clmm_quote::instruction::{InstructionBuilder, ProgramIds, SwapParams};
use clmm_quote::accounts::{AccountRecord, KeyedRecord};
use clmm_quote::pool::{AmmConfig, PoolState, SwapIoClmmAdapter};
use clmm_quote::quote::{CurveOutcome, DecimalValue, QuoteCalculator, QuoteParams, SwapMode};
use clmm_quote::types::{Address, ClmmError};
use rust_decimal::Decimal;

fn addr(n: u8) -> Address {
    Address { bytes: [n; 32] }
}

fn pool() -> PoolState {
    let mut bm = [0u64; 16];
    // arrays at -3600, 10800 and 14400 with spacing 60
    for p in [511usize, 515, 516] {
        bm[p / 64] |= 1u64 << (p % 64);
    }
    PoolState {
        amm_config: addr(1),
        token_mint_0: addr(2),
        token_mint_1: addr(3),
        token_vault_0: addr(4),
        token_vault_1: addr(5),
        observation_key: addr(6),
        mint_decimals_0: 6,
        mint_decimals_1: 6,
        tick_spacing: 60,
        tick_current: 12000,
        tick_array_bitmap: bm,
    }
}

fn fee_config(bps: u16, max: u64) -> Option<TransferFeeConfig> {
    let f = TransferFee { epoch: 0, maximum_fee: max, transfer_fee_basis_points: bps };
    Some(TransferFeeConfig { older_transfer_fee: f, newer_transfer_fee: f })
}

fn ready(mint0: Option<TransferFeeConfig>, mint1: Option<TransferFeeConfig>, rate: u32) -> SwapIoClmmAdapter {
    let mut m = SwapIoClmmAdapter::new(addr(10), pool(), addr(11), 5);
    let mut map = vec![
        KeyedRecord { key: addr(1), record: AccountRecord::AmmConfig(AmmConfig { trade_fee_rate: rate }) },
        KeyedRecord { key: addr(2), record: AccountRecord::Mint(mint0) },
        KeyedRecord { key: addr(3), record: AccountRecord::Mint(mint1) },
        KeyedRecord { key: m.tick_array_bitmap_extension(), record: AccountRecord::BitmapExtension(vec![]) },
    ];
    for k in m.get_tick_array_keys() {
        map.push(KeyedRecord { key: k, record: AccountRecord::TickArray(vec![1, 2, 3]) });
    }
    m.update(&map).unwrap();
    m
}

fn params(amount: u64, zero_for_one: bool, mode: SwapMode) -> QuoteParams {
    let (i, o) = if zero_for_one { (addr(2), addr(3)) } else { (addr(3), addr(2)) };
    QuoteParams { amount, input_mint: i, output_mint: o, swap_mode: mode }
}

#[test]
fn exact_in_without_transfer_fees() {
    let m = ready(None, None, 2500);
    let p = params(1_000_000, true, SwapMode::ExactIn);
    let req = QuoteCalculator::curve_request(&m, &p).unwrap();
    assert_eq!(req.amount_specified, 1_000_000);
    assert!(req.zero_for_one);
    assert!(req.base_in);
    let q = QuoteCalculator::calculate_quote(&p, &m, Some(CurveOutcome { other_amount: 996_006, fee_amount: 2_500 }))
        .unwrap();
    assert_eq!(q.in_amount, 1_000_000);
    assert_eq!(q.out_amount, 996_006);
    assert_eq!(q.fee_amount, 2_500);
    assert_eq!(q.fee_mint, addr(2));
    assert_eq!(q.fee_pct, DecimalValue { mantissa: 2500, scale: 6 });
    assert_eq!(Decimal::new(q.fee_pct.mantissa, q.fee_pct.scale), Decimal::new(25, 4));
}

#[test]
fn exact_in_takes_input_transfer_fee_first() {
    let m = ready(fee_config(100, 10_000), None, 500);
    let req = QuoteCalculator::curve_request(&m, &params(1_000_000, true, SwapMode::ExactIn)).unwrap();
    assert_eq!(req.amount_specified, 990_000);
    // the other direction pays the second mint's fee, which is none
    let req = QuoteCalculator::curve_request(&m, &params(1_000_000, false, SwapMode::ExactIn)).unwrap();
    assert_eq!(req.amount_specified, 1_000_000);
    assert!(!req.zero_for_one);
}

#[test]
fn exact_out_grosses_up_for_input_transfer_fee() {
    let m = ready(fee_config(100, 10_000), None, 500);
    let p = params(500_000, true, SwapMode::ExactOut);
    let req = QuoteCalculator::curve_request(&m, &p).unwrap();
    assert_eq!(req.amount_specified, 500_000);
    assert!(!req.base_in);
    let q = m.quote(&p, Some(CurveOutcome { other_amount: 990_000, fee_amount: 300 })).unwrap();
    assert_eq!(q.in_amount, 1_000_000);
    assert_eq!(q.out_amount, 500_000);
    assert_eq!(q.fee_amount, 300);
}

#[test]
fn slippage_scales_the_other_amount() {
    let mut m = ready(None, None, 500);
    m.set_slippage_bps(100);
    let q = m.quote(&params(1_000, true, SwapMode::ExactIn), Some(CurveOutcome { other_amount: 1_999, fee_amount: 1 }))
        .unwrap();
    assert_eq!(q.out_amount, 1_979);
    let q = m.quote(&params(1_000, true, SwapMode::ExactOut), Some(CurveOutcome { other_amount: 1_999, fee_amount: 1 }))
        .unwrap();
    assert_eq!(q.in_amount, 2_019);
}

#[test]
fn exact_in_then_exact_out_round_trip_without_fees() {
    let m = ready(None, None, 0);
    let a = 1_000_000u64;
    let o = 998_000u64;
    let q = m.quote(&params(a, true, SwapMode::ExactIn), Some(CurveOutcome { other_amount: o, fee_amount: 0 })).unwrap();
    assert_eq!(q.out_amount, o);
    let back = params(q.out_amount, true, SwapMode::ExactOut);
    assert_eq!(QuoteCalculator::curve_request(&m, &back).unwrap().amount_specified, o);
    let q2 = m.quote(&back, Some(CurveOutcome { other_amount: a, fee_amount: 0 })).unwrap();
    assert_eq!(q2.in_amount, a);
    assert_eq!(q2.out_amount, o);
}

#[test]
fn quote_before_update_is_not_ready() {
    let m = SwapIoClmmAdapter::new(addr(10), pool(), addr(11), 5);
    let p = params(1_000, true, SwapMode::ExactIn);
    assert_eq!(QuoteCalculator::curve_request(&m, &p), Err(ClmmError::NotReady));
    assert_eq!(m.quote(&p, Some(CurveOutcome { other_amount: 5, fee_amount: 0 })), Err(ClmmError::NotReady));
    assert_eq!(m.quote(&p, None), Err(ClmmError::NotReady));
}

#[test]
fn quote_rejects_foreign_mints() {
    let m = ready(None, None, 0);
    let p = QuoteParams { amount: 1, input_mint: addr(2), output_mint: addr(9), swap_mode: SwapMode::ExactIn };
    assert_eq!(QuoteCalculator::curve_request(&m, &p), Err(ClmmError::InvalidRequest));
    let p = QuoteParams { amount: 1, input_mint: addr(2), output_mint: addr(2), swap_mode: SwapMode::ExactIn };
    assert_eq!(m.quote(&p, None), Err(ClmmError::InvalidRequest));
}

#[test]
fn quote_reports_insufficient_liquidity() {
    let m = ready(None, None, 0);
    assert_eq!(m.quote(&params(1_000, false, SwapMode::ExactIn), None), Err(ClmmError::InsufficientLiquidity));
}

#[test]
fn exact_out_overflow() {
    let mut m = ready(fee_config(100, 10_000), None, 0);
    let q = m.quote(&params(1, true, SwapMode::ExactOut), Some(CurveOutcome { other_amount: u64::MAX, fee_amount: 0 }));
    assert_eq!(q, Err(ClmmError::ArithmeticOverflow));
    m.set_slippage_bps(1);
    let q = m.quote(&params(1, false, SwapMode::ExactOut), Some(CurveOutcome { other_amount: u64::MAX - 5, fee_amount: 0 }));
    assert_eq!(q, Err(ClmmError::ArithmeticOverflow));
}

#[test]
fn swap_accounts_follow_direction() {
    let m = ready(None, None, 0);
    let ids = ProgramIds { token_program: addr(20), token_program_2022: addr(21), memo_program: addr(22) };
    let s = SwapParams {
        source_mint: addr(2),
        destination_mint: addr(3),
        source_token_account: addr(30),
        destination_token_account: addr(31),
    };
    let metas = InstructionBuilder::build_swap_instruction(&m, &s, &ids);
    assert_eq!(metas.len(), 13 + m.down_tick_array_keys.len());
    assert_eq!(metas[0].pubkey, addr(1));
    assert!(!metas[0].is_writable);
    assert_eq!(metas[4].pubkey, addr(4));
    assert_eq!(metas[5].pubkey, addr(5));
    assert_eq!(metas[10].pubkey, addr(2));
    assert_eq!(metas[12].pubkey, m.tick_array_bitmap_extension());
    assert_eq!(metas[13].pubkey, m.down_tick_array_keys[0]);
    let r = SwapParams { source_mint: addr(3), destination_mint: addr(2), ..s };
    let metas = InstructionBuilder::build_swap_instruction(&m, &r, &ids);
    assert_eq!(metas.len(), 13 + m.up_tick_array_keys.len());
    assert_eq!(metas[4].pubkey, addr(5));
    assert_eq!(metas[10].pubkey, addr(3));
    assert_eq!(metas[13].pubkey, m.up_tick_array_keys[0]);
}
