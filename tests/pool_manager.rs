use clmm_quote::fee::{TransferFee, TransferFeeConfig};
use clmm_quote::accounts::{AccountRecord, KeyedRecord};
use clmm_quote::neighborhood::nearest_tick_array_starts;
use clmm_quote::pool::{AmmConfig, PoolState, SwapIoClmmAdapter};
use clmm_quote::types::{Address, ClmmError};
use solana_sdk::pubkey::Pubkey;

fn addr(n: u8) -> Address {
    Address { bytes: [n; 32] }
}

fn bitmap_with(starts: &[i32], spacing: u16) -> [u64; 16] {
    let c = spacing as i32 * 60;
    let mut bm = [0u64; 16];
    for s in starts {
        let p = (s / c + 512) as usize;
        bm[p / 64] |= 1u64 << (p % 64);
    }
    bm
}

fn pool(tick_current: i32, tick_spacing: u16, starts: &[i32]) -> PoolState {
    PoolState {
        amm_config: addr(1),
        token_mint_0: addr(2),
        token_mint_1: addr(3),
        token_vault_0: addr(4),
        token_vault_1: addr(5),
        observation_key: addr(6),
        mint_decimals_0: 6,
        mint_decimals_1: 9,
        tick_spacing,
        tick_current,
        tick_array_bitmap: bitmap_with(starts, tick_spacing),
    }
}

fn manager(p: PoolState) -> SwapIoClmmAdapter {
    SwapIoClmmAdapter::new(addr(10), p, addr(11), 5)
}

fn full_account_map(m: &SwapIoClmmAdapter) -> Vec<KeyedRecord> {
    let fee = TransferFee { epoch: 0, maximum_fee: 10_000, transfer_fee_basis_points: 100 };
    let mut v = vec![
        KeyedRecord { key: addr(1), record: AccountRecord::AmmConfig(AmmConfig { trade_fee_rate: 2500 }) },
        KeyedRecord { key: addr(2), record: AccountRecord::Mint(None) },
        KeyedRecord {
            key: addr(3),
            record: AccountRecord::Mint(Some(TransferFeeConfig { older_transfer_fee: fee, newer_transfer_fee: fee })),
        },
        KeyedRecord { key: m.tick_array_bitmap_extension(), record: AccountRecord::BitmapExtension(vec![7u8; 8]) },
    ];
    for (i, k) in m.get_tick_array_keys().iter().enumerate() {
        v.push(KeyedRecord { key: *k, record: AccountRecord::TickArray(vec![i as u8; 4]) });
    }
    v
}

#[test]
fn neighborhood_scenario_spacing_one() {
    // with spacing 1 a tick array spans 60 ticks, so 11880, 12480 and 12960 are starts
    let p = pool(12000, 1, &[11880, 12480, 12960]);
    assert_eq!(nearest_tick_array_starts(&p, 2, false), Ok(vec![12480, 12960]));
    assert_eq!(nearest_tick_array_starts(&p, 2, true), Ok(vec![11880]));
    assert_eq!(nearest_tick_array_starts(&p, 0, false), Ok(vec![]));
}

#[test]
fn neighborhood_scenario_spacing_sixty() {
    // with spacing 60 the array containing tick 12000 starts at 10800
    let p = pool(12000, 60, &[7200, 14400, 18000, 21600]);
    assert_eq!(nearest_tick_array_starts(&p, 2, false), Ok(vec![14400, 18000]));
    assert_eq!(nearest_tick_array_starts(&p, 5, false), Ok(vec![14400, 18000, 21600]));
    assert_eq!(nearest_tick_array_starts(&p, 2, true), Ok(vec![7200]));
}

#[test]
fn neighborhood_shares_initialized_current_array() {
    let p = pool(12000, 60, &[3600, 10800, 14400]);
    assert_eq!(nearest_tick_array_starts(&p, 3, false), Ok(vec![10800, 14400]));
    assert_eq!(nearest_tick_array_starts(&p, 3, true), Ok(vec![10800, 3600]));
    let m = manager(p);
    let keys = m.get_tick_array_keys();
    // the shared array is fetched once
    assert_eq!(keys.len(), 3);
    assert_eq!(keys[0], m.tick_array(10800));
    assert_eq!(keys[1], m.tick_array(14400));
    assert_eq!(keys[2], m.tick_array(3600));
}

#[test]
fn neighborhood_without_initialized_arrays_keeps_current() {
    let p = pool(-100, 10, &[]);
    assert_eq!(nearest_tick_array_starts(&p, 5, false), Ok(vec![-600]));
    assert_eq!(nearest_tick_array_starts(&p, 5, true), Ok(vec![-600]));
    assert_eq!(manager(p).get_tick_array_keys().len(), 1);
}

#[test]
fn neighborhood_lists_bounded_and_distinct() {
    let starts: Vec<i32> = (-20..20).map(|i| i * 600).collect();
    let p = pool(55, 10, &starts);
    for n in 0u8..8 {
        for dir in [false, true] {
            let v = nearest_tick_array_starts(&p, n, dir).unwrap();
            assert!(v.len() <= n as usize);
            for w in v.windows(2) {
                assert!(if dir { w[1] < w[0] } else { w[1] > w[0] });
            }
        }
    }
}

#[test]
fn neighborhood_unrepresentable_tick() {
    let p = pool(40000, 1, &[0]);
    assert_eq!(nearest_tick_array_starts(&p, 5, false), Err(ClmmError::UnrepresentableRange));
    let m = manager(p);
    assert!(m.get_tick_array_keys().is_empty());
    assert!(!m.is_active());
    assert_eq!(m.get_nearest_tick_arrays(5), Err(ClmmError::UnrepresentableRange));
    assert_eq!(m.get_first_initialized_tick_array(true), Err(ClmmError::UnrepresentableRange));
}

#[test]
fn first_initialized_tick_array() {
    let m = manager(pool(12000, 60, &[3600, 14400]));
    assert_eq!(m.get_first_initialized_tick_array(false), Ok((false, 14400)));
    assert_eq!(m.get_first_initialized_tick_array(true), Ok((false, 3600)));
    let m = manager(pool(12000, 60, &[10800]));
    assert_eq!(m.get_first_initialized_tick_array(false), Ok((true, 10800)));
    assert_eq!(m.next_initialized_tick_array_start_index(10800, false), None);
}

#[test]
fn addresses_are_program_derived() {
    let m = manager(pool(0, 60, &[0]));
    let program = Pubkey::new_from_array([11; 32]);
    let expected = Pubkey::find_program_address(
        &[b"tick_array".as_ref(), [10u8; 32].as_ref(), (-3600i32).to_be_bytes().as_ref()],
        &program,
    )
    .0;
    assert_eq!(m.tick_array(-3600).bytes, expected.to_bytes());
    assert_ne!(m.tick_array(-3600), m.tick_array(0));
    assert_ne!(m.tick_array(0), addr(11));
    let ext = Pubkey::find_program_address(
        &[b"pool_tick_array_bitmap_extension".as_ref(), [10u8; 32].as_ref()],
        &program,
    )
    .0;
    assert_eq!(m.tick_array_bitmap_extension().bytes, ext.to_bytes());
}

#[test]
fn accounts_to_update_list() {
    let m = manager(pool(12000, 60, &[3600, 14400]));
    let a = m.get_accounts_to_update();
    assert_eq!(a[0], addr(1));
    assert_eq!(a[1], addr(2));
    assert_eq!(a[2], addr(3));
    assert_eq!(a[3], m.tick_array_bitmap_extension());
    assert_eq!(a[4..].to_vec(), m.get_tick_array_keys());
    assert_eq!(m.get_reserve_mints(), vec![addr(2), addr(3)]);
    assert_eq!(m.token_a_decimals(), 6);
    assert_eq!(m.token_b_decimals(), 9);
    assert_eq!(m.get_epoch(), 5);
    assert_eq!(m.pool_state().tick_current, 12000);
}

#[test]
fn update_succeeds_with_all_accounts() {
    let mut m = manager(pool(12000, 60, &[3600, 14400]));
    assert!(m.amm_config().is_none());
    let map = full_account_map(&m);
    assert_eq!(m.update(&map), Ok(()));
    assert_eq!(m.amm_config(), Some(AmmConfig { trade_fee_rate: 2500 }));
    let c = m.cache.as_ref().unwrap();
    assert_eq!(c.tickarray_bitmap_extension, vec![7u8; 8]);
    assert_eq!(c.up_tick_arrays, vec![vec![0u8; 4]]);
    assert_eq!(c.down_tick_arrays, vec![vec![1u8; 4]]);
}

#[test]
fn update_reports_missing_account_and_keeps_state() {
    let mut m = manager(pool(12000, 60, &[3600, 14400]));
    let mut map = full_account_map(&m);
    map.remove(0);
    assert_eq!(m.update(&map), Err(ClmmError::MissingAccount(addr(1))));
    assert!(m.cache.is_none());
    // a later good update, then a failing one, keeps the good state
    assert_eq!(m.update(&full_account_map(&m)), Ok(()));
    let last = map.len() - 1;
    let missing = map[last].key;
    map.remove(last);
    let mut full = full_account_map(&m);
    full.retain(|r| r.key != missing);
    assert_eq!(m.update(&full), Err(ClmmError::MissingAccount(missing)));
    assert_eq!(m.amm_config(), Some(AmmConfig { trade_fee_rate: 2500 }));
}

#[test]
fn update_reports_wrong_record_kind() {
    let mut m = manager(pool(12000, 60, &[3600, 14400]));
    let mut map = full_account_map(&m);
    map[1].record = AccountRecord::TickArray(vec![]);
    assert_eq!(m.update(&map), Err(ClmmError::DecodeError(addr(2))));
    assert!(m.cache.is_none());
}

#[test]
fn clone_is_independent() {
    let mut m = manager(pool(12000, 60, &[3600, 14400]));
    let c = m.clone();
    assert_eq!(m.update(&full_account_map(&c)), Ok(()));
    assert!(m.cache.is_some());
    assert!(c.cache.is_none());
}

#[test]
fn update_rejects_fee_rate_above_whole() {
    let mut m = manager(pool(12000, 60, &[3600, 14400]));
    let mut map = full_account_map(&m);
    let fee = TransferFee { epoch: 0, maximum_fee: 1, transfer_fee_basis_points: 10_001 };
    map[2].record = AccountRecord::Mint(Some(TransferFeeConfig { older_transfer_fee: fee, newer_transfer_fee: fee }));
    assert_eq!(m.update(&map), Err(ClmmError::DecodeError(addr(3))));
    assert!(m.cache.is_none());
}

#[test]
fn capability_flags_and_identity() {
    let m = manager(pool(0, 60, &[]));
    assert!(m.supports_exact_out());
    assert!(!m.has_dynamic_accounts());
    assert!(!m.requires_update_for_reserve_mints());
    assert_eq!(m.key(), addr(10));
    assert_eq!(m.program_id(), addr(11));
    assert!(m.is_active());
}
