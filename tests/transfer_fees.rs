use clmm_quote::fee::{get_transfer_fee, get_transfer_inverse_fee, TransferFee, TransferFeeConfig};

fn config(bps: u16, max: u64) -> Option<TransferFeeConfig> {
    let f = TransferFee { epoch: 0, maximum_fee: max, transfer_fee_basis_points: bps };
    Some(TransferFeeConfig { older_transfer_fee: f, newer_transfer_fee: f })
}

#[test]
fn fee_one_percent_under_and_over_cap() {
    let m = config(100, 10_000);
    assert_eq!(get_transfer_fee(&m, 5, 1_000_000), 10_000);
    assert_eq!(get_transfer_fee(&m, 5, 50_000_000), 10_000);
    assert_eq!(get_transfer_fee(&m, 5, 500_000), 5_000);
}

#[test]
fn fee_rounds_up() {
    let m = config(100, 10_000);
    assert_eq!(get_transfer_fee(&m, 5, 101), 2);
    assert_eq!(get_transfer_fee(&m, 5, 1), 1);
    assert_eq!(get_transfer_fee(&m, 5, 0), 0);
}

#[test]
fn fee_zero_without_extension_or_rate() {
    assert_eq!(get_transfer_fee(&None, 5, 1_000_000), 0);
    assert_eq!(get_transfer_fee(&config(0, 10_000), 5, 1_000_000), 0);
    assert_eq!(get_transfer_inverse_fee(&None, 5, 1_000_000), Some(0));
    assert_eq!(get_transfer_inverse_fee(&config(0, 10_000), 5, 1_000_000), Some(0));
}

#[test]
fn fee_setting_follows_epoch() {
    let older = TransferFee { epoch: 0, maximum_fee: 1_000_000, transfer_fee_basis_points: 100 };
    let newer = TransferFee { epoch: 10, maximum_fee: 1_000_000, transfer_fee_basis_points: 200 };
    let m = Some(TransferFeeConfig { older_transfer_fee: older, newer_transfer_fee: newer });
    assert_eq!(get_transfer_fee(&m, 9, 10_000), 100);
    assert_eq!(get_transfer_fee(&m, 10, 10_000), 200);
    assert_eq!(get_transfer_fee(&m, 11, 10_000), 200);
}

#[test]
fn fee_never_exceeds_maximum() {
    let m = config(10_000, 7);
    for amount in [1u64, 6, 7, 8, 1_000, u64::MAX] {
        let f = get_transfer_fee(&m, 0, amount);
        assert!(f <= 7);
        assert!(f <= amount);
    }
}

#[test]
fn inverse_fee_exact_values() {
    let m = config(100, 10_000);
    // 990_000 net needs 1_000_000 gross at one percent
    assert_eq!(get_transfer_inverse_fee(&m, 5, 990_000), Some(10_000));
    // past the cap the gross-up is the maximum fee
    assert_eq!(get_transfer_inverse_fee(&m, 5, 50_000_000), Some(10_000));
    assert_eq!(get_transfer_inverse_fee(&m, 5, 0), Some(0));
    // at ten thousand basis points the fee is the maximum
    assert_eq!(get_transfer_inverse_fee(&config(10_000, 50), 5, 1_000), Some(50));
}

#[test]
fn inverse_fee_overflow_is_none() {
    assert_eq!(get_transfer_inverse_fee(&config(10_000, 50), 5, u64::MAX), None);
    assert_eq!(get_transfer_inverse_fee(&config(5_000, u64::MAX), 5, u64::MAX / 2 + 10), None);
}

#[test]
fn gross_up_covers_fee() {
    for (bps, max) in [(1u16, 1_000u64), (100, 10_000), (250, 3), (9_999, u64::MAX), (10_000, 77)] {
        let m = config(bps, max);
        for net in [1u64, 7, 99, 1_000, 123_457, 10_000_000] {
            let inv = get_transfer_inverse_fee(&m, 0, net).unwrap();
            let fee = get_transfer_fee(&m, 0, net + inv);
            assert!(fee <= inv, "bps {} net {} inv {} fee {}", bps, net, inv, fee);
            assert!(net + inv - fee >= net);
        }
    }
}
