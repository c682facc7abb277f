use orki_gateway::{calculate_fee, ErrorCode, FeeSplit};

#[test]
fn one_percent_of_ten_thousand() {
    assert_eq!(calculate_fee(10000, 100), Ok(FeeSplit { fee: 100, merchant_amount: 9900 }));
}

#[test]
fn fee_rounds_down() {
    assert_eq!(calculate_fee(199, 100), Ok(FeeSplit { fee: 1, merchant_amount: 198 }));
    assert_eq!(calculate_fee(99, 100), Ok(FeeSplit { fee: 0, merchant_amount: 99 }));
}

#[test]
fn zero_rate_takes_nothing() {
    assert_eq!(calculate_fee(500, 0), Ok(FeeSplit { fee: 0, merchant_amount: 500 }));
}

#[test]
fn full_rate_takes_everything() {
    assert_eq!(calculate_fee(500, 10000), Ok(FeeSplit { fee: 500, merchant_amount: 0 }));
}

#[test]
fn largest_amount_does_not_overflow() {
    assert_eq!(
        calculate_fee(u64::MAX, 10000),
        Ok(FeeSplit { fee: u64::MAX, merchant_amount: 0 })
    );
    let fee = ((u64::MAX as u128) * 9999 / 10000) as u64;
    assert_eq!(
        calculate_fee(u64::MAX, 9999),
        Ok(FeeSplit { fee, merchant_amount: u64::MAX - fee })
    );
    assert_eq!(fee, 18444899399302180659);
}

#[test]
fn rate_above_whole_fails_only_when_fee_exceeds_amount() {
    assert_eq!(calculate_fee(1, 20000), Err(ErrorCode::CalculationError));
    assert_eq!(calculate_fee(u64::MAX, u16::MAX), Err(ErrorCode::CalculationError));
    assert_eq!(calculate_fee(1, 10001), Ok(FeeSplit { fee: 1, merchant_amount: 0 }));
}

#[test]
fn split_adds_up_over_a_grid() {
    let amounts: [u64; 8] = [1, 2, 9, 10000, 10001, 123456789, u64::MAX - 1, u64::MAX];
    let rates: [u16; 7] = [0, 1, 99, 100, 5000, 9999, 10000];
    for &amount in amounts.iter() {
        for &bps in rates.iter() {
            let split = calculate_fee(amount, bps).unwrap();
            assert_eq!(split.fee as u128 + split.merchant_amount as u128, amount as u128);
            assert_eq!(split.fee as u128, amount as u128 * bps as u128 / 10000);
        }
    }
}
