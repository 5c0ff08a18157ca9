//! The keeper's fee and the rest of a refund add up to the refund.

use fluxora_stream::lifecycle::compute_keeper_fee_split;

#[test]
fn test_keeper_fee_split_gross_zero() {
    // gross == 0 returns (0, 0)
    let (fee, refund) = compute_keeper_fee_split(0, 5000);
    assert_eq!(fee, 0);
    assert_eq!(refund, 0);
    assert_eq!(fee + refund, 0);
}

#[test]
fn test_keeper_fee_split_bps_zero() {
    // bps == 0 allocates the full amount to the protocol remainder (refund)
    let gross = 1000_i128;
    let (fee, refund) = compute_keeper_fee_split(gross, 0);
    assert_eq!(fee, 0);
    assert_eq!(refund, gross);
    assert_eq!(fee + refund, gross);
}

#[test]
fn test_keeper_fee_split_bps_max() {
    // bps == 10_000 allocates the full amount to the keeper fee
    let gross = 1000_i128;
    let (fee, refund) = compute_keeper_fee_split(gross, 10_000);
    assert_eq!(fee, gross);
    assert_eq!(refund, 0);
    assert_eq!(fee + refund, gross);
}

#[test]
fn test_keeper_fee_split_representative_combinations() {
    // Rounding validation: truncating towards zero
    // 9 * 5_000 / 10_000 = 4.5 -> rounds to 4. refund = 9 - 4 = 5.
    let (fee, refund) = compute_keeper_fee_split(9, 5000);
    assert_eq!(fee, 4);
    assert_eq!(refund, 5);
    assert_eq!(fee + refund, 9);

    // 1000 * 250 / 10_000 = 25. refund = 975.
    let (fee, refund) = compute_keeper_fee_split(1000, 250);
    assert_eq!(fee, 25);
    assert_eq!(refund, 975);
    assert_eq!(fee + refund, 1000);

    // 12345 * 123 / 10_000 = 151.8435 -> rounds to 151. refund = 12345 - 151 = 12194.
    let (fee, refund) = compute_keeper_fee_split(12345, 123);
    assert_eq!(fee, 151);
    assert_eq!(refund, 12194);
    assert_eq!(fee + refund, 12345);
}

#[test]
fn test_keeper_fee_split_large_gross_near_max() {
    // Test near i128::MAX. These calculations must not overflow or panic.
    let large_gross_values = [i128::MAX, i128::MAX - 1, i128::MAX - 10000, i128::MAX / 2];

    let bps_values = [0, 1, 10, 100, 1000, 5000, 9999, 10000];

    for &gross in large_gross_values.iter() {
        for &bps in bps_values.iter() {
            let (fee, refund) = compute_keeper_fee_split(gross, bps);

            // Assert conservation invariant holds exactly
            assert_eq!(
                fee + refund,
                gross,
                "Conservation failed for gross = {}, bps = {}",
                gross,
                bps
            );

            // Assert fee is bounded by gross
            assert!(
                fee <= gross,
                "Fee {} exceeded gross {} for bps {}",
                fee,
                gross,
                bps
            );
            assert!(fee >= 0, "Fee cannot be negative");
            assert!(refund >= 0, "Refund cannot be negative");
        }
    }
}
