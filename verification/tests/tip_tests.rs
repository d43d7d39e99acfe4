use solana_smart_stack::jito::JitoExecutor;
use solana_smart_stack::tip::{percentile_75_index, rank_fees, tip_from_fees, BASELINE_TIP_LAMPORTS};

fn executor() -> JitoExecutor {
    JitoExecutor::new("https://rpc.example".to_string(), "https://bundles.example".to_string())
}

#[test]
fn no_fees_gives_the_baseline() {
    assert_eq!(executor().calculate_dynamic_tip(&vec![]), 10_000);
    assert_eq!(BASELINE_TIP_LAMPORTS, 10_000);
}

#[test]
fn percentile_of_four_fees_is_the_largest() {
    // ranked: 1, 5, 20000, 30000; floor(4 * 0.75) = 3
    assert_eq!(executor().calculate_dynamic_tip(&vec![5, 20_000, 30_000, 1]), 30_000);
}

#[test]
fn percentile_below_the_floor_is_raised() {
    assert_eq!(tip_from_fees(&vec![100, 200, 300, 400, 500]), 10_000);
}

#[test]
fn percentile_of_five_fees() {
    // ranked: 10000, 20000, 30000, 40000, 50000; floor(5 * 0.75) = 3
    assert_eq!(tip_from_fees(&vec![50_000, 10_000, 40_000, 20_000, 30_000]), 40_000);
}

#[test]
fn single_fee_is_its_own_percentile() {
    assert_eq!(tip_from_fees(&vec![123_456]), 123_456);
    assert_eq!(tip_from_fees(&vec![9_999]), 10_000);
}

#[test]
fn percentile_index_matches_floating_point_rule() {
    for n in 0usize..2000 {
        let expected = (n as f64 * 0.75).floor() as usize;
        assert_eq!(percentile_75_index(n), expected);
    }
    assert_eq!(percentile_75_index(usize::MAX), usize::MAX / 4 * 3 + 2);
}

#[test]
fn ranking_sorts_ascending_with_duplicates() {
    assert_eq!(rank_fees(&vec![3, 1, 2, 3, 0]), vec![0, 1, 2, 3, 3]);
    assert_eq!(rank_fees(&vec![]), Vec::<u64>::new());
}

#[test]
fn tip_ignores_fee_order() {
    let a = vec![70_000, 15_000, 90_000, 12_000, 11_000, 60_000, 30_000];
    let mut b = a.clone();
    b.reverse();
    assert_eq!(tip_from_fees(&a), tip_from_fees(&b));
    // ranked: 11000 12000 15000 30000 60000 70000 90000; floor(7 * 0.75) = 5
    assert_eq!(tip_from_fees(&a), 70_000);
}

#[test]
fn tip_is_a_reported_fee_or_the_baseline() {
    let fees = vec![40_000, 2, 3, 50_000, 8, 70_000, 1, 12_000];
    let tip = tip_from_fees(&fees);
    assert!(tip == 10_000 || fees.contains(&tip));
    assert!(tip >= 10_000);
}

#[test]
fn raising_fees_never_lowers_the_tip() {
    let a = vec![1, 5, 20_000, 30_000, 12_000];
    let b = vec![2, 50_000, 20_000, 31_000, 12_500];
    assert!(tip_from_fees(&a) <= tip_from_fees(&b));
    assert_eq!(tip_from_fees(&a), 20_000);
    assert_eq!(tip_from_fees(&b), 31_000);
}
