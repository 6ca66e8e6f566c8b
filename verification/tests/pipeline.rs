use fetch_analyze::pipeline::{aggregate_outcomes, sequential_join, FailureKind};

#[test]
fn first_failure_wins_whatever_the_second_did() {
    assert_eq!(
        sequential_join(Err(FailureKind::Network), Ok(())),
        Err::<(), FailureKind>(FailureKind::Network)
    );
    assert_eq!(
        sequential_join(Err(FailureKind::Network), Err(FailureKind::Decode)),
        Err::<(), FailureKind>(FailureKind::Network)
    );
}

#[test]
fn second_failure_surfaces_after_first_success() {
    assert_eq!(
        sequential_join(Ok(()), Err(FailureKind::Substrate)),
        Err::<(), FailureKind>(FailureKind::Substrate)
    );
}

#[test]
fn join_succeeds_only_when_both_succeed() {
    assert_eq!(sequential_join::<FailureKind>(Ok(()), Ok(())), Ok(()));
}

#[test]
fn all_chains_succeeding_sum_both_counters() {
    let outcomes: Vec<Result<(u64, u64), FailureKind>> = (1..=10u64).map(|i| Ok((i, 2 * i))).collect();
    // 1 + 2 + ... + 10 = 55.
    assert_eq!(aggregate_outcomes(outcomes), Ok((55, 110)));
}

#[test]
fn empty_outcome_list_sums_to_zero() {
    let outcomes: Vec<Result<(u64, u64), FailureKind>> = vec![];
    assert_eq!(aggregate_outcomes(outcomes), Ok((0, 0)));
}

#[test]
fn one_failed_chain_fails_the_whole_pipeline() {
    let mut outcomes: Vec<Result<(u64, u64), FailureKind>> = (1..=10u64).map(|i| Ok((i, i))).collect();
    outcomes[6] = Err(FailureKind::Decode);
    assert_eq!(aggregate_outcomes(outcomes), Err(FailureKind::Decode));
}

#[test]
fn earliest_failure_is_the_reported_one() {
    let outcomes: Vec<Result<(u64, u64), FailureKind>> = vec![
        Ok((4, 4)),
        Err(FailureKind::Network),
        Ok((9, 9)),
        Err(FailureKind::Substrate),
    ];
    assert_eq!(aggregate_outcomes(outcomes), Err(FailureKind::Network));
}

#[test]
fn each_failure_kind_passes_through() {
    for kind in [FailureKind::Substrate, FailureKind::Network, FailureKind::Decode] {
        let outcomes: Vec<Result<(u64, u64), FailureKind>> = vec![Ok((1, 1)), Err(kind)];
        assert_eq!(aggregate_outcomes(outcomes), Err(kind));
    }
}
