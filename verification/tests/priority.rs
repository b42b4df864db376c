use gas_estimation::gas_price::{EstimatedGasPrice, GasPrice1559};
use gas_estimation::priority::{
    EstimationStep, PriorityWalk, SourceFailure, SourceOutcome,
};

fn sample_price() -> EstimatedGasPrice {
    EstimatedGasPrice {
        legacy: 30_000_000,
        eip1559: Some(GasPrice1559 {
            base_fee_per_gas: 20_000_000,
            max_fee_per_gas: 100_000_000,
            max_priority_fee_per_gas: 2_000_000,
        }),
    }
}

#[test]
fn first_success_wins_and_earlier_failures_stay_recorded() {
    // sources [A, B, C]: A fails at once, B succeeds within budget.
    let walk = PriorityWalk::new(3, 30_000);
    assert_eq!(walk.next_query(), Some(0));
    let step = walk.record(
        SourceOutcome::Failed(SourceFailure::Transport("connection refused".to_string())),
        5,
    );
    let walk = match step {
        EstimationStep::Pending(w) => w,
        EstimationStep::Done(r) => panic!("walk ended early: {r:?}"),
    };
    // A's failure is recorded but the pass goes on to B.
    assert_eq!(walk.failures.len(), 1);
    assert_eq!(walk.next_query(), Some(1));
    let step = walk.record(SourceOutcome::Price(sample_price()), 200);
    // B's value is returned untransformed; C is never queried and A's
    // failure is not surfaced.
    match step {
        EstimationStep::Done(Ok(price)) => assert_eq!(price, sample_price()),
        other => panic!("expected B's price, got {other:?}"),
    }
}

#[test]
fn all_failures_are_surfaced_in_priority_order() {
    // sources [A, B]: both fail.
    let walk = PriorityWalk::new(2, 30_000);
    let step = walk.record(
        SourceOutcome::Failed(SourceFailure::Transport("A is down".to_string())),
        10,
    );
    let walk = match step {
        EstimationStep::Pending(w) => w,
        EstimationStep::Done(r) => panic!("walk ended early: {r:?}"),
    };
    let step = walk.record(
        SourceOutcome::Failed(SourceFailure::Parse("B sent garbage".to_string())),
        10,
    );
    match step {
        EstimationStep::Done(Err(exhausted)) => {
            assert_eq!(
                exhausted.failures,
                vec![
                    SourceFailure::Transport("A is down".to_string()),
                    SourceFailure::Parse("B sent garbage".to_string()),
                ],
            );
        }
        other => panic!("expected an aggregate failure, got {other:?}"),
    }
}

#[test]
fn a_source_that_never_resolves_times_out_the_pass() {
    // one source that does not resolve before the budget elapses: the
    // caller cancels at the deadline and records a timeout that spent
    // the whole budget.
    let walk = PriorityWalk::new(1, 500);
    assert_eq!(walk.next_query(), Some(0));
    let step = walk.record(SourceOutcome::Failed(SourceFailure::Timeout), 500);
    match step {
        EstimationStep::Done(Err(exhausted)) => {
            assert_eq!(exhausted.failures, vec![SourceFailure::Timeout]);
        }
        other => panic!("expected an aggregate failure, got {other:?}"),
    }
    // nothing is left pending: a finished pass carries no further query.
}

#[test]
fn an_exhausted_budget_skips_the_remaining_sources() {
    // two sources, but the first one eats the whole budget.
    let walk = PriorityWalk::new(2, 1_000);
    let step = walk.record(SourceOutcome::Failed(SourceFailure::Timeout), 1_000);
    match step {
        EstimationStep::Done(Err(exhausted)) => {
            assert_eq!(exhausted.failures, vec![SourceFailure::Timeout]);
        }
        other => panic!("expected an aggregate failure, got {other:?}"),
    }
}

#[test]
fn elapsed_time_is_deducted_from_the_budget() {
    let walk = PriorityWalk::new(3, 1_000);
    let step = walk.record(
        SourceOutcome::Failed(SourceFailure::Parse("not a number".to_string())),
        400,
    );
    match step {
        EstimationStep::Pending(w) => {
            assert_eq!(w.remaining_millis, 600);
            assert_eq!(w.next_index, 1);
        }
        other => panic!("expected a pending walk, got {other:?}"),
    }
}

#[test]
fn elapsed_time_beyond_the_budget_saturates() {
    let walk = PriorityWalk::new(3, 1_000);
    let step = walk.record(SourceOutcome::Failed(SourceFailure::Timeout), 5_000);
    match step {
        EstimationStep::Done(Err(exhausted)) => {
            assert_eq!(exhausted.failures.len(), 1);
        }
        other => panic!("expected an aggregate failure, got {other:?}"),
    }
}

#[test]
fn no_sources_means_nothing_to_query() {
    let walk = PriorityWalk::new(0, 30_000);
    assert_eq!(walk.next_query(), None);
    let exhausted = walk.into_failure();
    assert!(exhausted.failures.is_empty());
}

#[test]
fn an_empty_budget_means_nothing_to_query() {
    let walk = PriorityWalk::new(3, 0);
    assert_eq!(walk.next_query(), None);
    assert!(walk.into_failure().failures.is_empty());
}

#[test]
fn a_success_is_returned_even_on_the_last_source() {
    let walk = PriorityWalk::new(1, 30_000);
    let step = walk.record(SourceOutcome::Price(sample_price()), 100);
    match step {
        EstimationStep::Done(Ok(price)) => assert_eq!(price, sample_price()),
        other => panic!("expected the price, got {other:?}"),
    }
}
