use binance_btc::aggregate::{AggregateError, HigherTfPlan, plan_higher_tf};

#[test]
fn groups_four_bars_into_one() {
    let plan = plan_higher_tf(4, 4).expect("ok");
    match plan {
        HigherTfPlan::Groups(groups) => {
            assert_eq!(groups.len(), 1);
            // The group opens on the first bar and closes on the fourth.
            assert_eq!(groups[0], (0, 4));
        }
        HigherTfPlan::Unchanged => panic!("expected groups"),
    }
}

#[test]
fn drops_trailing_incomplete_group() {
    let plan = plan_higher_tf(9, 4).expect("ok");
    // 9 / 4 = 2 complete groups; trailing 1 bar dropped
    assert_eq!(plan, HigherTfPlan::Groups(vec![(0, 4), (4, 8)]));
}

#[test]
fn factor_one_returns_clone() {
    assert_eq!(plan_higher_tf(5, 1), Ok(HigherTfPlan::Unchanged));
}

#[test]
fn factor_zero_errors() {
    assert!(plan_higher_tf(4, 0).is_err());
    assert_eq!(plan_higher_tf(4, 0), Err(AggregateError::ZeroFactor));
}

#[test]
fn too_few_candles_for_factor_errors() {
    assert!(plan_higher_tf(3, 4).is_err());
    assert_eq!(plan_higher_tf(3, 4), Err(AggregateError::TooFewCandles { candles: 3, factor: 4 }));
}

#[test]
fn zero_candles_with_factor_one_errors() {
    assert_eq!(plan_higher_tf(0, 1), Err(AggregateError::TooFewCandles { candles: 0, factor: 1 }));
    assert_eq!(plan_higher_tf(1, 1), Ok(HigherTfPlan::Unchanged));
}

#[test]
fn exact_multiple_keeps_every_bar() {
    assert_eq!(plan_higher_tf(6, 3), Ok(HigherTfPlan::Groups(vec![(0, 3), (3, 6)])));
}

use binance_btc::aggregate::fifteen_minute_groups;

fn minute_closes(start: i64, count: i64) -> Vec<i64> {
    (0..count).map(|k| start + 60 * (k + 1)).collect()
}

#[test]
fn full_quarter_hours_become_groups() {
    // Bars closing at 00:01 .. 00:30 fill two whole quarter hours.
    let closes = minute_closes(1_704_067_200, 30);
    assert_eq!(fifteen_minute_groups(&closes), vec![(0, 15), (15, 30)]);
}

#[test]
fn incomplete_quarter_hours_are_dropped() {
    let mut closes = minute_closes(1_704_067_200, 15);
    closes.remove(7);
    closes.extend(minute_closes(1_704_067_200 + 900, 15));
    closes.extend(minute_closes(1_704_067_200 + 1800, 3));
    assert_eq!(fifteen_minute_groups(&closes), vec![(14, 29)]);
    assert!(fifteen_minute_groups(&[]).is_empty());
}

#[test]
fn a_bucket_split_by_another_is_two_runs() {
    let mut closes = minute_closes(0, 10);
    closes.push(1_000_000);
    closes.extend(minute_closes(600, 5));
    assert!(fifteen_minute_groups(&closes).is_empty());
}
