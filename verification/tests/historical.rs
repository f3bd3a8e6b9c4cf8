use binance_btc::historical::{
    BundleBoundsError, BundleLoadError, BundleRowFilter, BundledBtcUsd1m, MAX_BUNDLED_1M_BARS, RowStep,
    bundle_time_bounds, checked_bundle_time_bounds, header_names_timestamp, lowered_header_names_timestamp,
};

fn bundle(from: Option<&str>, to: Option<&str>, all: bool) -> BundledBtcUsd1m {
    BundledBtcUsd1m { from: from.map(str::to_string), to: to.map(str::to_string), all }
}

#[test]
fn all_gives_an_unbounded_window() {
    assert_eq!(bundle_time_bounds(&bundle(None, None, true)).expect("ok"), (None, None));
}

#[test]
fn all_with_range_is_rejected() {
    assert!(matches!(bundle_time_bounds(&bundle(Some("2024-01-01"), None, true)), Err(BundleBoundsError::AllWithRange)));
    assert!(matches!(bundle_time_bounds(&bundle(None, Some("2024-01-01"), true)), Err(BundleBoundsError::AllWithRange)));
}

#[test]
fn no_range_is_rejected() {
    assert!(matches!(bundle_time_bounds(&bundle(None, None, false)), Err(BundleBoundsError::NoRange)));
}

#[test]
fn day_window_runs_from_midnight_to_next_midnight() {
    // 2024-01-01T00:00:00Z = 1704067200; 2024-01-31 ends at 2024-02-01T00:00:00Z = 1706745600.
    let w = bundle_time_bounds(&bundle(Some("2024-01-01"), Some("2024-01-31"), false)).expect("ok");
    assert_eq!(w, (Some(1_704_067_200), Some(1_706_745_600)));
    let same_day = bundle_time_bounds(&bundle(Some(" 2024-01-01 "), Some("2024-01-01"), false)).expect("ok");
    assert_eq!(same_day, (Some(1_704_067_200), Some(1_704_153_600)));
}

#[test]
fn open_ended_windows() {
    assert_eq!(bundle_time_bounds(&bundle(Some("1970-01-02"), None, false)).expect("ok"), (Some(86_400), None));
    assert_eq!(bundle_time_bounds(&bundle(None, Some("1970-01-01"), false)).expect("ok"), (None, Some(86_400)));
}

#[test]
fn invalid_days_name_their_input() {
    match bundle_time_bounds(&bundle(Some("2024-13-01"), Some("2024-01-01"), false)) {
        Err(BundleBoundsError::InvalidDay { input, .. }) => assert_eq!(input, "2024-13-01"),
        other => panic!("unexpected {other:?}"),
    }
    match bundle_time_bounds(&bundle(Some("2024-01-01"), Some("January"), false)) {
        Err(BundleBoundsError::InvalidDay { input, .. }) => assert_eq!(input, "January"),
        other => panic!("unexpected {other:?}"),
    }
}

#[test]
fn to_before_from_is_rejected() {
    assert!(matches!(
        bundle_time_bounds(&bundle(Some("2024-01-02"), Some("2024-01-01"), false)),
        Err(BundleBoundsError::ToBeforeFrom)
    ));
}

#[test]
fn checked_bounds_agree_on_ordinary_days() {
    let b = bundle(Some("2000-01-01"), Some("2030-01-01"), false);
    let checked = checked_bundle_time_bounds(&b).expect("representable");
    assert_eq!(checked.expect("ok"), bundle_time_bounds(&b).expect("ok"));
}

#[test]
fn header_check_is_case_insensitive() {
    assert!(header_names_timestamp("Timestamp,Open,High,Low,Close,Volume"));
    assert!(header_names_timestamp("TIMESTAMP"));
    assert!(!header_names_timestamp("time,open,high,low,close,volume"));
    assert!(lowered_header_names_timestamp("unix_timestamp,open"));
    assert!(!lowered_header_names_timestamp("Timestamp"));
}

#[test]
fn row_filter_keeps_the_window() {
    let mut f = BundleRowFilter::new((Some(100), Some(200)), false);
    assert_eq!(f.step(50), RowStep::Skip);
    assert_eq!(f.step(100), RowStep::Keep);
    assert_eq!(f.step(199), RowStep::Keep);
    assert_eq!(f.step(200), RowStep::Stop);
    assert_eq!(f.kept(), 2);
    assert_eq!(f.finish(), Ok(2));
}

#[test]
fn row_filter_without_rows_fails() {
    let mut f = BundleRowFilter::new((Some(100), None), false);
    assert_eq!(f.step(5), RowStep::Skip);
    assert_eq!(f.finish(), Err(BundleLoadError::NoRowsInRange));
}

#[test]
fn whole_file_load_stops_at_the_cap() {
    let mut f = BundleRowFilter::new((None, None), true);
    for ts in 0..(MAX_BUNDLED_1M_BARS as i64 - 1) {
        assert_eq!(f.step(ts), RowStep::Keep);
    }
    assert_eq!(f.step(i64::MAX), RowStep::KeepThenStop);
    assert_eq!(f.finish(), Ok(MAX_BUNDLED_1M_BARS));
}

#[test]
fn dated_load_fails_past_the_cap() {
    let mut f = BundleRowFilter::new((Some(0), None), false);
    for ts in 0..(MAX_BUNDLED_1M_BARS as i64) {
        assert_eq!(f.step(ts), RowStep::Keep);
    }
    assert_eq!(f.step(1), RowStep::TooMany);
    assert_eq!(f.kept(), MAX_BUNDLED_1M_BARS);
}

use binance_btc::historical::{CsvColumn, csv_candle_fields};

#[test]
fn csv_row_splits_into_six_fields() {
    assert_eq!(
        csv_candle_fields("1325317920.0,4.39,4.39,4.39,4.39,0.455581"),
        Ok(vec!["1325317920.0", "4.39", "4.39", "4.39", "4.39", "0.455581"])
    );
    // The volume field keeps any further columns.
    assert_eq!(csv_candle_fields("1,2,3,4,5,6,7,8"), Ok(vec!["1", "2", "3", "4", "5", "6,7,8"]));
    assert_eq!(csv_candle_fields(",,,,,"), Ok(vec!["", "", "", "", "", ""]));
}

#[test]
fn csv_row_names_first_missing_column() {
    assert_eq!(csv_candle_fields(""), Err(CsvColumn::Open));
    assert_eq!(csv_candle_fields("1325317920"), Err(CsvColumn::Open));
    assert_eq!(csv_candle_fields("1,2"), Err(CsvColumn::High));
    assert_eq!(csv_candle_fields("1,2,3"), Err(CsvColumn::Low));
    assert_eq!(csv_candle_fields("1,2,3,4"), Err(CsvColumn::Close));
    assert_eq!(csv_candle_fields("1,2,3,4,5"), Err(CsvColumn::Volume));
}
