use binance_btc::replay::{plan_signal_chunks, DayChunk, CHUNK_DAYS, WARMUP_DAYS};

#[test]
fn chunks_cover_days_with_warmup() {
    let chunks = plan_signal_chunks(0, 400);
    assert_eq!(
        chunks,
        vec![
            DayChunk { load_start: 0, count_start: 0, end: 179 },
            DayChunk { load_start: 178, count_start: 180, end: 359 },
            DayChunk { load_start: 358, count_start: 360, end: 400 },
        ]
    );
    assert_eq!(CHUNK_DAYS, 180);
    assert_eq!(WARMUP_DAYS, 2);
}

#[test]
fn single_day_and_empty_ranges() {
    assert_eq!(plan_signal_chunks(19_000, 19_000), vec![DayChunk { load_start: 19_000, count_start: 19_000, end: 19_000 }]);
    assert!(plan_signal_chunks(19_001, 19_000).is_empty());
}

#[test]
fn every_day_counted_exactly_once() {
    let (first, last) = (17_000_i64, 17_000 + 3 * 180 + 7);
    let chunks = plan_signal_chunks(first, last);
    for day in first..=last {
        let holders = chunks.iter().filter(|c| c.count_start <= day && day <= c.end).count();
        assert_eq!(holders, 1, "day {day}");
    }
    for c in &chunks {
        assert!(c.load_start >= first && c.count_start - c.load_start <= WARMUP_DAYS);
        assert!(c.end - c.count_start < CHUNK_DAYS);
    }
}
