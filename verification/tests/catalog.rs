use serde_json::Value;
use binance_btc::catalog::{
    DESCRIPTION_DEFAULT, DESCRIPTION_DONCHIAN_BREAKOUT, DESCRIPTION_OTHER, JsonTree,
    build_catalog_response, filter_indicator_map, flatten_object_leaves, key_matches_any_filter,
    key_matches_filter, sorted_leaf_paths, strategy_description,
};
use binance_btc::warmup::{NOTE_HIGHER_TF_FIELDS, VwapAnchorMode, WarmupConfig};

fn strings(items: &[&str]) -> Vec<String> {
    items.iter().map(|s| s.to_string()).collect()
}

fn cfg() -> WarmupConfig {
    WarmupConfig {
        ema_fast_period: 9,
        ema_slow_period: 21,
        vwma_lookback: 96,
        atr_period: 14,
        vol_baseline_lookback_bars: 960,
        vp_enabled: false,
        vp_lookback_bars: 96,
        higher_tf_factor: 4,
        vwap_anchor_mode: VwapAnchorMode::UtcDay,
        vwap_rolling_bars: None,
    }
}

#[test]
fn descriptions_for_known_and_unknown_ids() {
    assert_eq!(strategy_description("default"), DESCRIPTION_DEFAULT);
    assert_eq!(strategy_description("donchian_breakout"), DESCRIPTION_DONCHIAN_BREAKOUT);
    assert_eq!(strategy_description("macd_trend"), "MACD line/signal trend-style engine.");
    assert_eq!(strategy_description("nope"), DESCRIPTION_OTHER);
    assert_eq!(strategy_description(""), "Strategy module.");
}

#[test]
fn wildcard_and_empty_filters_match_everything() {
    assert!(key_matches_filter("indicator_snapshot.momentum.rsi_14", "*"));
    assert!(key_matches_filter("anything", ""));
}

#[test]
fn filter_matches_exact_ancestor_and_suffix() {
    let key = "indicator_snapshot.momentum.rsi_14";
    assert!(key_matches_filter(key, key));
    assert!(key_matches_filter(key, "indicator_snapshot"));
    assert!(key_matches_filter(key, "indicator_snapshot.momentum"));
    assert!(key_matches_filter(key, "rsi_14"));
    assert!(key_matches_filter(key, "momentum.rsi_14"));
}

#[test]
fn filter_does_not_match_partial_segments() {
    let key = "indicator_snapshot.momentum.rsi_14";
    assert!(!key_matches_filter(key, "indicator"));
    assert!(!key_matches_filter(key, "momentum"));
    assert!(!key_matches_filter(key, "rsi"));
    assert!(!key_matches_filter(key, "14"));
    assert!(!key_matches_filter("ema_fast", "ema_fast_higher"));
    assert!(!key_matches_filter("ema", "ema."));
}

#[test]
fn any_filter_with_empty_list_keeps_key() {
    assert!(key_matches_any_filter("candle.close", &[]));
    assert!(key_matches_any_filter("candle.close", &strings(&["atr", "candle"])));
    assert!(!key_matches_any_filter("candle.close", &strings(&["atr", "vwma"])));
}

#[test]
fn filter_map_keeps_selected_and_reports_unmatched() {
    let flat = vec![
        ("atr".to_string(), 1),
        ("candle.close".to_string(), 2),
        ("candle.open".to_string(), 3),
        ("vwma".to_string(), 4),
    ];
    let (kept, unmatched) = filter_indicator_map(flat, &strings(&["candle", "nothing", "vwma"]));
    assert_eq!(
        kept,
        vec![("candle.close".to_string(), 2), ("candle.open".to_string(), 3), ("vwma".to_string(), 4)]
    );
    assert_eq!(unmatched, strings(&["nothing"]));
}

#[test]
fn filter_map_without_filters_is_identity() {
    let flat = vec![("b".to_string(), 'x'), ("a".to_string(), 'y')];
    let (kept, unmatched) = filter_indicator_map(flat.clone(), &[]);
    assert_eq!(kept, flat);
    assert!(unmatched.is_empty());
}

#[test]
fn flatten_reports_nested_leaves_with_dot_paths() {
    let tree = JsonTree::Object(vec![
        ("candle".to_string(), JsonTree::Object(vec![("close".to_string(), JsonTree::Leaf(1.5))])),
        ("atr".to_string(), JsonTree::Leaf(0.5)),
        ("empty".to_string(), JsonTree::Object(vec![])),
        (
            "indicator_snapshot".to_string(),
            JsonTree::Object(vec![(
                "momentum".to_string(),
                JsonTree::Object(vec![("rsi_14".to_string(), JsonTree::Leaf(55.0))]),
            )]),
        ),
    ]);
    let mut out = Vec::new();
    flatten_object_leaves("", tree, &mut out);
    assert_eq!(
        out,
        vec![
            ("candle.close".to_string(), 1.5),
            ("atr".to_string(), 0.5),
            ("indicator_snapshot.momentum.rsi_14".to_string(), 55.0),
        ]
    );
}

#[test]
fn flatten_under_prefix_and_root_leaf() {
    let mut out = vec![("x".to_string(), 0)];
    flatten_object_leaves("root", JsonTree::Object(vec![("a".to_string(), JsonTree::Leaf(7))]), &mut out);
    flatten_object_leaves("top", JsonTree::Leaf(9), &mut out);
    flatten_object_leaves("skip", JsonTree::Object(vec![]), &mut out);
    assert_eq!(out, vec![("x".to_string(), 0), ("root.a".to_string(), 7), ("top".to_string(), 9)]);
}

#[test]
fn catalog_annotates_paths() {
    let ids = ["default", "custom"];
    let paths = strings(&["atr", "ema_fast_higher", "indicator_snapshot.momentum.rsi_14", "mystery"]);
    // Document order differs from path order, and `atr` occurs twice.
    let frame = JsonTree::Object(vec![
        ("mystery".to_string(), JsonTree::Leaf(0)),
        (
            "indicator_snapshot".to_string(),
            JsonTree::Object(vec![(
                "momentum".to_string(),
                JsonTree::Object(vec![("rsi_14".to_string(), JsonTree::Leaf(1))]),
            )]),
        ),
        ("atr".to_string(), JsonTree::Leaf(2)),
        ("ema_fast_higher".to_string(), JsonTree::Leaf(3)),
        ("atr".to_string(), JsonTree::Leaf(4)),
    ]);
    let r = build_catalog_response(&ids, frame, &cfg());
    assert!(r.engine_series_semantics.uniform_bar_steps);
    assert_eq!(r.engine_series_semantics.bar_interval_request_field, "bar_interval");
    assert_eq!(r.engine_series_semantics.higher_tf_factor, 4);
    assert_eq!(r.strategies.len(), 2);
    assert_eq!(r.strategies[0].id, "default");
    assert_eq!(r.strategies[0].description, DESCRIPTION_DEFAULT);
    assert_eq!(r.strategies[1].description, DESCRIPTION_OTHER);
    assert_eq!(r.indicator_paths, paths);
    assert_eq!(r.indicators[0].path, "atr");
    assert_eq!(r.indicators[0].min_bars_required, Some(15));
    assert_eq!(r.indicators[0].path_note, None);
    assert_eq!(r.indicators[1].min_bars_required, Some(21 * 4 + 4));
    assert_eq!(r.indicators[1].path_note, Some(NOTE_HIGHER_TF_FIELDS));
    assert_eq!(r.indicators[2].min_bars_required, Some(15));
    assert_eq!(r.indicators[3].min_bars_required, None);
}

#[test]
fn flatten_includes_indicator_snapshot_leaf() {
    let leaf = |v: Value| JsonTree::Leaf(v);
    let obj = |kids: Vec<(&str, JsonTree<Value>)>| {
        JsonTree::Object(kids.into_iter().map(|(k, v)| (k.to_string(), v)).collect())
    };
    let frame = obj(vec![
        (
            "candle",
            obj(vec![
                ("close_time", leaf(Value::from(1_767_226_500_000_i64))),
                ("open", leaf(Value::from(1.0))),
                ("close", leaf(Value::from(1.5))),
                ("delta", leaf(Value::Null)),
            ]),
        ),
        ("ema_fast", leaf(Value::Null)),
        ("vp_poc", leaf(Value::Null)),
        ("indicator_snapshot", obj(vec![("momentum", obj(vec![("rsi_14", leaf(Value::Null))]))])),
    ]);
    let mut m = Vec::new();
    flatten_object_leaves("", frame, &mut m);
    let keys: Vec<&str> = m.iter().map(|(k, _)| k.as_str()).collect();
    assert!(keys.contains(&"indicator_snapshot.momentum.rsi_14") || keys.iter().any(|k| k.ends_with(".rsi_14")));
    assert!(keys.contains(&"candle.close_time"));
}

#[test]
fn sorted_leaf_paths_are_distinct_and_increasing() {
    let entries = vec![
        ("b.x".to_string(), 1),
        ("a".to_string(), 2),
        ("b".to_string(), 3),
        ("a".to_string(), 4),
        ("B".to_string(), 5),
        ("b.x".to_string(), 6),
    ];
    assert_eq!(sorted_leaf_paths(&entries), strings(&["B", "a", "b", "b.x"]));
    assert!(sorted_leaf_paths::<u8>(&Vec::new()).is_empty());
}
