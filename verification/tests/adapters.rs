use binance_btc::adapters::{is_valid_kline_limit, next_page_start, MAX_KLINES_PER_REQUEST,
    BinanceExchangeInfo, BinanceExchangeInfoAdapter, BinanceFilter, BinanceSymbol, MissingFilter,
};

fn symbol(name: &str, filters: Vec<BinanceFilter>) -> BinanceSymbol {
    BinanceSymbol { symbol: name.to_string(), filters }
}

fn price(tick: &str) -> BinanceFilter {
    BinanceFilter::PriceFilter { tick_size: tick.to_string() }
}

fn lot(step: &str) -> BinanceFilter {
    BinanceFilter::LotSize { step_size: step.to_string() }
}

#[test]
fn finds_first_symbol_with_matching_name() {
    let info = BinanceExchangeInfo {
        symbols: vec![
            symbol("ETHUSDT", vec![]),
            symbol("BTCUSDT", vec![price("0.10")]),
            symbol("BTCUSDT", vec![price("0.01")]),
        ],
    };
    assert_eq!(BinanceExchangeInfoAdapter::find_symbol(&info, "BTCUSDT"), Some(1));
    assert_eq!(BinanceExchangeInfoAdapter::find_symbol(&info, "ETHUSDT"), Some(0));
    assert_eq!(BinanceExchangeInfoAdapter::find_symbol(&info, "XRPUSDT"), None);
    assert_eq!(BinanceExchangeInfoAdapter::find_symbol(&info, "btcusdt"), None);
}

#[test]
fn selects_tick_and_step_size() {
    let entry = symbol("BTCUSDT", vec![price("0.10"), BinanceFilter::Other, lot("0.001")]);
    assert_eq!(
        BinanceExchangeInfoAdapter::last_filter_values(&entry),
        Ok(("0.10".to_string(), "0.001".to_string()))
    );
}

#[test]
fn later_filters_replace_earlier_ones() {
    let entry = symbol("BTCUSDT", vec![price("0.10"), lot("0.001"), price("0.01"), lot("0.0001")]);
    assert_eq!(
        BinanceExchangeInfoAdapter::last_filter_values(&entry),
        Ok(("0.01".to_string(), "0.0001".to_string()))
    );
}

#[test]
fn missing_tick_size_is_reported_first() {
    let none = symbol("BTCUSDT", vec![]);
    assert_eq!(BinanceExchangeInfoAdapter::last_filter_values(&none), Err(MissingFilter::TickSize));
    let only_lot = symbol("BTCUSDT", vec![lot("0.001")]);
    assert_eq!(BinanceExchangeInfoAdapter::last_filter_values(&only_lot), Err(MissingFilter::TickSize));
}

#[test]
fn missing_step_size_is_reported() {
    let only_price = symbol("BTCUSDT", vec![price("0.10"), BinanceFilter::Other]);
    assert_eq!(BinanceExchangeInfoAdapter::last_filter_values(&only_price), Err(MissingFilter::StepSize));
}

use binance_btc::adapters::{close_time_order, exchange_info_url, klines_url};

#[test]
fn klines_url_with_and_without_times() {
    assert_eq!(
        klines_url("https://api.binance.com/", "BTCUSDT", "15m", 1000, None, None),
        "https://api.binance.com/api/v3/klines?symbol=BTCUSDT&interval=15m&limit=1000"
    );
    assert_eq!(
        klines_url("https://api.binance.com", "BTCUSDT", "1m", 0, Some(1_502_942_400_000), Some(-5)),
        "https://api.binance.com/api/v3/klines?symbol=BTCUSDT&interval=1m&limit=0&startTime=1502942400000&endTime=-5"
    );
    assert_eq!(
        klines_url("http://x//", "A", "1h", 65535, None, Some(i64::MIN)),
        "http://x/api/v3/klines?symbol=A&interval=1h&limit=65535&endTime=-9223372036854775808"
    );
}

#[test]
fn exchange_info_url_trims_trailing_slashes() {
    assert_eq!(
        exchange_info_url("https://testnet.binance.vision///", "BTCUSDT"),
        "https://testnet.binance.vision/api/v3/exchangeInfo?symbol=BTCUSDT"
    );
    assert_eq!(exchange_info_url("", "X"), "/api/v3/exchangeInfo?symbol=X");
}

#[test]
fn kline_limit_bounds() {
    assert!(!is_valid_kline_limit(0));
    assert!(is_valid_kline_limit(1));
    assert!(is_valid_kline_limit(1000));
    assert!(!is_valid_kline_limit(1001));
    assert_eq!(MAX_KLINES_PER_REQUEST, 1000);
}

#[test]
fn next_page_starts_after_full_page_only() {
    assert_eq!(next_page_start(1000, 1_502_942_459_999), Some(1_502_942_460_000));
    assert_eq!(next_page_start(999, 1_502_942_459_999), None);
    assert_eq!(next_page_start(0, 0), None);
    assert_eq!(next_page_start(1000, i64::MAX), Some(i64::MAX));
}

#[test]
fn close_time_order_is_stable() {
    assert_eq!(close_time_order(&[30, 10, 20, 10]), vec![1, 3, 2, 0]);
    assert_eq!(close_time_order(&[]), Vec::<usize>::new());
    assert_eq!(close_time_order(&[1, 2, 3]), vec![0, 1, 2]);
    assert_eq!(close_time_order(&[5, 5, 5]), vec![0, 1, 2]);
    assert_eq!(close_time_order(&[3, 2, 1]), vec![2, 1, 0]);
}
