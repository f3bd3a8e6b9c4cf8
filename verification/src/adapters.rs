//! Binance Spot payload shapes and the symbol-filter selection over them.

use vstd::prelude::*;

use vstd::string::{StrSliceExecFns, StringExecFns};

use crate::text::{chars_of, is_prefix_of, is_suffix_of, occurs_at, occurs_in, same_chars};

verus! {

/// Parses `exchangeInfo` payloads into symbol filters.
pub struct BinanceExchangeInfoAdapter;

/// Parses Binance kline CSV exports into candles.
pub struct BinanceKlineCsvAdapter;

/// The `exchangeInfo` payload: the listed symbols.
#[derive(Debug)]
pub struct BinanceExchangeInfo {
    pub symbols: Vec<BinanceSymbol>,
}

/// One listed symbol with its trading filters.
#[derive(Debug)]
pub struct BinanceSymbol {
    pub symbol: String,
    pub filters: Vec<BinanceFilter>,
}

/// A trading filter; only the price tick and the lot step are read.
#[derive(Debug)]
pub enum BinanceFilter {
    PriceFilter { tick_size: String },
    LotSize { step_size: String },
    Other,
}

/// One row of a Binance kline CSV export.
#[derive(Debug)]
pub struct BinanceKlineCsvRow {
    pub open_time: i64,
    pub open: String,
    pub high: String,
    pub low: String,
    pub close: String,
    pub volume: String,
    pub close_time: i64,
    pub quote_asset_volume: Option<String>,
    pub number_of_trades: Option<u64>,
    pub taker_buy_base_volume: Option<String>,
    pub taker_buy_quote_volume: Option<String>,
    pub ignore: Option<String>,
}

/// The first listed symbol named `name`.
pub open spec fn first_symbol_index(symbols: Seq<BinanceSymbol>, name: Seq<char>) -> Option<int> {
    if exists|i: int| 0 <= i < symbols.len() && (#[trigger] symbols[i]).symbol@ == name {
        Some(choose|i: int| 0 <= i < symbols.len() && (#[trigger] symbols[i]).symbol@ == name
            && forall|j: int| 0 <= j < i ==> (#[trigger] symbols[j]).symbol@ != name)
    } else {
        None
    }
}

/// The tick size of the last price filter, if any.
pub open spec fn last_tick_size(filters: Seq<BinanceFilter>) -> Option<String>
    decreases filters.len(),
{
    if filters.len() == 0 {
        None
    } else {
        match filters.last() {
            BinanceFilter::PriceFilter { tick_size } => Some(tick_size),
            _ => last_tick_size(filters.drop_last()),
        }
    }
}

/// The step size of the last lot-size filter, if any.
pub open spec fn last_step_size(filters: Seq<BinanceFilter>) -> Option<String>
    decreases filters.len(),
{
    if filters.len() == 0 {
        None
    } else {
        match filters.last() {
            BinanceFilter::LotSize { step_size } => Some(step_size),
            _ => last_step_size(filters.drop_last()),
        }
    }
}

/// A symbol lacks one of the filters the engine needs.
#[derive(Copy, Clone, Debug, PartialEq, Eq, Structural)]
pub enum MissingFilter {
    /// No `PRICE_FILTER` with a `tickSize`.
    TickSize,
    /// No `LOT_SIZE` with a `stepSize`.
    StepSize,
}

impl BinanceExchangeInfoAdapter {
    /// Index of the first symbol entry named `symbol`.
    pub fn find_symbol(info: &BinanceExchangeInfo, symbol: &str) -> (r: Option<usize>)
        ensures
            r matches Some(i) ==> first_symbol_index(info.symbols@, symbol@) == Some(i as int),
            r is None ==> first_symbol_index(info.symbols@, symbol@) is None,
    {
        let name = chars_of(symbol);
        let mut i: usize = 0;
        while i < info.symbols.len()
            invariant
                name@ == symbol@,
                i <= info.symbols@.len(),
                forall|j: int| 0 <= j < i ==> (#[trigger] info.symbols@[j]).symbol@ != symbol@,
            decreases info.symbols.len() - i,
        {
            let candidate = chars_of(info.symbols[i].symbol.as_str());
            if same_chars(candidate.as_slice(), name.as_slice()) {
                proof {
                    let w = choose|k: int| 0 <= k < info.symbols@.len() && (#[trigger] info.symbols@[k]).symbol@ == symbol@
                        && forall|j: int| 0 <= j < k ==> (#[trigger] info.symbols@[j]).symbol@ != symbol@;
                    assert(0 <= i < info.symbols@.len() && info.symbols@[i as int].symbol@ == symbol@);
                    if w < i {
                        assert(info.symbols@[w].symbol@ != symbol@);
                    } else if w > i {
                        assert(info.symbols@[i as int].symbol@ != symbol@);
                    }
                }
                return Some(i);
            }
            i = i + 1;
        }
        None
    }

    /// The tick size of the symbol's last `PRICE_FILTER` and the step size of
    /// its last `LOT_SIZE`; a missing tick size is reported before a missing
    /// step size.
    pub fn last_filter_values(entry: &BinanceSymbol) -> (r: Result<(String, String), MissingFilter>)
        ensures
            last_tick_size(entry.filters@) is None ==> r == Err::<(String, String), MissingFilter>(MissingFilter::TickSize),
            last_tick_size(entry.filters@) is Some && last_step_size(entry.filters@) is None
                ==> r == Err::<(String, String), MissingFilter>(MissingFilter::StepSize),
            r is Ok <==> (last_tick_size(entry.filters@) is Some && last_step_size(entry.filters@) is Some),
            r matches Ok(v) ==> Some(v.0) == last_tick_size(entry.filters@) && Some(v.1) == last_step_size(entry.filters@),
    {
        let mut tick_size: Option<String> = None;
        let mut lot_step: Option<String> = None;
        let mut i: usize = 0;
        while i < entry.filters.len()
            invariant
                i <= entry.filters@.len(),
                tick_size == last_tick_size(entry.filters@.take(i as int)),
                lot_step == last_step_size(entry.filters@.take(i as int)),
            decreases entry.filters.len() - i,
        {
            assert(entry.filters@.take(i + 1).drop_last() =~= entry.filters@.take(i as int));
            match &entry.filters[i] {
                BinanceFilter::PriceFilter { tick_size: value } => {
                    tick_size = Some(value.clone());
                },
                BinanceFilter::LotSize { step_size: value } => {
                    lot_step = Some(value.clone());
                },
                BinanceFilter::Other => {},
            }
            i = i + 1;
        }
        assert(entry.filters@.take(entry.filters@.len() as int) =~= entry.filters@);
        match tick_size {
            None => Err(MissingFilter::TickSize),
            Some(t) => match lot_step {
                None => Err(MissingFilter::StepSize),
                Some(s) => Ok((t, s)),
            },
        }
    }
}


/// Index `m` occurs in `order`.
pub open spec fn lists_index(order: Seq<usize>, m: int) -> bool {
    exists|i: int| 0 <= i < order.len() && order[i] == m
}

/// `order` lists every index `0..n` exactly once.
pub open spec fn is_index_permutation(order: Seq<usize>, n: int) -> bool {
    &&& order.len() == n
    &&& forall|i: int| 0 <= i < n ==> #[trigger] order[i] < n
    &&& forall|i: int, j: int| 0 <= i < j < n ==> #[trigger] order[i] != #[trigger] order[j]
    &&& forall|m: int| 0 <= m < n ==> #[trigger] lists_index(order, m)
}

/// Row `a` comes before row `b` in a stable sort by `keys`: a smaller key, or
/// an equal key and an earlier row.
pub open spec fn stably_before(keys: Seq<i64>, a: usize, b: usize) -> bool {
    keys[a as int] < keys[b as int] || (keys[a as int] == keys[b as int] && a < b)
}

/// `order` visits the rows sorted by key, equal keys in their input order.
pub open spec fn sorted_stably(keys: Seq<i64>, order: Seq<usize>) -> bool {
    forall|i: int, j: int| 0 <= i < j < order.len() ==> stably_before(keys, #[trigger] order[i], #[trigger] order[j])
}

/// The order in which rows with close times `close_times` come out of a
/// stable sort by close time: a permutation of the row indices, by close
/// time, rows with equal close times in their input order.
pub fn close_time_order(close_times: &[i64]) -> (r: Vec<usize>)
    ensures
        is_index_permutation(r@, close_times@.len() as int),
        sorted_stably(close_times@, r@),
{
    let ghost keys = close_times@;
    let n = close_times.len();
    let mut out: Vec<usize> = Vec::new();
    let mut k: usize = 0;
    while k < n
        invariant
            keys == close_times@,
            n == keys.len(),
            k <= n,
            is_index_permutation(out@, k as int),
            forall|i: int, j: int| 0 <= i < j < out@.len() ==> stably_before(keys, #[trigger] out@[i], #[trigger] out@[j]),
        decreases n - k,
    {
        let key = close_times[k];
        let mut p: usize = out.len();
        while p > 0 && close_times[out[p - 1]] > key
            invariant
                keys == close_times@,
                n == keys.len(),
                k < n,
                p <= out@.len(),
                is_index_permutation(out@, k as int),
                forall|q: int| p <= q < out@.len() ==> keys[#[trigger] out@[q] as int] > key,
            decreases p,
        {
            p = p - 1;
        }
        let ghost old_out = out@;
        proof {
            assert(p > 0 ==> keys[old_out[p - 1] as int] <= key);
            assert forall|i: int| 0 <= i < p implies keys[#[trigger] old_out[i] as int] <= key by {
                if i < p - 1 {
                    assert(stably_before(keys, old_out[i], old_out[p - 1]));
                }
            }
        }
        out.insert(p, k);
        proof {
            let new_out = out@;
            assert(new_out == old_out.insert(p as int, k));
            assert forall|i: int| 0 <= i < k + 1 implies #[trigger] new_out[i] < k + 1 by {
                if i < p {
                    assert(new_out[i] == old_out[i]);
                } else if i > p {
                    assert(new_out[i] == old_out[i - 1]);
                }
            }
            assert forall|i: int, j: int| 0 <= i < j < k + 1 implies #[trigger] new_out[i] != #[trigger] new_out[j] by {
                if i < p && j < p {
                    assert(new_out[i] == old_out[i] && new_out[j] == old_out[j]);
                } else if i < p && j > p {
                    assert(new_out[i] == old_out[i] && new_out[j] == old_out[j - 1]);
                } else if i > p && j > p {
                    assert(new_out[i] == old_out[i - 1] && new_out[j] == old_out[j - 1]);
                } else if i == p {
                    assert(new_out[j] == old_out[j - 1]);
                } else {
                    assert(new_out[i] == old_out[i]);
                }
            }
            assert forall|m: int| 0 <= m < k + 1 implies #[trigger] lists_index(new_out, m) by {
                if m == k {
                    assert(new_out[p as int] == m);
                } else {
                    assert(lists_index(old_out, m));
                    let w = choose|i: int| 0 <= i < old_out.len() && old_out[i] == m;
                    if w < p {
                        assert(new_out[w] == m);
                    } else {
                        assert(new_out[w + 1] == m);
                    }
                }
            }
            assert forall|i: int, j: int| 0 <= i < j < new_out.len() implies stably_before(keys, #[trigger] new_out[i], #[trigger] new_out[j]) by {
                if i < p && j < p {
                    assert(new_out[i] == old_out[i] && new_out[j] == old_out[j]);
                } else if i < p && j == p {
                    assert(new_out[i] == old_out[i]);
                    assert(keys[old_out[i] as int] <= key);
                } else if i < p && j > p {
                    assert(new_out[i] == old_out[i] && new_out[j] == old_out[j - 1]);
                    assert(stably_before(keys, old_out[i], old_out[j - 1]));
                } else if i == p {
                    assert(new_out[j] == old_out[j - 1]);
                    assert(keys[old_out[j - 1] as int] > key);
                } else {
                    assert(new_out[i] == old_out[i - 1] && new_out[j] == old_out[j - 1]);
                    assert(stably_before(keys, old_out[i - 1], old_out[j - 1]));
                }
            }
        }
        k = k + 1;
    }
    out
}

/// The decimal digit character for `d < 10`.
pub open spec fn digit_char(d: int) -> char {
    if d == 0 {
        '0'
    } else if d == 1 {
        '1'
    } else if d == 2 {
        '2'
    } else if d == 3 {
        '3'
    } else if d == 4 {
        '4'
    } else if d == 5 {
        '5'
    } else if d == 6 {
        '6'
    } else if d == 7 {
        '7'
    } else if d == 8 {
        '8'
    } else {
        '9'
    }
}

/// Decimal representation of `n` without leading zeros.
pub open spec fn decimal(n: nat) -> Seq<char>
    decreases n,
{
    if n < 10 {
        seq![digit_char(n as int)]
    } else {
        decimal(n / 10).push(digit_char((n % 10) as int))
    }
}

/// Decimal representation of a signed integer (`-` before negatives).
pub open spec fn signed_decimal(n: int) -> Seq<char> {
    if n < 0 {
        seq!['-'] + decimal((-n) as nat)
    } else {
        decimal(n as nat)
    }
}

/// The number a string of decimal digits spells.
pub open spec fn digits_value(s: Seq<char>) -> int
    decreases s.len(),
{
    if s.len() == 0 {
        0
    } else {
        digits_value(s.drop_last()) * 10 + ((s.last() as int) - ('0' as int))
    }
}

/// A digit character stands for its digit.
proof fn lemma_digit_char_value(d: int)
    requires
        0 <= d < 10,
    ensures
        (digit_char(d) as int) - ('0' as int) == d,
        '0' <= digit_char(d) <= '9',
{
}

/// The decimal form of `n` is made of ASCII digits, spells `n`, and has no
/// leading zero (it is `0` only for zero); a negative number gets one `-`
/// before the decimal form of its magnitude.
pub proof fn lemma_decimal_spells(n: nat)
    ensures
        decimal(n).len() >= 1,
        forall|k: int| 0 <= k < decimal(n).len() ==> '0' <= #[trigger] decimal(n)[k] <= '9',
        digits_value(decimal(n)) == n,
        decimal(n)[0] == '0' <==> n == 0,
        signed_decimal(-(n as int)) == (if n == 0 { seq!['0'] } else { seq!['-'] + decimal(n) }),
    decreases n,
{
    lemma_digit_char_value((n % 10) as int);
    if n < 10 {
        assert(decimal(n).drop_last() =~= Seq::<char>::empty());
        assert(digits_value(decimal(n)) == digits_value(Seq::<char>::empty()) * 10 + ((decimal(n).last() as int)
            - ('0' as int)));
    } else {
        lemma_decimal_spells(n / 10);
        let d = decimal(n);
        assert(d.drop_last() =~= decimal(n / 10));
        assert forall|k: int| 0 <= k < d.len() implies '0' <= #[trigger] d[k] <= '9' by {
            if k < d.len() - 1 {
                assert(d[k] == decimal(n / 10)[k]);
            }
        }
        assert(d[0] == decimal(n / 10)[0]);
        assert(d.last() == digit_char((n % 10) as int));
        assert(digits_value(d) == digits_value(d.drop_last()) * 10 + ((d.last() as int) - ('0' as int)));
        assert(n == (n / 10) * 10 + n % 10);
    }
}

fn digit_str(d: u64) -> (r: &'static str)
    requires
        d < 10,
    ensures
        r@ == seq![digit_char(d as int)],
{
    if d == 0 {
        proof {
            reveal_strlit("0");
        }
        "0"
    } else if d == 1 {
        proof {
            reveal_strlit("1");
        }
        "1"
    } else if d == 2 {
        proof {
            reveal_strlit("2");
        }
        "2"
    } else if d == 3 {
        proof {
            reveal_strlit("3");
        }
        "3"
    } else if d == 4 {
        proof {
            reveal_strlit("4");
        }
        "4"
    } else if d == 5 {
        proof {
            reveal_strlit("5");
        }
        "5"
    } else if d == 6 {
        proof {
            reveal_strlit("6");
        }
        "6"
    } else if d == 7 {
        proof {
            reveal_strlit("7");
        }
        "7"
    } else if d == 8 {
        proof {
            reveal_strlit("8");
        }
        "8"
    } else if d == 9 {
        proof {
            reveal_strlit("9");
        }
        "9"
    } else {
        proof {
            reveal_strlit("9");
        }
        "9"
    }
}

/// Appends the decimal digits of `n` to `s`.
fn push_decimal(s: &mut String, n: u64)
    ensures
        final(s)@ == old(s)@ + decimal(n as nat),
    decreases n,
{
    if n >= 10 {
        push_decimal(s, n / 10);
    }
    s.append(digit_str(n % 10));
}

/// Appends the decimal form of a signed integer to `s`.
fn push_signed_decimal(s: &mut String, n: i64)
    ensures
        final(s)@ == old(s)@ + signed_decimal(n as int),
{
    if n < 0 {
        proof {
            reveal_strlit("-");
        }
        s.append("-");
        let magnitude: u64 = (-(n as i128)) as u64;
        push_decimal(s, magnitude);
        assert(s@ =~= old(s)@ + signed_decimal(n as int));
    } else {
        push_decimal(s, n as u64);
    }
}

/// `s` without its trailing `/` characters.
pub open spec fn trim_trailing_slashes(s: Seq<char>) -> Seq<char>
    decreases s.len(),
{
    if s.len() > 0 && s.last() == '/' {
        trim_trailing_slashes(s.drop_last())
    } else {
        s
    }
}

/// Trimming keeps a prefix of `s`, drops only `/` characters after it, and
/// leaves no `/` at the end.
pub proof fn lemma_trim_trailing_slashes(s: Seq<char>)
    ensures
        trim_trailing_slashes(s).len() <= s.len(),
        trim_trailing_slashes(s) == s.subrange(0, trim_trailing_slashes(s).len() as int),
        forall|j: int| trim_trailing_slashes(s).len() <= j < s.len() ==> #[trigger] s[j] == '/',
        trim_trailing_slashes(s).len() == 0 || trim_trailing_slashes(s).last() != '/',
    decreases s.len(),
{
    if s.len() > 0 && s.last() == '/' {
        let t = s.drop_last();
        lemma_trim_trailing_slashes(t);
        let r = trim_trailing_slashes(t);
        assert(r == t.subrange(0, r.len() as int));
        assert(t.subrange(0, r.len() as int) =~= s.subrange(0, r.len() as int));
        assert forall|j: int| r.len() <= j < s.len() implies #[trigger] s[j] == '/' by {
            if j < t.len() {
                assert(s[j] == t[j]);
            }
        }
    } else {
        assert(s.subrange(0, s.len() as int) =~= s);
    }
}

/// Copies `base` without its trailing slashes.
fn base_without_trailing_slashes(base: &str) -> (r: String)
    ensures
        r@ == trim_trailing_slashes(base@),
{
    let chars = chars_of(base);
    let mut end = chars.len();
    assert(base@.subrange(0, end as int) =~= base@);
    while end > 0 && chars[end - 1] == '/'
        invariant
            chars@ == base@,
            end <= chars@.len(),
            trim_trailing_slashes(base@) == trim_trailing_slashes(base@.subrange(0, end as int)),
        decreases end,
    {
        assert(base@.subrange(0, end as int).drop_last() =~= base@.subrange(0, end - 1));
        end = end - 1;
    }
    assert(base@.subrange(0, end as int).len() == 0 || base@.subrange(0, end as int).last() != '/');
    let r = base.substring_char(0, end);
    r.to_owned()
}

/// The klines request URL: the base without trailing slashes, then
/// `/api/v3/klines?symbol=..&interval=..&limit=..`, then `&startTime=..` and
/// `&endTime=..` when given.
pub open spec fn klines_url_spec(
    base: Seq<char>,
    symbol: Seq<char>,
    interval: Seq<char>,
    limit: u16,
    start_time_ms: Option<i64>,
    end_time_ms: Option<i64>,
) -> Seq<char> {
    let head = trim_trailing_slashes(base) + "/api/v3/klines?symbol="@ + symbol + "&interval="@ + interval + "&limit="@
        + decimal(limit as nat);
    let with_start = match start_time_ms {
        Some(ms) => head + "&startTime="@ + signed_decimal(ms as int),
        None => head,
    };
    match end_time_ms {
        Some(ms) => with_start + "&endTime="@ + signed_decimal(ms as int),
        None => with_start,
    }
}

/// How the optional times enter the klines URL: the URL without times is the
/// base (trailing slashes dropped), the path and the symbol, interval and limit
/// parameters; a start time appends `&startTime=` and its decimal whatever the
/// end time is; an end time then appends `&endTime=` and its decimal. So a
/// given time always occurs in the URL.
pub proof fn lemma_klines_url_times(
    base: Seq<char>,
    symbol: Seq<char>,
    interval: Seq<char>,
    limit: u16,
    start_time_ms: Option<i64>,
    end_time_ms: Option<i64>,
)
    ensures
        klines_url_spec(base, symbol, interval, limit, None, None) == trim_trailing_slashes(base)
            + "/api/v3/klines?symbol="@ + symbol + "&interval="@ + interval + "&limit="@ + decimal(limit as nat),
        start_time_ms matches Some(ms) ==> klines_url_spec(base, symbol, interval, limit, Some(ms), None)
            == klines_url_spec(base, symbol, interval, limit, None, None) + "&startTime="@ + signed_decimal(ms as int),
        end_time_ms matches Some(e) ==> klines_url_spec(base, symbol, interval, limit, start_time_ms, Some(e))
            == klines_url_spec(base, symbol, interval, limit, start_time_ms, None) + "&endTime="@ + signed_decimal(e as int),
        start_time_ms matches Some(ms) ==> occurs_in(
            "&startTime="@ + signed_decimal(ms as int),
            klines_url_spec(base, symbol, interval, limit, start_time_ms, end_time_ms),
        ),
        end_time_ms matches Some(e) ==> occurs_in(
            "&endTime="@ + signed_decimal(e as int),
            klines_url_spec(base, symbol, interval, limit, start_time_ms, end_time_ms),
        ),
{
    let none = klines_url_spec(base, symbol, interval, limit, None, None);
    let with_start = klines_url_spec(base, symbol, interval, limit, start_time_ms, None);
    let url = klines_url_spec(base, symbol, interval, limit, start_time_ms, end_time_ms);
    if let Some(ms) = start_time_ms {
        let p = "&startTime="@ + signed_decimal(ms as int);
        assert(with_start == none + p);
        assert(url.subrange(none.len() as int, (none.len() + p.len()) as int) =~= p);
        assert(occurs_at(p, url, none.len() as int));
    }
    if let Some(e) = end_time_ms {
        let p = "&endTime="@ + signed_decimal(e as int);
        assert(url == with_start + p);
        assert(url.subrange(with_start.len() as int, (with_start.len() + p.len()) as int) =~= p);
        assert(occurs_at(p, url, with_start.len() as int));
    }
}

/// Builds the Binance Spot `GET /api/v3/klines` URL.
pub fn klines_url(
    base_url: &str,
    symbol: &str,
    interval: &str,
    limit: u16,
    start_time_ms: Option<i64>,
    end_time_ms: Option<i64>,
) -> (r: String)
    ensures
        r@ == klines_url_spec(base_url@, symbol@, interval@, limit, start_time_ms, end_time_ms),
        start_time_ms matches Some(ms) ==> occurs_in("&startTime="@ + signed_decimal(ms as int), r@),
        end_time_ms matches Some(e) ==> occurs_in("&endTime="@ + signed_decimal(e as int), r@),
{
    proof {
        lemma_klines_url_times(base_url@, symbol@, interval@, limit, start_time_ms, end_time_ms);
    }
    let mut url = base_without_trailing_slashes(base_url);
    url.append("/api/v3/klines?symbol=");
    url.append(symbol);
    url.append("&interval=");
    url.append(interval);
    url.append("&limit=");
    push_decimal(&mut url, limit as u64);
    if let Some(ms) = start_time_ms {
        url.append("&startTime=");
        push_signed_decimal(&mut url, ms);
    }
    if let Some(ms) = end_time_ms {
        url.append("&endTime=");
        push_signed_decimal(&mut url, ms);
    }
    url
}

/// The `exchangeInfo` request URL for one symbol.
pub open spec fn exchange_info_url_spec(base: Seq<char>, symbol: Seq<char>) -> Seq<char> {
    trim_trailing_slashes(base) + "/api/v3/exchangeInfo?symbol="@ + symbol
}

/// The `exchangeInfo` URL is the base without trailing slashes, then the
/// endpoint path, and ends with `?symbol=` and the symbol.
pub proof fn lemma_exchange_info_url(base: Seq<char>, symbol: Seq<char>)
    ensures
        exchange_info_url_spec(base, symbol) == trim_trailing_slashes(base) + "/api/v3/exchangeInfo?symbol="@ + symbol,
        is_prefix_of(trim_trailing_slashes(base), exchange_info_url_spec(base, symbol)),
        is_suffix_of("?symbol="@ + symbol, exchange_info_url_spec(base, symbol)),
{
    reveal_strlit("/api/v3/exchangeInfo?symbol=");
    reveal_strlit("?symbol=");
    let u = exchange_info_url_spec(base, symbol);
    let t = trim_trailing_slashes(base);
    assert(u.subrange(0, t.len() as int) =~= t);
    let p = "?symbol="@ + symbol;
    assert(u.subrange(u.len() - p.len(), u.len() as int) =~= p);
}

/// Builds the Binance Spot `GET /api/v3/exchangeInfo?symbol=..` URL.
pub fn exchange_info_url(base_url: &str, symbol: &str) -> (r: String)
    ensures
        r@ == exchange_info_url_spec(base_url@, symbol@),
{
    let mut url = base_without_trailing_slashes(base_url);
    url.append("/api/v3/exchangeInfo?symbol=");
    url.append(symbol);
    url
}

/// The most klines Binance Spot returns for one request.
pub const MAX_KLINES_PER_REQUEST: u16 = 1000;

/// Whether `limit` is a klines page size that Binance accepts (1 to 1000).
pub fn is_valid_kline_limit(limit: u16) -> (r: bool)
    ensures
        r == (1 <= limit && limit <= MAX_KLINES_PER_REQUEST),
{
    limit != 0 && limit <= MAX_KLINES_PER_REQUEST
}

/// Where the next page of a full-history download starts, once a page of
/// `page_len` bars whose last inclusive close time is `last_close_ms` came
/// back: after a full page, the millisecond after that close time (saturating
/// at `i64::MAX`); after a short or empty page, nowhere, as the history is
/// exhausted.
pub fn next_page_start(page_len: usize, last_close_ms: i64) -> (r: Option<i64>)
    ensures
        page_len < MAX_KLINES_PER_REQUEST ==> r is None,
        page_len >= MAX_KLINES_PER_REQUEST ==> r == Some(
            if last_close_ms == i64::MAX { i64::MAX } else { (last_close_ms + 1) as i64 },
        ),
{
    if page_len < MAX_KLINES_PER_REQUEST as usize {
        None
    } else if last_close_ms == i64::MAX {
        Some(i64::MAX)
    } else {
        Some(last_close_ms + 1)
    }
}

} // verus!
