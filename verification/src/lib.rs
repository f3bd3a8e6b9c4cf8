//! Verified core of a BTC/USDT spot decision engine: macro-event codes, the
//! indicator catalog and warm-up table, bundled-history row selection, bar
//! grouping, and the long-only backtest fill rules.

pub mod adapters;
pub mod aggregate;
pub mod backtest;
pub mod catalog;
pub mod config;
pub mod domain;
pub mod historical;
pub mod indicators;
pub mod replay;
pub mod text;
pub mod warmup;
pub mod warmup_table;
