//! Fixed trading thresholds, protocol timing constants, and the bounds that
//! wire values must respect before they enter the verified model.

use vstd::prelude::*;

verus! {

/// Host of the live order-management service.
pub const LIVE_TRADING_URL: &'static str = "live.tradovateapi.com";

/// Host of the market-data service.
pub const LIVE_MARKET_DATA_URL: &'static str = "md.tradovateapi.com";

/// Host of the demo order-management service.
pub const DEMO_TRADING_URL: &'static str = "demo.tradovateapi.com";

/// Renewal is requested when less than this many milliseconds remain
/// before the access token expires.
pub const TOKEN_RENEWAL_WINDOW_MS: i64 = 240_000;

/// All prices, money amounts and percentages are stored as `value * FP_SCALE`
/// (five implied decimal places).
pub const FP_SCALE: i64 = 100_000;

/// Numerator factor for percentages: `percent = PERCENT_SCALE * part / whole`
/// represents `100 * part / whole` percent, scaled by `FP_SCALE`.
pub const PERCENT_SCALE: i64 = 10_000_000;

/// Depth-imbalance threshold for a signal: 35 percent, scaled.
pub const DOM_THRESHOLD: i64 = 3_500_000;

/// Base trade-flow-pressure threshold, in contracts.
pub const TS_PRESSURE_THRESHOLD: i64 = 150;

/// A single trade at or above this quantity is a signal on its own.
pub const LARGE_TRADE: i64 = 400;

/// An open position is closed when unrealized loss exceeds this amount
/// (500 currency units, scaled).
pub const TRADE_CLOSE_TRIGGER: i64 = 50_000_000;

/// Commission charged per leg per contract (2.05 currency units, scaled).
pub const SINGLE_LEG_COMMISSION: i64 = 205_000;

/// Width of the trade-flow evaluation window, in milliseconds.
pub const ONE_SECOND: i64 = 1000;

/// A heartbeat frame is due when a session has been idle at least this long.
pub const HEARTBEAT_IDLE_MS: i64 = 2500;

/// Reconnect circuit breaker: this many consecutive fast reconnect cycles
/// escalate to a fatal alert.
pub const MAX_FAST_RECONNECTS: u32 = 3;

/// A reconnect cycle shorter than this many seconds counts as fast.
pub const FAST_RECONNECT_SECS: u64 = 60;

/// Largest quantity (contracts, order sizes, tick volumes) accepted from the
/// wire; larger values are rejected as malformed.
pub const MAX_QTY: i64 = 1_000_000_000;

/// Largest absolute scaled price accepted from the wire.
pub const MAX_PRICE: i64 = 10_000_000_000_000;

/// Largest absolute scaled point value (currency per 1.0 price move)
/// accepted from the wire.
pub const MAX_POINT_VALUE: i64 = 100_000_000_000;

/// Largest absolute timestamp (milliseconds) accepted from the wire.
pub const MAX_TIME_MS: i64 = 100_000_000_000_000;

/// Cap on summed depth sizes and summed trade quantities: sums saturate here
/// rather than overflow.
pub const MAX_DEPTH_TOTAL: i64 = 1_000_000_000_000;

} // verus!
