//! Core of an unattended futures-trading engine: session protocol state
//! machines for two streaming connections, a market-view aggregator
//! (depth-of-book summaries, trade-flow pressure, synthetic quotes), and a
//! single-position strategy state machine with profit-and-loss tracking.
//!
//! Prices, money amounts and percentages are fixed-point `i64` values scaled
//! by `settings::FP_SCALE`; quantities are plain counts.

pub mod acct_socket;
pub mod api_client;
pub mod decimal;
pub mod decode;
pub mod md_socket;
pub mod models;
pub mod outside;
pub mod reconnect;
pub mod settings;
pub mod socket_processing;
pub mod strategy;
pub mod time_and_sales;
