//! Technical-analysis indicator library: metadata, shape validation,
//! lookback arithmetic, candlestick pattern bookkeeping and lag buffers.

pub mod benchmark;
pub mod candles;
pub mod compare;
pub mod error;
pub mod indicator;
pub mod indicators;
pub mod state;
pub mod text;
pub mod types;
pub mod window;
