//! Named oscillators and indicators.

pub mod adx;
pub mod adxr;
pub mod ao;
pub mod apo;
pub mod aroon;
pub mod atr;
pub mod beta_momentum;
pub mod beta_oscillators;
pub mod beta_trend;
pub mod beta_volume;
pub mod di;
pub mod dm;
pub mod dpo;
pub mod dx;
pub mod emv;
pub mod ht;
pub mod imi;
pub mod kvo;
pub mod macd;
pub mod macdext;
pub mod mass;
pub mod mfi;
pub mod mom;
pub mod natr;
pub mod oscillators;
pub mod ppo;
pub mod price_volume;
pub mod psar;
pub mod regression;
pub mod roc;
pub mod rsi;
pub mod sarext;
pub mod stderr;
pub mod stoch;
pub mod stochrsi;
pub mod ultosc;
pub mod vhf;
pub mod volatility;
pub mod willr;

pub use adx::Adx;
pub use adxr::Adxr;
pub use ao::Ao;
pub use apo::Apo;
pub use aroon::{Aroon, AroonOsc};
pub use atr::Atr;
pub use beta_momentum::Tsi;
pub use beta_oscillators::{Posc, Rvi, Smi};
pub use beta_trend::{Copp, Kst, Pfe, Rmi};
pub use beta_volume::{Cmf, Fi};
pub use di::Di;
pub use dm::Dm;
pub use dpo::Dpo;
pub use dx::Dx;
pub use emv::Emv;
pub use ht::{HtDcPeriod, HtPhasor, HtDcPhase, HtSine, HtTrendline, HtTrendMode};
pub use imi::Imi;
pub use kvo::Kvo;
pub use macd::{Macd, MacdFix};
pub use macdext::MacdExt;
pub use mass::Mass;
pub use mfi::Mfi;
pub use mom::Mom;
pub use natr::Natr;
pub use oscillators::{Cci, Cmo, Cvi, Fisher, Md, Msw, Qstick};
pub use ppo::Ppo;
pub use price_volume::{Ad, AdOsc, Bop, MarketFi, Nvi, Obv, Pvi, Tr, Vosc, Wad};
pub use psar::Psar;
pub use regression::{LinReg, LinRegIntercept, LinRegSlope, LinRegAngle, Tsf, Fosc};
pub use roc::Roc;
pub use rsi::Rsi;
pub use sarext::Sarext;
pub use stderr::StdErr;
pub use stoch::Stoch;
pub use stochrsi::StochRsi;
pub use ultosc::UltOsc;
pub use vhf::Vhf;
pub use volatility::Volatility;
pub use willr::WillR;
