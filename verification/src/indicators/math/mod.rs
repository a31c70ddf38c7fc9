//! Vector math and rolling utility indicators.

pub mod correlation;
pub mod cross;
pub mod decay;
pub mod sum;

pub use correlation::{Beta, Correl};
pub use cross::{CrossAny, Crossover};
pub use decay::{Decay, EDecay, Lag};
pub use sum::Sum;
