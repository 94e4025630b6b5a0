//! Password validation against a configurable rule set, and a coarse
//! strength rating, both verified against a model over sequences of
//! characters.

pub mod chars;
pub mod decimal;
pub mod pval;
pub mod utils;

pub use pval::Pval;
