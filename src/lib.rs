//! Estimates what a number of bridge transfers burns on each supported
//! chain, and where the live inputs of that estimate come from.
pub mod args;
pub mod chain;
pub mod fees;
pub mod oracle;
pub mod plan;
pub mod text;
