//! Heartbeats: low-overhead instrumentation of work, time, accuracy and
//! energy. A caller reports each completed unit of work; a context keeps the
//! lifetime and current-window sums, the rates derived from them, and a ring
//! buffer of the most recent records, and tells a handler of each completed
//! window.
//!
//! Rates are kept as exact fractions (`record::Ratio`); the contracts state
//! every counter and record over the model of a context: the sequence of
//! reports made on it (`model::Beat`).

pub mod record;
pub mod model;
pub mod context;
pub mod monitor;
pub mod hbs;
pub mod hbs_acc;
pub mod hbs_pow;
pub mod hbs_acc_pow;
pub mod laws;
