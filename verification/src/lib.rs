//! Real-time fraud scoring for payment-style transactions.
//!
//! A transaction is scored against a configured rule set, on what is known of
//! its user: a profile of past transactions and the number of transactions in
//! the last minute. The outcome is a risk score, the names of the rules that
//! fired, and a verdict that classifies as approved, held for a second look,
//! or blocked.
//!
//! - [`models`]: transactions, profiles, scores and verdicts.
//! - [`rules`]: the rule set, when a rule fires, and the score of a
//!   transaction.
//! - [`engine`]: the verdict on a transaction, the update of the profile, and
//!   the steps that lead an evaluation through the keyed store.
//! - [`storage`]: the commands that each store operation sends.
//! - [`wide`]: exact comparison of products beyond 128 bits.
//!
//! All decimal quantities are counted in millionths and compared exactly;
//! nothing is rounded. Every function is verified against its contract, but
//! for two whose contracts are taken on trust: `utc_now` in [`models`], which
//! reads the clock through `chrono`, and `fresh_transaction_id` in
//! [`engine`], which draws a random name through `uuid`.

pub mod engine;
pub mod models;
pub mod rules;
pub mod storage;
pub mod wide;
