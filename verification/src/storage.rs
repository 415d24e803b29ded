//! What the engine asks of the keyed store.

pub mod redis;
