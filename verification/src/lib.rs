//! Command logic of the Tinkernet parachain node: which chain specification an
//! identifier selects, what each sub-command does, how genesis data is exported,
//! and what the node reports when it starts as a parachain collator.

pub mod command;
pub mod error;
pub mod genesis;
pub mod hex;
pub mod parachain;
pub mod relay;
pub mod spec_source;
