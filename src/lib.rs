//! Rules of a keeper-driven swap service: per-user policy records, the
//! keeper allowlist, daily execution limits, protocol fees, vault balance
//! accounting and the all-or-nothing execution of trading signals.

pub mod errors;
pub mod events;
pub mod instructions;
pub mod lemmas;
pub mod state;
pub mod utils;
pub mod vault;
