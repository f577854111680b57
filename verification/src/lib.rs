//! Abuse detection and escalation for a chat community.
//!
//! The crate attributes channel creations and member removals to the account
//! behind them by correlating each event with recent audit-trail entries,
//! counts what every account did in the current epoch, and decides when the
//! account's elevated roles are taken away. It also rate-limits the anonymous
//! confession relay. Nothing here talks to the chat platform: every event
//! handler returns the list of [`effects::Effect`]s for the caller to carry
//! out.

pub mod audit;
pub mod effects;
pub mod handler;
pub mod ledger;
pub mod policy;
pub mod runs;
pub mod snowflake;
pub mod text;

pub use audit::{resolve_actor, ActionKind, AuditEntry, Category};
pub use effects::Effect;
pub use handler::{Event, Handler};
pub use ledger::{Cooldown, CooldownLedger, ViolationLedger};
pub use policy::{decide, Verdict};
pub use snowflake::snowflake_to_time;
