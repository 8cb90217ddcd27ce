//! Verified core of a policy-driven device actuation service.
//!
//! The library turns discrete safety postures ("policies") into ordered
//! relay commands, plans the on/off partition of a fixed relay universe,
//! reconciles observed relay state against a plan, manages short-lived
//! device-access credentials as explicit protocol state machines, and
//! tracks each actuation attempt as a cancellable run with idempotent
//! creation semantics.

pub mod account;
pub mod command;
pub mod credentials;
pub mod dal;
pub mod device_access;
pub mod driver;
pub mod enactor;
pub mod engine;
pub mod error;
pub mod idempotency;
pub mod irwin;
pub mod kvlist;
pub mod models;
pub mod policy;
pub mod relay;
pub mod relay_parse;
pub mod runs;
pub mod strutil;
pub mod telemetry;
pub mod time;
