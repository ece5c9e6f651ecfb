//! Decision core of a chat product's turn flow.
//!
//! The crate holds no I/O. Each flow is a run that names the one question it is
//! waiting on, and a `step` that takes the answer to that question and yields the
//! next run. Whoever drives a run performs the question against a real service
//! and hands the answer back.
//!
//! - [`workflow`] takes an inbound envelope through the idempotency ledger and
//!   routes it by payload.
//! - [`inbound_turn`] stages a user message into its thread and submits its turn.
//! - [`text_loop_driver`] asks a loop host for a prompt, one model response and a
//!   finalized assistant reply.
//! - [`text_loop_host`] composes the host that the driver talks to.
//!
//! The remaining modules are the plain data that these flows read and produce.
pub mod action;
pub mod adapters;
pub mod binding;
pub mod error;
pub mod inbound_turn;
pub mod run_profile;
pub mod text_loop_driver;
pub mod text_loop_host;
pub mod turns;
pub mod workflow;
