//! Core of a multi-tenant scheduled-content-delivery service: a dual-mode
//! bearer-token verifier and an idempotent daily scheduling loop.
//!
//! The verified library holds the decision logic: token verification and
//! claim validation, the dueness policy that grants each tenant at most one
//! run per UTC calendar day, and the run executor that turns generation and
//! delivery outcomes into exactly one run record per attempt. Network I/O,
//! persistence and transports live outside, and hand the library plain
//! values.

pub mod auth;
pub mod schedule;
pub mod strutil;
pub mod config;
pub mod run;
