//! Core logic of an optimistic-rollup challenger agent.
//!
//! The challenger watches a dispute-game factory on the base chain,
//! classifies newly created games, compares claimed output roots against a
//! trusted source, and — in listen-and-respond mode — turns each divergence
//! into a correctly sequenced challenge transaction. This crate holds the
//! verified decision logic of that agent: classification, mode gating,
//! root comparison, the mismatch counter, transaction sequencing, retry
//! budgets and the fail-fast orchestration rule. Transport, signing and the
//! metrics exporter stay outside, handing plain values in and out.

pub mod attestation;
pub mod config;
pub mod dispatch;
pub mod factory;
pub mod orchestrator;
pub mod retry;
pub mod telemetry;
pub mod types;
