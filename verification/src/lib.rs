//! Prediction-market settlement engine fed by an authorized-publisher oracle.
//!
//! A controlling authority registers trusted publishers in a [`registry::Registry`],
//! publishers submit timestamped result updates into per-game [`feed::GameFeed`]
//! records, and wagering [`market::Market`]s tied to those feeds accept user
//! stakes on a binary outcome, get locked and resolved by the authority, and
//! pay out a pari-mutuel share to winning [`position::Position`]s.
//!
//! The host ledger runtime (record storage, caller-identity verification and
//! fund custody) is outside this crate: every operation takes the verified
//! caller identity and the current wall-clock time as plain arguments and
//! returns the amount to transfer, so the whole settlement logic is checked
//! here while the host performs the actual transfers atomically around it.

pub mod errors;
pub mod feed;
pub mod market;
pub mod position;
pub mod registry;
pub mod settlement;
