//! Core of a polling repository mirror: a sync engine that converges a local
//! working copy to one tracked remote reference, a credential resolver driven
//! by the remote's capability mask, a per-repository scheduling due-check, and
//! a bounded dispatch queue between schedulers and workers.

pub mod config;
pub mod creds;
pub mod dispatch;
pub mod git;
pub mod repo;
pub mod ticker;
