//! A polling synchronisation core: it decides, cycle by cycle, when a local
//! clone has fallen behind the head of a remote branch and must be pulled.
//!
//! The crate holds the decisions only. A driver performs the outside work
//! (network, repository access, the pull, sleeping) and reports each outcome
//! back as an event.

pub mod backoff;
pub mod config;
pub mod cycle;
pub mod error;
pub mod remote;
pub mod replay;
pub mod status;
pub mod sync;
