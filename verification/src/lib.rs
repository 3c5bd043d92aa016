//! The job-queue core of a chat bot that turns video links into podcast
//! episodes: per-user credential records gating admission, durable job
//! records keyed by an increasing id, a FIFO of signals feeding a pool of
//! workers, the worker pipeline itself, and the per-chat dialogue that
//! captures a credential.  The grammars for credential tokens and for
//! accepted links are part of the core and are verified against their
//! specifications.

pub mod bot;
pub mod database;
pub mod filters;
pub mod handlers;
pub mod links;
pub mod queue;
pub mod token;
pub mod types;
pub mod user;
