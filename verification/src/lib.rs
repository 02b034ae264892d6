//! Scoped, delegated execution authority for an off-chain agent: a session
//! authorization engine with cumulative-exposure accounting, a two-layer
//! delegation/commit/undelegate lifecycle, and a position-range monitor.

pub mod agent_session;
pub mod engine;
pub mod errors;
pub mod exposure;
pub mod identity;
pub mod laws;
pub mod lifecycle;
pub mod lp_position_monitor;
