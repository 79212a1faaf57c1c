//! Server-side state authority for a casual merge game: one aggregate state
//! per player, a resolver that applies game commands to it, a session
//! lifecycle for live connections, and reconciliation of actor state into a
//! relational store for cross-player queries.

pub mod actor;
pub mod auth;
pub mod crypto;
pub mod daily_task;
pub mod external;
pub mod hints;
pub mod notification;
pub mod op_resolver;
pub mod session;
pub mod store;
pub mod types;
pub mod utils;
