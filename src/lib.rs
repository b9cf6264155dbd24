//! Relay of controller events to browser listeners: the wire codec, the
//! per-connection classifier, the controller registry with its pairing and
//! heartbeat rules, the pages and routing of the site, and the bowling
//! scorekeeping used by the game client.

pub mod control;
pub mod msg;
pub mod query;
pub mod registry;
pub mod routes;
pub mod serve;
pub mod service;
pub mod setup;
pub mod text;
pub mod turns;
