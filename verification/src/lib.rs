//! A node-local storage plugin: it translates volume lifecycle calls
//! (stage, unstage, publish, unpublish, list, stats, expand, capability
//! negotiation) into idempotent operations against a backend store of
//! named datasets, and maps every failure to a fixed error kind so that
//! an orchestrator's retry logic can key off the kind alone.
//!
//! The plugin keeps no durable state of its own: every handler is a
//! function of the backend's state, so any call is safe to retry.
//! It also holds no per-volume lock: calls for distinct volumes touch
//! distinct dataset names and never interfere, and serializing
//! concurrent operations on one dataset name is the backend's
//! responsibility.

pub mod backend;
pub mod dispatch;
pub mod laws;
pub mod node;
pub mod request;
pub mod status;
pub mod text;
