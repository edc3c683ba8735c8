//! The cross-realm manager: its application state, its key handling, and
//! the client of the cluster that it talks to.

pub mod app;
pub mod chrome;
pub mod client;
pub mod input;
pub mod mock;
pub mod operations;
pub mod realm;
