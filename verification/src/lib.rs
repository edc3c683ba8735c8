//! Keystone terminal dashboards: the build runner with its streaming log
//! viewport, the welcome flow, host screens and the cross-realm records.

pub mod app;
pub mod chars;
pub mod config;
pub mod defs;
pub mod ha;
pub mod handlers;
pub mod keys;
pub mod nix;
pub mod paths;
pub mod repo;
pub mod runner;
pub mod screens;
pub mod text;
pub mod ui;
