//! Running an external build command and following its output.

pub mod channel;
pub mod command;
pub mod message;
pub mod relay;
pub mod run_laws;
pub mod screen;
pub mod supervisor;
pub mod viewport;
pub mod viewport_laws;
