//! The screens of the infrastructure dashboard.

pub mod host_detail;
pub mod hosts;
pub mod welcome;
