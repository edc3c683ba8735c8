//! Common UI components: the state behind the widgets that several screens
//! share.

pub mod input;
pub mod layout;
pub mod menu;
