//! The pure state machines behind the client's interactive screens.

pub mod create;
pub mod home;
pub mod prompt;
pub mod view;
