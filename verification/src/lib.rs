//! Core of `knife`, a terminal tool that deletes repositories of a GitHub account.
//!
//! The crate holds everything the tool decides: the token input field, the
//! repository selection list, what is sent to the hosting service and how its
//! answers are read, and the controller that turns key presses and answers
//! into state changes.  Drawing, reading keys and the network live outside.

pub mod app;
pub mod github;
pub mod input;
pub mod json;
pub mod list;
pub mod logo;
