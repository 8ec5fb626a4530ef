//! Verified core of a command-line client for a shopping-list service:
//! the local credential store, the lifecycle of the realtime connection,
//! the control loop that watches it from a terminal, and the texts under
//! which lists, recipes and meal plans are shown.
//!
//! Nothing here reads a file, opens a connection or touches the terminal:
//! the program around this library does, and hands in what it found.

pub mod auth;
pub mod connection;
pub mod error;
pub mod input;
pub mod json;
pub mod list;
pub mod meal_plans;
pub mod order;
pub mod recipes;
pub mod tail;
pub mod text;
