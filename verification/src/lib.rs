//! State, rules and transitions of a hotel front-desk client, kept apart from
//! the windowing and network layers that drive them.
//!
//! Every screen is a state machine: `update` takes a message and returns the
//! [`action::Action`]s that the surrounding program has to carry out. A call
//! to the server is split in two: a function that says what to send, and one
//! that says what the reply means.
//!
//! Ids are 128-bit numbers, dates are plain year, month and day, and a place
//! in a list is a row number: the program around the library converts from
//! and to the types of its widgets and of the wire.

pub mod text;
pub mod pattern;
pub mod date;
pub mod model;
pub mod security;
pub mod components;
pub mod constants;
pub mod services;
pub mod action;
pub mod screens;
pub mod app;
pub mod utils;
