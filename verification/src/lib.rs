//! The verified core of a VST3 plugin host.
//!
//! Everything here is a function of plain values. Conversations with a plugin are state machines:
//! a machine names the next call, and the program that owns the raw interface pointers makes the
//! call and hands the answer back.

pub mod bus;
pub mod calls;
pub mod cli;
pub mod com;
pub mod commands;
pub mod connection;
pub mod controller;
pub mod creation;
pub mod editor;
pub mod error;
pub mod instance;
pub mod plugins;
pub mod render;
pub mod render_session;
pub mod sandbox;
pub mod scan;
pub mod session;
pub mod sorting;
pub mod state;
pub mod teardown;
pub mod text;
pub mod utf16;
pub mod wav;
