//! What the command-line client computes between reading its arguments and
//! calling the control server.

pub mod connect;
pub mod create;
pub mod error;
pub mod spec;
pub mod state;
