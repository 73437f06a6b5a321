//! Client logic for a home-automation bridge: command-line values are parsed into typed
//! values, light commands into sparse modifiers, and each command into the list of requests
//! that carry it out.
pub mod command;
pub mod light;
pub mod value;
