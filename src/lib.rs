//! Resolution of a requested Python version to a usable interpreter, and the
//! plans for installing it and for building a project's virtual environment.
//!
//! The library decides; it performs no I/O. Every step that touches the
//! filesystem, the network, a subprocess or the console is described as an
//! action for the caller to perform, whose outcome is handed back as an event.
pub mod version;
pub mod catalog;
pub mod probe;
pub mod install;
pub mod provision;
pub mod environment;
