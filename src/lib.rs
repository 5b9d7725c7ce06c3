//! Startup decisions of a desktop application shell: which plugins the host
//! framework is given, and how a fatal startup failure reaches the user.
pub mod fatal;
pub mod plugins;
