//! The decision logic of a small deferred-rendering viewer: what a valid
//! configuration is, which parameters the renderer is created with, and which
//! actions each lifecycle callback asks of the host.

pub mod config;
pub mod context;
pub mod host;
pub mod panel;
pub mod settings;
pub mod setup;
pub mod startup;
