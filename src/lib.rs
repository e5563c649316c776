//! Typed configuration for an embedded data-grid widget, the plain object the
//! widget is created from, and the mount/update lifecycle that drives it.
pub mod column;
pub mod options;
pub mod wire;
pub mod component;
