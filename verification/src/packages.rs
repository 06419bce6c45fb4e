//! Native packages that the host installs into the registry.

pub mod float;
