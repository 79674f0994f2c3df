//! Lifecycle management for WGL rendering contexts and their drawables.
//!
//! The crate holds the decisions of the context/surface lifecycle: which
//! attributes a pixel-format request carries, how a driver reply turns into a
//! descriptor or an error, which drawable a context renders to, and how the
//! saved current context is restored. The native calls themselves are made by
//! the caller, who hands their plain results to the functions here.

pub mod bootstrap;
pub mod context;
pub mod creation;
pub mod device;
pub mod error;
pub mod extensions;
pub mod format;
pub mod guard;
pub mod registry;
pub mod surface;
pub mod types;
pub mod version;
