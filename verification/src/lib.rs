//! A file-backed note store with a configurable root directory.
//!
//! The library resolves the active notes directory from a sidecar
//! configuration value (preferred) or a platform default, composes note
//! paths under that root, and gives exact semantics to saving, loading,
//! directory selection and the native-picker outcomes.

pub mod config;
pub mod dialog;
pub mod errors;
pub mod laws;
pub mod store;
pub mod paths;
pub mod platform;
pub mod text;
pub mod views;

use vstd::prelude::*;

verus! {

} // verus!
