//! Bundle orchestration engine: reconciles a directory of dotfile packages
//! into symlinks under the home directory, and installs pinned versions of
//! external runtimes behind shim executables.
//!
//! The crate holds the decision logic: path derivation, platform naming,
//! download-status classification, shim gating and stage dispatch. All file
//! system and network work is driven by a thin caller that feeds probed
//! facts in and carries planned actions out.
use vstd::prelude::*;

pub mod config;
pub mod dotfiles;
pub mod nodejs;
pub mod paths;
pub mod platform;
pub mod schedule;

verus! {

/// Shared read-only resource wrapper: a value handed to every bundler for
/// the duration of a run.
pub struct DipRes<T>(pub T);

} // verus!
