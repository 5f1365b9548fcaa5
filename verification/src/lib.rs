//! Declarative symlink management for a dotfiles repository.
//!
//! A configuration document names *configs*; each maps destination specs to
//! source specs. The library resolves the specs to paths, decides which
//! filesystem operations bring a destination in line with its source, and
//! never performs them itself: the caller carries out each operation and
//! reports the answer.
//!
//! - [`path`] resolves a spec against a root or the home directory.
//! - [`reconcile`] decides, step by step, how a destination becomes a
//!   symbolic link to its source, or stops being one.
//! - [`document`] is the configuration document as plain values;
//!   [`parse`] reads one from TOML text and [`render`] writes one config
//!   back.
//! - [`plan`] turns the entries of a config into links to make or
//!   destinations to clear.
//! - [`manager`] is the store that ties these together.
//! - [`failure`] is what can go wrong.
//!
//! Nothing here reads the environment or touches the disk. The home
//! directory and the canonical paths of the declared roots are handed in.

pub mod document;
pub mod failure;
pub mod manager;
pub mod parse;
pub mod path;
pub mod plan;
pub mod reconcile;
pub mod render;
