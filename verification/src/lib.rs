//! Typed accessors over a parsed YAML configuration document.
//!
//! A configuration document is a tree of [`node::ConfigNode`] values. The
//! accessor functions in [`access`] read a scalar out of an optional node,
//! falling back to a caller-supplied default and clamping integers into the
//! target type's range, so that reading configuration never fails. The
//! [`loader`] module parses YAML text into a document tree.

pub mod access;
pub mod loader;
pub mod node;
