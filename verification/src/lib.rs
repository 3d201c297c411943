//! A verified file-tree builder.
//!
//! The library turns a snapshot of a filesystem subtree into a `FileNode`
//! tree, skipping hidden entries and well-known noise directories, and
//! dropping children that could not be read while keeping their siblings.
//! All filesystem access stays outside the library: callers gather a
//! [`snapshot::RawEntry`] and hand it in as a plain value.

pub mod builder;
pub mod facade;
pub mod filter;
pub mod laws;
pub mod node;
pub mod snapshot;
