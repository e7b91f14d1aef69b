//! A visibility-propagation rewrite over declaration trees.
//!
//! Given the root of a declaration subtree, the transform rewrites the
//! visibility of every nested declaration to public, recursively, while
//! honouring a small set of exclusions: items declared inside a function
//! body keep their visibility, members of a trait implementation keep
//! theirs, and implementation blocks, foreign blocks and `extern crate`
//! directives are never elevated.  Struct fields and the members of a
//! foreign block are published unconditionally.  The shape of the tree is
//! never changed; only visibility flags are.

pub mod fold;
pub mod laws;
pub mod tree;
