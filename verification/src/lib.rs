//! A persistent singly-linked list.
//!
//! Lists are immutable values: `prepend` and `tail` build new handles that
//! share the unchanged part of the chain with the handles they were derived
//! from, so every earlier version of a list stays valid and unchanged.
//! Nodes are reference-counted, and a handle's destructor reclaims the part
//! of the chain it solely owns with an explicit loop, so dropping the last
//! handle to a long chain uses constant stack space.

pub mod list;
