//! Keeps a named branch synchronized between two independent
//! version-controlled working copies: fetch both trees, align them to the
//! base branch and then to the target branch, mirror the visible files from
//! the copy-from tree onto the copy-to tree, and commit and push the result
//! when anything changed.
//!
//! The library holds every decision of that pipeline — the registry of
//! stored pairs, path probing, remote-identity parsing, and the
//! orchestrating state machines — with verified contracts. The external
//! operations themselves (the version-control tool, the mirror tool, the
//! prompt) are performed by the surrounding program, which asks each
//! machine for the next action and feeds the outcome back.

pub mod branch;
pub mod errors;
pub mod identity;
pub mod mirror;
pub mod pipeline;
pub mod probe;
pub mod publish;
pub mod store;
pub mod text;
