//! A small workflow layer over a branching version-control backend.
//!
//! The crate models the repository state a command acts on — the commit
//! graph, the local branches, the working tree and the remote — as plain
//! values, and verifies the policy each command applies to that state:
//! fast-forward-only merges, auto-snapshot before switching, and per-user
//! prefixing of pushed branches. Backend I/O (object storage, transport,
//! credentials) stays outside and mirrors the transitions proved here.

pub mod branch;
pub mod cli;
pub mod ctx;
pub mod error;
pub mod laws;
pub mod load;
pub mod merge;
pub mod remote;
pub mod save;
