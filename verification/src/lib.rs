//! Read-only passthrough filesystem core.
//!
//! The operation handlers of a user-space passthrough filesystem are split
//! into a pure, verified core (this crate) and a thin unverified shell that
//! performs the host filesystem calls and the kernel-facing dispatch.  The
//! core covers path resolution — with canonicalization and a proved
//! guarantee that a resolved path never climbs out of the source root —
//! attribute translation, directory listing, access gating, bounded reads,
//! and the closed error vocabulary; every handler decision is a function
//! from plain values to plain values with a proved contract.

pub mod access;
pub mod attrs;
pub mod errors;
pub mod laws;
pub mod listing;
pub mod mount;
pub mod reader;
