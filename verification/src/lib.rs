//! Verified core of a compositor-IPC companion tool.
//!
//! The crate models window-manager dispatch commands, window and workspace
//! identifiers, event-driven reactions with trigger limits, and the routing
//! of compositor events to registered reactions.  All parsing, command
//! construction and routing decisions are verified; the compositor transport
//! itself (socket I/O) lives outside this library.

pub mod dispatch;
pub mod errors;
pub mod events;
pub mod flags;
pub mod manager;
pub mod numbers;
pub mod parsers;
pub mod reaction;
pub mod service;
pub mod text;

use vstd::prelude::*;

verus! {

/// The mathematical shape of a `Result`: both sides taken to their views.
pub open spec fn res_view<T: View, E: View>(r: Result<T, E>) -> Result<T::V, E::V> {
    match r {
        Ok(t) => Ok(t@),
        Err(e) => Err(e@),
    }
}

/// The mathematical shape of an `Option`, its content taken to its view.
pub open spec fn opt_view<T: View>(o: Option<T>) -> Option<T::V> {
    match o {
        Some(t) => Some(t@),
        None => None,
    }
}

} // verus!
