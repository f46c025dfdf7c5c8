//! Lifecycle management for encrypted storage containers.
//!
//! The library validates user input, drives the container lifecycle
//! (create, open, close, export, import) as explicit state machines,
//! derives container secrets from a hardware-bound key, scans the text
//! output of the external inventory tools, and maintains the auto-open
//! registry that is reconciled at startup and shutdown.

use vstd::prelude::*;

pub mod derivation;
pub mod encoding;
pub mod errors;
pub mod fs;
pub mod lifecycle;
pub mod probes;
pub mod reconcile;
pub mod registry;
pub mod requests;
pub mod service;
pub mod text;
pub mod validation;

verus! {

/// Converts a size in megabytes to a size in bytes.
pub fn mb_in_bytes(mb: i32) -> (r: u64)
    requires
        0 <= mb < 2048,
    ensures
        r == mb * 1024 * 1024,
{
    (mb as u64) * 1024 * 1024
}

} // verus!
