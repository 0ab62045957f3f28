//! The page-table initialization token: a value the platform layer
//! consumes, by move, when it takes over the page tables, so that
//! initialization can only happen once per boot.

use vstd::prelude::*;

verus! {

/// Witness that the page-table manager has not been initialized yet.
/// The platform layer's initialization takes it by value; only the one
/// created at boot ever exists.
pub struct UninitPageTableManager;

impl UninitPageTableManager {
    pub fn new() -> Self {
        UninitPageTableManager
    }
}

} // verus!
