//! The choice of backend at start-up.

use vstd::prelude::*;

verus! {

/// The backend that serves the store.
pub enum BackendKind {
    /// Volatile: state in memory.
    Memory,
    /// Durable: state in a relational database.
    Durable,
}

/// Whether the configuration asks for the durable backend: only an explicit
/// `true` does; a missing or unreadable flag means the volatile one.
pub fn wants_durable(requested: Option<bool>) -> (r: bool)
    ensures
        r == (requested == Some(true)),
{
    match requested {
        Some(true) => true,
        _ => false,
    }
}

/// The backend that serves the store: the durable one where it was asked for
/// and came up, the volatile one otherwise. `durable_ready` tells whether the
/// durable backend was initialised.
pub fn choose_backend(requested: Option<bool>, durable_ready: bool) -> (r: BackendKind)
    ensures
        r == (if requested == Some(true) && durable_ready {
            BackendKind::Durable
        } else {
            BackendKind::Memory
        }),
{
    if wants_durable(requested) && durable_ready {
        BackendKind::Durable
    } else {
        BackendKind::Memory
    }
}

} // verus!
