//! The state handed to the transport layer: the configured entity store.

use vstd::prelude::*;
use crate::dao::Dao;

verus! {

/// The application state: one entity store, chosen at startup.
pub struct AppState<D: Dao> {
    pub dao: D,
}

} // verus!
