//! Records that belong to a named table of the store.

use vstd::prelude::*;

verus! {

/// A record type that is written to one table of the store.
pub trait Entity {
    /// The name of the table.
    fn table_name() -> &'static str;
}

} // verus!
