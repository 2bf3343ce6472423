//! What a record type states about its table.

use vstd::prelude::*;

verus! {

/// The table identity of a record type.
pub trait TableMeta: Sized {
    /// The quoted table name, qualified by its schema.
    const QUAL_TABLE: &'static str;

    /// The quoted column names, in declaration order.
    const COLS: &'static [&'static str];

    /// The quoted key column names, in configured order.
    const PK_COLS: &'static [&'static str];

    /// The type of the value that identifies one row.
    type Id;
}

} // verus!
