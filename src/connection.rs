use vstd::prelude::*;
use crate::error::Error;
use crate::query::Query;

verus! {

/// An engine that holds tables and runs queries against them. A backend implements it with
/// its own kind of table reference.
pub trait Connection {
    type TableRef: Sized + Clone;

    /// A reference to the file at `path`, which the caller has found to exist.
    fn parquet_ref(&self, path: String) -> Self::TableRef;

    /// A reference to a fresh materialized table.
    fn in_memory_ref(&self) -> Self::TableRef;

    /// A reference to an independent copy of `table_ref`.
    fn clone_table(&self, table_ref: &Self::TableRef) -> Self::TableRef;

    /// Disposes of `table_ref`, best effort: a failure is not reported.
    fn drop_table(&self, table_ref: &Self::TableRef);

    /// Runs `query` against `table_ref` and materializes its result.
    fn exec_query(&self, query: Query, table_ref: &Self::TableRef) -> Result<
        Self::TableRef,
        Error,
    >;

    /// The columns of `table_ref`, as (name, type) pairs in the engine's order.
    fn get_metadata(&self, table_ref: &Self::TableRef) -> Result<Vec<(String, String)>, Error>;
}

} // verus!
