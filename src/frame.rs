use vstd::prelude::*;
use crate::connection::Connection;
use crate::error::Error;
use crate::lazy::LazyFrame;
use crate::query::{column_query, Query};

verus! {

/// A table held by an engine, evaluated eagerly. It owns its table reference; `dispose`
/// releases it.
pub struct Dataframe<'a, C: Connection> {
    table_ref: C::TableRef,
    connection: &'a C,
}

impl<'a, C: Connection> Dataframe<'a, C> {
    /// The table this frame holds.
    pub closed spec fn table(&self) -> C::TableRef {
        self.table_ref
    }

    /// The engine this frame borrows.
    pub closed spec fn conn(&self) -> C {
        *self.connection
    }

    /// The frame over the file at `path`, a canonical path whose existence the caller has
    /// checked: `FileNotFound` if it does not exist.
    pub fn open_parquet(path: String, exists: bool, connection: &'a C) -> (r: Result<
        Dataframe<'a, C>,
        Error,
    >)
        ensures
            !exists ==> r == Err::<Dataframe<'a, C>, Error>(Error::FileNotFound(path)),
            exists ==> r is Ok && r->Ok_0.conn() == *connection,
    {
        if !exists {
            return Err(Error::FileNotFound(path));
        }
        Ok(Dataframe { table_ref: connection.parquet_ref(path), connection })
    }

    /// The columns of this frame, as the engine describes them.
    pub fn meta(&self) -> Result<Vec<(String, String)>, Error> {
        self.connection.get_metadata(&self.table_ref)
    }

    /// The frame that holds the result of `query` over this one, on the same engine. This
    /// frame is left as it was.
    pub fn query(&self, query: Query) -> (r: Result<Dataframe<'a, C>, Error>)
        ensures
            r is Ok ==> r->Ok_0.conn() == self.conn(),
    {
        let outcome = self.connection.exec_query(query, &self.table_ref);
        self.derived(outcome)
    }

    /// The frame over what the engine returned for a query on this frame: the new table on
    /// the same engine, or the engine's error as it came.
    pub fn derived(&self, outcome: Result<C::TableRef, Error>) -> (r: Result<
        Dataframe<'a, C>,
        Error,
    >)
        ensures
            match outcome {
                Ok(t) => r is Ok && r->Ok_0.table() == t && r->Ok_0.conn() == self.conn(),
                Err(e) => r == Err::<Dataframe<'a, C>, Error>(e),
            },
    {
        match outcome {
            Ok(table_ref) => Ok(Dataframe { table_ref, connection: self.connection }),
            Err(e) => Err(e),
        }
    }

    /// The frame that holds the columns `selection` of this one, in that order: the query
    /// of `column_query(selection)`.
    pub fn select(&self, selection: &[&str]) -> (r: Result<Dataframe<'a, C>, Error>)
        ensures
            r is Ok ==> r->Ok_0.conn() == self.conn(),
    {
        self.query(column_query(selection))
    }

    /// Disposes of this frame's table. The frame is consumed, so its table is disposed of
    /// once and is never the target of a later call through it.
    pub fn dispose(self) {
        self.connection.drop_table(&self.table_ref);
    }

    /// A lazy builder over this frame, with an empty projection list.
    pub fn lazy(&self) -> (r: LazyFrame<'_, C>)
        ensures
            r.frame() == *self,
            r.selection() == Seq::<crate::query::Expr>::empty(),
    {
        LazyFrame::from_frame(self)
    }
}

impl<'a, C: Connection> Clone for Dataframe<'a, C> {
    /// A frame over an independent copy of this frame's table, on the same engine.
    fn clone(&self) -> (r: Self)
        ensures
            r.conn() == self.conn(),
    {
        Dataframe {
            table_ref: self.connection.clone_table(&self.table_ref),
            connection: self.connection,
        }
    }
}

} // verus!
