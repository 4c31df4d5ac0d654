use vstd::prelude::*;
use vstd::string::StringExecFns;
use std::sync::atomic::{AtomicU64, Ordering};
use crate::error::Error;
use crate::query::{query_text, Query};
use crate::text::{decimal, lemma_decimal_injective, push_decimal};

verus! {

/// A table known to the engine: a materialized table by name, or a file by path.
#[derive(Debug, Clone, PartialEq)]
pub enum DuckTableRef {
    InMemory(String),
    Parquet(String),
}

/// How a table is written in a statement: a materialized table's name in double quotes, a
/// file's path in single quotes.
pub open spec fn ref_text(t: DuckTableRef) -> Seq<char> {
    match t {
        DuckTableRef::InMemory(name) => "\""@ + name@ + "\""@,
        DuckTableRef::Parquet(path) => "'"@ + path@ + "'"@,
    }
}

/// The name of the `n`-th materialized table of a connection.
pub open spec fn df_name(n: nat) -> Seq<char> {
    "df_"@ + decimal(n)
}

/// Whether `s` is the name of some materialized table.
pub open spec fn is_df_name(s: Seq<char>) -> bool {
    exists|n: nat| s == df_name(n)
}

/// The statement that copies the table `old` into a new table `new`.
pub open spec fn clone_text(new: Seq<char>, old: Seq<char>) -> Seq<char> {
    "CREATE TABLE "@ + new + " AS SELECT * FROM "@ + old
}

/// The statement that materializes the result of `query` into a new table `new`.
pub open spec fn materialize_text(new: Seq<char>, query: Seq<char>) -> Seq<char> {
    "CREATE TABLE "@ + new + " AS "@ + query
}

/// The statement that drops the table `name`.
pub open spec fn drop_text(name: Seq<char>) -> Seq<char> {
    "DROP TABLE "@ + name
}

/// The statement that asks the engine for the columns of `t`.
pub open spec fn describe_text(t: DuckTableRef) -> Seq<char> {
    "DESCRIBE TABLE "@ + ref_text(t)
}

/// Distinct counter values name distinct materialized tables.
pub proof fn lemma_df_names_distinct(i: nat, j: nat)
    requires
        i != j,
    ensures
        df_name(i) != df_name(j),
{
    if df_name(i) == df_name(j) {
        let p = "df_"@;
        assert(df_name(i).subrange(p.len() as int, df_name(i).len() as int) =~= decimal(i));
        assert(df_name(j).subrange(p.len() as int, df_name(j).len() as int) =~= decimal(j));
        lemma_decimal_injective(i, j);
    }
}

/// The name of the `n`-th materialized table.
pub fn df_name_of(n: u64) -> (r: String)
    ensures
        r@ == df_name(n as nat),
{
    let mut s = String::from_str("df_");
    push_decimal(&mut s, n);
    s
}

impl DuckTableRef {
    /// How this table is written in a statement.
    pub fn to_sql(&self) -> (r: String)
        ensures
            r@ == ref_text(*self),
    {
        match self {
            DuckTableRef::InMemory(name) => {
                let mut s = String::from_str("\"");
                s.append(name.as_str());
                s.append("\"");
                s
            },
            DuckTableRef::Parquet(path) => {
                let mut s = String::from_str("'");
                s.append(path.as_str());
                s.append("'");
                s
            },
        }
    }
}

/// The table bookkeeping of one engine session: it hands out fresh names for materialized
/// tables and writes the statements that create, copy, drop and describe them. The session
/// that holds the engine runs those statements and reports back.
pub struct DuckConnection {
    next_df_number: AtomicU64,
}

impl DuckConnection {
    /// A session with no materialized table yet.
    pub fn open_in_memory() -> (r: Self) {
        DuckConnection { next_df_number: AtomicU64::new(0) }
    }

    /// A name that no earlier call on this session returned: the counter is incremented
    /// atomically, so calls from several threads get distinct numbers.
    pub fn next_df_name(&self) -> (r: String)
        ensures
            is_df_name(r@),
    {
        let n = self.next_df_number.fetch_add(1, Ordering::SeqCst);
        df_name_of(n)
    }

    /// A reference to the file at `path`.
    pub fn parquet_ref(&self, path: String) -> (r: DuckTableRef)
        ensures
            r == DuckTableRef::Parquet(path),
    {
        DuckTableRef::Parquet(path)
    }

    /// A reference to a fresh materialized table.
    pub fn in_memory_ref(&self) -> (r: DuckTableRef)
        ensures
            r is InMemory,
            is_df_name(r->InMemory_0@),
    {
        DuckTableRef::InMemory(self.next_df_name())
    }

    /// How to copy `table_ref`: the reference to the copy, and the statement that makes it if
    /// the engine has to. A file is shared, not copied; a materialized table is copied into a
    /// fresh one.
    pub fn clone_plan(&self, table_ref: &DuckTableRef) -> (r: (DuckTableRef, Option<String>))
        ensures
            match *table_ref {
                DuckTableRef::InMemory(name) => {
                    &&& r.0 is InMemory
                    &&& is_df_name(r.0->InMemory_0@)
                    &&& r.1 is Some
                    &&& r.1->Some_0@ == clone_text(r.0->InMemory_0@, name@)
                },
                DuckTableRef::Parquet(path) => {
                    &&& r.0 is Parquet
                    &&& r.0->Parquet_0@ == path@
                    &&& r.1 is None
                },
            },
    {
        match table_ref {
            DuckTableRef::InMemory(name) => {
                let new_name = self.next_df_name();
                let mut sql = String::from_str("CREATE TABLE ");
                sql.append(new_name.as_str());
                sql.append(" AS SELECT * FROM ");
                sql.append(name.as_str());
                (DuckTableRef::InMemory(new_name), Some(sql))
            },
            DuckTableRef::Parquet(path) => {
                let copy = String::from_str(path.as_str());
                (DuckTableRef::Parquet(copy), None)
            },
        }
    }

    /// The statement that disposes of `table_ref`, if the engine holds it.
    pub fn drop_statement(&self, table_ref: &DuckTableRef) -> (r: Option<String>)
        ensures
            match *table_ref {
                DuckTableRef::InMemory(name) => r is Some && r->Some_0@ == drop_text(name@),
                DuckTableRef::Parquet(_) => r is None,
            },
    {
        match table_ref {
            DuckTableRef::InMemory(name) => {
                let mut sql = String::from_str("DROP TABLE ");
                sql.append(name.as_str());
                Some(sql)
            },
            DuckTableRef::Parquet(_) => None,
        }
    }

    /// How to run `query` against `table_ref`: the fresh name of the result table, and the
    /// statement that fills it.
    pub fn exec_plan(&self, query: &Query, table_ref: &DuckTableRef) -> (r: (String, String))
        ensures
            is_df_name(r.0@),
            r.1@ == materialize_text(r.0@, query_text(query.selection@, ref_text(*table_ref))),
    {
        let new_name = self.next_df_name();
        let source = table_ref.to_sql();
        let body = query.to_sql(source.as_str());
        let mut sql = String::from_str("CREATE TABLE ");
        sql.append(new_name.as_str());
        sql.append(" AS ");
        sql.append(body.as_str());
        (new_name, sql)
    }

    /// What running the statement of `exec_plan` gave: the result table if the engine
    /// succeeded, else its message as an engine error.
    pub fn exec_outcome(new_name: String, outcome: Result<usize, String>) -> (r: Result<
        DuckTableRef,
        Error,
    >)
        ensures
            match outcome {
                Ok(_) => r == Ok::<DuckTableRef, Error>(DuckTableRef::InMemory(new_name)),
                Err(m) => r == Err::<DuckTableRef, Error>(Error::DuckDB(m)),
            },
    {
        match outcome {
            Ok(_) => Ok(DuckTableRef::InMemory(new_name)),
            Err(m) => Err(Error::DuckDB(m)),
        }
    }

    /// What running the statement of `describe_statement` gave: the columns, or the
    /// engine's message as an engine error.
    pub fn metadata_outcome(outcome: Result<Vec<(String, String)>, String>) -> (r: Result<
        Vec<(String, String)>,
        Error,
    >)
        ensures
            match outcome {
                Ok(cols) => r is Ok && r->Ok_0@ == cols@,
                Err(m) => r == Err::<Vec<(String, String)>, Error>(Error::DuckDB(m)),
            },
    {
        match outcome {
            Ok(cols) => Ok(cols),
            Err(m) => Err(Error::DuckDB(m)),
        }
    }

    /// The statement that describes the columns of `table_ref`.
    pub fn describe_statement(&self, table_ref: &DuckTableRef) -> (r: String)
        ensures
            r@ == describe_text(*table_ref),
    {
        let mut sql = String::from_str("DESCRIBE TABLE ");
        let t = table_ref.to_sql();
        sql.append(t.as_str());
        sql
    }
}

} // verus!
