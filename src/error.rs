use vstd::prelude::*;

verus! {

/// What can go wrong: a file-system failure, an engine failure (its message), or a missing
/// source file (its canonical path).
#[derive(Debug, PartialEq)]
pub enum Error {
    Io(String),
    DuckDB(String),
    FileNotFound(String),
}

} // verus!
