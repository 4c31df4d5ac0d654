pub use crate::connection::Connection;
pub use crate::duck::{DuckConnection, DuckTableRef};
pub use crate::error::Error;
pub use crate::frame::Dataframe;
pub use crate::lazy::LazyFrame;
pub use crate::query::{col, column_query, Expr, Literal, Query};
