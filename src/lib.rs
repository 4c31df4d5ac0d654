pub mod connection;
pub mod duck;
pub mod error;
pub mod frame;
pub mod lazy;
pub mod prelude;
pub mod query;
pub mod text;
