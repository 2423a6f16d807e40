pub mod analytics;
pub mod error;
pub mod filter;
pub mod laws;
pub mod persistent;
pub mod row_laws;
pub mod rows;
pub mod sqlite;
pub mod store;
