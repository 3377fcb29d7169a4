pub mod constraints;
pub mod database;
pub mod query;
pub mod search;
pub mod state;
