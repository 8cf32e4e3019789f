//! What the application keeps between runs, as plain records.

pub mod database;
