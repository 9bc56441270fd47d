pub mod models;
pub mod database;
