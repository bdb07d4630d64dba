pub mod config;
pub mod database;
pub mod dates;
pub mod models;
pub mod money;
pub mod pages;
pub mod session;
pub mod text;
