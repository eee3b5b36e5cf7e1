pub mod admin;
pub mod autodelete;
pub mod commands;
pub mod handler;
pub mod simple;
