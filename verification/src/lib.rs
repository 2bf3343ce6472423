//! Compiles the description of a record type into the SQL text and the
//! binding plans of its primary-key point operations.

pub mod catalog;
pub mod config;
pub mod derive;
pub mod exec;
pub mod laws;
pub mod naming;
pub mod postgres;
pub mod statement;
pub mod text;
pub mod uuid;
