//! A single-slot durable register: one application-state string kept in an
//! embedded SQLite database and read back after a restart.

pub mod commands;
pub mod engine;
pub mod error;
pub mod guard;
pub mod lock;
pub mod record;
pub mod register;
pub mod startup;
pub mod statements;
