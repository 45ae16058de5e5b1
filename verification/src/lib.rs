//! Core logic of a desktop task-reminder application: parsing of
//! working-hours and weekly recurrence configuration, idempotent
//! materialization of recurring tasks into concrete occurrences, and
//! evaluation of which notifications a scheduler tick should emit.

pub mod api;
pub mod calendar;
pub mod error;
pub mod decimal;
pub mod evaluator;
pub mod materializer;
pub mod models;
pub mod records;
pub mod scheduler;
pub mod recurrence;
pub mod time_window;
