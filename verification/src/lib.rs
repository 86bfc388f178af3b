//! Per-guild voice session coordination: a registry of track queues, the
//! decisions that lead to a voice connection, and the queue engine that
//! says which track plays next.

pub mod command;
pub mod error;
pub mod ids;
pub mod laws;
pub mod queue;
pub mod registry;
pub mod session;
pub mod track;
