//! A logger for programs built on tokio: call sites hand statements to a
//! bounded queue and a single background task filters and writes them.

pub mod consumer;
pub mod level;
pub mod logger;
pub mod runtime;
pub mod statement;
pub mod writer;
