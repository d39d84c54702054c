//! Per-thread overrides of a process-wide logging backend.
//!
//! A [`MockLogger`] maps a thread's key to the sink installed for that thread
//! and the most verbose level that sink is shown. Installing a sink hands back
//! a [`MockLoggerGuard`]; giving the guard back removes the thread's entry.
//! The routing queries say, for one thread, which sink (if any) an
//! enabled-check, a record or a flush goes to. The laws that tie these
//! together are stated and proved in [`laws`].

mod level;
mod registry;

pub mod laws;

pub use level::{Level, LevelFilter};
pub use registry::{
    enabled_sink, flush_sink, log_sink, refers_to, MockLogger, MockLoggerGuard, Overrides,
};
