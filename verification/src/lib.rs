//! Lifecycle orchestration for an object-storage server: ordered start-up,
//! coordinated shutdown, and the small pieces of configuration handling
//! that surround them.

pub mod bootstrap;
pub mod cancel;
pub mod config;
pub mod console;
pub mod orchestrator;
pub mod postgres;
pub mod reconcile;
pub mod shutdown;
pub mod singleton;
pub mod state;
pub mod text;
pub mod tls;
