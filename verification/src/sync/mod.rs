//! The synchronization engine: cancellation-aware retry, the worker of an
//! item, the pipeline of a resource, the orchestrator of the phases and the
//! integrity validator.

pub mod engine;
pub mod limiter;
pub mod pipeline;
pub mod progress;
pub mod resource;
pub mod retry;
pub mod validator;
pub mod worker;
pub mod writes;
