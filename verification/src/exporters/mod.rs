//! The pieces of a logging pipeline and the installers that put one in place:
//! one that exports nothing, one that exports to the console, and one that
//! exports to a collector over gRPC.

pub mod envs;
pub mod filters;
pub mod level;
pub mod noop;
pub mod otlp_grpc;
pub mod resource;
pub mod stdout;
