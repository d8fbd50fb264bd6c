//! Structured logging setup for a service.
//!
//! The library decides what the logging pipeline of a service is made of and
//! puts it in place once:
//!
//! - [`exporters::envs`] reads the configured severity level,
//! - [`exporters::filters`] builds the table of per-target levels and asks it
//!   at which level the subscriber filters a target,
//! - [`pipeline`] chooses the console format and describes the layers,
//! - [`exporters::noop`], [`exporters::stdout`] and [`exporters::otlp_grpc`]
//!   decide the pipeline of each exporter and install the sink assembled for
//!   it,
//! - [`provider`] selects among them by the enabled capabilities,
//! - [`facade`] forwards the records of the `log` facade where a pipeline
//!   asks for it,
//! - [`registry`] keeps the process-wide subscriber slot from being claimed
//!   twice.
//!
//! Writers and exporters are not made here: the caller assembles the sink
//! that a [`pipeline::Pipeline`] describes and hands it to the installer.

pub mod configs;
pub mod errors;
pub mod exporters;
pub mod facade;
pub mod logger;
pub mod pipeline;
pub mod provider;
pub mod registry;
pub mod severity;
pub mod text;
