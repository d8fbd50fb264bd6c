//! The plain setup: console and filters, without an export.

use crate::configs::AppConfigs;
use crate::errors::LoggingError;
use crate::exporters::envs::level_of;
use crate::exporters::filters::{configured_filters, is_quiet_table, is_uniform_table};
use crate::pipeline::{console_follows, select_formatter, ExporterKind, Pipeline};
use crate::registry::SinkRegistry;
use tracing::Dispatch;
use vstd::prelude::*;

verus! {

/// Decides the pipeline of the plain setup: the console as the environment
/// asks for it, the records of the `log` facade forwarded, and the table of
/// filters that the configuration asks for.
pub fn pipeline(cfg: &AppConfigs) -> (r: Pipeline)
    ensures
        r.exporter == ExporterKind::Noop,
        console_follows(r, *cfg),
        r.stderr_layer is None,
        r.log_facade,
        cfg.enable_external_creates_logging ==> is_uniform_table(
            r.filters,
            level_of(cfg.log_level@),
        ),
        !cfg.enable_external_creates_logging ==> is_quiet_table(
            r.filters,
            level_of(cfg.log_level@),
        ),
{
    Pipeline {
        exporter: ExporterKind::Noop,
        formatter: select_formatter(cfg.env),
        service_name: cfg.name.clone(),
        stderr_layer: None,
        log_facade: true,
        filters: configured_filters(cfg),
    }
}

/// Installs `sink` as the process-wide subscriber. Where the slot cannot be
/// claimed the internal error is returned, and the registry is as it was.
pub fn setup(registry: &mut SinkRegistry, sink: Dispatch) -> (r: Result<(), LoggingError>)
    ensures
        match r {
            Ok(()) => !old(registry)@ && final(registry)@,
            Err(e) => e == LoggingError::InternalError && final(registry)@ == old(registry)@,
        },
{
    registry.claim(sink)
}

} // verus!
