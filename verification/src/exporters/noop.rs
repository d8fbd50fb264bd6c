//! The installer that exports nothing: records reach the console only.

use crate::configs::AppConfigs;
use crate::errors::LoggingError;
use crate::exporters::envs::level_of;
use crate::exporters::filters::{configured_filters, is_quiet_table, is_uniform_table};
use crate::pipeline::{
    compact_layer,
    console_follows,
    select_formatter,
    stderr_follows,
    ExporterKind,
    Pipeline,
};
use crate::registry::SinkRegistry;
use opentelemetry_sdk::logs::{LoggerProviderBuilder, SdkLoggerProvider};
use tracing::Dispatch;
use vstd::prelude::*;

verus! {

/// `LoggerProviderBuilder::default` and `LoggerProviderBuilder::build`: a
/// provider without a processor, which exports nothing.
#[verifier::external_body]
fn idle_provider() -> (r: SdkLoggerProvider) {
    LoggerProviderBuilder::default().build()
}

/// Decides the pipeline without an export: the console as the environment
/// asks for it, the compact layer on standard error, and the table of
/// filters that the configuration asks for.
pub fn pipeline(cfg: &AppConfigs) -> (r: Pipeline)
    ensures
        r.exporter == ExporterKind::Noop,
        console_follows(r, *cfg),
        stderr_follows(r, *cfg),
        !r.log_facade,
        cfg.enable_external_creates_logging ==> is_uniform_table(
            r.filters,
            level_of(cfg.log_level@),
        ),
        !cfg.enable_external_creates_logging ==> is_quiet_table(
            r.filters,
            level_of(cfg.log_level@),
        ),
{
    Pipeline {
        exporter: ExporterKind::Noop,
        formatter: select_formatter(cfg.env),
        service_name: cfg.name.clone(),
        stderr_layer: Some(compact_layer(cfg.env)),
        log_facade: false,
        filters: configured_filters(cfg),
    }
}

/// Installs `sink` as the process-wide subscriber and hands out a provider
/// that exports nothing. Where the slot cannot be claimed the internal error
/// is returned, and the registry is as it was.
pub fn install(registry: &mut SinkRegistry, sink: Dispatch) -> (r: Result<
    SdkLoggerProvider,
    LoggingError,
>)
    ensures
        match r {
            Ok(_) => !old(registry)@ && final(registry)@,
            Err(e) => e == LoggingError::InternalError && final(registry)@ == old(registry)@,
        },
{
    match registry.claim(sink) {
        Ok(()) => Ok(idle_provider()),
        Err(e) => Err(e),
    }
}

} // verus!
