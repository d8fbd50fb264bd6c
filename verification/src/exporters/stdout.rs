//! The installer that exports to the console.

use crate::configs::AppConfigs;
use crate::errors::LoggingError;
use crate::exporters::envs::level_of;
use crate::exporters::filters::{configured_filters, is_quiet_table, is_uniform_table};
use crate::exporters::resource::{
    describes_service,
    lemma_attribute_keys,
    resource_attributes,
    says,
    with_attribute,
    with_service_name,
};
use crate::pipeline::{
    compact_layer,
    console_follows,
    select_formatter,
    stderr_follows,
    ExportSink,
    ExporterKind,
    Pipeline,
};
use crate::registry::SinkRegistry;
use opentelemetry_sdk::logs::SdkLoggerProvider;
use opentelemetry_sdk::Resource;
use vstd::prelude::*;

verus! {

/// Describes the service for the console export: its name, its namespace,
/// its environment and the language it is written in.
pub fn resource(cfg: &AppConfigs) -> (r: Resource)
    ensures
        describes_service(resource_attributes(r), *cfg),
        says(resource_attributes(r), "service.namespace"@, cfg.namespace@),
{
    proof {
        lemma_attribute_keys();
    }
    let env = cfg.env.name();
    let builder = Resource::builder();
    let builder = with_service_name(builder, cfg.name.as_str());
    let builder = with_attribute(builder, "service.namespace", cfg.namespace.as_str());
    let builder = with_attribute(builder, "environment", env.as_str());
    let builder = with_attribute(builder, "library.language", "rust");
    builder.build()
}

/// Decides the pipeline that exports to the console: the console as the
/// environment asks for it, the compact layer on standard error, the records
/// of the `log` facade forwarded, and the table of filters that the
/// configuration asks for.
pub fn pipeline(cfg: &AppConfigs) -> (r: Pipeline)
    ensures
        r.exporter == ExporterKind::Stdout,
        console_follows(r, *cfg),
        stderr_follows(r, *cfg),
        r.log_facade,
        cfg.enable_external_creates_logging ==> is_uniform_table(
            r.filters,
            level_of(cfg.log_level@),
        ),
        !cfg.enable_external_creates_logging ==> is_quiet_table(
            r.filters,
            level_of(cfg.log_level@),
        ),
{
    Pipeline {
        exporter: ExporterKind::Stdout,
        formatter: select_formatter(cfg.env),
        service_name: cfg.name.clone(),
        stderr_layer: Some(compact_layer(cfg.env)),
        log_facade: true,
        filters: configured_filters(cfg),
    }
}

/// Installs the assembled sink as the process-wide subscriber, and hands
/// back its provider. Where the slot cannot be claimed the internal error is
/// returned, the provider is dropped, and the registry is as it was.
pub fn install(registry: &mut SinkRegistry, assembled: ExportSink) -> (r: Result<
    SdkLoggerProvider,
    LoggingError,
>)
    ensures
        match r {
            Ok(provider) => provider == assembled.provider && !old(registry)@ && final(registry)@,
            Err(e) => e == LoggingError::InternalError && final(registry)@ == old(registry)@,
        },
{
    let ExportSink { sink, provider } = assembled;
    match registry.claim(sink) {
        Ok(()) => Ok(provider),
        Err(e) => Err(e),
    }
}

} // verus!
