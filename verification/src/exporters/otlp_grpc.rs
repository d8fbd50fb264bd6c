//! The installer that exports to a collector over gRPC.

use crate::configs::{AppConfigs, OtlpConfigs};
use crate::errors::LoggingError;
use crate::exporters::envs::level_of;
use crate::exporters::filters::{configured_filters, is_quiet_table, is_uniform_table};
use crate::exporters::resource::{
    describes_service,
    lemma_attribute_keys,
    resource_attributes,
    with_attribute,
    with_service_name,
};
use crate::pipeline::{
    compact_layer,
    console_follows,
    select_formatter,
    stderr_follows,
    ExportSink,
    ExporterKind,
    Pipeline,
};
use crate::registry::SinkRegistry;
use opentelemetry_otlp::ExporterBuildError;
use opentelemetry_sdk::logs::SdkLoggerProvider;
use opentelemetry_sdk::Resource;
use std::time::Duration;
use vstd::prelude::*;

verus! {

/// `opentelemetry_otlp::ExporterBuildError`, the failure to build an
/// exporter.
#[verifier::external_type_specification]
#[verifier::external_body]
pub struct ExExporterBuildError(ExporterBuildError);

/// How an exporter talks to the collector. The gRPC transport is the one
/// that this library builds exporters for.
#[derive(Debug, Clone, Copy, PartialEq, Eq, Structural)]
pub enum Protocol {
    Grpc,
}

/// How an exporter compresses what it sends.
#[derive(Debug, Clone, Copy, PartialEq, Eq, Structural)]
pub enum Compression {
    Gzip,
    Zstd,
}

/// What the exporter to the collector is built from.
#[derive(Debug)]
pub struct ExporterConfig {
    /// How the exporter talks to the collector.
    pub protocol: Protocol,
    /// How the exporter compresses what it sends.
    pub compression: Compression,
    /// How long one export may take.
    pub timeout: Duration,
    /// The collector's address.
    pub endpoint: String,
}

/// Decides what the exporter is built from: gRPC with gzip, to the
/// configured address, within the configured time.
pub fn exporter_config(otlp: &OtlpConfigs) -> (r: ExporterConfig)
    ensures
        r.protocol == Protocol::Grpc,
        r.compression == Compression::Gzip,
        r.timeout == otlp.exporter_timeout,
        r.endpoint@ == otlp.endpoint@,
{
    ExporterConfig {
        protocol: Protocol::Grpc,
        compression: Compression::Gzip,
        timeout: otlp.exporter_timeout,
        endpoint: otlp.endpoint.clone(),
    }
}

/// Describes the service for the collector: its name, its environment and
/// the language it is written in.
pub fn resource(cfg: &AppConfigs) -> (r: Resource)
    ensures
        describes_service(resource_attributes(r), *cfg),
{
    proof {
        lemma_attribute_keys();
    }
    let env = cfg.env.name();
    let builder = Resource::builder();
    let builder = with_service_name(builder, cfg.name.as_str());
    let builder = with_attribute(builder, "environment", env.as_str());
    let builder = with_attribute(builder, "library.language", "rust");
    builder.build()
}

/// Decides the pipeline that exports to a collector: the console as the
/// environment asks for it, the compact layer on standard error, and the
/// table of filters that the configuration asks for.
pub fn pipeline(cfg: &AppConfigs) -> (r: Pipeline)
    ensures
        r.exporter == ExporterKind::OtlpGrpc,
        console_follows(r, *cfg),
        stderr_follows(r, *cfg),
        !r.log_facade,
        cfg.enable_external_creates_logging ==> is_uniform_table(
            r.filters,
            level_of(cfg.log_level@),
        ),
        !cfg.enable_external_creates_logging ==> is_quiet_table(
            r.filters,
            level_of(cfg.log_level@),
        ),
{
    Pipeline {
        exporter: ExporterKind::OtlpGrpc,
        formatter: select_formatter(cfg.env),
        service_name: cfg.name.clone(),
        stderr_layer: Some(compact_layer(cfg.env)),
        log_facade: false,
        filters: configured_filters(cfg),
    }
}

/// Installs the sink that was assembled around the exporter as the
/// process-wide subscriber, and hands back its provider.
///
/// Where the exporter could not be built the internal error is returned and
/// the slot is not claimed. Where the slot cannot be claimed the internal
/// error is returned too, the provider is dropped, and the registry is as it
/// was.
pub fn install(registry: &mut SinkRegistry, built: Result<ExportSink, ExporterBuildError>) -> (r:
    Result<SdkLoggerProvider, LoggingError>)
    ensures
        built is Err ==> r == Err::<SdkLoggerProvider, LoggingError>(LoggingError::InternalError)
            && final(registry)@ == old(registry)@,
        built matches Ok(assembled) ==> match r {
            Ok(provider) => provider == assembled.provider && !old(registry)@ && final(registry)@,
            Err(e) => e == LoggingError::InternalError && final(registry)@ == old(registry)@,
        },
{
    match built {
        Ok(assembled) => {
            let ExportSink { sink, provider } = assembled;
            match registry.claim(sink) {
                Ok(()) => Ok(provider),
                Err(e) => Err(e),
            }
        },
        Err(_) => Err(LoggingError::InternalError),
    }
}

} // verus!
