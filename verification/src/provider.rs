//! The entry point: which installer the enabled capabilities select, and the
//! installation through it.

use crate::configs::AppConfigs;
use crate::errors::LoggingError;
use crate::exporters::envs::level_of;
use crate::exporters::filters::{is_quiet_table, is_uniform_table};
use crate::exporters::{noop, otlp_grpc, stdout};
use crate::pipeline::{console_follows, stderr_follows, ExportSink, ExporterKind, Pipeline};
use crate::registry::SinkRegistry;
use opentelemetry_otlp::ExporterBuildError;
use opentelemetry_sdk::logs::SdkLoggerProvider;
use tracing::Dispatch;
use vstd::prelude::*;

verus! {

/// The export capabilities that a build enables, and what it does without
/// one.
#[derive(Debug, Clone, Copy, PartialEq, Eq, Structural)]
pub struct Capabilities {
    /// Export to a collector over gRPC.
    pub otlp: bool,
    /// Export to the console.
    pub stdout: bool,
    /// Whether a build without an export capability is refused, rather than
    /// served by the installer that exports nothing.
    pub require_exporter: bool,
}

/// A sink as it was assembled for one of the installers.
#[derive(Debug)]
pub enum Assembly {
    /// For the installer that exports nothing: the sink alone.
    Noop(Dispatch),
    /// For the installer that exports to the console.
    Stdout(ExportSink),
    /// For the installer that exports to a collector: the sink around the
    /// exporter, or why the exporter could not be built.
    OtlpGrpc(Result<ExportSink, ExporterBuildError>),
}

impl Assembly {
    /// The installer that the sink was assembled for.
    pub open spec fn kind(self) -> ExporterKind {
        match self {
            Assembly::Noop(_) => ExporterKind::Noop,
            Assembly::Stdout(_) => ExporterKind::Stdout,
            Assembly::OtlpGrpc(_) => ExporterKind::OtlpGrpc,
        }
    }

    /// The provider that a successful installation hands back, where the
    /// assembly brought one.
    pub open spec fn provider(self) -> Option<SdkLoggerProvider> {
        match self {
            Assembly::Noop(_) => None,
            Assembly::Stdout(assembled) => Some(assembled.provider),
            Assembly::OtlpGrpc(Ok(assembled)) => Some(assembled.provider),
            Assembly::OtlpGrpc(Err(_)) => None,
        }
    }

    /// Whether the exporter of the assembly could not be built.
    pub open spec fn failed(self) -> bool {
        self matches Assembly::OtlpGrpc(Err(_))
    }
}

/// The installer that the capabilities select. Export to a collector comes
/// before export to the console; without either, the installer that exports
/// nothing serves, unless the build requires an exporter.
pub open spec fn selection(caps: Capabilities) -> Result<ExporterKind, LoggingError> {
    if caps.otlp {
        Ok(ExporterKind::OtlpGrpc)
    } else if caps.stdout {
        Ok(ExporterKind::Stdout)
    } else if caps.require_exporter {
        Err(LoggingError::InvalidFeaturesError)
    } else {
        Ok(ExporterKind::Noop)
    }
}

/// Selects the installer for the enabled capabilities.
pub fn select(caps: Capabilities) -> (r: Result<ExporterKind, LoggingError>)
    ensures
        r == selection(caps),
{
    if caps.otlp {
        Ok(ExporterKind::OtlpGrpc)
    } else if caps.stdout {
        Ok(ExporterKind::Stdout)
    } else if caps.require_exporter {
        Err(LoggingError::InvalidFeaturesError)
    } else {
        Ok(ExporterKind::Noop)
    }
}

/// Export to a collector wins over every other capability, export to the
/// console is selected only without it, and the selection fails only where
/// no export capability is enabled and one is required.
pub proof fn lemma_collector_export_wins(caps: Capabilities)
    ensures
        caps.otlp ==> selection(caps) == Ok::<ExporterKind, LoggingError>(ExporterKind::OtlpGrpc),
        selection(caps) == Ok::<ExporterKind, LoggingError>(ExporterKind::Stdout) <==> !caps.otlp
            && caps.stdout,
        selection(caps) is Err <==> !caps.otlp && !caps.stdout && caps.require_exporter,
        selection(caps) is Err ==> selection(caps) == Err::<ExporterKind, LoggingError>(
            LoggingError::InvalidFeaturesError,
        ),
{
}

/// Decides the pipeline of the installer that the capabilities select.
pub fn pipeline(caps: Capabilities, cfg: &AppConfigs) -> (r: Result<Pipeline, LoggingError>)
    ensures
        selection(caps) matches Err(e) ==> r matches Err(f) && f == e,
        selection(caps) matches Ok(kind) ==> r matches Ok(p) && p.exporter == kind,
        r matches Ok(p) ==> console_follows(p, *cfg) && stderr_follows(p, *cfg),
        r matches Ok(p) ==> p.log_facade == (p.exporter == ExporterKind::Stdout),
        r matches Ok(p) ==> (cfg.enable_external_creates_logging ==> is_uniform_table(
            p.filters,
            level_of(cfg.log_level@),
        )),
        r matches Ok(p) ==> (!cfg.enable_external_creates_logging ==> is_quiet_table(
            p.filters,
            level_of(cfg.log_level@),
        )),
{
    match select(caps) {
        Ok(ExporterKind::OtlpGrpc) => Ok(otlp_grpc::pipeline(cfg)),
        Ok(ExporterKind::Stdout) => Ok(stdout::pipeline(cfg)),
        Ok(ExporterKind::Noop) => Ok(noop::pipeline(cfg)),
        Err(e) => Err(e),
    }
}

/// Installs a sink through the installer that the capabilities select.
///
/// Where the capabilities select none, or the sink was assembled for another
/// installer than the selected one, the configuration error is returned and
/// the slot is not claimed. Otherwise the selected installer decides: the
/// internal error where the exporter could not be built or the slot cannot be
/// claimed, and the provider after a successful claim.
pub fn install(registry: &mut SinkRegistry, caps: Capabilities, assembly: Assembly) -> (r: Result<
    SdkLoggerProvider,
    LoggingError,
>)
    ensures
        selection(caps) != Ok::<ExporterKind, LoggingError>(assembly.kind()) ==> r == Err::<
            SdkLoggerProvider,
            LoggingError,
        >(LoggingError::InvalidFeaturesError) && final(registry)@ == old(registry)@,
        selection(caps) == Ok::<ExporterKind, LoggingError>(assembly.kind()) ==> match r {
            Ok(provider) => !assembly.failed() && !old(registry)@ && final(registry)@ && (
            assembly.provider() matches Some(given) ==> provider == given),
            Err(e) => e == LoggingError::InternalError && final(registry)@ == old(registry)@,
        },
{
    match (select(caps), assembly) {
        (Ok(ExporterKind::OtlpGrpc), Assembly::OtlpGrpc(built)) => otlp_grpc::install(
            registry,
            built,
        ),
        (Ok(ExporterKind::Stdout), Assembly::Stdout(assembled)) => stdout::install(
            registry,
            assembled,
        ),
        (Ok(ExporterKind::Noop), Assembly::Noop(sink)) => noop::install(registry, sink),
        _ => Err(LoggingError::InvalidFeaturesError),
    }
}

} // verus!
