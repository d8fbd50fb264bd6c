//! What a logging pipeline is made of, as the installers decide it.

use crate::configs::{AppConfigs, Environment};
use opentelemetry_sdk::logs::SdkLoggerProvider;
use tracing::Dispatch;
use tracing_subscriber::filter::Targets;
use vstd::prelude::*;

verus! {

/// `tracing::Dispatch`, a subscriber ready to be made the process-wide sink.
#[verifier::external_type_specification]
#[verifier::external_body]
pub struct ExDispatch(Dispatch);

/// `opentelemetry_sdk::logs::SdkLoggerProvider`, the handle that owns the
/// export of log records.
#[verifier::external_type_specification]
#[verifier::external_body]
pub struct ExSdkLoggerProvider(SdkLoggerProvider);

/// How the console shows a record.
#[derive(Debug, Clone, Copy, PartialEq, Eq, Structural)]
pub enum Formatter {
    /// Several lines for a person at a terminal, with colours.
    Human,
    /// One line of tagged fields for a log aggregator, with the service's name.
    Structured,
}

/// Where the records go besides the console.
#[derive(Debug, Clone, Copy, PartialEq, Eq, Structural)]
pub enum ExporterKind {
    /// Nowhere.
    Noop,
    /// To the console, as export records.
    Stdout,
    /// To a collector, over gRPC.
    OtlpGrpc,
}

/// What the compact layer on standard error shows of a record.
#[derive(Debug, Clone, Copy, PartialEq, Eq, Structural)]
pub struct CompactLayer {
    /// Whether the output is coloured.
    pub ansi: bool,
    /// Whether the id of the thread is shown.
    pub thread_ids: bool,
    /// Whether the name of the thread is shown.
    pub thread_names: bool,
    /// Whether the level of the record is shown.
    pub level: bool,
    /// Whether the target of the record is shown.
    pub target: bool,
    /// Whether the source file is shown.
    pub file: bool,
    /// Whether the line in the source file is shown.
    pub line_number: bool,
}

impl ExporterKind {
    /// Whether the sink gets a bridge layer that forwards the records to an
    /// exporter.
    pub fn exports(&self) -> (r: bool)
        ensures
            r == (*self != ExporterKind::Noop),
    {
        match self {
            ExporterKind::Noop => false,
            _ => true,
        }
    }
}

/// The layers of a sink as an installer has decided them, for the assembly
/// of the sink.
#[derive(Debug)]
pub struct Pipeline {
    /// Where the records go besides the console. Every exporter but `Noop`
    /// gets a bridge layer that forwards the records to it.
    pub exporter: ExporterKind,
    /// How the console shows a record on standard output.
    pub formatter: Formatter,
    /// The name that the structured formatter tags each record with.
    pub service_name: String,
    /// The compact layer on standard error, where the sink has one.
    pub stderr_layer: Option<CompactLayer>,
    /// Whether the records of the `log` facade are forwarded to the sink.
    pub log_facade: bool,
    /// The levels at which the targets log, for every layer.
    pub filters: Targets,
}

/// A sink that was assembled around an exporting provider.
#[derive(Debug)]
pub struct ExportSink {
    /// The subscriber to install.
    pub sink: Dispatch,
    /// The provider that the subscriber's bridge forwards to.
    pub provider: SdkLoggerProvider,
}

/// The formatter of an environment: the human one on a developer's machine,
/// the structured one everywhere else.
pub open spec fn formatter_for(env: Environment) -> Formatter {
    if env == Environment::Local {
        Formatter::Human
    } else {
        Formatter::Structured
    }
}

/// The compact layer that shows all it can of where a record comes from,
/// coloured or not.
pub open spec fn detailed_layer(ansi: bool) -> CompactLayer {
    CompactLayer {
        ansi,
        thread_ids: true,
        thread_names: true,
        level: true,
        target: true,
        file: true,
        line_number: true,
    }
}

/// Whether the console part of `pipeline` is the one that `cfg` asks for:
/// the formatter of its environment, with the service's name as the tag.
pub open spec fn console_follows(pipeline: Pipeline, cfg: AppConfigs) -> bool {
    &&& pipeline.formatter == formatter_for(cfg.env)
    &&& pipeline.service_name@ == cfg.name@
}

/// Whether `pipeline` has the compact layer that shows all it can, coloured
/// on a developer's machine only.
pub open spec fn stderr_follows(pipeline: Pipeline, cfg: AppConfigs) -> bool {
    pipeline.stderr_layer == Some(detailed_layer(cfg.env == Environment::Local))
}

/// Decides the compact layer on standard error: it shows the thread, the
/// level, the target and the source location of each record, in colour on a
/// developer's machine only.
pub fn compact_layer(env: Environment) -> (r: CompactLayer)
    ensures
        r == detailed_layer(env == Environment::Local),
{
    CompactLayer {
        ansi: env.is_local(),
        thread_ids: true,
        thread_names: true,
        level: true,
        target: true,
        file: true,
        line_number: true,
    }
}

/// Chooses how the console shows a record.
pub fn select_formatter(env: Environment) -> (r: Formatter)
    ensures
        r == formatter_for(env),
{
    if env.is_local() {
        Formatter::Human
    } else {
        Formatter::Structured
    }
}

/// The formatter depends on nothing but whether the environment is local:
/// the local one gets the human formatter, and every other the structured.
pub proof fn lemma_formatter_by_locality(a: Environment, b: Environment)
    ensures
        formatter_for(a) == Formatter::Human <==> a == Environment::Local,
        formatter_for(a) == Formatter::Structured <==> a != Environment::Local,
        (a == Environment::Local) == (b == Environment::Local) ==> formatter_for(a)
            == formatter_for(b),
{
}

} // verus!
