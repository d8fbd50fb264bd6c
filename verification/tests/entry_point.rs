// One test to the file: the test claims the subscriber slot of its process.

use logging::errors::LoggingError;
use logging::pipeline::ExportSink;
use logging::provider::{install, Assembly, Capabilities};
use logging::registry::SinkRegistry;
use opentelemetry_otlp::{ExporterBuildError, LogExporter, WithExportConfig};
use opentelemetry_sdk::logs::SdkLoggerProvider;
use tracing::Dispatch;

fn assembled() -> ExportSink {
    ExportSink { sink: Dispatch::none(), provider: SdkLoggerProvider::builder().build() }
}

fn failed_build() -> ExporterBuildError {
    match LogExporter::builder().with_tonic().with_endpoint("not an endpoint").build() {
        Ok(_) => panic!("a malformed endpoint built an exporter"),
        Err(e) => e,
    }
}

#[test]
fn the_entry_point_installs_through_the_selected_installer() {
    let both = Capabilities { otlp: true, stdout: true, require_exporter: false };
    let mut registry = SinkRegistry::new();

    // With both capabilities the collector's installer is the one that runs:
    // a sink for the console is turned away, and a failed exporter is reported.
    let outcome = install(&mut registry, both, Assembly::Stdout(assembled()));
    assert_eq!(outcome.err(), Some(LoggingError::InvalidFeaturesError));
    let outcome = install(&mut registry, both, Assembly::OtlpGrpc(Err(failed_build())));
    assert_eq!(outcome.err(), Some(LoggingError::InternalError));
    assert!(!registry.is_claimed());
    assert_eq!(tracing_log::log::max_level(), tracing_log::log::LevelFilter::Off);

    let outcome = install(&mut registry, both, Assembly::OtlpGrpc(Ok(assembled())));
    assert!(outcome.is_ok());
    assert!(registry.is_claimed());

    let again = install(&mut registry, both, Assembly::OtlpGrpc(Ok(assembled())));
    assert_eq!(again.err(), Some(LoggingError::InternalError));
    assert!(registry.is_claimed());
}
