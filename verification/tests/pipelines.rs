use logging::configs::{AppConfigs, Environment, OtlpConfigs};
use logging::exporters::filters::level_for;
use logging::exporters::otlp_grpc::{exporter_config, Compression, Protocol};
use logging::exporters::{noop, otlp_grpc, stdout};
use logging::logger;
use logging::pipeline::{compact_layer, CompactLayer, ExporterKind, Formatter};
use logging::severity::SeverityLevel;
use opentelemetry::{Key, Value};
use std::time::Duration;
use tracing_subscriber::filter::LevelFilter;

fn detailed(ansi: bool) -> CompactLayer {
    CompactLayer {
        ansi,
        thread_ids: true,
        thread_names: true,
        level: true,
        target: true,
        file: true,
        line_number: true,
    }
}

fn orders(env: Environment, log_level: &str) -> AppConfigs {
    AppConfigs {
        name: "orders".to_owned(),
        namespace: "shop".to_owned(),
        env,
        log_level: log_level.to_owned(),
        enable_external_creates_logging: false,
    }
}

#[test]
fn the_pipeline_without_an_export() {
    let pipeline = noop::pipeline(&orders(Environment::Local, "debug"));
    assert_eq!(pipeline.exporter, ExporterKind::Noop);
    assert_eq!(pipeline.formatter, Formatter::Human);
    assert_eq!(pipeline.service_name, "orders");
    assert_eq!(pipeline.stderr_layer, Some(detailed(true)));
    assert!(!pipeline.log_facade);
    assert_eq!(pipeline.filters.default_level(), Some(LevelFilter::DEBUG));
    assert_eq!(level_for(&pipeline.filters, "hyper"), SeverityLevel::Warn);
    assert_eq!(level_for(&pipeline.filters, "orders"), SeverityLevel::Debug);
}

#[test]
fn the_pipeline_without_an_export_away_from_a_terminal() {
    let pipeline = noop::pipeline(&orders(Environment::Prod, "ERROR"));
    assert_eq!(pipeline.exporter, ExporterKind::Noop);
    assert_eq!(pipeline.formatter, Formatter::Structured);
    assert_eq!(pipeline.service_name, "orders");
    assert_eq!(pipeline.stderr_layer, Some(detailed(false)));
    assert_eq!(pipeline.filters.default_level(), Some(LevelFilter::ERROR));
    assert_eq!(pipeline.filters.iter().count(), 12);
}

#[test]
fn the_pipeline_that_exports_to_the_console() {
    let pipeline = stdout::pipeline(&orders(Environment::Staging, "Info"));
    assert_eq!(pipeline.exporter, ExporterKind::Stdout);
    assert_eq!(pipeline.formatter, Formatter::Structured);
    assert_eq!(pipeline.service_name, "orders");
    assert_eq!(pipeline.stderr_layer, Some(detailed(false)));
    assert!(pipeline.log_facade);
    assert_eq!(pipeline.filters.default_level(), Some(LevelFilter::INFO));
    assert_eq!(level_for(&pipeline.filters, "rustls"), SeverityLevel::Warn);
    let resource = stdout::resource(&orders(Environment::Staging, "Info"));
    assert_eq!(resource.get(&Key::new("service.name")), Some(Value::from("orders")));
    assert_eq!(resource.get(&Key::new("service.namespace")), Some(Value::from("shop")));
    assert_eq!(resource.get(&Key::new("environment")), Some(Value::from("staging")));
    assert_eq!(resource.get(&Key::new("library.language")), Some(Value::from("rust")));
}

#[test]
fn the_pipeline_that_exports_to_a_collector() {
    let pipeline = otlp_grpc::pipeline(&orders(Environment::Local, "trace"));
    assert_eq!(pipeline.exporter, ExporterKind::OtlpGrpc);
    assert_eq!(pipeline.formatter, Formatter::Human);
    assert_eq!(pipeline.service_name, "orders");
    assert_eq!(pipeline.stderr_layer, Some(detailed(true)));
    assert!(!pipeline.log_facade);
    assert_eq!(pipeline.filters.default_level(), Some(LevelFilter::TRACE));
    assert_eq!(level_for(&pipeline.filters, "opentelemetry_sdk"), SeverityLevel::Warn);
    let resource = otlp_grpc::resource(&orders(Environment::Local, "trace"));
    assert_eq!(resource.get(&Key::new("service.name")), Some(Value::from("orders")));
    assert_eq!(resource.get(&Key::new("environment")), Some(Value::from("local")));
    assert_eq!(resource.get(&Key::new("library.language")), Some(Value::from("rust")));
}

#[test]
fn the_exporter_is_built_for_grpc_with_gzip() {
    let otlp = OtlpConfigs {
        endpoint: "http://collector:4317".to_owned(),
        exporter_timeout: Duration::from_secs(7),
    };
    let config = exporter_config(&otlp);
    assert_eq!(config.protocol, Protocol::Grpc);
    assert_eq!(config.compression, Compression::Gzip);
    assert_eq!(config.timeout, Duration::from_secs(7));
    assert_eq!(config.endpoint, "http://collector:4317");
}

#[test]
fn the_plain_setup_keeps_the_noisy_dependencies_quiet() {
    let pipeline = logger::pipeline(&orders(Environment::Local, "debug"));
    assert_eq!(pipeline.exporter, ExporterKind::Noop);
    assert_eq!(pipeline.formatter, Formatter::Human);
    assert_eq!(pipeline.service_name, "orders");
    assert_eq!(pipeline.stderr_layer, None);
    assert!(pipeline.log_facade);
    assert_eq!(pipeline.filters.default_level(), Some(LevelFilter::DEBUG));
    assert_eq!(level_for(&pipeline.filters, "lapin"), SeverityLevel::Warn);
    assert_eq!(level_for(&pipeline.filters, "orders"), SeverityLevel::Debug);
}

#[test]
fn the_plain_setup_lets_the_noisy_dependencies_through_on_request() {
    let mut cfg = orders(Environment::Prod, "debug");
    cfg.enable_external_creates_logging = true;
    let pipeline = logger::pipeline(&cfg);
    assert_eq!(pipeline.formatter, Formatter::Structured);
    assert_eq!(pipeline.stderr_layer, None);
    assert_eq!(pipeline.filters.default_level(), Some(LevelFilter::DEBUG));
    assert_eq!(pipeline.filters.iter().count(), 0);
    assert_eq!(level_for(&pipeline.filters, "lapin"), SeverityLevel::Debug);
    assert_eq!(level_for(&pipeline.filters, "orders"), SeverityLevel::Debug);
}

#[test]
fn the_compact_layer_is_coloured_on_a_developers_machine_only() {
    assert_eq!(compact_layer(Environment::Local), detailed(true));
    assert_eq!(compact_layer(Environment::Dev), detailed(false));
    assert_eq!(compact_layer(Environment::Staging), detailed(false));
    assert_eq!(compact_layer(Environment::Prod), detailed(false));
}

#[test]
fn every_installer_lets_the_noisy_dependencies_through_on_request() {
    let mut cfg = orders(Environment::Prod, "debug");
    cfg.enable_external_creates_logging = true;
    for pipeline in [noop::pipeline(&cfg), stdout::pipeline(&cfg), otlp_grpc::pipeline(&cfg)] {
        assert_eq!(pipeline.filters.default_level(), Some(LevelFilter::DEBUG));
        assert_eq!(pipeline.filters.iter().count(), 0);
        assert_eq!(level_for(&pipeline.filters, "hyper"), SeverityLevel::Debug);
        assert_eq!(level_for(&pipeline.filters, "opentelemetry_sdk"), SeverityLevel::Debug);
        assert_eq!(level_for(&pipeline.filters, "orders"), SeverityLevel::Debug);
    }
}

#[test]
fn every_installer_keeps_the_noisy_dependencies_quiet_otherwise() {
    let cfg = orders(Environment::Prod, "debug");
    for pipeline in [noop::pipeline(&cfg), stdout::pipeline(&cfg), otlp_grpc::pipeline(&cfg)] {
        assert_eq!(pipeline.filters.default_level(), Some(LevelFilter::DEBUG));
        assert_eq!(pipeline.filters.iter().count(), 12);
        assert_eq!(level_for(&pipeline.filters, "hyper"), SeverityLevel::Warn);
        assert_eq!(level_for(&pipeline.filters, "opentelemetry_sdk"), SeverityLevel::Warn);
        assert_eq!(level_for(&pipeline.filters, "orders"), SeverityLevel::Debug);
    }
}

#[test]
fn only_the_noop_pipeline_has_no_bridge() {
    assert!(!ExporterKind::Noop.exports());
    assert!(ExporterKind::Stdout.exports());
    assert!(ExporterKind::OtlpGrpc.exports());
}
