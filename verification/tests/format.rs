use logging::configs::{AppConfigs, Environment};
use logging::pipeline::{select_formatter, Formatter};

#[test]
fn local_gets_the_human_formatter() {
    assert_eq!(select_formatter(Environment::Local), Formatter::Human);
}

#[test]
fn every_other_environment_gets_the_structured_formatter() {
    assert_eq!(select_formatter(Environment::Dev), Formatter::Structured);
    assert_eq!(select_formatter(Environment::Staging), Formatter::Structured);
    assert_eq!(select_formatter(Environment::Prod), Formatter::Structured);
}

#[test]
fn the_selection_is_the_same_on_every_call() {
    for env in [Environment::Local, Environment::Dev, Environment::Staging, Environment::Prod] {
        let first = select_formatter(env);
        assert_eq!(select_formatter(env), first);
        assert_eq!(select_formatter(env), first);
    }
}

#[test]
fn environments_report_their_names() {
    assert_eq!(Environment::Local.name(), "local");
    assert_eq!(Environment::Dev.name(), "dev");
    assert_eq!(Environment::Staging.name(), "staging");
    assert_eq!(Environment::Prod.name(), "prod");
}

#[test]
fn only_local_is_local() {
    assert!(Environment::Local.is_local());
    assert!(!Environment::Dev.is_local());
    assert!(!Environment::Staging.is_local());
    assert!(!Environment::Prod.is_local());
}

#[test]
fn the_default_configuration_is_a_local_service_at_debug() {
    let cfg = AppConfigs::default();
    assert_eq!(cfg.name, "default-name");
    assert_eq!(cfg.namespace, "local");
    assert_eq!(cfg.env, Environment::Local);
    assert_eq!(cfg.log_level, "debug");
    assert!(!cfg.enable_external_creates_logging);
}
