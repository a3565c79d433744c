use greenlight::checks::CheckKind;
use greenlight::config::{
    default_path, CheckSet, Checks, Config, LogLevel, Logging, System, SystemArchitecture, Target,
};
use greenlight::plugins::plugin_outcome;

#[test]
fn test_default_target_is_edge() {
    assert_eq!(Target::default(), Target::Edge);
}

#[test]
fn test_default_log_level_is_info() {
    assert_eq!(LogLevel::default(), LogLevel::Info);
}

#[test]
fn test_default_logging_is_basic_into_default_path() {
    match Logging::default() {
        Logging::Basic { level, output } => {
            assert_eq!(level, LogLevel::Info);
            assert_eq!(output, "/var/log/greenlight.log");
        }
        _ => panic!("Expected basic logging"),
    }
}

#[test]
fn test_default_path_value() {
    assert_eq!(default_path(), "/var/log/greenlight.log");
}

#[test]
fn test_system_target_accessor() {
    let bootc = System::Bootc {
        arch: SystemArchitecture::AARCH64,
        target: Target::DPU,
    };
    assert_eq!(*bootc.target(), Target::DPU);
    let ostree = System::Ostree {
        arch: SystemArchitecture::X86,
        target: Target::Edge,
    };
    assert_eq!(*ostree.target(), Target::Edge);
    let traditional = System::Traditional {
        arch: SystemArchitecture::X86,
        target: Target::Automotive,
    };
    assert_eq!(*traditional.target(), Target::Automotive);
}

#[test]
fn test_default_buckets_are_empty() {
    let set = CheckSet::default();
    assert!(set.checks.is_empty());
    let kinds = Checks::default();
    assert!(kinds.included.is_empty());
    assert!(kinds.exclude.is_empty());
    assert!(kinds.required.is_empty());
    assert!(kinds.wanted.is_empty());
}

#[test]
fn test_config_holds_buckets() {
    let config = Config {
        system: System::Bootc {
            arch: SystemArchitecture::AARCH64,
            target: Target::DPU,
        },
        logging: Logging::default(),
        required: CheckSet::default(),
        wanted: CheckSet::default(),
    };
    assert_eq!(*config.system.target(), Target::DPU);
    assert!(config.required.checks.is_empty());
    assert!(config.wanted.checks.is_empty());
}

#[test]
fn test_checks_binding_by_kind() {
    let kinds = Checks {
        included: vec![CheckKind::RootFsReadonly, CheckKind::MicroShiftInstalled],
        exclude: vec![CheckKind::SwapDisabled],
        required: vec![CheckKind::RootFsReadonly],
        wanted: vec![CheckKind::MicroShiftInstalled],
    };
    assert_eq!(kinds.included.len(), 2);
    assert_eq!(kinds.exclude, vec![CheckKind::SwapDisabled]);
    assert_eq!(kinds.required, vec![CheckKind::RootFsReadonly]);
    assert_eq!(kinds.wanted, vec![CheckKind::MicroShiftInstalled]);
}

#[test]
fn test_plugin_status_policy() {
    assert!(plugin_outcome(Some("success")).is_ok());
    match plugin_outcome(Some("fail")) {
        Err(e) => assert_eq!(e.message(), "Check failed: A plugin returned failure"),
        Ok(()) => panic!("a failing plugin must not pass"),
    }
    match plugin_outcome(Some("warning")) {
        Err(e) => assert_eq!(
            e.message(),
            "Check failed: A plugin produced an invalid result"
        ),
        Ok(()) => panic!("an unrecognized status must not pass"),
    }
    match plugin_outcome(None) {
        Err(e) => assert_eq!(
            e.message(),
            "Check failed: A plugin produced an invalid result"
        ),
        Ok(()) => panic!("a missing status must not pass"),
    }
}
