use greenlight::checks::{
    check_eq, swap_table_is_empty, Check, CheckKind, CheckOutcome, ProbeRequest,
};
use greenlight::config::{System, SystemArchitecture, Target};
use greenlight::errors::GreenlightError;
use greenlight::network::{Interface, InterfaceState};
use greenlight::unit::ActiveState;

fn bootc_edge() -> System {
    System::Bootc {
        arch: SystemArchitecture::AARCH64,
        target: Target::Edge,
    }
}

fn ostree_edge() -> System {
    System::Ostree {
        arch: SystemArchitecture::AARCH64,
        target: Target::Edge,
    }
}

fn traditional_edge() -> System {
    System::Traditional {
        arch: SystemArchitecture::X86,
        target: Target::Edge,
    }
}

#[test]
fn test_kind_rootfs_applies_outside_traditional() {
    let kind = CheckKind::RootFsReadonly;
    assert!(kind.applies_to(&bootc_edge(), &Target::Edge));
    assert!(kind.applies_to(&ostree_edge(), &Target::Edge));
    assert!(!kind.applies_to(&traditional_edge(), &Target::Edge));
}

#[test]
fn test_kind_bootc_status_applies_under_bootc_only() {
    let kind = CheckKind::BootcStatusMatchesOsRelease;
    assert!(kind.applies_to(&bootc_edge(), &Target::DPU));
    assert!(!kind.applies_to(&ostree_edge(), &Target::DPU));
    assert!(!kind.applies_to(&traditional_edge(), &Target::DPU));
}

#[test]
fn test_kind_dpu_checks_apply_on_dpu_only() {
    for kind in [
        CheckKind::MicroShiftInstalled,
        CheckKind::ExpectedInterfacePresent,
        CheckKind::SwapDisabled,
        CheckKind::SshdRunning,
    ] {
        assert!(kind.applies_to(&bootc_edge(), &Target::DPU));
        assert!(!kind.applies_to(&bootc_edge(), &Target::Edge));
        assert!(!kind.applies_to(&bootc_edge(), &Target::Automotive));
    }
}

#[test]
fn test_check_rootfs_applies_outside_traditional() {
    let check = Check::RootfsReadonly;
    assert!(check.applies_to(&bootc_edge(), &Target::Edge));
    assert!(check.applies_to(&ostree_edge(), &Target::Edge));
    assert!(!check.applies_to(&traditional_edge(), &Target::Edge));
}

#[test]
fn test_check_dpu_checks_apply_on_dpu_only() {
    let unit = Check::UnitState {
        unit: "sshd".to_string(),
        expected: ActiveState::Active,
        timeout: None,
    };
    let interfaces = Check::Interfaces { interfaces: vec![] };
    for check in [
        Check::MicroshiftInstalled,
        Check::SwapDisabled,
        unit,
        interfaces,
    ] {
        assert!(check.applies_to(&bootc_edge(), &Target::DPU));
        assert!(!check.applies_to(&bootc_edge(), &Target::Edge));
        assert!(!check.applies_to(&bootc_edge(), &Target::Automotive));
    }
}

#[test]
fn test_check_eq_same_variant_same_parameters() {
    let a = Check::UnitState {
        unit: "sshd".to_string(),
        expected: ActiveState::Active,
        timeout: Some(3),
    };
    let b = Check::UnitState {
        unit: "sshd".to_string(),
        expected: ActiveState::Active,
        timeout: Some(3),
    };
    assert!(check_eq(&a, &b));
}

#[test]
fn test_check_eq_distinguishes_units() {
    let a = Check::UnitState {
        unit: "sshd".to_string(),
        expected: ActiveState::Active,
        timeout: None,
    };
    let b = Check::UnitState {
        unit: "chronyd".to_string(),
        expected: ActiveState::Active,
        timeout: None,
    };
    assert!(!check_eq(&a, &b));
    assert!(!check_eq(&a, &Check::SwapDisabled));
}

#[test]
fn test_check_eq_compares_interface_lists() {
    let eth = Interface {
        name: "eth0".to_string(),
        state: Some(InterfaceState::Up),
        mtu: Some(1500),
        promisc: None,
    };
    let a = Check::Interfaces {
        interfaces: vec![eth.clone()],
    };
    let b = Check::Interfaces {
        interfaces: vec![eth.clone()],
    };
    let c = Check::Interfaces { interfaces: vec![] };
    assert!(check_eq(&a, &b));
    assert!(!check_eq(&a, &c));
}

#[test]
fn test_probe_request_dispatch() {
    assert!(matches!(
        Check::RootfsReadonly.probe_request(),
        ProbeRequest::RootfsFlags
    ));
    assert!(matches!(
        Check::SwapDisabled.probe_request(),
        ProbeRequest::SwapTable
    ));
    let unit = Check::UnitState {
        unit: "sshd".to_string(),
        expected: ActiveState::Active,
        timeout: Some(5),
    };
    match unit.probe_request() {
        ProbeRequest::UnitWait {
            unit,
            expected,
            timeout,
        } => {
            assert_eq!(unit, "sshd");
            assert_eq!(expected, ActiveState::Active);
            assert_eq!(timeout, Some(5));
        }
        other => panic!("unexpected probe request: {:?}", other),
    }
}

#[test]
fn test_probe_request_unsupported_variants() {
    assert!(matches!(
        Check::BootcStatusMatchesOsRelease.probe_request(),
        ProbeRequest::Unsupported
    ));
    assert!(matches!(
        Check::MicroshiftInstalled.probe_request(),
        ProbeRequest::Unsupported
    ));
    assert!(matches!(
        Check::Interfaces { interfaces: vec![] }.probe_request(),
        ProbeRequest::Unsupported
    ));
}

#[test]
fn test_outcome_from_probe() {
    assert!(matches!(CheckOutcome::from_probe(Ok(true)), CheckOutcome::Pass));
    assert!(matches!(CheckOutcome::from_probe(Ok(false)), CheckOutcome::Fail));
    match CheckOutcome::from_probe(Err(GreenlightError::UnsupportedDeployment)) {
        CheckOutcome::Error(e) => {
            assert_eq!(e.message(), "Unsupported system deployment");
        }
        other => panic!("unexpected outcome: {:?}", other),
    }
}

#[test]
fn test_swap_table_with_only_header_is_empty() {
    let content = b"Filename\tType\t\tSize\t\tUsed\t\tPriority\n";
    assert!(swap_table_is_empty(content));
}

#[test]
fn test_swap_table_with_entry_is_not_empty() {
    let content =
        b"Filename\tType\t\tSize\t\tUsed\t\tPriority\n/dev/zram0 partition 8388604 0 100\n";
    assert!(!swap_table_is_empty(content));
}

#[test]
fn test_swap_table_empty_content() {
    assert!(swap_table_is_empty(b""));
    assert!(swap_table_is_empty(b"header without newline"));
}
