use greenlight::errors::GreenlightError;

#[test]
fn test_check_failed_error() {
    let error = GreenlightError::CheckFailed("RootFS is not readonly".to_string());
    assert_eq!(error.message(), "Check failed: RootFS is not readonly");
}

#[test]
fn test_other_error() {
    let error = GreenlightError::Other("unexpected failure".into());
    assert_eq!(error.message(), "Unknown error: unexpected failure");
}

#[test]
fn test_unsupported_deployment() {
    let error = GreenlightError::UnsupportedDeployment;
    assert_eq!(error.message(), "Unsupported system deployment");
}

#[test]
fn test_config_parse_error_message() {
    let error = GreenlightError::ConfigParse("missing field `system`".to_string());
    assert_eq!(
        error.message(),
        "Failed to parse configuration: missing field `system`"
    );
}

#[test]
fn test_io_error_message() {
    let error = GreenlightError::Io("permission denied".to_string());
    assert_eq!(error.message(), "I/O error: permission denied");
}

#[test]
fn test_dbus_error_message() {
    let error = GreenlightError::Dbus("connection refused".to_string());
    assert_eq!(error.message(), "DBus error: connection refused");
}

#[test]
fn test_netlink_error_message() {
    let error = GreenlightError::Netlink("socket closed".to_string());
    assert_eq!(error.message(), "Netlink error: socket closed");
}

#[test]
fn test_error_clone_keeps_message() {
    let error = GreenlightError::CheckFailed("swap is on".to_string());
    let copy = error.clone();
    assert_eq!(copy.message(), "Check failed: swap is on");
}
