use apk_bridge::connect::{check_if_connected_to_host, connect_result, resolve_host_address};
use apk_bridge::error::AppError;

#[test]
fn connected_host_shows_as_device_line() {
    let devices = "List of devices attached\n192.168.1.20:5555\tdevice\n";
    assert!(check_if_connected_to_host(devices, "192.168.1.20:5555"));
    assert!(!check_if_connected_to_host(devices, "192.168.1.21:5555"));
}

#[test]
fn offline_device_does_not_count_as_connected() {
    let devices = "List of devices attached\n192.168.1.20:5555\toffline\n";
    assert!(!check_if_connected_to_host(devices, "192.168.1.20:5555"));
}

#[test]
fn stored_address_is_unquoted_and_trimmed() {
    assert_eq!(
        resolve_host_address(Some("\" 192.168.1.20:5555 \"")).unwrap(),
        "192.168.1.20:5555"
    );
    assert_eq!(resolve_host_address(Some("10.0.0.2")).unwrap(), "10.0.0.2");
}

#[test]
fn missing_address_entry_is_a_configuration_error() {
    match resolve_host_address(None) {
        Err(AppError::OtherError(m)) => assert_eq!(m, "Host Address not found"),
        other => panic!("expected a wrapped failure, got {other:?}"),
    }
}

#[test]
fn connect_command_exit_decides_the_outcome() {
    assert_eq!(
        connect_result(true, "connected to 10.0.0.2".to_string(), String::new()).unwrap(),
        "connected to 10.0.0.2"
    );
    match connect_result(false, String::new(), "unable to connect".to_string()) {
        Err(AppError::TransportError(m)) => assert_eq!(m, "unable to connect"),
        other => panic!("expected a transport error, got {other:?}"),
    }
}
