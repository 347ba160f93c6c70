use systemd_bridge::error::{BridgeError, ErrorKind, CONNECTION_PREFIX};

#[test]
fn connection_failure_message_has_the_prefix() {
    let error = BridgeError::new(ErrorKind::Connection, "No such file or directory".to_string());
    assert_eq!(error.kind, ErrorKind::Connection);
    assert_eq!(error.detail, "No such file or directory");
    assert_eq!(
        error.message(),
        "Failed to connect to D-Bus system socket: No such file or directory"
    );
    assert_eq!(CONNECTION_PREFIX, "Failed to connect to D-Bus system socket: ");
}

#[test]
fn connection_failure_with_empty_reason_is_the_bare_prefix() {
    let error = BridgeError::new(ErrorKind::Connection, String::new());
    assert_eq!(error.message(), "Failed to connect to D-Bus system socket: ");
}

#[test]
fn executor_failure_message_is_the_reason() {
    let error = BridgeError::new(ErrorKind::ExecutorInit, "Too many open files".to_string());
    assert_eq!(error.message(), "Too many open files");
}

#[test]
fn lookup_failure_message_is_the_detail() {
    let detail = "org.freedesktop.systemd1.NoSuchUnit: Unit does-not-exist.service not loaded.";
    let error = BridgeError::new(ErrorKind::Lookup, detail.to_string());
    assert_eq!(error.message(), detail);
}

#[test]
fn remote_call_failure_message_is_the_detail() {
    let error = BridgeError::new(ErrorKind::RemoteCall, "Access denied".to_string());
    assert_eq!(error.message(), "Access denied");
}

#[test]
fn conversion_failure_message_is_the_detail() {
    let error = BridgeError::new(ErrorKind::Conversion, "cannot convert".to_string());
    assert_eq!(error.message(), "cannot convert");
}

#[test]
fn message_keeps_text_that_is_not_ascii() {
    let error = BridgeError::new(ErrorKind::Connection, "refusé \u{1F512}".to_string());
    assert_eq!(error.message(), "Failed to connect to D-Bus system socket: refusé \u{1F512}");
    let error = BridgeError::new(ErrorKind::RemoteCall, "refusé".to_string());
    assert_eq!(error.message(), "refusé");
}
