use qmk_notifier::{describe_descriptor, error_line, exit_code, QmkError};

#[test]
fn messages_of_plain_errors() {
    assert_eq!(
        QmkError::HidApiInitError("boom".to_string()).message(),
        "Error initializing HID API: boom"
    );
    assert_eq!(
        QmkError::DeviceOpenError("denied".to_string()).message(),
        "Error opening device: denied"
    );
    assert_eq!(QmkError::InvalidHexValue("bad".to_string()).message(), "Invalid hex value: bad");
    assert_eq!(
        QmkError::InvalidDecimalValue("bad".to_string()).message(),
        "Invalid decimal value: bad"
    );
    assert_eq!(
        QmkError::SendReportError("hidapi error: x".to_string()).message(),
        "Error sending report: hidapi error: x"
    );
    assert_eq!(QmkError::HidReadError("r".to_string()).message(), "Error reading report: r");
    assert_eq!(
        QmkError::NoResponseReceived("n".to_string()).message(),
        "No response received: n"
    );
    assert_eq!(
        QmkError::MissingRequiredParameter("message".to_string()).message(),
        "Missing required parameter: message"
    );
    assert_eq!(QmkError::RemovedFeature("f".to_string()).message(), "Feature removed: f");
    assert_eq!(QmkError::ConfigError("c".to_string()).message(), "Configuration error: c");
}

#[test]
fn message_of_device_not_found() {
    assert_eq!(
        QmkError::DeviceNotFound(0xFEED, 0x0000, 0xFF60, 0x61).message(),
        "No device found with VID: 0xFEED, PID: 0x0000, Usage Page: 0xFF60, Usage: 0x0061"
    );
}

#[test]
fn message_of_partial_send() {
    assert_eq!(
        QmkError::PartialSendError { succeeded: 2, failed: 13 }.message(),
        "Message sent to 2 devices, but failed for 13 devices."
    );
}

#[test]
fn messages_of_file_errors() {
    assert_eq!(
        QmkError::ConfigReadError("/a/b.toml".to_string(), "gone".to_string()).message(),
        "Error reading config file /a/b.toml: gone"
    );
    assert_eq!(
        QmkError::ConfigParseError("/a/b.toml".to_string(), "bad".to_string()).message(),
        "Error parsing config file /a/b.toml: bad"
    );
    assert_eq!(
        QmkError::ConfigWriteError("/a/b.toml".to_string(), "full".to_string()).message(),
        "Error writing config file /a/b.toml: full"
    );
}

#[test]
fn descriptor_text() {
    assert_eq!(
        describe_descriptor(0x1, 0x23, 0x456, 0x789A),
        "VID: 0x0001, PID: 0x0023, Usage Page: 0x0456, Usage: 0x789A"
    );
}

#[test]
fn failure_is_shown_and_ends_with_a_code_that_is_not_zero() {
    let e = QmkError::DeviceNotFound(0xFEED, 0x0000, 0xFF60, 0x61);
    assert_eq!(
        error_line(&e),
        "Error: No device found with VID: 0xFEED, PID: 0x0000, Usage Page: 0xFF60, Usage: 0x0061"
    );
    assert_eq!(exit_code::<()>(&Err(e)), 1);
    let partial: Result<u16, QmkError> =
        Err(QmkError::PartialSendError { succeeded: 1, failed: 1 });
    assert_eq!(exit_code(&partial), 1);
}

#[test]
fn success_ends_with_code_zero() {
    assert_eq!(exit_code(&Ok(())), 0);
    assert_eq!(exit_code(&Ok(7u16)), 0);
}
