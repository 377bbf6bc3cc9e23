use nimble_status::diag::{ble, format_failure, Location, Reporting, Severity, LOG_TARGET};
use nimble_status::BLEError;

const HERE: Location<'static> = Location { file: "src/server.rs", line: 212 };

#[test]
fn plain_reporting_only_classifies() {
    for err in [0, 2, 14, 3, 0x101, 0x1234, -1] {
        let (rc, record) = ble(Reporting::Plain, err, HERE);
        assert!(rc == BLEError::convert(err as u32));
        assert!(record.is_none());
    }
}

#[test]
fn diagnostic_reporting_keeps_the_classification() {
    for err in [0, 2, 14, 3, 0x101, 0x1234, -1, i32::MIN, i32::MAX] {
        let (plain, _) = ble(Reporting::Plain, err, HERE);
        let (diagnostic, _) = ble(Reporting::Diagnostic, err, HERE);
        assert!(plain == diagnostic);
        assert!(diagnostic == BLEError::convert(err as u32));
    }
}

#[test]
fn success_is_not_reported() {
    for err in [0, 2, 14] {
        let (rc, record) = ble(Reporting::Diagnostic, err, HERE);
        assert!(rc == Ok(()));
        assert!(record.is_none());
    }
}

#[test]
fn failure_is_reported_as_one_warning() {
    let (rc, record) = ble(Reporting::Diagnostic, 3, HERE);
    assert_eq!(rc.unwrap_err().code(), 3);
    let record = record.unwrap();
    assert_eq!(record.severity, Severity::Warn);
    assert_eq!(record.target, "esp32_nimble");
    assert_eq!(record.target, LOG_TARGET);
    assert_eq!(record.message, "src/server.rs[212]: One or more arguments are invalid.");
}

#[test]
fn unmapped_failure_is_reported_in_hex() {
    let at = Location { file: "main.rs", line: 0 };
    let (rc, record) = ble(Reporting::Diagnostic, 0x9999, at);
    assert_eq!(rc.unwrap_err().code(), 0x9999);
    assert_eq!(record.unwrap().message, "main.rs[0]: 0x9999");
    let (rc, record) = ble(Reporting::Diagnostic, -1, Location { file: "", line: u32::MAX });
    assert_eq!(rc.unwrap_err().code(), 0xFFFF_FFFF);
    assert_eq!(record.unwrap().message, "[4294967295]: 0xFFFFFFFF");
}

#[test]
fn message_names_file_line_and_text() {
    let e = BLEError::from_non_zero(0x101);
    let at = Location { file: "gatt/\u{fc}ber.rs", line: 7 };
    assert_eq!(
        format_failure(at, e),
        "gatt/\u{fc}ber.rs[7]: The attribute handle given was not valid on this server."
    );
    assert_eq!(
        format_failure(HERE, e),
        format!("{}[{}]: {}", HERE.file, HERE.line, e.to_string())
    );
}
