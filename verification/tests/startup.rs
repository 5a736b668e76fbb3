use cert_reload::failure::{LoadFailure, EXIT_FAILURE};
use cert_reload::startup::{check_paths, StartupError};

#[test]
fn both_files_present_pass() {
    assert_eq!(check_paths(true, true), Ok(()));
}

#[test]
fn missing_cert_is_reported() {
    assert_eq!(check_paths(false, true), Err(StartupError::CertMissing));
}

#[test]
fn missing_key_is_reported() {
    assert_eq!(check_paths(true, false), Err(StartupError::KeyMissing));
}

#[test]
fn missing_cert_is_reported_before_missing_key() {
    assert_eq!(check_paths(false, false), Err(StartupError::CertMissing));
}

#[test]
fn report_names_the_missing_path() {
    assert_eq!(
        StartupError::CertMissing.report("/etc/tls/cert.pem", "/etc/tls/key.pem"),
        "cert file does not exist: '/etc/tls/cert.pem'"
    );
    assert_eq!(
        StartupError::KeyMissing.report("/etc/tls/cert.pem", "/etc/tls/key.pem"),
        "key file does not exist: '/etc/tls/key.pem'"
    );
}

#[test]
fn report_of_an_empty_path() {
    assert_eq!(StartupError::CertMissing.report("", "k"), "cert file does not exist: ''");
}

#[test]
fn report_describes_invalid_material() {
    assert_eq!(
        StartupError::InvalidMaterial(LoadFailure::Mismatched).report("c", "k"),
        "cannot load TLS material: private key does not match the certificate"
    );
    assert_eq!(
        StartupError::InvalidMaterial(LoadFailure::Malformed).report("c", "k"),
        "cannot load TLS material: file is not valid PEM"
    );
    assert_eq!(
        StartupError::InvalidMaterial(LoadFailure::Missing).report("c", "k"),
        "cannot load TLS material: file is missing"
    );
    assert_eq!(
        StartupError::InvalidMaterial(LoadFailure::Unreadable).report("c", "k"),
        "cannot load TLS material: file cannot be read"
    );
}

#[test]
fn report_of_a_zero_interval() {
    assert_eq!(
        StartupError::ZeroInterval.report("c", "k"),
        "reload interval must be at least one second"
    );
}

#[test]
fn every_startup_error_exits_non_zero() {
    for error in [
        StartupError::CertMissing,
        StartupError::KeyMissing,
        StartupError::InvalidMaterial(LoadFailure::Mismatched),
        StartupError::ZeroInterval,
    ] {
        assert_eq!(error.exit_status(), 1);
        assert_eq!(error.exit_status(), EXIT_FAILURE);
    }
}

#[test]
fn load_failures_are_described() {
    assert_eq!(LoadFailure::Missing.describe(), "file is missing");
    assert_eq!(LoadFailure::Unreadable.describe(), "file cannot be read");
    assert_eq!(LoadFailure::Malformed.describe(), "file is not valid PEM");
    assert_eq!(LoadFailure::Mismatched.describe(), "private key does not match the certificate");
}
