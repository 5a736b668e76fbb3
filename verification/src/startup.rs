use vstd::prelude::*;
use vstd::string::StringExecFns;
use crate::failure::{failure_text, LoadFailure, EXIT_FAILURE};

verus! {

/// Why the server must not start.
#[derive(Clone, Copy, Debug, PartialEq, Eq, Structural)]
pub enum StartupError {
    /// The certificate file does not exist.
    CertMissing,
    /// The private-key file does not exist.
    KeyMissing,
    /// The two files exist but give no valid TLS material.
    InvalidMaterial(LoadFailure),
    /// The reload interval is zero seconds.
    ZeroInterval,
}

/// The verdict on the two paths: the certificate is looked at first, and the first file
/// that is missing is the one reported.
pub open spec fn paths_verdict(cert_exists: bool, key_exists: bool) -> Result<(), StartupError> {
    if !cert_exists {
        Err(StartupError::CertMissing)
    } else if !key_exists {
        Err(StartupError::KeyMissing)
    } else {
        Ok(())
    }
}

/// Decides from what the caller found on disk whether both files are there.
pub fn check_paths(cert_exists: bool, key_exists: bool) -> (verdict: Result<(), StartupError>)
    ensures
        verdict == paths_verdict(cert_exists, key_exists),
{
    if !cert_exists {
        Err(StartupError::CertMissing)
    } else if !key_exists {
        Err(StartupError::KeyMissing)
    } else {
        Ok(())
    }
}

impl StartupError {
    /// The line to report before the process ends. A missing file is reported with its
    /// own path, in single quotes.
    pub open spec fn report_text(self, cert: Seq<char>, key: Seq<char>) -> Seq<char> {
        match self {
            StartupError::CertMissing => "cert file does not exist: '"@ + cert + "'"@,
            StartupError::KeyMissing => "key file does not exist: '"@ + key + "'"@,
            StartupError::InvalidMaterial(failure) => "cannot load TLS material: "@ + failure_text(
                failure,
            ),
            StartupError::ZeroInterval => "reload interval must be at least one second"@,
        }
    }

    /// The line to report, given the paths of the certificate and of the key.
    pub fn report(&self, cert: &str, key: &str) -> (line: String)
        ensures
            line@ == self.report_text(cert@, key@),
    {
        match self {
            StartupError::CertMissing => {
                let mut line = String::from_str("cert file does not exist: '");
                line.append(cert);
                line.append("'");
                line
            },
            StartupError::KeyMissing => {
                let mut line = String::from_str("key file does not exist: '");
                line.append(key);
                line.append("'");
                line
            },
            StartupError::InvalidMaterial(failure) => {
                let mut line = String::from_str("cannot load TLS material: ");
                line.append(failure.describe());
                line
            },
            StartupError::ZeroInterval => String::from_str(
                "reload interval must be at least one second",
            ),
        }
    }

    /// The status with which the process ends; never zero.
    pub fn exit_status(&self) -> (status: i32)
        ensures
            status == EXIT_FAILURE,
            status != 0,
    {
        EXIT_FAILURE
    }
}

} // verus!
