use vstd::prelude::*;

verus! {

/// Why an attempt to build TLS material from the certificate and key files failed.
#[derive(Clone, Copy, Debug, PartialEq, Eq, Structural)]
pub enum LoadFailure {
    /// A file is not there.
    Missing,
    /// A file is there but cannot be read.
    Unreadable,
    /// A file does not hold well-formed PEM.
    Malformed,
    /// The private key does not belong to the leaf certificate.
    Mismatched,
}

/// What the reloader does when a reload attempt fails.
#[derive(Clone, Copy, Debug, PartialEq, Eq, Structural)]
pub enum FailurePolicy {
    /// The failure is fatal: the reloader stops and asks for the process to end.
    Abort,
    /// The failure is dropped: the last good material stays active and the next tick
    /// tries again.
    Retain,
}

/// The status with which the process ends after a fatal failure, at startup or in a
/// reload.
pub const EXIT_FAILURE: i32 = 1;

/// The text that describes a load failure.
pub open spec fn failure_text(failure: LoadFailure) -> Seq<char> {
    match failure {
        LoadFailure::Missing => "file is missing"@,
        LoadFailure::Unreadable => "file cannot be read"@,
        LoadFailure::Malformed => "file is not valid PEM"@,
        LoadFailure::Mismatched => "private key does not match the certificate"@,
    }
}

impl LoadFailure {
    /// A short description of the failure.
    pub fn describe(&self) -> (text: &'static str)
        ensures
            text@ == failure_text(*self),
    {
        match self {
            LoadFailure::Missing => "file is missing",
            LoadFailure::Unreadable => "file cannot be read",
            LoadFailure::Malformed => "file is not valid PEM",
            LoadFailure::Mismatched => "private key does not match the certificate",
        }
    }
}

} // verus!
