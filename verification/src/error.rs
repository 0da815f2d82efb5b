//! Why a scan ends without a compliant verdict.

use vstd::prelude::*;
use vstd::std_specs::convert::FromSpecImpl;

verus! {

/// The ways a scan can fail. All but the last are failures of the machinery
/// and carry the error that caused them; `NonCompliant` means the scan ran to
/// its end and at least one benchmark did not pass.
#[derive(Debug)]
pub enum AuditError {
    CsvError(csv::Error),
    IoError(std::io::Error),
    RegexError(regex::Error),
    StringError(std::string::FromUtf8Error),
    YamlError(serde_yaml::Error),
    NonCompliant,
}

/// Which kind of failure an [`AuditError`] is, without the error it carries.
#[derive(Clone, Copy, Debug, PartialEq, Eq, Structural)]
pub enum ErrorKind {
    /// The report could not be encoded or written.
    Report,
    /// A file could not be read or written, or a command not be run.
    Io,
    /// An `expect` pattern is not a valid regular expression.
    Pattern,
    /// Standard output had to be matched and is not valid UTF-8.
    Encoding,
    /// The benchmark document does not have the required shape.
    Format,
    /// The scan completed and a benchmark did not pass.
    NonCompliant,
}

impl View for AuditError {
    type V = ErrorKind;

    open spec fn view(&self) -> ErrorKind {
        match self {
            AuditError::CsvError(_) => ErrorKind::Report,
            AuditError::IoError(_) => ErrorKind::Io,
            AuditError::RegexError(_) => ErrorKind::Pattern,
            AuditError::StringError(_) => ErrorKind::Encoding,
            AuditError::YamlError(_) => ErrorKind::Format,
            AuditError::NonCompliant => ErrorKind::NonCompliant,
        }
    }
}

impl AuditError {
    /// The kind of this failure.
    pub fn kind(&self) -> (kind: ErrorKind)
        ensures
            kind == self@,
    {
        match self {
            AuditError::CsvError(_) => ErrorKind::Report,
            AuditError::IoError(_) => ErrorKind::Io,
            AuditError::RegexError(_) => ErrorKind::Pattern,
            AuditError::StringError(_) => ErrorKind::Encoding,
            AuditError::YamlError(_) => ErrorKind::Format,
            AuditError::NonCompliant => ErrorKind::NonCompliant,
        }
    }
}

impl From<csv::Error> for AuditError {
    fn from(err: csv::Error) -> (ret: AuditError) {
        AuditError::CsvError(err)
    }
}

impl FromSpecImpl<csv::Error> for AuditError {
    open spec fn obeys_from_spec() -> bool {
        true
    }

    open spec fn from_spec(err: csv::Error) -> AuditError {
        AuditError::CsvError(err)
    }
}

impl From<regex::Error> for AuditError {
    fn from(err: regex::Error) -> (ret: AuditError) {
        AuditError::RegexError(err)
    }
}

impl FromSpecImpl<regex::Error> for AuditError {
    open spec fn obeys_from_spec() -> bool {
        true
    }

    open spec fn from_spec(err: regex::Error) -> AuditError {
        AuditError::RegexError(err)
    }
}

impl From<std::string::FromUtf8Error> for AuditError {
    fn from(err: std::string::FromUtf8Error) -> (ret: AuditError) {
        AuditError::StringError(err)
    }
}

impl FromSpecImpl<std::string::FromUtf8Error> for AuditError {
    open spec fn obeys_from_spec() -> bool {
        true
    }

    open spec fn from_spec(err: std::string::FromUtf8Error) -> AuditError {
        AuditError::StringError(err)
    }
}

} // verus!
