//! The failures that starting the listener can end in.

use crate::os_error::OsError;
use crate::os_error::OsErrorKind;
use crate::pretty::field;
use crate::pretty::push_field;
use vstd::prelude::*;
use vstd::string::*;

verus! {

/// `std::sync::mpsc::RecvError`: what a blocking receive returns once the
/// sending half of its channel is gone and nothing is left to read. The value
/// carries no data. Nothing is assumed of it: it is only passed on.
#[verifier::external_type_specification]
#[verifier::external_body]
pub struct ExRecvError(std::sync::mpsc::RecvError);

/// Why the listener did not come up.
#[derive(Debug, PartialEq, Eq)]
pub enum ErrorKind {
    /// The bind failed because the address is already bound.
    AddrInUse(OsError),
    /// The bind failed for any other reason.
    AddrNotAvailable(OsError),
    /// The worker ended without reporting anything.
    ServerStartupFailed(std::sync::mpsc::RecvError),
}

impl ErrorKind {
    /// The kind under which a failed bind is filed: an occupied address has a
    /// kind of its own, every other failure is an unavailable address. The
    /// operating system's description is kept as it came.
    pub open spec fn of_bind_failure(failure: OsError) -> ErrorKind {
        if failure.kind == OsErrorKind::AddrInUse {
            ErrorKind::AddrInUse(failure)
        } else {
            ErrorKind::AddrNotAvailable(failure)
        }
    }

    /// Classifies a failed bind.
    pub fn classify(failure: OsError) -> (kind: ErrorKind)
        ensures
            kind == ErrorKind::of_bind_failure(failure),
    {
        match failure.kind {
            OsErrorKind::AddrInUse => ErrorKind::AddrInUse(failure),
            _ => ErrorKind::AddrNotAvailable(failure),
        }
    }

    /// The variant's name.
    pub open spec fn name(&self) -> Seq<char> {
        match self {
            ErrorKind::AddrInUse(_) => "AddrInUse"@,
            ErrorKind::AddrNotAvailable(_) => "AddrNotAvailable"@,
            ErrorKind::ServerStartupFailed(_) => "ServerStartupFailed"@,
        }
    }

    /// The debug text of what the variant carries.
    pub open spec fn payload(&self) -> Seq<char> {
        match self {
            ErrorKind::AddrInUse(failure) => failure.debug@,
            ErrorKind::AddrNotAvailable(failure) => failure.debug@,
            ErrorKind::ServerStartupFailed(_) => "RecvError"@,
        }
    }

    /// The kind in the pretty debug form: the variant's name, then what it
    /// carries as its one field.
    pub open spec fn pretty(&self) -> Seq<char> {
        self.name() + field(self.payload())
    }
}

/// A failed start: its kind, and the cause behind it where one is known.
#[derive(Debug, PartialEq, Eq)]
pub struct Error {
    /// Why the listener did not come up.
    pub kind: ErrorKind,
    /// The underlying cause, as it prints itself for debugging in the pretty
    /// form.
    pub source: Option<String>,
}

impl Error {
    /// An error of the given kind and cause.
    pub fn new(kind: ErrorKind, source: Option<String>) -> (error: Error)
        ensures
            error == (Error { kind, source }),
    {
        Error { kind, source }
    }

    /// The cause in the pretty debug form: `None`, or `Some` with the
    /// cause's text as its one field.
    pub open spec fn source_pretty(&self) -> Seq<char> {
        match self.source {
            Some(cause) => "Some"@ + field(cause@),
            None => "None"@,
        }
    }

    /// The human-readable form: the kind and the cause, each in the pretty
    /// debug form.
    pub open spec fn rendering(&self) -> Seq<char> {
        "ErrorKind: "@ + self.kind.pretty() + ", source: "@ + self.source_pretty()
    }

    /// Renders the error for a reader.
    pub fn to_string(&self) -> (text: String)
        ensures
            text@ == self.rendering(),
    {
        let mut text = String::from_str("ErrorKind: ");
        match &self.kind {
            ErrorKind::AddrInUse(failure) => {
                text.append("AddrInUse");
                push_field(&mut text, failure.debug.as_str());
            },
            ErrorKind::AddrNotAvailable(failure) => {
                text.append("AddrNotAvailable");
                push_field(&mut text, failure.debug.as_str());
            },
            ErrorKind::ServerStartupFailed(_) => {
                text.append("ServerStartupFailed");
                push_field(&mut text, "RecvError");
            },
        }
        text.append(", source: ");
        match &self.source {
            Some(cause) => {
                text.append("Some");
                push_field(&mut text, cause.as_str());
            },
            None => {
                text.append("None");
            },
        }
        assert(text@ =~= self.rendering());
        text
    }
}

} // verus!
