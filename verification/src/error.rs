//! The service layer's error type: every failure a bridging run or a
//! management call can surface, with conversions from the lower layers.

use vstd::prelude::*;
use vstd::string::StringExecFns;

use crate::pty::{IoError, PtyError};

verus! {

/// A failure at the service layer: an OS-level I/O failure, a typed PTY
/// backend failure, a transport failure, or a backend-specific detail.
#[derive(Debug)]
pub enum ServiceError {
    Io(IoError),
    Pty(PtyError),
    Connection(String),
    Other(String),
}

impl From<IoError> for ServiceError {
    fn from(e: IoError) -> (r: ServiceError)
        ensures
            r == ServiceError::Io(e),
    {
        ServiceError::Io(e)
    }
}

impl vstd::std_specs::convert::FromSpecImpl<IoError> for ServiceError {
    open spec fn obeys_from_spec() -> bool {
        true
    }

    open spec fn from_spec(e: IoError) -> Self {
        ServiceError::Io(e)
    }
}

impl From<PtyError> for ServiceError {
    fn from(e: PtyError) -> (r: ServiceError)
        ensures
            r == ServiceError::Pty(e),
    {
        ServiceError::Pty(e)
    }
}

impl vstd::std_specs::convert::FromSpecImpl<PtyError> for ServiceError {
    open spec fn obeys_from_spec() -> bool {
        true
    }

    open spec fn from_spec(e: PtyError) -> Self {
        ServiceError::Pty(e)
    }
}

impl ServiceError {
    /// Render the error as a message that names its layer.
    pub fn message(&self) -> (r: String)
        ensures
            self matches ServiceError::Io(io) ==> r@ == "IO error: "@ + io.message@,
            self matches ServiceError::Pty(e) ==> r@ == "PTY error: "@ + e.message_spec(),
            self matches ServiceError::Connection(m) ==> r@ == "Connection error: "@ + m@,
            self matches ServiceError::Other(m) ==> r@ == "Other error: "@ + m@,
    {
        match self {
            ServiceError::Io(io) => String::from_str("IO error: ").concat(io.message.as_str()),
            ServiceError::Pty(e) => {
                let detail = e.message();
                String::from_str("PTY error: ").concat(detail.as_str())
            },
            ServiceError::Connection(m) => String::from_str("Connection error: ").concat(
                m.as_str(),
            ),
            ServiceError::Other(m) => String::from_str("Other error: ").concat(m.as_str()),
        }
    }
}

} // verus!
