//! The error taxonomy of the core.
use vstd::prelude::*;

verus! {

#[verifier::external_type_specification]
#[verifier::external_body]
pub struct ExDaemonError(bollard::errors::Error);

/// The HTTP status that a daemon client failure carries, if any.
pub uninterp spec fn daemon_status_of(e: bollard::errors::Error) -> Option<u16>;

/// The message that a daemon client failure carries.
pub uninterp spec fn daemon_message_of(e: bollard::errors::Error) -> Seq<char>;

/// Relies on bollard's `Error::DockerResponseServerError`: the HTTP status
/// with which the daemon answered, for a failure that carries one.
#[verifier::external_body]
fn daemon_status(e: &bollard::errors::Error) -> (r: Option<u16>)
    ensures
        r == daemon_status_of(*e),
{
    match e {
        bollard::errors::Error::DockerResponseServerError { status_code, .. } => Some(*status_code),
        _ => None,
    }
}

/// Relies on bollard's `Error`: the daemon's own message for a failure that
/// the daemon answered, else the error's text.
#[verifier::external_body]
fn daemon_message(e: &bollard::errors::Error) -> (r: String)
    ensures
        r@ == daemon_message_of(*e),
{
    match e {
        bollard::errors::Error::DockerResponseServerError { message, .. } => message.clone(),
        other => other.to_string(),
    }
}

/// HTTP status with which the daemon reports an unknown resource.
pub const NOT_FOUND_STATUS: u16 = 404;

/// A failure of a core operation.
#[derive(Debug)]
pub enum CoreError {
    /// A failure reported by the container daemon, with its HTTP status when
    /// there was one and its own message, passed through unchanged.
    DaemonError { status: Option<u16>, message: String },
    /// The composition tool exited unsuccessfully or could not be spawned;
    /// carries its standard-error text.
    CommandFailed { stderr: String },
    /// The request named an unknown action or lacked a required field.
    InvalidRequest { reason: String },
}

impl CoreError {
    /// Whether this failure says that the requested resource does not exist.
    pub open spec fn spec_is_not_found(&self) -> bool {
        match self {
            CoreError::DaemonError { status, .. } => *status == Some(NOT_FOUND_STATUS),
            _ => false,
        }
    }

    /// Builds the error for a failed daemon round trip.
    pub fn from_daemon(status: Option<u16>, message: String) -> (r: CoreError)
        ensures
            r == (CoreError::DaemonError { status, message }),
    {
        CoreError::DaemonError { status, message }
    }

    /// The error for a failed call through the daemon client: a daemon
    /// error with the failure's status and message.
    pub fn from_client(e: &bollard::errors::Error) -> (r: CoreError)
        ensures
            r matches CoreError::DaemonError { status, message }
                && status == daemon_status_of(*e) && message@ == daemon_message_of(*e),
    {
        CoreError::from_daemon(daemon_status(e), daemon_message(e))
    }

    /// Whether this failure says that the requested resource does not exist.
    pub fn is_not_found(&self) -> (r: bool)
        ensures
            r == self.spec_is_not_found(),
    {
        match self {
            CoreError::DaemonError { status, .. } => match status {
                Some(code) => *code == NOT_FOUND_STATUS,
                None => false,
            },
            _ => false,
        }
    }

    /// The message of this failure, as shown to a client.
    pub fn message(&self) -> (r: &String)
        ensures
            r == (match self {
                CoreError::DaemonError { message, .. } => message,
                CoreError::CommandFailed { stderr } => stderr,
                CoreError::InvalidRequest { reason } => reason,
            }),
    {
        match self {
            CoreError::DaemonError { message, .. } => message,
            CoreError::CommandFailed { stderr } => stderr,
            CoreError::InvalidRequest { reason } => reason,
        }
    }
}

} // verus!
