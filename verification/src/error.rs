//! Error vocabulary of the sidecar.
use vstd::prelude::*;

verus! {

/// Errors surfaced by the sidecar's tasks.
///
/// Parse failures of individual log lines are not represented here: they are
/// local to the parser and the offending line is dropped (see
/// [`crate::parser::ParseError`]).
#[derive(Clone, Debug, PartialEq, Eq)]
pub enum AssistantError {
    /// Parsing the backend's socket address failed.
    SocketAddr(String),
    /// A command-line option was invalid.
    ArgumentError(String),
    /// A request probing the backend could not be sent.
    ServerDownError(String),
    /// A generic operation failed.
    Operation(String),
}

impl AssistantError {
    /// What this error means for the idle-probe path: only a failure to reach
    /// the backend at all counts as evidence that the server is down.
    pub fn is_server_down(&self) -> (r: bool)
        ensures
            r <==> self matches AssistantError::ServerDownError(_),
    {
        match self {
            AssistantError::ServerDownError(_) => true,
            _ => false,
        }
    }

    /// Human-readable description, in place of a `Display` impl.
    pub fn message(&self) -> (r: String)
        ensures
            r@ == self.message_spec(),
    {
        match self {
            AssistantError::SocketAddr(s) => {
                let mut m = String::from_str("Failed to parse socket address: ");
                m.append(s.as_str());
                m
            },
            AssistantError::ArgumentError(s) => s.clone(),
            AssistantError::ServerDownError(s) => {
                let mut m = String::from_str(
                    "Failed to send request for checking API server health: ",
                );
                m.append(s.as_str());
                m
            },
            AssistantError::Operation(s) => s.clone(),
        }
    }

    /// The description promised by [`Self::message`].
    pub open spec fn message_spec(&self) -> Seq<char> {
        match self {
            AssistantError::SocketAddr(s) => "Failed to parse socket address: "@ + s@,
            AssistantError::ArgumentError(s) => s@,
            AssistantError::ServerDownError(s) => "Failed to send request for checking API server health: "@
                + s@,
            AssistantError::Operation(s) => s@,
        }
    }
}

} // verus!
