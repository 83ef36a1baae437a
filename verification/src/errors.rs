//! What can go wrong for the users of a client and for the handlers of a
//! service.

use serde_json::Value;
use vstd::prelude::*;
use vstd::std_specs::convert::FromSpecImpl;
use vstd::string::StringExecFns;
use crate::json::{debug, display, spec_debug, spec_display, spec_json};
use crate::text::display_io;

verus! {

/// Why a call on the client failed.
#[derive(Debug)]
pub enum ClientError {
    /// A notification was not sent.
    NotifyFailed,
    /// A request was not sent, or its response did not arrive.
    RequestFailed,
    /// A request or a notification could not be written as JSON.
    SerializeFailed(serde_json::Error),
    /// The peer answered a request with an error.
    ErrorReturned(Value),
    /// The peer could not be started.
    CoreSpawnFailed(std::io::Error),
}

impl ClientError {
    /// What went wrong, in a few words.
    pub open spec fn spec_description(&self) -> Seq<char> {
        match self {
            ClientError::NotifyFailed => "Failed to send a notification"@,
            ClientError::RequestFailed => "Failed to send a request or receive its response"@,
            ClientError::ErrorReturned(_) => "The core answered with an error"@,
            ClientError::SerializeFailed(_) => "Failed to serialize message"@,
            ClientError::CoreSpawnFailed(_) => "Failed to spawn xi-core"@,
        }
    }

    /// What went wrong, in a few words.
    pub fn description(&self) -> (r: &'static str)
        ensures
            r@ == self.spec_description(),
    {
        match self {
            ClientError::NotifyFailed => "Failed to send a notification",
            ClientError::RequestFailed => "Failed to send a request or receive its response",
            ClientError::ErrorReturned(_) => "The core answered with an error",
            ClientError::SerializeFailed(_) => "Failed to serialize message",
            ClientError::CoreSpawnFailed(_) => "Failed to spawn xi-core",
        }
    }

    /// What the message of the error begins with; what follows depends on
    /// the error that it holds.
    pub open spec fn spec_message_head(&self) -> Seq<char> {
        match self {
            ClientError::NotifyFailed => "Failed to send a notification"@,
            ClientError::RequestFailed => "Failed to send a request, or receive its response"@,
            ClientError::ErrorReturned(_) => "The core returned an error: "@,
            ClientError::SerializeFailed(_) => "failed to serialize a message: "@,
            ClientError::CoreSpawnFailed(_) => "Failed to spawn xi-core due to error: "@,
        }
    }

    /// The message of the error, for people to read. It ends with the
    /// text of the error that it holds, if it holds one.
    pub fn message(&self) -> (r: String)
        ensures
            match self {
                ClientError::NotifyFailed | ClientError::RequestFailed => r@
                    == self.spec_message_head(),
                ClientError::ErrorReturned(value) => r@ == self.spec_message_head() + spec_debug(
                    spec_json(*value),
                ),
                ClientError::SerializeFailed(error) => r@ == self.spec_message_head()
                    + spec_display(*error),
                ClientError::CoreSpawnFailed(_) => r@.len() >= self.spec_message_head().len()
                    && r@.subrange(0, self.spec_message_head().len() as int)
                    == self.spec_message_head(),
            },
    {
        match self {
            ClientError::NotifyFailed => String::from_str("Failed to send a notification"),
            ClientError::RequestFailed => String::from_str(
                "Failed to send a request, or receive its response",
            ),
            ClientError::ErrorReturned(value) => String::from_str(
                "The core returned an error: ",
            ).concat(debug(value).as_str()),
            ClientError::SerializeFailed(error) => String::from_str(
                "failed to serialize a message: ",
            ).concat(display(error).as_str()),
            ClientError::CoreSpawnFailed(error) => {
                let head = String::from_str("Failed to spawn xi-core due to error: ");
                let r = head.concat(display_io(error).as_str());
                assert(r@.subrange(0, head@.len() as int) =~= head@);
                r
            },
        }
    }
}

impl From<serde_json::Error> for ClientError {
    fn from(err: serde_json::Error) -> (r: ClientError) {
        ClientError::SerializeFailed(err)
    }
}

impl FromSpecImpl<serde_json::Error> for ClientError {
    open spec fn obeys_from_spec() -> bool {
        true
    }

    open spec fn from_spec(err: serde_json::Error) -> ClientError {
        ClientError::SerializeFailed(err)
    }
}

impl From<std::io::Error> for ClientError {
    fn from(err: std::io::Error) -> (r: ClientError) {
        ClientError::CoreSpawnFailed(err)
    }
}

impl FromSpecImpl<std::io::Error> for ClientError {
    open spec fn obeys_from_spec() -> bool {
        true
    }

    open spec fn from_spec(err: std::io::Error) -> ClientError {
        ClientError::CoreSpawnFailed(err)
    }
}

/// Why a handler of the service failed.
#[derive(Debug)]
pub enum ServerError {
    /// The peer called a method that the service does not have.
    UnknownMethod(String),
    /// The parameters of a call could not be read.
    DeserializeFailed(serde_json::Error),
    /// Anything else.
    Other(String),
}

impl ServerError {
    /// What went wrong, in a few words.
    pub open spec fn spec_description(&self) -> Seq<char> {
        match self {
            ServerError::UnknownMethod(_) => "Unkown method"@,
            ServerError::Other(_) => "Unknown error"@,
            ServerError::DeserializeFailed(_) =>
                "Failed to deserialize the parameters of a request or notification"@,
        }
    }

    /// What went wrong, in a few words.
    pub fn description(&self) -> (r: &'static str)
        ensures
            r@ == self.spec_description(),
    {
        match self {
            ServerError::UnknownMethod(_) => "Unkown method",
            ServerError::Other(_) => "Unknown error",
            ServerError::DeserializeFailed(_) =>
                "Failed to deserialize the parameters of a request or notification",
        }
    }

    /// The message of the error, for people to read.
    pub open spec fn spec_message(&self) -> Seq<char> {
        match self {
            ServerError::UnknownMethod(method) => "Unkown method "@ + method@,
            ServerError::Other(text) => "Unkown error: "@ + text@,
            ServerError::DeserializeFailed(error) =>
                "Failed to deserialize the parameters of a request or notification: "@
                + spec_display(*error),
        }
    }

    /// The message of the error, for people to read.
    pub fn message(&self) -> (r: String)
        ensures
            r@ == self.spec_message(),
    {
        match self {
            ServerError::UnknownMethod(method) => String::from_str("Unkown method ").concat(
                method.as_str(),
            ),
            ServerError::Other(text) => String::from_str("Unkown error: ").concat(text.as_str()),
            ServerError::DeserializeFailed(error) => String::from_str(
                "Failed to deserialize the parameters of a request or notification: ",
            ).concat(display(error).as_str()),
        }
    }
}

impl From<String> for ServerError {
    fn from(s: String) -> (r: ServerError) {
        ServerError::Other(s)
    }
}

impl FromSpecImpl<String> for ServerError {
    open spec fn obeys_from_spec() -> bool {
        true
    }

    open spec fn from_spec(s: String) -> ServerError {
        ServerError::Other(s)
    }
}

impl<'a> From<&'a str> for ServerError {
    fn from(s: &'a str) -> (r: ServerError)
        ensures
            r matches ServerError::Other(text) && text@ == s@,
    {
        ServerError::Other(s.to_owned())
    }
}

impl<'a> FromSpecImpl<&'a str> for ServerError {
    open spec fn obeys_from_spec() -> bool {
        false
    }

    open spec fn from_spec(s: &'a str) -> ServerError {
        arbitrary()
    }
}

impl From<serde_json::Error> for ServerError {
    fn from(err: serde_json::Error) -> (r: ServerError) {
        ServerError::DeserializeFailed(err)
    }
}

impl FromSpecImpl<serde_json::Error> for ServerError {
    open spec fn obeys_from_spec() -> bool {
        true
    }

    open spec fn from_spec(err: serde_json::Error) -> ServerError {
        ServerError::DeserializeFailed(err)
    }
}

} // verus!
