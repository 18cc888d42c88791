//! Envelope shapes of the command channel: the tagged request sent to
//! the server, and the success / failure responses that come back.

use vstd::prelude::*;

use crate::api::api_errors::XtbErrorCode;
use crate::json::JsonValue;
use crate::json::JsonView;

verus! {

/// The view of an optional string field.
pub open spec fn opt_text(o: Option<String>) -> Option<Seq<char>> {
    match o {
        Some(s) => Some(s@),
        None => None,
    }
}

/// The view of an optional payload field.
pub open spec fn opt_json(o: Option<JsonValue>) -> Option<JsonView> {
    match o {
        Some(v) => Some(v@),
        None => None,
    }
}

/// Spec image of a [`Request`].
pub struct RequestView {
    pub command: Seq<char>,
    pub stream_session_id: Option<Seq<char>>,
    pub arguments: Option<JsonView>,
    pub custom_tag: Option<Seq<char>>,
}

/// A message sent to the server on the command channel.
#[derive(Debug)]
pub struct Request {
    /// The command name.
    pub command: String,
    /// Binds a stream command to the authenticated session.
    pub stream_session_id: Option<String>,
    /// Payload sent with the command.
    pub arguments: Option<JsonValue>,
    /// Correlation tag echoed back by the server.
    pub custom_tag: Option<String>,
}

impl View for Request {
    type V = RequestView;

    open spec fn view(&self) -> RequestView {
        RequestView {
            command: self.command@,
            stream_session_id: opt_text(self.stream_session_id),
            arguments: opt_json(self.arguments),
            custom_tag: opt_text(self.custom_tag),
        }
    }
}

impl Default for Request {
    /// An empty request: no command, no session, no payload, no tag.
    fn default() -> (r: Request)
        ensures
            r@.command == Seq::<char>::empty(),
            r@.stream_session_id is None,
            r@.arguments is None,
            r@.custom_tag is None,
    {
        Request { command: String::new(), stream_session_id: None, arguments: None, custom_tag: None }
    }
}

/// Spec image of a [`Response`].
pub struct ResponseView {
    pub status: bool,
    pub stream_session_id: Option<Seq<char>>,
    pub return_data: Option<JsonView>,
    pub custom_tag: Option<Seq<char>>,
}

/// A success envelope from the server.
#[derive(Debug)]
pub struct Response {
    /// Always true on this envelope.
    pub status: bool,
    /// Set only on the response to the login command.
    pub stream_session_id: Option<String>,
    /// The returned payload, if the command has one.
    pub return_data: Option<JsonValue>,
    /// The correlation tag of the original request.
    pub custom_tag: Option<String>,
}

impl View for Response {
    type V = ResponseView;

    open spec fn view(&self) -> ResponseView {
        ResponseView {
            status: self.status,
            stream_session_id: opt_text(self.stream_session_id),
            return_data: opt_json(self.return_data),
            custom_tag: opt_text(self.custom_tag),
        }
    }
}

impl Default for Response {
    /// An all-empty success envelope.
    fn default() -> (r: Response)
        ensures
            r@.status == false,
            r@.stream_session_id is None,
            r@.return_data is None,
            r@.custom_tag is None,
    {
        Response { status: false, stream_session_id: None, return_data: None, custom_tag: None }
    }
}

/// Spec image of an [`ErrorResponse`].
pub struct ErrorResponseView {
    pub status: bool,
    pub error_code: XtbErrorCode,
    pub error_descr: Option<Seq<char>>,
    pub custom_tag: Option<Seq<char>>,
}

/// A failure envelope from the server.
#[derive(Debug)]
pub struct ErrorResponse {
    /// Always false on this envelope.
    pub status: bool,
    /// The machine-readable error code.
    pub error_code: XtbErrorCode,
    /// The human-readable description, if the server sent one.
    pub error_descr: Option<String>,
    /// The correlation tag of the original request.
    pub custom_tag: Option<String>,
}

impl View for ErrorResponse {
    type V = ErrorResponseView;

    open spec fn view(&self) -> ErrorResponseView {
        ErrorResponseView {
            status: self.status,
            error_code: self.error_code,
            error_descr: opt_text(self.error_descr),
            custom_tag: opt_text(self.custom_tag),
        }
    }
}

} // verus!
