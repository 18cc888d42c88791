//! The frame shapes of the two channels, and how each one is written
//! as a JSON object.

use vstd::prelude::*;

use crate::api::api_errors::XtbErrorCode;
use crate::json::json_text_of;
use crate::json::jview;
use crate::json::lemma_obj_jview;
use crate::json::render_json;
use crate::json::JsonValue;
use crate::json::JsonView;

verus! {

/// The view of an optional string field.
pub open spec fn opt_text(o: Option<String>) -> Option<Seq<char>> {
    match o {
        Some(s) => Some(s@),
        None => None,
    }
}

/// The view of an optional payload field.
pub open spec fn opt_json(o: Option<JsonValue>) -> Option<JsonView> {
    match o {
        Some(v) => Some(v@),
        None => None,
    }
}

/// Spec image of a [`Request`].
pub struct RequestView {
    pub command: Seq<char>,
    pub arguments: Option<JsonView>,
    pub custom_tag: Option<Seq<char>>,
}

/// A tagged command-channel request.
#[derive(Debug)]
pub struct Request {
    /// The command name.
    pub command: String,
    /// Payload sent with the command; omitted from the frame when
    /// absent.
    pub arguments: Option<JsonValue>,
    /// Correlation tag echoed back by the server; written as null when
    /// absent.
    pub custom_tag: Option<String>,
}

impl View for Request {
    type V = RequestView;

    open spec fn view(&self) -> RequestView {
        RequestView {
            command: self.command@,
            arguments: opt_json(self.arguments),
            custom_tag: opt_text(self.custom_tag),
        }
    }
}

/// The JSON object that a request is written as: the command, the
/// arguments where present, and the tag (null where absent).
pub open spec fn request_json(r: RequestView) -> JsonView {
    JsonView::Obj(
        seq![("command"@, JsonView::Str(r.command))] + (match r.arguments {
            Some(a) => seq![("arguments"@, a)],
            None => Seq::empty(),
        }) + seq![
            (
                "customTag"@,
                match r.custom_tag {
                    Some(t) => JsonView::Str(t),
                    None => JsonView::Null,
                },
            ),
        ],
    )
}

impl Default for Request {
    /// An empty request.
    fn default() -> (r: Request)
        ensures
            r@.command == Seq::<char>::empty(),
            r@.arguments is None,
            r@.custom_tag is None,
    {
        Request { command: String::new(), arguments: None, custom_tag: None }
    }
}

impl Request {
    /// The request with the command name set.
    pub fn with_command(self, command: &str) -> (r: Request)
        ensures
            r@ == (RequestView { command: command@, ..self@ }),
    {
        Request { command: command.to_owned(), ..self }
    }

    /// The request with the tag set.
    pub fn with_custom_tag(self, tag: &str) -> (r: Request)
        ensures
            r@ == (RequestView { custom_tag: Some(tag@), ..self@ }),
    {
        Request { custom_tag: Some(tag.to_owned()), ..self }
    }

    /// The request with the arguments set, where the payload has a
    /// supported shape: no payload and a null payload read as none, an
    /// object is kept as it stands.
    pub fn with_maybe_arguments(self, arguments: Option<JsonValue>) -> (r: Request)
        requires
            match arguments {
                None => true,
                Some(a) => a@ is Obj || a@ is Null,
            },
        ensures
            r@ == (RequestView { arguments: spec_normalize_arguments(opt_json(arguments)), ..self@ }),
    {
        match arguments {
            None => Request { arguments: None, ..self },
            Some(JsonValue::Null) => Request { arguments: None, ..self },
            Some(a) => Request { arguments: Some(a), ..self },
        }
    }

    /// The JSON object of the request.
    pub fn to_json(&self) -> (r: JsonValue)
        ensures
            r@ == request_json(self@),
    {
        let mut entries: Vec<(String, JsonValue)> = Vec::new();
        entries.push(("command".to_owned(), JsonValue::Str(self.command.clone())));
        match &self.arguments {
            Some(a) => {
                entries.push(("arguments".to_owned(), crate::json::json_clone(a)));
            },
            None => {},
        }
        match &self.custom_tag {
            Some(t) => {
                entries.push(("customTag".to_owned(), JsonValue::Str(t.clone())));
            },
            None => {
                entries.push(("customTag".to_owned(), JsonValue::Null));
            },
        }
        let r = JsonValue::Obj(entries);
        proof {
            lemma_obj_jview(r->Obj_0@);
            assert(r@->Obj_0 =~= request_json(self@)->Obj_0);
        }
        r
    }

    /// The text frame of the request.
    pub fn to_frame_text(&self) -> (r: String)
        ensures
            r@ == json_text_of(request_json(self@)),
    {
        let value = self.to_json();
        render_json(&value)
    }
}

/// A payload in one of the supported shapes, with null read as none.
pub open spec fn spec_normalize_arguments(p: Option<JsonView>) -> Option<JsonView> {
    match p {
        Some(JsonView::Null) => None,
        other => other,
    }
}

/// A success envelope, as the command channel reads it.
#[derive(Debug)]
pub struct Response {
    /// Always true on this envelope.
    pub status: bool,
    /// Set only on the response to the login command.
    pub stream_session_id: Option<String>,
    /// The returned payload, if the command has one.
    pub return_data: Option<JsonValue>,
    /// The correlation tag of the original request.
    pub custom_tag: Option<String>,
}

/// A failure envelope, as the command channel reads it.
#[derive(Debug)]
pub struct ErrorResponse {
    /// Always false on this envelope.
    pub status: bool,
    /// The machine-readable error code.
    pub error_code: XtbErrorCode,
    /// The human-readable description, if the server sent one.
    pub error_descr: Option<String>,
    /// The correlation tag of the original request.
    pub custom_tag: Option<String>,
}

/// Spec image of a [`SubscribeRequest`].
pub struct SubscribeRequestView {
    pub command: Seq<char>,
    pub stream_session_id: Seq<char>,
}

/// The control frame that opens a push subscription.
///
/// Subscription arguments are merged into the written object, not
/// carried as a field.
#[derive(Debug)]
pub struct SubscribeRequest {
    /// The subscribe command name.
    pub command: String,
    /// Binds the subscription to the authenticated session.
    pub stream_session_id: String,
}

impl View for SubscribeRequest {
    type V = SubscribeRequestView;

    open spec fn view(&self) -> SubscribeRequestView {
        SubscribeRequestView { command: self.command@, stream_session_id: self.stream_session_id@ }
    }
}

impl Default for SubscribeRequest {
    /// An empty subscribe frame.
    fn default() -> (r: SubscribeRequest)
        ensures
            r@.command == Seq::<char>::empty(),
            r@.stream_session_id == Seq::<char>::empty(),
    {
        SubscribeRequest { command: String::new(), stream_session_id: String::new() }
    }
}

impl SubscribeRequest {
    /// The frame with the command name set.
    pub fn with_command(self, command: &str) -> (r: SubscribeRequest)
        ensures
            r@ == (SubscribeRequestView { command: command@, ..self@ }),
    {
        SubscribeRequest { command: command.to_owned(), ..self }
    }

    /// The frame with the session token set.
    pub fn with_stream_session_id(self, id: &str) -> (r: SubscribeRequest)
        ensures
            r@ == (SubscribeRequestView { stream_session_id: id@, ..self@ }),
    {
        SubscribeRequest { stream_session_id: id.to_owned(), ..self }
    }
}

/// Spec image of an [`UnsubscribeRequest`].
pub struct UnsubscribeRequestView {
    pub command: Seq<char>,
}

/// The control frame that closes a push subscription.
#[derive(Debug)]
pub struct UnsubscribeRequest {
    /// The unsubscribe command name.
    pub command: String,
}

impl View for UnsubscribeRequest {
    type V = UnsubscribeRequestView;

    open spec fn view(&self) -> UnsubscribeRequestView {
        UnsubscribeRequestView { command: self.command@ }
    }
}

impl Default for UnsubscribeRequest {
    /// An empty unsubscribe frame.
    fn default() -> (r: UnsubscribeRequest)
        ensures
            r@.command == Seq::<char>::empty(),
    {
        UnsubscribeRequest { command: String::new() }
    }
}

impl UnsubscribeRequest {
    /// The frame with the command name set.
    pub fn with_command(self, command: &str) -> (r: UnsubscribeRequest)
        ensures
            r@.command == command@,
    {
        UnsubscribeRequest { command: command.to_owned() }
    }
}

/// Spec image of a [`StreamDataMessage`].
pub struct StreamDataMessageView {
    pub command: Seq<char>,
    pub data: JsonView,
}

/// A push message from the stream channel: the data-command name and
/// an opaque payload, routed by content rather than by request.
#[derive(Debug)]
pub struct StreamDataMessage {
    /// The data-command name.
    pub command: String,
    /// The payload.
    pub data: JsonValue,
}

impl View for StreamDataMessage {
    type V = StreamDataMessageView;

    open spec fn view(&self) -> StreamDataMessageView {
        StreamDataMessageView { command: self.command@, data: jview(self.data) }
    }
}

impl Default for StreamDataMessage {
    /// An empty push message.
    fn default() -> (r: StreamDataMessage)
        ensures
            r@.command == Seq::<char>::empty(),
            r@.data == JsonView::Null,
    {
        StreamDataMessage { command: String::new(), data: JsonValue::Null }
    }
}

} // verus!
