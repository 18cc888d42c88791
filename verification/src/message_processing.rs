//! Classification of a raw command-channel frame into a success or
//! failure envelope.
//!
//! A frame must be a JSON object whose boolean `status` field picks the
//! envelope: true reads a [`Response`], false reads an
//! [`ErrorResponse`].  A frame that is not JSON, not an object, or has
//! a missing or mistyped field is rejected with an error — the caller
//! logs it and goes on; one bad frame never stops the reader.

use vstd::prelude::*;

use crate::api::api_errors::spec_parse_code;
use crate::api::api_errors::XtbErrorCode;
use crate::api::api_errors::XtbErrorCodeError;
use crate::api::messages::ErrorResponse;
use crate::api::messages::ErrorResponseView;
use crate::api::messages::Response;
use crate::api::messages::ResponseView;
use crate::json::json_of;
use crate::json::parse_json;
use crate::json::JsonValue;
use crate::json::JsonView;

verus! {

/// Why a frame could not be turned into an envelope.
#[derive(Debug)]
pub enum MessageProcessingError {
    /// The frame is not well-formed JSON, or a field has the wrong type.
    DeserializationError(String),
    /// The frame has no usable `status` field.
    MalformedResponse(String),
}

/// Spec image of a [`MessageProcessingError`].
pub enum MessageProcessingErrorView {
    DeserializationError(Seq<char>),
    MalformedResponse(Seq<char>),
}

impl View for MessageProcessingError {
    type V = MessageProcessingErrorView;

    open spec fn view(&self) -> MessageProcessingErrorView {
        match self {
            MessageProcessingError::DeserializationError(m) => {
                MessageProcessingErrorView::DeserializationError(m@)
            },
            MessageProcessingError::MalformedResponse(m) => {
                MessageProcessingErrorView::MalformedResponse(m@)
            },
        }
    }
}

/// A classified frame: one of the two envelopes.
#[derive(Debug)]
pub enum ProcessedMessage {
    Response(Response),
    ErrorResponse(ErrorResponse),
}

/// Spec image of a [`ProcessedMessage`].
pub enum ProcessedMessageView {
    Response(ResponseView),
    ErrorResponse(ErrorResponseView),
}

impl View for ProcessedMessage {
    type V = ProcessedMessageView;

    open spec fn view(&self) -> ProcessedMessageView {
        match self {
            ProcessedMessage::Response(r) => ProcessedMessageView::Response(r@),
            ProcessedMessage::ErrorResponse(r) => ProcessedMessageView::ErrorResponse(r@),
        }
    }
}

impl ProcessedMessage {
    /// The success envelope; only on a success classification.
    pub fn unwrap(self) -> (r: Response)
        requires
            self is Response,
        ensures
            self@ == ProcessedMessageView::Response(r@),
    {
        match self {
            ProcessedMessage::Response(r) => r,
            ProcessedMessage::ErrorResponse(_) => unreached(),
        }
    }

    /// The failure envelope; only on a failure classification.
    pub fn unwrap_err(self) -> (r: ErrorResponse)
        requires
            self is ErrorResponse,
        ensures
            self@ == ProcessedMessageView::ErrorResponse(r@),
    {
        match self {
            ProcessedMessage::ErrorResponse(r) => r,
            ProcessedMessage::Response(_) => unreached(),
        }
    }

    /// The correlation tag of either envelope.
    pub fn tag<'a>(&'a self) -> (r: &'a Option<String>)
        ensures
            crate::api::messages::opt_text(*r) == spec_message_tag(self@),
    {
        match self {
            ProcessedMessage::Response(resp) => &resp.custom_tag,
            ProcessedMessage::ErrorResponse(resp) => &resp.custom_tag,
        }
    }
}

/// The correlation tag carried by a classified envelope.
pub open spec fn spec_message_tag(m: ProcessedMessageView) -> Option<Seq<char>> {
    match m {
        ProcessedMessageView::Response(r) => r.custom_tag,
        ProcessedMessageView::ErrorResponse(r) => r.custom_tag,
    }
}

/// An optional text field: absent or null reads as nothing, a string
/// reads as itself, anything else is a type error.
pub open spec fn spec_text_field(v: JsonView, key: Seq<char>) -> Result<Option<Seq<char>>, ()> {
    match v.get(key) {
        None => Ok(None),
        Some(JsonView::Null) => Ok(None),
        Some(JsonView::Str(s)) => Ok(Some(s)),
        Some(_) => Err(()),
    }
}

/// The `returnData` payload: absent or null reads as nothing.
pub open spec fn spec_data_field(v: JsonView, key: Seq<char>) -> Option<JsonView> {
    match v.get(key) {
        None => None,
        Some(JsonView::Null) => None,
        Some(d) => Some(d),
    }
}

/// How a parsed frame classifies: the envelope it carries, or the
/// error that rejects it.
pub open spec fn spec_classify(v: JsonView) -> Result<
    ProcessedMessageView,
    MessageProcessingErrorView,
> {
    if !(v is Obj) {
        Err(MessageProcessingErrorView::MalformedResponse("Value is not object"@))
    } else {
        match v.get("status"@) {
            None => Err(
                MessageProcessingErrorView::MalformedResponse(
                    "The response 'status' field is missing"@,
                ),
            ),
            Some(sv) => {
                if !(sv is Bool) {
                    Err(
                        MessageProcessingErrorView::MalformedResponse(
                            "The response 'status' field is not boolean"@,
                        ),
                    )
                } else if sv->Bool_0 {
                    spec_classify_success(v)
                } else {
                    spec_classify_failure(v)
                }
            },
        }
    }
}

/// Reading the success envelope's fields.
pub open spec fn spec_classify_success(v: JsonView) -> Result<
    ProcessedMessageView,
    MessageProcessingErrorView,
> {
    match spec_text_field(v, "streamSessionId"@) {
        Err(_) => Err(
            MessageProcessingErrorView::DeserializationError(
                "The 'streamSessionId' field is not a string"@,
            ),
        ),
        Ok(session) => match spec_text_field(v, "customTag"@) {
            Err(_) => Err(
                MessageProcessingErrorView::DeserializationError(
                    "The 'customTag' field is not a string"@,
                ),
            ),
            Ok(tag) => Ok(
                ProcessedMessageView::Response(
                    ResponseView {
                        status: true,
                        stream_session_id: session,
                        return_data: spec_data_field(v, "returnData"@),
                        custom_tag: tag,
                    },
                ),
            ),
        },
    }
}

/// Reading the failure envelope's fields.
pub open spec fn spec_classify_failure(v: JsonView) -> Result<
    ProcessedMessageView,
    MessageProcessingErrorView,
> {
    match v.get("errorCode"@) {
        Some(JsonView::Str(code_text)) => {
            match spec_parse_code(code_text) {
                None => Err(
                    MessageProcessingErrorView::DeserializationError(
                        "The 'errorCode' field holds no supported code"@,
                    ),
                ),
                Some(code) => match spec_text_field(v, "errorDescr"@) {
                    Err(_) => Err(
                        MessageProcessingErrorView::DeserializationError(
                            "The 'errorDescr' field is not a string"@,
                        ),
                    ),
                    Ok(descr) => match spec_text_field(v, "customTag"@) {
                        Err(_) => Err(
                            MessageProcessingErrorView::DeserializationError(
                                "The 'customTag' field is not a string"@,
                            ),
                        ),
                        Ok(tag) => Ok(
                            ProcessedMessageView::ErrorResponse(
                                ErrorResponseView {
                                    status: false,
                                    error_code: code,
                                    error_descr: descr,
                                    custom_tag: tag,
                                },
                            ),
                        ),
                    },
                },
            }
        },
        _ => Err(
            MessageProcessingErrorView::DeserializationError(
                "The 'errorCode' field is missing or not a string"@,
            ),
        ),
    }
}

fn text_field(v: &JsonValue, key: &str) -> (r: Result<Option<String>, ()>)
    ensures
        match r {
            Ok(o) => spec_text_field(v@, key@) == Ok::<Option<Seq<char>>, ()>(
                crate::api::messages::opt_text(o),
            ),
            Err(_) => spec_text_field(v@, key@) is Err,
        },
{
    match v.get_field(key) {
        None => Ok(None),
        Some(JsonValue::Null) => Ok(None),
        Some(JsonValue::Str(s)) => Ok(Some(s.clone())),
        Some(_) => Err(()),
    }
}

fn data_field(v: &JsonValue, key: &str) -> (r: Option<JsonValue>)
    ensures
        crate::api::messages::opt_json(r) == spec_data_field(v@, key@),
{
    match v.get_field(key) {
        None => None,
        Some(JsonValue::Null) => None,
        Some(d) => Some(crate::json::json_clone(d)),
    }
}

/// Classify a parsed frame into an envelope.
pub fn process_message_value(value: &JsonValue) -> (r: Result<ProcessedMessage, MessageProcessingError>)
    ensures
        match r {
            Ok(m) => spec_classify(value@) == Ok::<_, MessageProcessingErrorView>(m@),
            Err(e) => spec_classify(value@) == Err::<ProcessedMessageView, _>(e@),
        },
{
    let status = match value.get_field("status") {
        None => {
            if let JsonValue::Obj(_) = value {
                return Err(
                    MessageProcessingError::MalformedResponse(
                        "The response 'status' field is missing".to_owned(),
                    ),
                );
            }
            return Err(
                MessageProcessingError::MalformedResponse("Value is not object".to_owned()),
            );
        },
        Some(JsonValue::Bool(b)) => *b,
        Some(_) => {
            return Err(
                MessageProcessingError::MalformedResponse(
                    "The response 'status' field is not boolean".to_owned(),
                ),
            );
        },
    };
    if status {
        let session = match text_field(value, "streamSessionId") {
            Ok(s) => s,
            Err(_) => {
                return Err(
                    MessageProcessingError::DeserializationError(
                        "The 'streamSessionId' field is not a string".to_owned(),
                    ),
                );
            },
        };
        let tag = match text_field(value, "customTag") {
            Ok(t) => t,
            Err(_) => {
                return Err(
                    MessageProcessingError::DeserializationError(
                        "The 'customTag' field is not a string".to_owned(),
                    ),
                );
            },
        };
        let data = data_field(value, "returnData");
        Ok(
            ProcessedMessage::Response(
                Response {
                    status: true,
                    stream_session_id: session,
                    return_data: data,
                    custom_tag: tag,
                },
            ),
        )
    } else {
        let code = match value.get_field("errorCode") {
            Some(JsonValue::Str(code_text)) => {
                match XtbErrorCode::from_str(code_text.as_str()) {
                    Ok(code) => code,
                    Err(XtbErrorCodeError::UnsupportedErrorCode(_)) => {
                        return Err(
                            MessageProcessingError::DeserializationError(
                                "The 'errorCode' field holds no supported code".to_owned(),
                            ),
                        );
                    },
                }
            },
            _ => {
                return Err(
                    MessageProcessingError::DeserializationError(
                        "The 'errorCode' field is missing or not a string".to_owned(),
                    ),
                );
            },
        };
        let descr = match text_field(value, "errorDescr") {
            Ok(d) => d,
            Err(_) => {
                return Err(
                    MessageProcessingError::DeserializationError(
                        "The 'errorDescr' field is not a string".to_owned(),
                    ),
                );
            },
        };
        let tag = match text_field(value, "customTag") {
            Ok(t) => t,
            Err(_) => {
                return Err(
                    MessageProcessingError::DeserializationError(
                        "The 'customTag' field is not a string".to_owned(),
                    ),
                );
            },
        };
        Ok(
            ProcessedMessage::ErrorResponse(
                ErrorResponse { status: false, error_code: code, error_descr: descr, custom_tag: tag },
            ),
        )
    }
}

/// Parse a text frame and classify it.
///
/// A frame that is not well-formed JSON is rejected as a
/// deserialization error; the parser's own message is carried along.
pub fn process_message(text: &str) -> (r: Result<ProcessedMessage, MessageProcessingError>)
    ensures
        match r {
            Ok(m) => json_of(text@) is Some && spec_classify(json_of(text@)->Some_0) == Ok::<
                _,
                MessageProcessingErrorView,
            >(m@),
            Err(e) => match json_of(text@) {
                Some(jv) => spec_classify(jv) == Err::<ProcessedMessageView, _>(e@),
                None => e is DeserializationError,
            },
        },
{
    match parse_json(text) {
        Ok(value) => process_message_value(&value),
        Err(m) => Err(MessageProcessingError::DeserializationError(m)),
    }
}

} // verus!
