//! The stream channel's verified core: push-message parsing, the
//! filter predicates that route push messages to consumers, and the
//! assembly of subscribe / unsubscribe control frames.

use vstd::prelude::*;

use crate::json::json_of;
use crate::json::json_text_of;
use crate::json::jview;
use crate::json::lemma_obj_jview;
use crate::json::obj_entries_set;
use crate::json::obj_set;
use crate::json::parse_json;
use crate::json::render_json;
use crate::json::json_eq;
use crate::json::JsonValue;
use crate::json::JsonView;
use crate::schema::messages::StreamDataMessage;
use crate::schema::messages::StreamDataMessageView;
use crate::schema::messages::SubscribeRequest;
use crate::schema::messages::SubscribeRequestView;
use crate::schema::messages::UnsubscribeRequest;
use crate::schema::messages::UnsubscribeRequestView;
use crate::strutil::str_eq;

verus! {

/// Failure on the stream connection's send path.
#[derive(Debug)]
pub enum XtbStreamConnectionError {
    /// The transport could not connect; carries the server address.
    CannotConnect(String),
    /// The transport could not send the frame.
    CannotSend(String),
    /// The frame could not be written as text.
    SerializationFailed(String),
    /// Subscription arguments must be an object or null.
    InvalidArgumentsType,
}

/// Spec image of a [`DataMessageFilter`].
pub enum FilterView {
    Always,
    Never,
    Command(Seq<char>),
    FieldValue { name: Seq<char>, value: JsonView },
    All(Seq<FilterView>),
    Any(Seq<FilterView>),
}

/// A predicate tree over push messages.  Pure: evaluating it changes
/// nothing.
#[derive(Debug)]
pub enum DataMessageFilter {
    /// Matches every message.
    Always,
    /// Matches no message.
    Never,
    /// The data-command name must match.
    Command(String),
    /// The payload must be an object whose `name` field equals `value`.
    FieldValue { name: String, value: JsonValue },
    /// Every inner filter must match; an empty list matches everything.
    All(Vec<DataMessageFilter>),
    /// Some inner filter must match; an empty list matches nothing.
    Any(Vec<DataMessageFilter>),
}

/// The view of a filter tree.
pub open spec fn fview(f: DataMessageFilter) -> FilterView
    decreases f,
{
    match f {
        DataMessageFilter::Always => FilterView::Always,
        DataMessageFilter::Never => FilterView::Never,
        DataMessageFilter::Command(c) => FilterView::Command(c@),
        DataMessageFilter::FieldValue { name, value } => FilterView::FieldValue {
            name: name@,
            value: jview(value),
        },
        DataMessageFilter::All(fs) => FilterView::All(filters_view(fs@)),
        DataMessageFilter::Any(fs) => FilterView::Any(filters_view(fs@)),
    }
}

/// The views of a list of filters.
pub open spec fn filters_view(fs: Seq<DataMessageFilter>) -> Seq<FilterView>
    decreases fs,
{
    if fs.len() == 0 {
        Seq::empty()
    } else {
        seq![fview(fs[0])] + filters_view(fs.skip(1))
    }
}

impl View for DataMessageFilter {
    type V = FilterView;

    open spec fn view(&self) -> FilterView {
        fview(*self)
    }
}

/// Index-wise reading of `filters_view`.
pub proof fn lemma_filters_view(fs: Seq<DataMessageFilter>)
    ensures
        filters_view(fs).len() == fs.len(),
        forall|i: int| 0 <= i < fs.len() ==> filters_view(fs)[i] == fview(fs[i]),
    decreases fs.len(),
{
    if fs.len() > 0 {
        lemma_filters_view(fs.skip(1));
        assert forall|i: int| 0 <= i < fs.len() implies filters_view(fs)[i] == fview(fs[i]) by {
            if i > 0 {
                assert(filters_view(fs)[i] == filters_view(fs.skip(1))[i - 1]);
                assert(fs.skip(1)[i - 1] == fs[i]);
            }
        }
    }
}

/// Whether a filter matches a push message.
pub open spec fn spec_matches(f: FilterView, m: StreamDataMessageView) -> bool
    decreases f,
{
    match f {
        FilterView::Always => true,
        FilterView::Never => false,
        FilterView::Command(c) => m.command == c,
        FilterView::FieldValue { name, value } => m.data.get(name) == Some(value),
        FilterView::All(fs) => all_match(fs, m),
        FilterView::Any(fs) => any_match(fs, m),
    }
}

/// Whether every filter of a list matches; an empty list does.
pub open spec fn all_match(fs: Seq<FilterView>, m: StreamDataMessageView) -> bool
    decreases fs,
{
    if fs.len() == 0 {
        true
    } else {
        spec_matches(fs[0], m) && all_match(fs.skip(1), m)
    }
}

/// Whether some filter of a list matches; of an empty list none does.
pub open spec fn any_match(fs: Seq<FilterView>, m: StreamDataMessageView) -> bool
    decreases fs,
{
    if fs.len() == 0 {
        false
    } else {
        spec_matches(fs[0], m) || any_match(fs.skip(1), m)
    }
}

/// A conjunction over the whole list, element by element.
pub proof fn lemma_all_match(fs: Seq<FilterView>, m: StreamDataMessageView)
    ensures
        all_match(fs, m) <==> (forall|i: int| 0 <= i < fs.len() ==> spec_matches(fs[i], m)),
    decreases fs.len(),
{
    if fs.len() > 0 {
        lemma_all_match(fs.skip(1), m);
        assert(forall|i: int|
            0 < i < fs.len() ==> fs.skip(1)[i - 1] == fs[i] && (spec_matches(
                fs.skip(1)[i - 1],
                m,
            ) <==> spec_matches(#[trigger] fs[i], m)));
    }
}

/// A disjunction over the whole list, element by element.
pub proof fn lemma_any_match(fs: Seq<FilterView>, m: StreamDataMessageView)
    ensures
        any_match(fs, m) <==> (exists|i: int| 0 <= i < fs.len() && spec_matches(fs[i], m)),
    decreases fs.len(),
{
    if fs.len() > 0 {
        lemma_any_match(fs.skip(1), m);
        if spec_matches(fs[0], m) {
        } else if any_match(fs.skip(1), m) {
            let i = choose|i: int| 0 <= i < fs.skip(1).len() && spec_matches(fs.skip(1)[i], m);
            assert(fs.skip(1)[i] == fs[i + 1]);
            assert(spec_matches(fs[i + 1], m));
        } else {
            assert forall|i: int| 0 <= i < fs.len() implies !spec_matches(fs[i], m) by {
                if i > 0 {
                    assert(fs[i] == fs.skip(1)[i - 1]);
                }
            }
        }
    }
}

/// A conjunction over no filters holds of every message.
pub proof fn lemma_all_of_none_matches_everything(m: StreamDataMessageView)
    ensures
        spec_matches(FilterView::All(Seq::empty()), m),
{
}

/// A disjunction over no filters holds of no message.
pub proof fn lemma_any_of_none_matches_nothing(m: StreamDataMessageView)
    ensures
        !spec_matches(FilterView::Any(Seq::empty()), m),
{
}

impl DataMessageFilter {
    /// Whether this filter matches a push message.
    pub fn test_message(&self, msg: &StreamDataMessage) -> (r: bool)
        ensures
            r == spec_matches(self@, msg@),
        decreases *self,
    {
        match self {
            DataMessageFilter::Always => Self::resolve_always(msg),
            DataMessageFilter::Never => Self::resolve_never(msg),
            DataMessageFilter::Command(cmd) => Self::resolve_command(msg, cmd.as_str()),
            DataMessageFilter::All(ops) => Self::resolve_all(msg, ops),
            DataMessageFilter::Any(ops) => Self::resolve_any(msg, ops),
            DataMessageFilter::FieldValue { name, value } => Self::resolve_field_value(
                msg,
                name.as_str(),
                value,
            ),
        }
    }

    fn resolve_always(_msg: &StreamDataMessage) -> (r: bool)
        ensures
            r,
    {
        true
    }

    fn resolve_never(_msg: &StreamDataMessage) -> (r: bool)
        ensures
            !r,
    {
        false
    }

    fn resolve_command(msg: &StreamDataMessage, command: &str) -> (r: bool)
        ensures
            r == (msg@.command == command@),
    {
        str_eq(msg.command.as_str(), command)
    }

    #[verifier::loop_isolation(false)]
    fn resolve_all(msg: &StreamDataMessage, ops: &Vec<DataMessageFilter>) -> (r: bool)
        ensures
            r == all_match(filters_view(ops@), msg@),
        decreases *ops,
    {
        proof {
            lemma_filters_view(ops@);
            lemma_all_match(filters_view(ops@), msg@);
        }
        let mut i: usize = 0;
        while i < ops.len()
            invariant
                i <= ops@.len(),
                forall|j: int| 0 <= j < i ==> spec_matches(fview(ops@[j]), msg@),
            decreases ops@.len() - i,
        {
            if !ops[i].test_message(msg) {
                proof {
                    assert(filters_view(ops@)[i as int] == fview(ops@[i as int]));
                }
                return false;
            }
            i += 1;
        }
        true
    }

    #[verifier::loop_isolation(false)]
    fn resolve_any(msg: &StreamDataMessage, ops: &Vec<DataMessageFilter>) -> (r: bool)
        ensures
            r == any_match(filters_view(ops@), msg@),
        decreases *ops,
    {
        proof {
            lemma_filters_view(ops@);
            lemma_any_match(filters_view(ops@), msg@);
        }
        let mut i: usize = 0;
        while i < ops.len()
            invariant
                i <= ops@.len(),
                forall|j: int| 0 <= j < i ==> !spec_matches(fview(ops@[j]), msg@),
            decreases ops@.len() - i,
        {
            if ops[i].test_message(msg) {
                proof {
                    assert(filters_view(ops@)[i as int] == fview(ops@[i as int]));
                }
                return true;
            }
            i += 1;
        }
        false
    }

    fn resolve_field_value(msg: &StreamDataMessage, field_name: &str, field_value: &JsonValue) -> (r:
        bool)
        ensures
            r == (msg@.data.get(field_name@) == Some(field_value@)),
    {
        match msg.data.get_field(field_name) {
            Some(field_content) => json_eq(field_content, field_value),
            None => false,
        }
    }
}

/// The push message that a parsed frame stands for: the frame must be
/// an object with a string `command` and a `data` field.
pub open spec fn spec_stream_message(v: JsonView) -> Option<StreamDataMessageView> {
    match v.get("command"@) {
        Some(JsonView::Str(c)) => match v.get("data"@) {
            Some(d) => Some(StreamDataMessageView { command: c, data: d }),
            None => None,
        },
        _ => None,
    }
}

/// Parse a stream-channel text frame into a push message.
///
/// A frame that is not JSON or lacks the two fields yields nothing:
/// the reader logs it and goes on.
pub fn parse_stream_message(text: &str) -> (r: Option<StreamDataMessage>)
    ensures
        match r {
            Some(m) => json_of(text@) is Some && spec_stream_message(json_of(text@)->Some_0)
                == Some(m@),
            None => match json_of(text@) {
                None => true,
                Some(jv) => spec_stream_message(jv) is None,
            },
        },
{
    let value = match parse_json(text) {
        Ok(v) => v,
        Err(_) => {
            return None;
        },
    };
    let command = match value.get_field("command") {
        Some(c) => match c {
            JsonValue::Str(c_text) => c_text.clone(),
            _ => {
                return None;
            },
        },
        None => {
            return None;
        },
    };
    let data = match value.get_field("data") {
        Some(d) => crate::json::json_clone(d),
        None => {
            return None;
        },
    };
    Some(StreamDataMessage { command, data })
}

/// The base entries of a subscribe control frame.
pub open spec fn subscribe_base(r: SubscribeRequestView) -> Seq<(Seq<char>, JsonView)> {
    seq![
        ("command"@, JsonView::Str(r.command)),
        ("streamSessionId"@, JsonView::Str(r.stream_session_id)),
    ]
}

/// The base entries of an unsubscribe control frame.
pub open spec fn unsubscribe_base(r: UnsubscribeRequestView) -> Seq<(Seq<char>, JsonView)> {
    seq![("command"@, JsonView::Str(r.command))]
}

/// Entries merged into a base object, left to right, each replacing an
/// existing binding of its key.
pub open spec fn merge_into(
    base: Seq<(Seq<char>, JsonView)>,
    args: Seq<(Seq<char>, JsonView)>,
) -> Seq<(Seq<char>, JsonView)>
    decreases args.len(),
{
    if args.len() == 0 {
        base
    } else {
        merge_into(obj_set(base, args[0].0, args[0].1), args.skip(1))
    }
}

/// Whether a subscription payload has a supported shape: absent, null,
/// or an object.
pub open spec fn arguments_ok(a: Option<JsonView>) -> bool {
    match a {
        None => true,
        Some(v) => v is Obj || v is Null,
    }
}

/// The entries that a supported payload contributes.
pub open spec fn argument_entries(a: Option<JsonView>) -> Seq<(Seq<char>, JsonView)> {
    match a {
        Some(JsonView::Obj(entries)) => entries,
        _ => Seq::empty(),
    }
}

/// Check and open a subscription payload: nothing for an absent or
/// null payload, the entries of an object, an error for anything else.
pub fn prepare_arguments(arguments: Option<JsonValue>) -> (r: Result<
    Option<Vec<(String, JsonValue)>>,
    XtbStreamConnectionError,
>)
    ensures
        match r {
            Ok(entries) => arguments_ok(crate::schema::messages::opt_json(arguments)) && (match entries {
                Some(e) => crate::json::obj_jview(e@) == argument_entries(
                    crate::schema::messages::opt_json(arguments),
                ),
                None => argument_entries(crate::schema::messages::opt_json(arguments))
                    == Seq::<(Seq<char>, JsonView)>::empty(),
            }),
            Err(e) => !arguments_ok(crate::schema::messages::opt_json(arguments)) && e
                is InvalidArgumentsType,
        },
{
    match arguments {
        None => Ok(None),
        Some(JsonValue::Obj(entries)) => Ok(Some(entries)),
        Some(JsonValue::Null) => Ok(None),
        Some(_) => Err(XtbStreamConnectionError::InvalidArgumentsType),
    }
}

#[verifier::loop_isolation(false)]
fn merge_arguments(base: Vec<(String, JsonValue)>, args: Option<Vec<(String, JsonValue)>>) -> (r:
    Vec<(String, JsonValue)>)
    ensures
        crate::json::obj_jview(r@) == merge_into(
            crate::json::obj_jview(base@),
            match args {
                Some(a) => crate::json::obj_jview(a@),
                None => Seq::<(Seq<char>, JsonView)>::empty(),
            },
        ),
{
    let mut out = base;
    let mut rest = match args {
        Some(a) => a,
        None => {
            return out;
        },
    };
    let ghost all_args = crate::json::obj_jview(rest@);
    let ghost base_view = crate::json::obj_jview(out@);
    proof {
        lemma_obj_jview(rest@);
        assert(all_args.skip(0) =~= all_args);
    }
    let mut i: usize = 0;
    while i < rest.len()
        invariant
            i <= rest@.len(),
            crate::json::obj_jview(rest@) == all_args,
            all_args.len() == rest@.len(),
            forall|j: int|
                0 <= j < rest@.len() ==> all_args[j] == (rest@[j].0@, jview(rest@[j].1)),
            merge_into(crate::json::obj_jview(out@), all_args.skip(i as int)) == merge_into(
                base_view,
                all_args,
            ),
        decreases rest@.len() - i,
    {
        let ghost out_before = crate::json::obj_jview(out@);
        let pair = rest_pair(&rest, i);
        obj_entries_set(&mut out, pair.0, pair.1);
        proof {
            assert(all_args.skip(i as int)[0] == all_args[i as int]);
            assert(all_args.skip(i as int).skip(1) =~= all_args.skip(i as int + 1));
            assert(merge_into(out_before, all_args.skip(i as int)) == merge_into(
                obj_set(out_before, all_args[i as int].0, all_args[i as int].1),
                all_args.skip(i as int + 1),
            ));
        }
        i += 1;
    }
    proof {
        assert(all_args.skip(i as int) =~= Seq::<(Seq<char>, JsonView)>::empty());
    }
    out
}

fn rest_pair(rest: &Vec<(String, JsonValue)>, i: usize) -> (r: (String, JsonValue))
    requires
        i < rest@.len(),
    ensures
        r.0@ == rest@[i as int].0@,
        r.1@ == rest@[i as int].1@,
{
    let pair = &rest[i];
    (pair.0.clone(), crate::json::json_clone(&pair.1))
}

/// The JSON object of a subscribe frame with its payload merged in.
pub open spec fn subscribe_json(r: SubscribeRequestView, a: Option<JsonView>) -> JsonView {
    JsonView::Obj(merge_into(subscribe_base(r), argument_entries(a)))
}

/// The JSON object of an unsubscribe frame with its payload merged in.
pub open spec fn unsubscribe_json(r: UnsubscribeRequestView, a: Option<JsonView>) -> JsonView {
    JsonView::Obj(merge_into(unsubscribe_base(r), argument_entries(a)))
}

/// Assemble the subscribe control frame for a subscription.
///
/// The arguments must be absent, null or an object; anything else is
/// rejected without sending.
pub fn assemble_subscribe(request: &SubscribeRequest, arguments: Option<JsonValue>) -> (r: Result<
    JsonValue,
    XtbStreamConnectionError,
>)
    ensures
        match r {
            Ok(v) => arguments_ok(crate::schema::messages::opt_json(arguments)) && v@
                == subscribe_json(
                request@,
                crate::schema::messages::opt_json(arguments),
            ),
            Err(e) => !arguments_ok(crate::schema::messages::opt_json(arguments)) && e
                is InvalidArgumentsType,
        },
{
    let ghost args_view = crate::schema::messages::opt_json(arguments);
    let prepared = match prepare_arguments(arguments) {
        Ok(p) => p,
        Err(e) => {
            return Err(e);
        },
    };
    let mut base: Vec<(String, JsonValue)> = Vec::new();
    base.push(("command".to_owned(), JsonValue::Str(request.command.clone())));
    base.push(("streamSessionId".to_owned(), JsonValue::Str(request.stream_session_id.clone())));
    proof {
        lemma_obj_jview(base@);
        assert(crate::json::obj_jview(base@) =~= subscribe_base(request@));
    }
    let merged = merge_arguments(base, prepared);
    Ok(JsonValue::Obj(merged))
}

/// Assemble the unsubscribe control frame for a subscription.
pub fn assemble_unsubscribe(request: &UnsubscribeRequest, arguments: Option<JsonValue>) -> (r:
    Result<JsonValue, XtbStreamConnectionError>)
    ensures
        match r {
            Ok(v) => arguments_ok(crate::schema::messages::opt_json(arguments)) && v@
                == unsubscribe_json(
                request@,
                crate::schema::messages::opt_json(arguments),
            ),
            Err(e) => !arguments_ok(crate::schema::messages::opt_json(arguments)) && e
                is InvalidArgumentsType,
        },
{
    let ghost args_view = crate::schema::messages::opt_json(arguments);
    let prepared = match prepare_arguments(arguments) {
        Ok(p) => p,
        Err(e) => {
            return Err(e);
        },
    };
    let mut base: Vec<(String, JsonValue)> = Vec::new();
    base.push(("command".to_owned(), JsonValue::Str(request.command.clone())));
    proof {
        lemma_obj_jview(base@);
        assert(crate::json::obj_jview(base@) =~= unsubscribe_base(request@));
    }
    let merged = merge_arguments(base, prepared);
    Ok(JsonValue::Obj(merged))
}

/// The text of a subscribe control frame.
pub fn subscribe_frame_text(request: &SubscribeRequest, arguments: Option<JsonValue>) -> (r: Result<
    String,
    XtbStreamConnectionError,
>)
    ensures
        match r {
            Ok(s) => arguments_ok(crate::schema::messages::opt_json(arguments)) && s@
                == json_text_of(
                subscribe_json(request@, crate::schema::messages::opt_json(arguments)),
            ),
            Err(e) => !arguments_ok(crate::schema::messages::opt_json(arguments)) && e
                is InvalidArgumentsType,
        },
{
    match assemble_subscribe(request, arguments) {
        Ok(v) => Ok(render_json(&v)),
        Err(e) => Err(e),
    }
}

/// The text of an unsubscribe control frame.
pub fn unsubscribe_frame_text(request: &UnsubscribeRequest, arguments: Option<JsonValue>) -> (r:
    Result<String, XtbStreamConnectionError>)
    ensures
        match r {
            Ok(s) => arguments_ok(crate::schema::messages::opt_json(arguments)) && s@
                == json_text_of(
                unsubscribe_json(request@, crate::schema::messages::opt_json(arguments)),
            ),
            Err(e) => !arguments_ok(crate::schema::messages::opt_json(arguments)) && e
                is InvalidArgumentsType,
        },
{
    match assemble_unsubscribe(request, arguments) {
        Ok(v) => Ok(render_json(&v)),
        Err(e) => Err(e),
    }
}

} // verus!
