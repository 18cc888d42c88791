//! The client facade's verified core: configuration building, the
//! interpretation of correlated responses, the subscription-key and
//! filter conventions, and the reference-counted subscription table
//! shared by all stream consumers.

use vstd::prelude::*;

use crate::api::messages::ErrorResponse;
use crate::json::JsonValue;
use crate::json::JsonView;
use crate::message_processing::ProcessedMessage;
use crate::message_processing::ProcessedMessageView;
use crate::stream_connection::DataMessageFilter;
use crate::stream_connection::FilterView;
use crate::stream_connection::XtbStreamConnectionError;
use crate::strutil::str_eq;

verus! {

/// Failure of a typed client operation.  A server rejection carries
/// the failure envelope untranslated; a transport or serialization
/// fault is its own variant, so the caller can always tell the three
/// apart.
#[derive(Debug)]
pub enum XtbClientError {
    /// The request payload could not be written.
    SerializationFailed(String),
    /// The command frame could not be sent.
    CannotSendCommand(String),
    /// A stream control frame could not be sent.
    CannotSendStreamCommand(XtbStreamConnectionError),
    /// An internal fault with no better description.
    UnexpectedError,
    /// A correlated payload does not match the expected shape.
    DeserializationFailed(String),
    /// The server rejected the command; carries the failure envelope.
    CommandFailed(ErrorResponse),
}

/// Configuration for a client: the two server addresses, the optional
/// application identity, and the keepalive period.
///
/// The two addresses are required before a client can be built; the
/// rest is optional.
#[derive(Debug)]
pub struct XtbClientBuilder {
    /// Address of the request/response server.
    pub api_url: Option<String>,
    /// Address of the stream server.
    pub stream_api_url: Option<String>,
    /// Application identifier (deprecated by the server's interface).
    pub app_id: Option<String>,
    /// Application name (deprecated by the server's interface).
    pub app_name: Option<String>,
    /// Seconds between keepalive pings; half a minute where unset.
    pub ping_period: Option<u64>,
}

/// Spec image of a builder.
pub struct XtbClientBuilderView {
    pub api_url: Option<Seq<char>>,
    pub stream_api_url: Option<Seq<char>>,
    pub app_id: Option<Seq<char>>,
    pub app_name: Option<Seq<char>>,
    pub ping_period: Option<u64>,
}

impl View for XtbClientBuilder {
    type V = XtbClientBuilderView;

    open spec fn view(&self) -> XtbClientBuilderView {
        XtbClientBuilderView {
            api_url: crate::api::messages::opt_text(self.api_url),
            stream_api_url: crate::api::messages::opt_text(self.stream_api_url),
            app_id: crate::api::messages::opt_text(self.app_id),
            app_name: crate::api::messages::opt_text(self.app_name),
            ping_period: self.ping_period,
        }
    }
}

impl XtbClientBuilder {
    /// A builder for custom server addresses.
    pub fn new(api_url: &str, stream_api_url: &str) -> (r: XtbClientBuilder)
        ensures
            r@.api_url == Some(api_url@),
            r@.stream_api_url == Some(stream_api_url@),
            r@.app_id is None,
            r@.app_name is None,
            r@.ping_period is None,
    {
        XtbClientBuilder {
            api_url: Some(api_url.to_owned()),
            stream_api_url: Some(stream_api_url.to_owned()),
            app_id: None,
            app_name: None,
            ping_period: None,
        }
    }

    /// A builder with nothing set; both addresses must follow.
    pub fn new_bare() -> (r: XtbClientBuilder)
        ensures
            r@.api_url is None,
            r@.stream_api_url is None,
            r@.app_id is None,
            r@.app_name is None,
            r@.ping_period is None,
    {
        XtbClientBuilder {
            api_url: None,
            stream_api_url: None,
            app_id: None,
            app_name: None,
            ping_period: None,
        }
    }

    /// A builder for the production servers.
    pub fn new_real() -> (r: XtbClientBuilder)
        ensures
            r@.api_url == Some("wss://ws.xtb.com/real"@),
            r@.stream_api_url == Some("wss://ws.xtb.com/realStream"@),
            r@.app_id is None,
            r@.app_name is None,
            r@.ping_period is None,
    {
        Self::new("wss://ws.xtb.com/real", "wss://ws.xtb.com/realStream")
    }

    /// A builder for the demo servers.
    pub fn new_demo() -> (r: XtbClientBuilder)
        ensures
            r@.api_url == Some("wss://ws.xtb.com/demo"@),
            r@.stream_api_url == Some("wss://ws.xtb.com/demoStream"@),
            r@.app_id is None,
            r@.app_name is None,
            r@.ping_period is None,
    {
        Self::new("wss://ws.xtb.com/demo", "wss://ws.xtb.com/demoStream")
    }

    /// The builder with the command-server address set.
    pub fn with_api_url(self, v: &str) -> (r: XtbClientBuilder)
        ensures
            r@ == (XtbClientBuilderView { api_url: Some(v@), ..self@ }),
    {
        XtbClientBuilder { api_url: Some(v.to_owned()), ..self }
    }

    /// The builder with the stream-server address set.
    pub fn with_stream_api_url(self, v: &str) -> (r: XtbClientBuilder)
        ensures
            r@ == (XtbClientBuilderView { stream_api_url: Some(v@), ..self@ }),
    {
        XtbClientBuilder { stream_api_url: Some(v.to_owned()), ..self }
    }

    /// The builder with the application identifier set.
    pub fn with_app_id(self, v: &str) -> (r: XtbClientBuilder)
        ensures
            r@ == (XtbClientBuilderView { app_id: Some(v@), ..self@ }),
    {
        XtbClientBuilder { app_id: Some(v.to_owned()), ..self }
    }

    /// The builder with the application name set.
    pub fn with_app_name(self, v: &str) -> (r: XtbClientBuilder)
        ensures
            r@ == (XtbClientBuilderView { app_name: Some(v@), ..self@ }),
    {
        XtbClientBuilder { app_name: Some(v.to_owned()), ..self }
    }

    /// The builder with the keepalive period set, in seconds.
    pub fn with_ping_period(self, v: u64) -> (r: XtbClientBuilder)
        ensures
            r@ == (XtbClientBuilderView { ping_period: Some(v), ..self@ }),
    {
        XtbClientBuilder { ping_period: Some(v), ..self }
    }
}

impl Default for XtbClientBuilder {
    /// Same as `XtbClientBuilder::new_bare`.
    fn default() -> (r: XtbClientBuilder)
        ensures
            r@.api_url is None,
            r@.stream_api_url is None,
            r@.app_id is None,
            r@.app_name is None,
            r@.ping_period is None,
    {
        XtbClientBuilder::new_bare()
    }
}

/// How a correlated envelope reaches the caller: a success hands back
/// its payload (nothing where the server sent none), a failure reaches
/// the caller as the domain error itself.
pub open spec fn spec_interpret(m: ProcessedMessageView) -> Result<
    Option<JsonView>,
    crate::api::messages::ErrorResponseView,
> {
    match m {
        ProcessedMessageView::Response(r) => Ok(r.return_data),
        ProcessedMessageView::ErrorResponse(e) => Err(e),
    }
}

/// Turn a correlated envelope into the caller's result.
pub fn interpret_response(message: ProcessedMessage) -> (r: Result<Option<JsonValue>, XtbClientError>)
    ensures
        match r {
            Ok(data) => spec_interpret(message@) == Ok::<
                _,
                crate::api::messages::ErrorResponseView,
            >(crate::api::messages::opt_json(data)),
            Err(XtbClientError::CommandFailed(e)) => spec_interpret(message@) == Err::<
                Option<JsonView>,
                _,
            >(e@),
            Err(_) => false,
        },
{
    match message {
        ProcessedMessage::Response(resp) => Ok(resp.return_data),
        ProcessedMessage::ErrorResponse(err) => Err(XtbClientError::CommandFailed(err)),
    }
}

/// The subscription key of a symbol-scoped feed: the data-command name
/// and the symbol, joined by a dot, so two instruments of one command
/// are independent subscriptions.
pub open spec fn spec_symbol_key(data_command: Seq<char>, symbol: Seq<char>) -> Seq<char> {
    data_command + "."@ + symbol
}

/// The key of a symbol-scoped feed.
pub fn symbol_scoped_key(data_command: &str, symbol: &str) -> (r: String)
    ensures
        r@ == spec_symbol_key(data_command@, symbol@),
{
    let mut r = data_command.to_owned();
    r.append(".");
    r.append(symbol);
    r
}

/// The filter of a global feed: the data-command name alone.
pub fn command_filter(data_command: &str) -> (r: DataMessageFilter)
    ensures
        r@ == FilterView::Command(data_command@),
{
    DataMessageFilter::Command(data_command.to_owned())
}

/// The filter of a symbol-scoped feed: the data-command name, and the
/// payload's `symbol` field must hold the symbol.
pub fn symbol_scoped_filter(data_command: &str, symbol: &str) -> (r: DataMessageFilter)
    ensures
        r@ == FilterView::All(
            seq![
                FilterView::Command(data_command@),
                FilterView::FieldValue { name: "symbol"@, value: JsonView::Str(symbol@) },
            ],
        ),
{
    let mut parts: Vec<DataMessageFilter> = Vec::new();
    parts.push(DataMessageFilter::Command(data_command.to_owned()));
    parts.push(
        DataMessageFilter::FieldValue {
            name: "symbol".to_owned(),
            value: JsonValue::Str(symbol.to_owned()),
        },
    );
    let r = DataMessageFilter::All(parts);
    proof {
        crate::stream_connection::lemma_filters_view(r->All_0@);
        assert(r@->All_0 =~= seq![
            FilterView::Command(data_command@),
            FilterView::FieldValue { name: "symbol"@, value: JsonView::Str(symbol@) },
        ]);
    }
    r
}

/// The map that a subscription table's entries stand for: key to
/// consumer count.
pub open spec fn counts_map(s: Seq<(String, u64)>) -> Map<Seq<char>, u64>
    decreases s.len(),
{
    if s.len() == 0 {
        Map::empty()
    } else {
        counts_map(s.drop_last()).insert(s.last().0@, s.last().1)
    }
}

/// No two entries share a key.
pub open spec fn keys_unique(s: Seq<(String, u64)>) -> bool {
    forall|i: int, j: int| 0 <= i < j < s.len() ==> s[i].0@ != s[j].0@
}

/// Every held subscription has at least one consumer.
pub open spec fn counts_positive(s: Seq<(String, u64)>) -> bool {
    forall|j: int| 0 <= j < s.len() ==> s[j].1 >= 1
}

proof fn lemma_counts_map_at(s: Seq<(String, u64)>, i: int)
    requires
        keys_unique(s),
        0 <= i < s.len(),
    ensures
        counts_map(s).contains_key(s[i].0@),
        counts_map(s)[s[i].0@] == s[i].1,
    decreases s.len(),
{
    if i < s.len() - 1 {
        lemma_counts_map_at(s.drop_last(), i);
    }
}

proof fn lemma_counts_map_absent(s: Seq<(String, u64)>, k: Seq<char>)
    requires
        forall|j: int| 0 <= j < s.len() ==> s[j].0@ != k,
    ensures
        !counts_map(s).contains_key(k),
    decreases s.len(),
{
    if s.len() > 0 {
        lemma_counts_map_absent(s.drop_last(), k);
    }
}

proof fn lemma_counts_map_push(s: Seq<(String, u64)>, p: (String, u64))
    ensures
        counts_map(s.push(p)) == counts_map(s).insert(p.0@, p.1),
{
    assert(s.push(p).drop_last() =~= s);
    assert(s.push(p).last() == p);
}

proof fn lemma_counts_map_remove(s: Seq<(String, u64)>, i: int)
    requires
        keys_unique(s),
        0 <= i < s.len(),
    ensures
        counts_map(s.remove(i)) == counts_map(s).remove(s[i].0@),
    decreases s.len(),
{
    let k = s[i].0@;
    if i == s.len() - 1 {
        assert(s.remove(i) =~= s.drop_last());
        assert(forall|j: int| 0 <= j < s.drop_last().len() ==> s.drop_last()[j].0@ != k);
        lemma_counts_map_absent(s.drop_last(), k);
        assert(counts_map(s.drop_last()).insert(k, s[i].1).remove(k) =~= counts_map(s.drop_last()));
    } else {
        lemma_counts_map_remove(s.drop_last(), i);
        assert(s.remove(i).drop_last() =~= s.drop_last().remove(i));
        assert(s.remove(i).last() == s.last());
        let k_last = s.last().0@;
        assert(k != k_last);
        assert(counts_map(s.drop_last()).remove(k).insert(k_last, s.last().1) =~= counts_map(
            s.drop_last(),
        ).insert(k_last, s.last().1).remove(k));
    }
}

/// The consumer count of a key, zero where the key is unknown.
pub open spec fn count_of(m: Map<Seq<char>, u64>, key: Seq<char>) -> int {
    if m.contains_key(key) {
        m[key] as int
    } else {
        0
    }
}

/// A subscribe raises the key's count by one.
pub open spec fn spec_subscribe(m: Map<Seq<char>, u64>, key: Seq<char>) -> Map<Seq<char>, u64> {
    m.insert(key, (count_of(m, key) + 1) as u64)
}

/// An unsubscribe lowers the key's count by one and collects the entry
/// when no consumer is left.
pub open spec fn spec_unsubscribe(m: Map<Seq<char>, u64>, key: Seq<char>) -> Map<Seq<char>, u64> {
    if count_of(m, key) <= 1 {
        m.remove(key)
    } else {
        m.insert(key, (count_of(m, key) - 1) as u64)
    }
}

/// The subscription bookkeeping shared by every stream consumer:
/// de-duplicates subscriptions by key and counts the consumers of each.
#[derive(Debug)]
pub struct StreamManager {
    subscriptions: Vec<(String, u64)>,
}

impl StreamManager {
    /// The key-to-count map this table stands for.
    pub closed spec fn subscriptions(&self) -> Map<Seq<char>, u64> {
        counts_map(self.subscriptions@)
    }

    /// Each key appears at most once, with at least one consumer.
    pub closed spec fn wf(&self) -> bool {
        keys_unique(self.subscriptions@) && counts_positive(self.subscriptions@)
    }

    /// An empty table: no subscription is held.
    pub fn new() -> (r: StreamManager)
        ensures
            r.wf(),
            r.subscriptions() == Map::<Seq<char>, u64>::empty(),
    {
        StreamManager { subscriptions: Vec::new() }
    }

    /// Record one more consumer of a key.
    ///
    /// Returns whether a subscribe frame must be sent: only the first
    /// consumer of an unseen key causes one; a known key only raises
    /// the count, and no duplicate server subscribe is sent.
    #[verifier::loop_isolation(false)]
    pub fn subscribe(&mut self, subscription_key: &str) -> (send_subscribe: bool)
        requires
            old(self).wf(),
            count_of(old(self).subscriptions(), subscription_key@) < u64::MAX,
        ensures
            final(self).wf(),
            final(self).subscriptions() == spec_subscribe(
                old(self).subscriptions(),
                subscription_key@,
            ),
            send_subscribe == (count_of(old(self).subscriptions(), subscription_key@) == 0),
    {
        let ghost orig = self.subscriptions@;
        let mut i: usize = 0;
        while i < self.subscriptions.len()
            invariant
                i <= self.subscriptions@.len(),
                self.subscriptions@ == orig,
                forall|j: int| 0 <= j < i ==> self.subscriptions@[j].0@ != subscription_key@,
            decreases self.subscriptions@.len() - i,
        {
            if str_eq(self.subscriptions[i].0.as_str(), subscription_key) {
                proof {
                    lemma_counts_map_at(orig, i as int);
                }
                let pair = self.subscriptions.remove(i);
                proof {
                    lemma_counts_map_remove(orig, i as int);
                }
                let count = pair.1;
                self.subscriptions.push((pair.0, count + 1));
                proof {
                    lemma_counts_map_push(orig.remove(i as int), (pair.0, (count + 1) as u64));
                    assert forall|a: int, b: int|
                        0 <= a < b < self.subscriptions@.len() implies self.subscriptions@[a].0@
                        != self.subscriptions@[b].0@ by {
                        if b < self.subscriptions@.len() - 1 {
                            assert(self.subscriptions@[a] == orig.remove(i as int)[a]);
                            assert(self.subscriptions@[b] == orig.remove(i as int)[b]);
                        } else {
                            assert(self.subscriptions@[b].0@ == subscription_key@);
                            let a_orig: int = if a < i { a } else { a + 1 };
                            assert(self.subscriptions@[a] == orig[a_orig]);
                        }
                    }
                    assert(counts_map(self.subscriptions@) =~= spec_subscribe(
                        counts_map(orig),
                        subscription_key@,
                    ));
                }
                return false;
            }
            i += 1;
        }
        let owned_key = subscription_key.to_owned();
        proof {
            lemma_counts_map_absent(orig, subscription_key@);
            lemma_counts_map_push(orig, (owned_key, 1u64));
        }
        self.subscriptions.push((owned_key, 1));
        proof {
            assert(counts_map(self.subscriptions@) =~= spec_subscribe(
                counts_map(orig),
                subscription_key@,
            ));
        }
        true
    }

    /// Record the departure of one consumer of a key.
    ///
    /// Returns whether an unsubscribe frame must be sent: only the
    /// departure of the last consumer causes one, and the entry is
    /// then collected.
    #[verifier::loop_isolation(false)]
    pub fn unsubscribe(&mut self, subscription_key: &str) -> (send_unsubscribe: bool)
        requires
            old(self).wf(),
        ensures
            final(self).wf(),
            final(self).subscriptions() == spec_unsubscribe(
                old(self).subscriptions(),
                subscription_key@,
            ),
            send_unsubscribe == (count_of(old(self).subscriptions(), subscription_key@) <= 1),
    {
        let ghost orig = self.subscriptions@;
        let mut i: usize = 0;
        while i < self.subscriptions.len()
            invariant
                i <= self.subscriptions@.len(),
                self.subscriptions@ == orig,
                forall|j: int| 0 <= j < i ==> self.subscriptions@[j].0@ != subscription_key@,
            decreases self.subscriptions@.len() - i,
        {
            if str_eq(self.subscriptions[i].0.as_str(), subscription_key) {
                proof {
                    lemma_counts_map_at(orig, i as int);
                }
                let count = self.subscriptions[i].1;
                if count <= 1 {
                    self.subscriptions.remove(i);
                    proof {
                        lemma_counts_map_remove(orig, i as int);
                    }
                    return true;
                }
                let pair = self.subscriptions.remove(i);
                proof {
                    lemma_counts_map_remove(orig, i as int);
                }
                self.subscriptions.push((pair.0, count - 1));
                proof {
                    lemma_counts_map_push(orig.remove(i as int), (pair.0, (count - 1) as u64));
                    assert forall|a: int, b: int|
                        0 <= a < b < self.subscriptions@.len() implies self.subscriptions@[a].0@
                        != self.subscriptions@[b].0@ by {
                        if b < self.subscriptions@.len() - 1 {
                            assert(self.subscriptions@[a] == orig.remove(i as int)[a]);
                            assert(self.subscriptions@[b] == orig.remove(i as int)[b]);
                        } else {
                            assert(self.subscriptions@[b].0@ == subscription_key@);
                            let a_orig: int = if a < i { a } else { a + 1 };
                            assert(self.subscriptions@[a] == orig[a_orig]);
                        }
                    }
                    assert(counts_map(self.subscriptions@) =~= spec_unsubscribe(
                        counts_map(orig),
                        subscription_key@,
                    ));
                }
                return false;
            }
            i += 1;
        }
        proof {
            lemma_counts_map_absent(orig, subscription_key@);
            assert(counts_map(orig).remove(subscription_key@) =~= counts_map(orig));
        }
        true
    }
}

/// Two subscribes of one key cause exactly one subscribe frame — on
/// the first call — and the two matching departures cause exactly one
/// unsubscribe frame, on the second departure; the table is then as it
/// was.
pub proof fn lemma_subscription_lifecycle(m: Map<Seq<char>, u64>, key: Seq<char>)
    requires
        !m.contains_key(key),
    ensures
        ({
            let m1 = spec_subscribe(m, key);
            let m2 = spec_subscribe(m1, key);
            let m3 = spec_unsubscribe(m2, key);
            let m4 = spec_unsubscribe(m3, key);
            count_of(m, key) == 0 && count_of(m1, key) == 1 && count_of(m2, key) == 2 && count_of(
                m3,
                key,
            ) == 1 && m4 == m
        }),
{
    let m1 = spec_subscribe(m, key);
    let m2 = spec_subscribe(m1, key);
    let m3 = spec_unsubscribe(m2, key);
    let m4 = spec_unsubscribe(m3, key);
    assert(m4 =~= m);
}

} // verus!
