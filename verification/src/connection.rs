//! The command channel's verified core: tag generation, request
//! building, and the correlation table that routes each response to
//! the caller that sent the request.
//!
//! The table maps a tag to a single-assignment cell.  A cell is
//! created pending when a request is registered, fulfilled at most
//! once by the reader, consumed at most once by the caller, and leaves
//! the table when consumed.  The socket itself lives outside the
//! library; it hands every incoming text frame to
//! [`CommandChannelCore::handle_frame`].

use vstd::prelude::*;

use crate::json::json_of;
use crate::json::JsonValue;
use crate::message_processing::process_message;
use crate::message_processing::spec_classify;
use crate::message_processing::spec_message_tag;
use crate::message_processing::ProcessedMessage;
use crate::message_processing::ProcessedMessageView;
use crate::schema::messages::spec_normalize_arguments;
use crate::schema::messages::Request;
use crate::strutil::str_eq;
use crate::tags::tag_of;
use crate::tags::TagMaker;

verus! {

/// Failure on the command connection's send path.
#[derive(Debug)]
pub enum XtbConnectionError {
    /// The transport could not connect; carries the server address.
    CannotConnect(String),
    /// The request could not be written as a frame.
    SerializationError(String),
    /// The transport could not send the frame.
    CannotSendRequest(String),
}

/// The state shared between a pending caller and the reader: the
/// response cell, set at most once.
///
/// The wake-up side of the original cell is scheduler plumbing and
/// stays outside the library.
#[derive(Debug)]
pub struct ResponsePromiseState {
    /// Nothing while the response is pending; the delivered result
    /// once it is ready.
    pub result: Option<Result<ProcessedMessage, XtbConnectionError>>,
}

impl ResponsePromiseState {
    /// An empty, pending cell.
    pub fn new() -> (r: ResponsePromiseState)
        ensures
            r.result is None,
    {
        ResponsePromiseState { result: None }
    }

    /// Deliver the result into the cell.
    pub fn set_result(&mut self, result: Result<ProcessedMessage, XtbConnectionError>)
        ensures
            final(self).result == Some(result),
    {
        self.result = Some(result);
    }

    /// Consume the delivered result, leaving the cell pending.
    pub fn take_result(&mut self) -> (r: Option<Result<ProcessedMessage, XtbConnectionError>>)
        ensures
            r == old(self).result,
            final(self).result is None,
    {
        let mut out: Option<Result<ProcessedMessage, XtbConnectionError>> = None;
        core::mem::swap(&mut self.result, &mut out);
        out
    }
}

/// The spec image of one correlation cell: pending, or fulfilled with
/// the classified envelope.
pub open spec fn cell_view(c: Option<ProcessedMessage>) -> Option<ProcessedMessageView> {
    match c {
        Some(m) => Some(m@),
        None => None,
    }
}

/// The map that a correlation table's entries stand for.
pub open spec fn entries_map(s: Seq<(String, Option<ProcessedMessage>)>) -> Map<
    Seq<char>,
    Option<ProcessedMessageView>,
>
    decreases s.len(),
{
    if s.len() == 0 {
        Map::empty()
    } else {
        entries_map(s.drop_last()).insert(s.last().0@, cell_view(s.last().1))
    }
}

/// No two entries share a tag.
pub open spec fn tags_unique(s: Seq<(String, Option<ProcessedMessage>)>) -> bool {
    forall|i: int, j: int| 0 <= i < j < s.len() ==> s[i].0@ != s[j].0@
}

proof fn lemma_entries_map_at(s: Seq<(String, Option<ProcessedMessage>)>, i: int)
    requires
        tags_unique(s),
        0 <= i < s.len(),
    ensures
        entries_map(s).contains_key(s[i].0@),
        entries_map(s)[s[i].0@] == cell_view(s[i].1),
    decreases s.len(),
{
    if i < s.len() - 1 {
        lemma_entries_map_at(s.drop_last(), i);
    }
}

proof fn lemma_entries_map_absent(s: Seq<(String, Option<ProcessedMessage>)>, k: Seq<char>)
    requires
        forall|j: int| 0 <= j < s.len() ==> s[j].0@ != k,
    ensures
        !entries_map(s).contains_key(k),
    decreases s.len(),
{
    if s.len() > 0 {
        lemma_entries_map_absent(s.drop_last(), k);
    }
}

proof fn lemma_entries_map_push(
    s: Seq<(String, Option<ProcessedMessage>)>,
    p: (String, Option<ProcessedMessage>),
)
    ensures
        entries_map(s.push(p)) == entries_map(s).insert(p.0@, cell_view(p.1)),
{
    assert(s.push(p).drop_last() =~= s);
    assert(s.push(p).last() == p);
}

proof fn lemma_entries_map_remove(s: Seq<(String, Option<ProcessedMessage>)>, i: int)
    requires
        tags_unique(s),
        0 <= i < s.len(),
    ensures
        entries_map(s.remove(i)) == entries_map(s).remove(s[i].0@),
    decreases s.len(),
{
    let k = s[i].0@;
    if i == s.len() - 1 {
        assert(s.remove(i) =~= s.drop_last());
        assert(forall|j: int| 0 <= j < s.drop_last().len() ==> s.drop_last()[j].0@ != k);
        lemma_entries_map_absent(s.drop_last(), k);
        assert(entries_map(s.drop_last()).insert(k, cell_view(s[i].1)).remove(k)
            =~= entries_map(s.drop_last()));
    } else {
        lemma_entries_map_remove(s.drop_last(), i);
        assert(s.remove(i).drop_last() =~= s.drop_last().remove(i));
        assert(s.remove(i).last() == s.last());
        let k_last = s.last().0@;
        assert(k != k_last);
        assert(entries_map(s.drop_last()).remove(k).insert(k_last, cell_view(s.last().1))
            =~= entries_map(s.drop_last()).insert(k_last, cell_view(s.last().1)).remove(k));
    }
}

/// Registering a tag adds a pending cell.
pub open spec fn spec_register(
    m: Map<Seq<char>, Option<ProcessedMessageView>>,
    tag: Seq<char>,
) -> Map<Seq<char>, Option<ProcessedMessageView>> {
    m.insert(tag, None)
}

/// Fulfilling delivers into the pending cell of that tag, and changes
/// nothing when no such cell is pending: an undeliverable response is
/// discarded, not an error.
pub open spec fn spec_fulfill(
    m: Map<Seq<char>, Option<ProcessedMessageView>>,
    tag: Seq<char>,
    msg: ProcessedMessageView,
) -> Map<Seq<char>, Option<ProcessedMessageView>> {
    if m.contains_key(tag) && m[tag] is None {
        m.insert(tag, Some(msg))
    } else {
        m
    }
}

/// Consuming removes the fulfilled cell; a pending or absent cell is
/// left alone.
pub open spec fn spec_take(
    m: Map<Seq<char>, Option<ProcessedMessageView>>,
    tag: Seq<char>,
) -> Map<Seq<char>, Option<ProcessedMessageView>> {
    if m.contains_key(tag) && m[tag] is Some {
        m.remove(tag)
    } else {
        m
    }
}

/// The correlation table: tag to single-assignment cell.
#[derive(Debug)]
pub struct Correlator {
    entries: Vec<(String, Option<ProcessedMessage>)>,
}

impl Correlator {
    /// The map this table stands for.
    pub closed spec fn table(&self) -> Map<Seq<char>, Option<ProcessedMessageView>> {
        entries_map(self.entries@)
    }

    /// Each tag appears at most once.
    pub closed spec fn wf(&self) -> bool {
        tags_unique(self.entries@)
    }

    /// An empty table.
    pub fn new() -> (r: Correlator)
        ensures
            r.wf(),
            r.table() == Map::<Seq<char>, Option<ProcessedMessageView>>::empty(),
    {
        Correlator { entries: Vec::new() }
    }

    /// Whether a tag has a cell.
    #[verifier::loop_isolation(false)]
    pub fn has_tag(&self, tag: &str) -> (r: bool)
        requires
            self.wf(),
        ensures
            r == self.table().contains_key(tag@),
    {
        let mut i: usize = 0;
        while i < self.entries.len()
            invariant
                i <= self.entries@.len(),
                forall|j: int| 0 <= j < i ==> self.entries@[j].0@ != tag@,
            decreases self.entries@.len() - i,
        {
            if str_eq(self.entries[i].0.as_str(), tag) {
                proof {
                    lemma_entries_map_at(self.entries@, i as int);
                }
                return true;
            }
            i += 1;
        }
        proof {
            lemma_entries_map_absent(self.entries@, tag@);
        }
        false
    }

    /// Create a pending cell for a fresh tag.
    pub fn register(&mut self, tag: String)
        requires
            old(self).wf(),
            !old(self).table().contains_key(tag@),
        ensures
            final(self).wf(),
            final(self).table() == spec_register(old(self).table(), tag@),
    {
        proof {
            if exists|j: int| 0 <= j < self.entries@.len() && self.entries@[j].0@ == tag@ {
                let j = choose|j: int|
                    0 <= j < self.entries@.len() && self.entries@[j].0@ == tag@;
                lemma_entries_map_at(self.entries@, j);
            }
            lemma_entries_map_push(self.entries@, (tag, None));
        }
        self.entries.push((tag, None));
    }

    /// Deliver a classified envelope to the pending cell of its tag.
    ///
    /// Returns whether the envelope was delivered; with no pending
    /// cell for the tag it is discarded and the table stands.
    #[verifier::loop_isolation(false)]
    pub fn fulfill(&mut self, tag: &str, message: ProcessedMessage) -> (delivered: bool)
        requires
            old(self).wf(),
        ensures
            final(self).wf(),
            delivered == (old(self).table().contains_key(tag@) && old(self).table()[tag@] is None),
            final(self).table() == spec_fulfill(old(self).table(), tag@, message@),
    {
        let ghost orig = self.entries@;
        let mut i: usize = 0;
        while i < self.entries.len()
            invariant
                i <= self.entries@.len(),
                self.entries@ == orig,
                forall|j: int| 0 <= j < i ==> self.entries@[j].0@ != tag@,
            decreases self.entries@.len() - i,
        {
            if str_eq(self.entries[i].0.as_str(), tag) {
                proof {
                    lemma_entries_map_at(orig, i as int);
                }
                match &self.entries[i].1 {
                    None => {
                        let pair = self.entries.remove(i);
                        proof {
                            lemma_entries_map_remove(orig, i as int);
                        }
                        self.entries.push((pair.0, Some(message)));
                        proof {
                            lemma_entries_map_push(orig.remove(i as int), (pair.0, Some(message)));
                            assert forall|a: int, b: int|
                                0 <= a < b < self.entries@.len() implies self.entries@[a].0@
                                != self.entries@[b].0@ by {
                                if b < self.entries@.len() - 1 {
                                    assert(self.entries@[a] == orig.remove(i as int)[a]);
                                    assert(self.entries@[b] == orig.remove(i as int)[b]);
                                } else {
                                    assert(self.entries@[b].0@ == tag@);
                                    let a_orig: int = if a < i { a } else { a + 1 };
                                    assert(self.entries@[a] == orig[a_orig]);
                                }
                            }
                            assert(entries_map(self.entries@) =~= spec_fulfill(
                                entries_map(orig),
                                tag@,
                                message@,
                            ));
                        }
                        return true;
                    },
                    Some(_) => {
                        return false;
                    },
                }
            }
            i += 1;
        }
        proof {
            lemma_entries_map_absent(orig, tag@);
        }
        false
    }

    /// Consume the fulfilled envelope of a tag, removing its cell.
    #[verifier::loop_isolation(false)]
    pub fn take(&mut self, tag: &str) -> (r: Option<ProcessedMessage>)
        requires
            old(self).wf(),
        ensures
            final(self).wf(),
            final(self).table() == spec_take(old(self).table(), tag@),
            match r {
                Some(m) => old(self).table().contains_key(tag@) && old(self).table()[tag@]
                    == Some(m@),
                None => !(old(self).table().contains_key(tag@) && old(self).table()[tag@] is Some),
            },
    {
        let ghost orig = self.entries@;
        let mut i: usize = 0;
        while i < self.entries.len()
            invariant
                i <= self.entries@.len(),
                self.entries@ == orig,
                forall|j: int| 0 <= j < i ==> self.entries@[j].0@ != tag@,
            decreases self.entries@.len() - i,
        {
            if str_eq(self.entries[i].0.as_str(), tag) {
                proof {
                    lemma_entries_map_at(orig, i as int);
                }
                match &self.entries[i].1 {
                    Some(_) => {
                        let pair = self.entries.remove(i);
                        proof {
                            lemma_entries_map_remove(orig, i as int);
                        }
                        return pair.1;
                    },
                    None => {
                        return None;
                    },
                }
            }
            i += 1;
        }
        proof {
            lemma_entries_map_absent(orig, tag@);
        }
        None
    }
}

impl Correlator {
    /// Drop a tag's cell without consuming it: the collection path for
    /// a caller that stopped waiting, so an abandoned correlation does
    /// not sit in the table forever.
    #[verifier::loop_isolation(false)]
    pub fn forget(&mut self, tag: &str)
        requires
            old(self).wf(),
        ensures
            final(self).wf(),
            final(self).table() == old(self).table().remove(tag@),
    {
        let ghost orig = self.entries@;
        let mut i: usize = 0;
        while i < self.entries.len()
            invariant
                i <= self.entries@.len(),
                self.entries@ == orig,
                forall|j: int| 0 <= j < i ==> self.entries@[j].0@ != tag@,
            decreases self.entries@.len() - i,
        {
            if str_eq(self.entries[i].0.as_str(), tag) {
                self.entries.remove(i);
                proof {
                    lemma_entries_map_remove(orig, i as int);
                }
                return ;
            }
            i += 1;
        }
        proof {
            lemma_entries_map_absent(orig, tag@);
            assert(entries_map(orig).remove(tag@) =~= entries_map(orig));
        }
    }
}

/// What became of one incoming frame.
#[derive(Clone, Copy, Debug, PartialEq, Eq, Structural)]
pub enum FrameOutcome {
    /// The frame was classified and delivered to its pending caller.
    Delivered,
    /// The frame was classified but carries no tag; it cannot be
    /// routed and is dropped.
    NoTag,
    /// The frame carries a tag with no pending cell; it is dropped.
    NoPendingCall,
    /// The frame could not be classified; the reader goes on.
    Rejected,
}

/// How one frame changes the correlation table: a frame that parses,
/// classifies and carries a tag fulfills that tag's pending cell;
/// every other frame leaves the table standing.
pub open spec fn spec_route(
    m: Map<Seq<char>, Option<ProcessedMessageView>>,
    s: Seq<char>,
) -> Map<Seq<char>, Option<ProcessedMessageView>> {
    match json_of(s) {
        None => m,
        Some(jv) => match spec_classify(jv) {
            Err(_) => m,
            Ok(pm) => match spec_message_tag(pm) {
                None => m,
                Some(t) => spec_fulfill(m, t, pm),
            },
        },
    }
}

/// The outcome that one frame must have: delivery only where the
/// frame classifies, carries a tag, and a call is pending under it.
pub open spec fn spec_frame_outcome(
    m: Map<Seq<char>, Option<ProcessedMessageView>>,
    s: Seq<char>,
) -> FrameOutcome {
    match json_of(s) {
        None => FrameOutcome::Rejected,
        Some(jv) => match spec_classify(jv) {
            Err(_) => FrameOutcome::Rejected,
            Ok(pm) => match spec_message_tag(pm) {
                None => FrameOutcome::NoTag,
                Some(t) => if m.contains_key(t) && m[t] is None {
                    FrameOutcome::Delivered
                } else {
                    FrameOutcome::NoPendingCall
                },
            },
        },
    }
}

/// The verified state of one command connection: the tag series and
/// the correlation table.
#[derive(Debug)]
pub struct CommandChannelCore {
    tag_maker: TagMaker,
    correlator: Correlator,
}

impl CommandChannelCore {
    /// The correlation table.
    pub closed spec fn table(&self) -> Map<Seq<char>, Option<ProcessedMessageView>> {
        self.correlator.table()
    }

    /// How many tags have been handed out.
    pub closed spec fn issued(&self) -> nat {
        self.tag_maker.issued()
    }

    /// Tags are unique in the table.
    pub closed spec fn wf(&self) -> bool {
        self.correlator.wf()
    }

    /// A fresh connection core: no tags issued, nothing pending.
    pub fn new() -> (r: CommandChannelCore)
        ensures
            r.wf(),
            r.issued() == 0,
            r.table() == Map::<Seq<char>, Option<ProcessedMessageView>>::empty(),
    {
        CommandChannelCore { tag_maker: TagMaker::new(), correlator: Correlator::new() }
    }

    /// Build the tagged request for a command.
    ///
    /// A null payload is dropped, as an absent one.  The returned tag
    /// is the one the request carries; nothing is registered yet, so a
    /// failed send leaves no dangling entry.
    pub fn build_request(&mut self, command: &str, payload: Option<JsonValue>) -> (r: (
        Request,
        String,
    ))
        requires
            old(self).wf(),
            old(self).issued() < u64::MAX,
            match payload {
                Some(p) => p@ is Obj || p@ is Null,
                None => true,
            },
        ensures
            final(self).wf(),
            final(self).issued() == old(self).issued() + 1,
            final(self).table() == old(self).table(),
            r.1@ == tag_of(old(self).issued() + 1),
            r.0@.command == command@,
            r.0@.custom_tag == Some(r.1@),
            r.0@.arguments == spec_normalize_arguments(
                crate::schema::messages::opt_json(payload),
            ),
    {
        let tag = self.tag_maker.next();
        let request = Request::default().with_command(command).with_maybe_arguments(
            payload,
        ).with_custom_tag(tag.as_str());
        (request, tag)
    }

    /// Whether a tag has a cell in the table.
    pub fn has_tag(&self, tag: &str) -> (r: bool)
        requires
            self.wf(),
        ensures
            r == self.table().contains_key(tag@),
    {
        self.correlator.has_tag(tag)
    }

    /// Register a correlation after the request's frame was written.
    pub fn register(&mut self, tag: String)
        requires
            old(self).wf(),
            !old(self).table().contains_key(tag@),
        ensures
            final(self).wf(),
            final(self).issued() == old(self).issued(),
            final(self).table() == spec_register(old(self).table(), tag@),
    {
        self.correlator.register(tag);
    }

    /// Consume the response delivered for a tag.
    pub fn take(&mut self, tag: &str) -> (r: Option<ProcessedMessage>)
        requires
            old(self).wf(),
        ensures
            final(self).wf(),
            final(self).issued() == old(self).issued(),
            final(self).table() == spec_take(old(self).table(), tag@),
            match r {
                Some(m) => old(self).table().contains_key(tag@) && old(self).table()[tag@]
                    == Some(m@),
                None => !(old(self).table().contains_key(tag@) && old(self).table()[tag@] is Some),
            },
    {
        self.correlator.take(tag)
    }

    /// Drop the correlation of a tag whose caller stopped waiting.
    pub fn forget(&mut self, tag: &str)
        requires
            old(self).wf(),
        ensures
            final(self).wf(),
            final(self).issued() == old(self).issued(),
            final(self).table() == old(self).table().remove(tag@),
    {
        self.correlator.forget(tag);
    }

    /// One step of the reader loop: parse, classify and route a frame.
    ///
    /// A frame that cannot be classified, carries no tag, or matches
    /// no pending call leaves the table standing — one bad frame never
    /// stops the reader.
    pub fn handle_frame(&mut self, text: &str) -> (r: FrameOutcome)
        requires
            old(self).wf(),
        ensures
            final(self).wf(),
            final(self).issued() == old(self).issued(),
            final(self).table() == spec_route(old(self).table(), text@),
            r == spec_frame_outcome(old(self).table(), text@),
    {
        let message = match process_message(text) {
            Ok(m) => m,
            Err(_) => {
                return FrameOutcome::Rejected;
            },
        };
        let tag = match message.tag() {
            Some(t) => t.clone(),
            None => {
                return FrameOutcome::NoTag;
            },
        };
        if self.correlator.fulfill(tag.as_str(), message) {
            FrameOutcome::Delivered
        } else {
            FrameOutcome::NoPendingCall
        }
    }
}

/// Responses fulfilled in either order reach their own callers: with
/// two pending tags, delivering the second tag's response and then the
/// first's lets each take give back exactly the response of its own
/// tag, never the other one.
pub proof fn lemma_correlations_independent(
    m: Map<Seq<char>, Option<ProcessedMessageView>>,
    tag_a: Seq<char>,
    tag_b: Seq<char>,
    msg_a: ProcessedMessageView,
    msg_b: ProcessedMessageView,
)
    requires
        tag_a != tag_b,
    ensures
        ({
            let pending = spec_register(spec_register(m, tag_a), tag_b);
            let routed = spec_fulfill(spec_fulfill(pending, tag_b, msg_b), tag_a, msg_a);
            routed[tag_a] == Some(msg_a) && routed[tag_b] == Some(msg_b)
        }),
{
}

/// A frame that does not parse leaves every correlation standing, so
/// the well-formed frame after it is still delivered to its own
/// pending call.
pub proof fn lemma_bad_frame_keeps_correlations(
    m: Map<Seq<char>, Option<ProcessedMessageView>>,
    bad: Seq<char>,
    good: Seq<char>,
)
    requires
        json_of(bad) is None,
    ensures
        spec_route(m, bad) == m,
        spec_route(spec_route(m, bad), good) == spec_route(m, good),
{
}

} // verus!
