//! The shared state of a streamed chat reply, and how each event of the
//! stream changes it.

use vstd::prelude::*;
use vstd::string::StringExecFns;
use crate::provider::{ChatResponse, ChatResponseView, opt_text};

verus! {

/// What a streamed reply has produced so far: the conversation it answers,
/// the text received, whether the stream is over, and the error that ended it.
#[derive(Debug)]
pub struct StreamState {
    pub conversation_id: Option<u128>,
    pub response: String,
    pub done: bool,
    pub error: Option<String>,
}

/// The state of a streamed reply as plain values.
pub struct StreamStateView {
    pub conversation_id: Option<u128>,
    pub response: Seq<char>,
    pub done: bool,
    pub error: Option<Seq<char>>,
}

impl View for StreamState {
    type V = StreamStateView;

    open spec fn view(&self) -> StreamStateView {
        StreamStateView {
            conversation_id: self.conversation_id,
            response: self.response@,
            done: self.done,
            error: opt_text(self.error),
        }
    }
}

/// The state when no reply is being streamed.
pub open spec fn idle_stream() -> StreamStateView {
    StreamStateView { conversation_id: None, response: Seq::empty(), done: false, error: None }
}

/// The state when a reply to the conversation `id` has begun.
pub open spec fn begun_stream(id: u128) -> StreamStateView {
    StreamStateView { conversation_id: Some(id), response: Seq::empty(), done: false, error: None }
}

impl Default for StreamState {
    fn default() -> (res: Self)
        ensures
            res@ == idle_stream(),
    {
        StreamState { conversation_id: None, response: String::new(), done: false, error: None }
    }
}

/// An event of a reply stream: a reply arrived, the stream failed with a
/// message, or the stream ran out.
#[derive(Debug)]
pub enum StreamEvent {
    Reply(ChatResponse),
    Failed(String),
    Ended,
}

/// An event of a reply stream as plain values.
pub enum StreamEventView {
    Reply(ChatResponseView),
    Failed(Seq<char>),
    Ended,
}

impl View for StreamEvent {
    type V = StreamEventView;

    open spec fn view(&self) -> StreamEventView {
        match self {
            StreamEvent::Reply(r) => StreamEventView::Reply(r@),
            StreamEvent::Failed(e) => StreamEventView::Failed(e@),
            StreamEvent::Ended => StreamEventView::Ended,
        }
    }
}

/// The text a reply adds: the content of its message, if it has one.
pub open spec fn reply_text(r: ChatResponseView) -> Seq<char> {
    match r.message {
        Some(m) => m.content,
        None => Seq::empty(),
    }
}

/// How an event changes the shared state and the text gathered so far, and
/// whether the stream is to be read no further:
/// - a reply adds its text; the state then shows all the text gathered, and
///   the stream is over when the reply says it is done;
/// - a failure records its message and ends the stream, the text shown being
///   left as it was;
/// - the end of the stream shows all the text gathered and ends it.
pub open spec fn stream_step(
    s: StreamStateView,
    output: Seq<char>,
    e: StreamEventView,
) -> (StreamStateView, Seq<char>, bool) {
    match e {
        StreamEventView::Reply(r) => {
            let out = output + reply_text(r);
            if r.done {
                (StreamStateView { response: out, done: true, ..s }, out, true)
            } else {
                (StreamStateView { response: out, ..s }, out, false)
            }
        },
        StreamEventView::Failed(msg) => (
            StreamStateView { error: Some(msg), done: true, ..s },
            output,
            true,
        ),
        StreamEventView::Ended => (StreamStateView { response: output, done: true, ..s }, output, true),
    }
}

impl StreamState {
    /// Starts a reply to the conversation `conversation_id`: nothing received,
    /// not done, no error.
    pub fn begin(&mut self, conversation_id: u128)
        ensures
            final(self)@ == begun_stream(conversation_id),
    {
        self.conversation_id = Some(conversation_id);
        self.response = String::new();
        self.done = false;
        self.error = None;
    }

    /// Takes one event of the stream into the state, `output` holding the
    /// text gathered so far; returns whether the stream is to be read no
    /// further.
    pub fn step(&mut self, output: &mut String, event: StreamEvent) -> (stop: bool)
        ensures
            (final(self)@, final(output)@, stop) == stream_step(old(self)@, old(output)@, event@),
    {
        match event {
            StreamEvent::Reply(reply) => {
                match &reply.message {
                    Some(m) => output.append(m.content.as_str()),
                    None => {},
                }
                self.response = output.clone();
                if reply.done {
                    self.done = true;
                    true
                } else {
                    false
                }
            },
            StreamEvent::Failed(message) => {
                self.error = Some(message);
                self.done = true;
                true
            },
            StreamEvent::Ended => {
                self.response = output.clone();
                self.done = true;
                true
            },
        }
    }
}

/// The text of a sequence of replies, in order.
pub open spec fn replies_text(rs: Seq<ChatResponseView>) -> Seq<char>
    decreases rs.len(),
{
    if rs.len() == 0 {
        Seq::empty()
    } else {
        reply_text(rs[0]) + replies_text(rs.drop_first())
    }
}

/// Reading events one after another until one ends the stream: the state,
/// the text gathered, and whether the stream ended.
pub open spec fn run_stream(
    s: StreamStateView,
    output: Seq<char>,
    es: Seq<StreamEventView>,
) -> (StreamStateView, Seq<char>, bool)
    decreases es.len(),
{
    if es.len() == 0 {
        (s, output, false)
    } else {
        let (s1, o1, stop) = stream_step(s, output, es[0]);
        if stop {
            (s1, o1, true)
        } else {
            run_stream(s1, o1, es.drop_first())
        }
    }
}

/// The events of a stream that delivers the replies `rs` and then runs out.
pub open spec fn replies_then_end(rs: Seq<ChatResponseView>) -> Seq<StreamEventView> {
    rs.map_values(|r: ChatResponseView| StreamEventView::Reply(r)).push(StreamEventView::Ended)
}

/// A stream that delivers replies none of which says it is done, and then
/// runs out, ends with all their text, in order, added to what was gathered
/// before; nothing else of the state changes but that it is over.
pub proof fn law_stream_gathers_replies(s: StreamStateView, output: Seq<char>, rs: Seq<ChatResponseView>)
    requires
        forall|i: int| 0 <= i < rs.len() ==> !(#[trigger] rs[i]).done,
    ensures
        run_stream(s, output, replies_then_end(rs)) == (
            StreamStateView { response: output + replies_text(rs), done: true, ..s },
            output + replies_text(rs),
            true,
        ),
    decreases rs.len(),
{
    if rs.len() == 0 {
        assert(replies_then_end(rs) =~= seq![StreamEventView::Ended]);
        assert(output + replies_text(rs) =~= output);
    } else {
        let r = rs[0];
        let es = replies_then_end(rs);
        assert(es[0] == StreamEventView::Reply(r));
        assert(es.drop_first() =~= replies_then_end(rs.drop_first()));
        let out1 = output + reply_text(r);
        let s1 = StreamStateView { response: out1, ..s };
        assert(stream_step(s, output, es[0]) == (s1, out1, false));
        assert forall|i: int| 0 <= i < rs.drop_first().len() implies !(#[trigger] rs.drop_first()[i]).done by {
            assert(rs.drop_first()[i] == rs[i + 1]);
        }
        law_stream_gathers_replies(s1, out1, rs.drop_first());
        assert(out1 + replies_text(rs.drop_first()) =~= output + replies_text(rs));
    }
}

/// A reply adds exactly the content of its message, whatever it holds, to
/// the text gathered, or nothing where it has no message; the state then shows
/// all the text gathered. The stream is over exactly when the reply says it is
/// done; the conversation and any error stay as they were.
pub proof fn law_reply_appends_its_content(s: StreamStateView, output: Seq<char>, r: ChatResponseView)
    ensures
        ({
            let (s1, o1, stop) = stream_step(s, output, StreamEventView::Reply(r));
            &&& o1 == match r.message {
                Some(m) => output + m.content,
                None => output,
            }
            &&& s1.response == o1
            &&& stop == r.done
            &&& s1.done == (s.done || r.done)
            &&& s1.conversation_id == s.conversation_id
            &&& s1.error == s.error
        }),
{
    match r.message {
        Some(m) => {},
        None => {
            assert(output + Seq::<char>::empty() =~= output);
        },
    }
}

/// A failure ends the stream with its message as the error, and leaves the
/// text gathered and the text shown as they were.
pub proof fn law_failure_keeps_text(s: StreamStateView, output: Seq<char>, msg: Seq<char>)
    ensures
        ({
            let (s1, o1, stop) = stream_step(s, output, StreamEventView::Failed(msg));
            &&& stop
            &&& s1.done
            &&& s1.error == Some(msg)
            &&& s1.response == s.response
            &&& o1 == output
            &&& s1.conversation_id == s.conversation_id
        }),
{
}

/// The end of the stream shows all the text gathered and ends it, the error
/// and the conversation staying as they were.
pub proof fn law_end_shows_all_text(s: StreamStateView, output: Seq<char>)
    ensures
        ({
            let (s1, o1, stop) = stream_step(s, output, StreamEventView::Ended);
            &&& stop
            &&& s1.done
            &&& s1.response == output
            &&& o1 == output
            &&& s1.error == s.error
            &&& s1.conversation_id == s.conversation_id
        }),
{
}

/// Beginning a reply to the conversation `id` starts from nothing: no text,
/// not done, no error.
pub proof fn law_begin_starts_empty(id: u128)
    ensures
        begun_stream(id).conversation_id == Some(id),
        begun_stream(id).response.len() == 0,
        !begun_stream(id).done,
        begun_stream(id).error is None,
        idle_stream().conversation_id is None,
        idle_stream().response.len() == 0,
        !idle_stream().done,
        idle_stream().error is None,
{
}

} // verus!
