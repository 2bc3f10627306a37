//! The chat session behind the window: the conversations, which one is open,
//! the text being typed, and the reply being streamed, with what each action
//! of the user and each poll of the stream does to them. The window, the
//! storage and the server are driven from outside; the functions here decide.

use vstd::prelude::*;
use vstd::string::StringExecFns;
use std::collections::HashMap;
use crate::ids::{is_random_uuid, new_id};
use crate::models::{
    Conversation, ConversationView, Message, MessageView, fresh_conversation, message_spec,
    message_views,
};
use crate::provider::{self, ChatRequest, ChatRequestView, chat_message_views};
use crate::stream::{StreamState, StreamStateView, idle_stream};
use crate::text::{blank, is_blank};
use crate::time::{Timestamp, clock_reading};

verus! {

/// The views of a sequence of conversations.
pub open spec fn conversation_views(cs: Seq<Conversation>) -> Seq<ConversationView> {
    cs.map_values(|c: Conversation| c@)
}

/// Whether `i` is the first position of the conversation `id`.
pub open spec fn first_position(cs: Seq<ConversationView>, id: u128, i: int) -> bool {
    &&& 0 <= i < cs.len()
    &&& cs[i].id == id
    &&& forall|j: int| 0 <= j < i ==> cs[j].id != id
}

/// The first position of the conversation `id`, or `None` where there is none.
pub open spec fn position_of(cs: Seq<ConversationView>, id: u128) -> Option<int> {
    if exists|i: int| 0 <= i < cs.len() && cs[i].id == id {
        Some(choose|i: int| first_position(cs, id, i))
    } else {
        None
    }
}

/// Where some position holds the conversation `id`, one of them is the first.
pub proof fn lemma_first_position_exists(cs: Seq<ConversationView>, id: u128, i: int)
    requires
        0 <= i < cs.len(),
        cs[i].id == id,
    ensures
        exists|k: int| first_position(cs, id, k),
    decreases i,
{
    if exists|j: int| 0 <= j < i && cs[j].id == id {
        let j = choose|j: int| 0 <= j < i && cs[j].id == id;
        lemma_first_position_exists(cs, id, j);
    } else {
        assert(first_position(cs, id, i));
    }
}

/// `position_of` is the first position of the conversation, or `None` where
/// no position holds it.
pub proof fn lemma_position_of(cs: Seq<ConversationView>, id: u128)
    ensures
        match position_of(cs, id) {
            Some(k) => first_position(cs, id, k),
            None => forall|j: int| 0 <= j < cs.len() ==> cs[j].id != id,
        },
{
    if exists|i: int| 0 <= i < cs.len() && cs[i].id == id {
        let i = choose|i: int| 0 <= i < cs.len() && cs[i].id == id;
        lemma_first_position_exists(cs, id, i);
    }
}

/// A conversation with one more message, last updated at `now`.
pub open spec fn with_message(c: ConversationView, m: MessageView, now: Timestamp) -> ConversationView {
    ConversationView { messages: c.messages.push(m), updated_at: now, ..c }
}

/// The messages of a conversation as a chat request carries them.
pub open spec fn request_messages(c: ConversationView) -> Seq<provider::MessageView> {
    c.messages.map_values(|m: MessageView| provider::MessageView { role: m.role, content: m.content })
}

/// The request that asks for the next reply in a conversation: its model and
/// all its messages, streamed, with no further option.
pub open spec fn request_for(c: ConversationView) -> ChatRequestView {
    ChatRequestView {
        model: c.model,
        messages: request_messages(c),
        stream: true,
        options: Map::empty(),
    }
}

/// A chat session as plain values.
pub struct SessionView {
    pub conversations: Seq<ConversationView>,
    pub current: Option<u128>,
    pub input: Seq<char>,
    pub streaming: Option<Seq<char>>,
}

/// What starting a chat hands back: the conversation it goes on and the
/// request to send.
pub struct ChatStart {
    pub conversation_id: u128,
    pub request: ChatRequest,
}

/// What starting a chat hands back, as plain values.
pub struct ChatStartView {
    pub conversation_id: u128,
    pub request: ChatRequestView,
}

impl View for ChatStart {
    type V = ChatStartView;

    open spec fn view(&self) -> ChatStartView {
        ChatStartView { conversation_id: self.conversation_id, request: self.request@ }
    }
}

/// The view of an optional chat start.
pub open spec fn start_view(o: Option<ChatStart>) -> Option<ChatStartView> {
    match o {
        Some(s) => Some(s@),
        None => None,
    }
}

/// Whether a chat can start: the input is not blank and no reply is being
/// streamed.
pub open spec fn can_start(s: SessionView) -> bool {
    !blank(s.input) && s.streaming is None
}

/// The session with a new conversation put first and opened.
pub open spec fn with_new_conversation(s: SessionView, c: ConversationView) -> SessionView {
    SessionView { conversations: seq![c] + s.conversations, current: Some(c.id), ..s }
}

/// The session in which a chat is about to go on: the open conversation, or,
/// where none is open, a new one (`id`, created at `now` with the default
/// model and system prompt) put first and opened.
pub open spec fn chat_target(
    s: SessionView,
    id: u128,
    now: Timestamp,
    model: Seq<char>,
    system_prompt: Seq<char>,
) -> SessionView {
    match s.current {
        Some(_) => s,
        None => with_new_conversation(s, fresh_conversation(id, now, model, system_prompt)),
    }
}

/// What sending the input does. Where a chat cannot start, nothing changes
/// and nothing is sent. Otherwise the chat goes on in the target conversation:
/// where it is found, the input becomes its last message (a `"user"` message
/// with the identifier `message_id`, at `now`), the input is cleared, an empty
/// reply starts streaming, and the request for the next reply is handed back;
/// where it is not found, only the choice of the target stands.
pub open spec fn start_chat_spec(
    s: SessionView,
    conversation_id: u128,
    message_id: u128,
    now: Timestamp,
    model: Seq<char>,
    system_prompt: Seq<char>,
) -> (SessionView, Option<ChatStartView>) {
    if !can_start(s) {
        (s, None)
    } else {
        let t = chat_target(s, conversation_id, now, model, system_prompt);
        let cid = t.current->0;
        match position_of(t.conversations, cid) {
            None => (t, None),
            Some(k) => {
                let c = with_message(
                    t.conversations[k],
                    message_spec(message_id, "user"@, s.input, now),
                    now,
                );
                (
                    SessionView {
                        conversations: t.conversations.update(k, c),
                        input: Seq::empty(),
                        streaming: Some(Seq::empty()),
                        ..t
                    },
                    Some(ChatStartView { conversation_id: cid, request: request_for(c) }),
                )
            },
        }
    }
}

/// The text that ends a streamed reply: the error, where the stream failed,
/// else all the text received.
pub open spec fn reply_content(st: StreamStateView) -> Seq<char> {
    match st.error {
        Some(e) => e,
        None => st.response,
    }
}

/// What a poll of the stream does. While no reply streams, nothing changes.
/// While one streams, the session shows the text received so far. Once the
/// stream is over, its text (or its error) becomes an `"assistant"` message
/// (identifier `message_id`, at `now`) at the end of the conversation it
/// answers, where that conversation is found; the reply stops streaming and
/// the stream state is cleared. The identifier of the conversation that
/// changed is handed back.
pub open spec fn poll_stream_spec(
    s: SessionView,
    st: StreamStateView,
    message_id: u128,
    now: Timestamp,
) -> (SessionView, StreamStateView, Option<u128>) {
    if s.streaming is None {
        (s, st, None)
    } else if !st.done {
        (SessionView { streaming: Some(st.response), ..s }, st, None)
    } else {
        let m = message_spec(message_id, "assistant"@, reply_content(st), now);
        match st.conversation_id {
            Some(cid) => match position_of(s.conversations, cid) {
                Some(k) => (
                    SessionView {
                        conversations: s.conversations.update(
                            k,
                            with_message(s.conversations[k], m, now),
                        ),
                        streaming: None,
                        ..s
                    },
                    idle_stream(),
                    Some(cid),
                ),
                None => (SessionView { streaming: None, ..s }, idle_stream(), None),
            },
            None => (SessionView { streaming: None, ..s }, idle_stream(), None),
        }
    }
}

/// What choosing a model does: the open conversation, where it is found,
/// takes the model and is last updated at `now`; its identifier is handed
/// back.
pub open spec fn select_model_spec(s: SessionView, name: Seq<char>, now: Timestamp) -> (
    SessionView,
    Option<u128>,
) {
    match s.current {
        Some(cid) => match position_of(s.conversations, cid) {
            Some(k) => {
                let c = s.conversations[k];
                (
                    SessionView {
                        conversations: s.conversations.update(
                            k,
                            ConversationView { model: name, updated_at: now, ..c },
                        ),
                        ..s
                    },
                    Some(cid),
                )
            },
            None => (s, None),
        },
        None => (s, None),
    }
}

/// Whether the model `name` is the one of the open conversation.
pub open spec fn model_selected(s: SessionView, name: Seq<char>) -> bool {
    match s.current {
        Some(cid) => match position_of(s.conversations, cid) {
            Some(k) => s.conversations[k].model == name,
            None => false,
        },
        None => false,
    }
}

/// The conversations, the one open, the text being typed and the reply being
/// streamed (`Some` exactly while a reply streams).
#[derive(Debug)]
pub struct ChatSession {
    pub conversations: Vec<Conversation>,
    pub current_conversation: Option<u128>,
    pub input_text: String,
    pub streaming_response: Option<String>,
}

impl View for ChatSession {
    type V = SessionView;

    open spec fn view(&self) -> SessionView {
        SessionView {
            conversations: conversation_views(self.conversations@),
            current: self.current_conversation,
            input: self.input_text@,
            streaming: crate::provider::opt_text(self.streaming_response),
        }
    }
}

/// The messages of a conversation as a chat request carries them.
pub fn chat_messages(messages: &Vec<Message>) -> (res: Vec<provider::Message>)
    ensures
        chat_message_views(res@) == message_views(messages@).map_values(
            |m: MessageView| provider::MessageView { role: m.role, content: m.content },
        ),
{
    let mut res: Vec<provider::Message> = Vec::new();
    let mut i: usize = 0;
    while i < messages.len()
        invariant
            i <= messages.len(),
            res.len() == i,
            forall|j: int|
                0 <= j < i ==> #[trigger] res@[j]@ == (provider::MessageView {
                    role: messages@[j].role@,
                    content: messages@[j].content@,
                }),
        decreases messages.len() - i,
    {
        let m = &messages[i];
        res.push(provider::Message { role: m.role.clone(), content: m.content.clone() });
        i = i + 1;
    }
    assert(chat_message_views(res@) =~= message_views(messages@).map_values(
        |m: MessageView| provider::MessageView { role: m.role, content: m.content },
    ));
    res
}

impl ChatSession {
    /// A session over stored conversations: none open, nothing typed, no
    /// reply streaming.
    pub fn new(conversations: Vec<Conversation>) -> (res: ChatSession)
        ensures
            res@ == (SessionView {
                conversations: conversation_views(conversations@),
                current: None,
                input: Seq::empty(),
                streaming: None,
            }),
    {
        ChatSession {
            conversations,
            current_conversation: None,
            input_text: String::new(),
            streaming_response: None,
        }
    }

    /// Whether a reply is being streamed.
    pub fn is_streaming(&self) -> (res: bool)
        ensures
            res == self@.streaming is Some,
    {
        self.streaming_response.is_some()
    }

    /// The first position of the conversation `id`.
    pub fn position(&self, id: u128) -> (res: Option<usize>)
        ensures
            match position_of(self@.conversations, id) {
                Some(k) => res == Some(k as usize),
                None => res is None,
            },
            res matches Some(k) ==> first_position(self@.conversations, id, k as int) && k
                < self.conversations.len(),
    {
        let ghost cs = self@.conversations;
        let mut i: usize = 0;
        while i < self.conversations.len()
            invariant
                i <= self.conversations.len(),
                cs == conversation_views(self.conversations@),
                forall|j: int| 0 <= j < i ==> cs[j].id != id,
            decreases self.conversations.len() - i,
        {
            if self.conversations[i].id == id {
                proof {
                    assert(cs[i as int].id == id);
                    assert(first_position(cs, id, i as int));
                    let k = choose|k: int| first_position(cs, id, k);
                    assert(first_position(cs, id, k));
                    assert(k == i) by {
                        if k < i {
                            assert(cs[k].id != id);
                        } else if k > i {
                            assert(cs[i as int].id != id);
                        }
                    }
                }
                return Some(i);
            }
            i = i + 1;
        }
        proof {
            assert forall|j: int| 0 <= j < cs.len() implies cs[j].id != id by {}
        }
        None
    }

    /// The conversation `id`, where there is one (the first, where there are
    /// several).
    pub fn conversation(&self, id: u128) -> (res: Option<&Conversation>)
        ensures
            match position_of(self@.conversations, id) {
                Some(k) => res matches Some(c) && c@ == self@.conversations[k],
                None => res is None,
            },
    {
        match self.position(id) {
            Some(k) => {
                assert(self@.conversations[k as int] == self.conversations@[k as int]@);
                Some(&self.conversations[k])
            },
            None => None,
        }
    }

    /// The open conversation, where one is open and found.
    pub fn current(&self) -> (res: Option<&Conversation>)
        ensures
            match self@.current {
                Some(cid) => match position_of(self@.conversations, cid) {
                    Some(k) => res matches Some(c) && c@ == self@.conversations[k],
                    None => res is None,
                },
                None => res is None,
            },
    {
        match self.current_conversation {
            Some(cid) => self.conversation(cid),
            None => None,
        }
    }

    /// Opens the conversation `id`.
    pub fn select_conversation(&mut self, id: u128)
        ensures
            final(self)@ == (SessionView { current: Some(id), ..old(self)@ }),
    {
        self.current_conversation = Some(id);
    }

    /// Puts a new conversation first and opens it: the conversation `id`,
    /// created at `now`.
    pub fn create_new_conversation_at(
        &mut self,
        id: u128,
        now: Timestamp,
        model: String,
        system_prompt: String,
    )
        ensures
            final(self)@ == with_new_conversation(
                old(self)@,
                fresh_conversation(id, now, model@, system_prompt@),
            ),
    {
        let conv = Conversation::new_at(id, now, model, system_prompt);
        self.conversations.insert(0, conv);
        self.current_conversation = Some(id);
        proof {
            assert(self@.conversations =~= seq![fresh_conversation(id, now, model@, system_prompt@)]
                + old(self)@.conversations);
        }
    }

    /// Puts a new conversation first and opens it, with a fresh identifier and
    /// created now; hands back its identifier.
    pub fn create_new_conversation(&mut self, model: String, system_prompt: String) -> (res: u128)
        ensures
            is_random_uuid(res),
            exists|now: Timestamp|
                clock_reading(now) && final(self)@ == with_new_conversation(
                    old(self)@,
                    #[trigger] fresh_conversation(res, now, model@, system_prompt@),
                ),
    {
        let id = new_id();
        let now = Timestamp::now();
        self.create_new_conversation_at(id, now, model, system_prompt);
        id
    }

    /// Adds a message at the end of the conversation at position `k` and marks
    /// it updated at `now`.
    fn append_message_at(&mut self, k: usize, m: Message, now: Timestamp)
        requires
            k < old(self).conversations.len(),
        ensures
            final(self).conversations.len() == old(self).conversations.len(),
            final(self)@ == (SessionView {
                conversations: old(self)@.conversations.update(
                    k as int,
                    with_message(old(self)@.conversations[k as int], m@, now),
                ),
                ..old(self)@
            }),
    {
        let ghost old_convs = self.conversations@;
        let ghost mv = m@;
        let mut conv = self.conversations.remove(k);
        let ghost before = conv@;
        let ghost old_msgs = conv.messages@;
        conv.messages.push(m);
        conv.updated_at = now;
        proof {
            assert(conv.messages@ == old_msgs.push(m));
            assert(message_views(conv.messages@) =~= message_views(old_msgs).push(mv));
            assert(conv@ == with_message(before, mv, now));
        }
        let ghost cv = conv@;
        self.conversations.insert(k, conv);
        proof {
            assert(self.conversations@ =~= old_convs.update(k as int, self.conversations@[k as int]));
            assert(conversation_views(self.conversations@) =~= conversation_views(old_convs).update(
                k as int,
                cv,
            ));
        }
    }

    /// What sending the input does, the new conversation (where one is
    /// needed) being `conversation_id` and the new message `message_id`, both
    /// at `now`. See `start_chat_spec`.
    pub fn start_chat_at(
        &mut self,
        conversation_id: u128,
        message_id: u128,
        now: Timestamp,
        default_model: String,
        default_system_prompt: String,
    ) -> (res: Option<ChatStart>)
        ensures
            (final(self)@, start_view(res)) == start_chat_spec(
                old(self)@,
                conversation_id,
                message_id,
                now,
                default_model@,
                default_system_prompt@,
            ),
    {
        if is_blank(self.input_text.as_str()) || self.streaming_response.is_some() {
            return None;
        }
        let cid = match self.current_conversation {
            Some(c) => c,
            None => {
                self.create_new_conversation_at(
                    conversation_id,
                    now,
                    default_model,
                    default_system_prompt,
                );
                conversation_id
            },
        };
        match self.position(cid) {
            None => None,
            Some(k) => {
                let content = self.input_text.clone();
                let msg = Message::new_at(message_id, String::from_str("user"), content, now);
                self.append_message_at(k, msg, now);
                assert(self@.conversations[k as int] == self.conversations@[k as int]@);
                let request = request_for_conversation(&self.conversations[k]);
                self.input_text = String::new();
                self.streaming_response = Some(String::new());
                Some(ChatStart { conversation_id: cid, request })
            },
        }
    }

    /// What sending the input does, with fresh identifiers and the current
    /// time; a new conversation takes the default model and system prompt.
    pub fn start_chat(&mut self, default_model: String, default_system_prompt: String) -> (res:
        Option<ChatStart>)
        ensures
            exists|conversation_id: u128, message_id: u128, now: Timestamp|
                is_random_uuid(conversation_id) && is_random_uuid(message_id) && clock_reading(now)
                    && (final(self)@, start_view(res)) == #[trigger] start_chat_spec(
                    old(self)@,
                    conversation_id,
                    message_id,
                    now,
                    default_model@,
                    default_system_prompt@,
                ),
    {
        let conversation_id = new_id();
        let message_id = new_id();
        let now = Timestamp::now();
        let ghost model = default_model@;
        let ghost prompt = default_system_prompt@;
        let res = self.start_chat_at(
            conversation_id,
            message_id,
            now,
            default_model,
            default_system_prompt,
        );
        assert((self@, start_view(res)) == start_chat_spec(
            old(self)@,
            conversation_id,
            message_id,
            now,
            model,
            prompt,
        ));
        res
    }

    /// What a poll of the stream does, a finished reply becoming the message
    /// `message_id` at `now`. See `poll_stream_spec`.
    pub fn check_stream_state_at(&mut self, state: &mut StreamState, message_id: u128, now: Timestamp) -> (res:
        Option<u128>)
        ensures
            (final(self)@, final(state)@, res) == poll_stream_spec(old(self)@, old(state)@, message_id, now),
    {
        if self.streaming_response.is_none() {
            return None;
        }
        if !state.done {
            self.streaming_response = Some(state.response.clone());
            return None;
        }
        let mut saved: Option<u128> = None;
        match state.conversation_id {
            Some(cid) => match self.position(cid) {
                Some(k) => {
                    let content = match &state.error {
                        Some(e) => e.clone(),
                        None => state.response.clone(),
                    };
                    let msg = Message::new_at(message_id, String::from_str("assistant"), content, now);
                    self.append_message_at(k, msg, now);
                    saved = Some(cid);
                },
                None => {},
            },
            None => {},
        }
        self.streaming_response = None;
        state.conversation_id = None;
        state.response = String::new();
        state.done = false;
        state.error = None;
        saved
    }

    /// What a poll of the stream does, a finished reply becoming a message
    /// with a fresh identifier at the current time.
    pub fn check_stream_state(&mut self, state: &mut StreamState) -> (res: Option<u128>)
        ensures
            exists|message_id: u128, now: Timestamp|
                is_random_uuid(message_id) && clock_reading(now) && (final(self)@, final(state)@, res) == #[trigger] poll_stream_spec(
                    old(self)@,
                    old(state)@,
                    message_id,
                    now,
                ),
    {
        let message_id = new_id();
        let now = Timestamp::now();
        let res = self.check_stream_state_at(state, message_id, now);
        assert((self@, state@, res) == poll_stream_spec(old(self)@, old(state)@, message_id, now));
        res
    }

    /// Gives the open conversation the model `name`, marking it updated at
    /// `now`. See `select_model_spec`.
    pub fn select_model_at(&mut self, name: String, now: Timestamp) -> (res: Option<u128>)
        ensures
            (final(self)@, res) == select_model_spec(old(self)@, name@, now),
    {
        match self.current_conversation {
            Some(cid) => match self.position(cid) {
                Some(k) => {
                    let ghost old_convs = self.conversations@;
                    let mut conv = self.conversations.remove(k);
                    conv.model = name;
                    conv.updated_at = now;
                    let ghost cv = conv@;
                    self.conversations.insert(k, conv);
                    proof {
                        assert(self.conversations@ =~= old_convs.update(
                            k as int,
                            self.conversations@[k as int],
                        ));
                        assert(conversation_views(self.conversations@) =~= conversation_views(
                            old_convs,
                        ).update(k as int, cv));
                    }
                    Some(cid)
                },
                None => None,
            },
            None => None,
        }
    }

    /// Gives the open conversation the model `name`, marking it updated now.
    pub fn select_model(&mut self, name: String) -> (res: Option<u128>)
        ensures
            exists|now: Timestamp|
                clock_reading(now) && (final(self)@, res) == #[trigger] select_model_spec(
                    old(self)@,
                    name@,
                    now,
                ),
    {
        let now = Timestamp::now();
        let ghost n = name@;
        let res = self.select_model_at(name, now);
        assert((self@, res) == select_model_spec(old(self)@, n, now));
        res
    }

    /// Whether the model `name` is the one of the open conversation.
    pub fn is_model_selected(&self, name: &String) -> (res: bool)
        ensures
            res == model_selected(self@, name@),
    {
        match self.current() {
            Some(c) => c.model == *name,
            None => false,
        }
    }
}

/// The request that asks for the next reply in a conversation.
pub fn request_for_conversation(c: &Conversation) -> (res: ChatRequest)
    ensures
        res@ == request_for(c@),
{
    let messages = chat_messages(&c.messages);
    let res = ChatRequest { model: c.model.clone(), messages, stream: true, options: HashMap::new() };
    assert(res@.messages =~= request_for(c@).messages);
    res
}

/// Whether the input is to be sent: the send button was clicked, or Enter
/// was pressed without Shift as the input field lost focus.
pub fn send_requested(clicked: bool, lost_focus: bool, enter_pressed: bool, shift_held: bool) -> (res:
    bool)
    ensures
        res == (clicked || (lost_focus && enter_pressed && !shift_held)),
{
    clicked || (lost_focus && enter_pressed && !shift_held)
}

/// The first position of a conversation is unique.
pub proof fn lemma_first_position_unique(cs: Seq<ConversationView>, id: u128, a: int, b: int)
    requires
        first_position(cs, id, a),
        first_position(cs, id, b),
    ensures
        a == b,
{
    if a < b {
        assert(cs[a].id != id);
    } else if b < a {
        assert(cs[b].id != id);
    }
}

/// Replacing a conversation by one with the same identifier moves no
/// conversation: every identifier keeps its first position.
pub proof fn lemma_position_update(cs: Seq<ConversationView>, k: int, c: ConversationView, id: u128)
    requires
        0 <= k < cs.len(),
        c.id == cs[k].id,
    ensures
        position_of(cs.update(k, c), id) == position_of(cs, id),
{
    let cs2 = cs.update(k, c);
    assert forall|j: int| 0 <= j < cs.len() implies cs2[j].id == cs[j].id by {}
    lemma_position_of(cs, id);
    lemma_position_of(cs2, id);
    match position_of(cs, id) {
        Some(a) => match position_of(cs2, id) {
            Some(b) => {
                assert(first_position(cs, id, b));
                lemma_first_position_unique(cs, id, a, b);
            },
            None => {
                assert(cs2[a].id == id);
            },
        },
        None => match position_of(cs2, id) {
            Some(b) => {
                assert(cs[b].id == id);
            },
            None => {},
        },
    }
}

/// A chat never starts while a reply is streaming or while the input is
/// blank: sending then changes nothing and sends nothing.
pub proof fn law_no_start_while_streaming_or_blank(
    s: SessionView,
    conversation_id: u128,
    message_id: u128,
    now: Timestamp,
    model: Seq<char>,
    system_prompt: Seq<char>,
)
    requires
        s.streaming is Some || blank(s.input),
    ensures
        start_chat_spec(s, conversation_id, message_id, now, model, system_prompt) == (s, None::<ChatStartView>),
{
}

/// Sending with no conversation open starts a new one, titled
/// "New Conversation" with the default model and system prompt, put first,
/// opened, and holding the input as its one message; the request sent asks
/// for a reply to that message alone.
pub proof fn law_first_message_opens_conversation(
    s: SessionView,
    conversation_id: u128,
    message_id: u128,
    now: Timestamp,
    model: Seq<char>,
    system_prompt: Seq<char>,
)
    requires
        can_start(s),
        s.current is None,
    ensures
        ({
            let (s1, started) = start_chat_spec(s, conversation_id, message_id, now, model, system_prompt);
            let c = with_message(
                fresh_conversation(conversation_id, now, model, system_prompt),
                message_spec(message_id, "user"@, s.input, now),
                now,
            );
            &&& s1.conversations == seq![c] + s.conversations
            &&& s1.current == Some(conversation_id)
            &&& s1.input == Seq::<char>::empty()
            &&& s1.streaming == Some(Seq::<char>::empty())
            &&& started == Some(ChatStartView { conversation_id, request: request_for(c) })
            &&& c.messages == seq![message_spec(message_id, "user"@, s.input, now)]
        }),
{
    let t = chat_target(s, conversation_id, now, model, system_prompt);
    assert(first_position(t.conversations, conversation_id, 0));
    lemma_position_of(t.conversations, conversation_id);
    lemma_first_position_unique(
        t.conversations,
        conversation_id,
        0,
        position_of(t.conversations, conversation_id)->0,
    );
    let c = with_message(
        fresh_conversation(conversation_id, now, model, system_prompt),
        message_spec(message_id, "user"@, s.input, now),
        now,
    );
    assert(t.conversations.update(0, c) =~= seq![c] + s.conversations);
    assert(c.messages =~= seq![message_spec(message_id, "user"@, s.input, now)]);
}

/// A turn of a chat: sending the input in the open conversation, and then
/// polling once the reply to it has been streamed to its end, leaves that
/// conversation with the input and the reply as its last two messages, clears
/// the input, ends the streaming and clears the stream state, and changes no
/// other conversation.
pub proof fn law_chat_turn(
    s: SessionView,
    cid: u128,
    conversation_id: u128,
    message_id: u128,
    now: Timestamp,
    model: Seq<char>,
    system_prompt: Seq<char>,
    reply: Seq<char>,
    reply_id: u128,
    later: Timestamp,
)
    requires
        can_start(s),
        s.current == Some(cid),
        position_of(s.conversations, cid) is Some,
    ensures
        ({
            let (s1, started) = start_chat_spec(s, conversation_id, message_id, now, model, system_prompt);
            let st = StreamStateView {
                conversation_id: Some(cid),
                response: reply,
                done: true,
                error: None,
            };
            let (s2, st2, saved) = poll_stream_spec(s1, st, reply_id, later);
            let k = position_of(s.conversations, cid)->0;
            let c = s.conversations[k];
            &&& started matches Some(x) && x.conversation_id == cid
            &&& saved == Some(cid)
            &&& st2 == idle_stream()
            &&& s2.streaming is None
            &&& s2.input == Seq::<char>::empty()
            &&& s2.current == Some(cid)
            &&& s2.conversations == s.conversations.update(
                k,
                with_message(
                    with_message(c, message_spec(message_id, "user"@, s.input, now), now),
                    message_spec(reply_id, "assistant"@, reply, later),
                    later,
                ),
            )
            &&& s2.conversations[k].messages == c.messages + seq![
                message_spec(message_id, "user"@, s.input, now),
                message_spec(reply_id, "assistant"@, reply, later),
            ]
        }),
{
    let k = position_of(s.conversations, cid)->0;
    lemma_position_of(s.conversations, cid);
    let c = s.conversations[k];
    let c1 = with_message(c, message_spec(message_id, "user"@, s.input, now), now);
    lemma_position_update(s.conversations, k, c1, cid);
    let s1 = start_chat_spec(s, conversation_id, message_id, now, model, system_prompt).0;
    assert(s1.conversations == s.conversations.update(k, c1));
    let c2 = with_message(c1, message_spec(reply_id, "assistant"@, reply, later), later);
    assert(s1.conversations.update(k, c2) =~= s.conversations.update(k, c2));
    assert(c2.messages =~= c.messages + seq![
        message_spec(message_id, "user"@, s.input, now),
        message_spec(reply_id, "assistant"@, reply, later),
    ]);
}

/// Choosing a model for the open conversation makes it the model shown as
/// chosen.
pub proof fn law_selected_model_is_shown(s: SessionView, name: Seq<char>, now: Timestamp)
    requires
        select_model_spec(s, name, now).1 is Some,
    ensures
        model_selected(select_model_spec(s, name, now).0, name),
{
    let cid = s.current->0;
    let k = position_of(s.conversations, cid)->0;
    lemma_position_of(s.conversations, cid);
    let c = s.conversations[k];
    lemma_position_update(s.conversations, k, ConversationView { model: name, updated_at: now, ..c }, cid);
}

/// The first position of a conversation is what `position_of` finds.
pub proof fn lemma_position_is(cs: Seq<ConversationView>, id: u128, k: int)
    requires
        first_position(cs, id, k),
    ensures
        position_of(cs, id) == Some(k),
{
    lemma_position_of(cs, id);
    match position_of(cs, id) {
        Some(j) => lemma_first_position_unique(cs, id, j, k),
        None => {
            assert(cs[k].id == id);
        },
    }
}

/// A model is shown as chosen exactly when a conversation is open, is found
/// (at its first position), and has that model. So two different names are
/// never both shown as chosen, and nothing is chosen while no conversation is
/// open.
pub proof fn law_model_selected_is_open_model(s: SessionView, name: Seq<char>, other: Seq<char>)
    ensures
        model_selected(s, name) <==> (s.current is Some && exists|k: int|
            #[trigger] first_position(s.conversations, s.current->0, k) && s.conversations[k].model
                == name),
        model_selected(s, name) && model_selected(s, other) ==> name == other,
        s.current is None ==> !model_selected(s, name),
{
    if s.current is Some {
        let cid = s.current->0;
        lemma_position_of(s.conversations, cid);
        assert forall|k: int| #[trigger]
            first_position(s.conversations, cid, k) implies position_of(s.conversations, cid) == Some(
            k,
        ) by {
            lemma_position_is(s.conversations, cid, k);
        }
        if model_selected(s, name) {
            let k = position_of(s.conversations, cid)->0;
            assert(first_position(s.conversations, cid, k));
        }
    }
}

/// A finished reply goes to the conversation the stream answers, whichever
/// conversation is open: its text, or the error that ended it, becomes an
/// `"assistant"` message (identifier `message_id`, at `now`, no token count)
/// appended to that conversation, which is marked updated at `now`; no other
/// conversation changes, the open one stays open, streaming stops, the stream
/// state is cleared, and the conversation's identifier is handed back.
pub proof fn law_finished_reply_goes_to_its_conversation(
    s: SessionView,
    st: StreamStateView,
    message_id: u128,
    now: Timestamp,
    cid: u128,
    k: int,
)
    requires
        s.streaming is Some,
        st.done,
        st.conversation_id == Some(cid),
        first_position(s.conversations, cid, k),
    ensures
        ({
            let (s2, st2, saved) = poll_stream_spec(s, st, message_id, now);
            let content = match st.error {
                Some(e) => e,
                None => st.response,
            };
            let c = s.conversations[k];
            &&& saved == Some(cid)
            &&& s2.current == s.current
            &&& s2.input == s.input
            &&& s2.streaming is None
            &&& s2.conversations.len() == s.conversations.len()
            &&& forall|j: int|
                0 <= j < s.conversations.len() && j != k ==> s2.conversations[j] == s.conversations[j]
            &&& s2.conversations[k].messages == c.messages.push(
                MessageView {
                    id: message_id,
                    role: "assistant"@,
                    content,
                    timestamp: now,
                    token_count: None,
                },
            )
            &&& s2.conversations[k].id == cid
            &&& s2.conversations[k].title == c.title
            &&& s2.conversations[k].model == c.model
            &&& s2.conversations[k].system_prompt == c.system_prompt
            &&& s2.conversations[k].created_at == c.created_at
            &&& s2.conversations[k].updated_at == now
            &&& st2.conversation_id is None
            &&& st2.response == Seq::<char>::empty()
            &&& !st2.done
            &&& st2.error is None
        }),
{
    lemma_position_is(s.conversations, cid, k);
}

/// A finished reply to a conversation that is not found changes no
/// conversation and hands back nothing; streaming still stops.
pub proof fn law_finished_reply_to_missing_conversation(
    s: SessionView,
    st: StreamStateView,
    message_id: u128,
    now: Timestamp,
    cid: u128,
)
    requires
        s.streaming is Some,
        st.done,
        st.conversation_id == Some(cid),
        forall|j: int| 0 <= j < s.conversations.len() ==> s.conversations[j].id != cid,
    ensures
        ({
            let (s2, st2, saved) = poll_stream_spec(s, st, message_id, now);
            &&& saved is None
            &&& s2.conversations == s.conversations
            &&& s2.current == s.current
            &&& s2.streaming is None
        }),
{
    lemma_position_of(s.conversations, cid);
}

/// A request asks for a reply to the whole conversation: its model, and every
/// message of it, in order, each with its role and content; streamed, with no
/// further option.
pub proof fn law_request_carries_history(c: ConversationView)
    ensures
        request_for(c).model == c.model,
        request_for(c).stream,
        request_for(c).options == Map::<String, serde_json::Value>::empty(),
        request_for(c).messages.len() == c.messages.len(),
        forall|i: int|
            0 <= i < c.messages.len() ==> #[trigger] request_for(c).messages[i] == (provider::MessageView {
                role: c.messages[i].role,
                content: c.messages[i].content,
            }),
{
}

/// Sending the input in the open conversation appends it as a `"user"`
/// message (identifier `message_id`, at `now`, no token count) to that
/// conversation alone, marks it updated at `now`, clears the input, starts an
/// empty streamed reply, keeps the conversation open, and sends a request with
/// the conversation's model and all its earlier messages, in order, followed
/// by the input.
pub proof fn law_start_sends_history_and_input(
    s: SessionView,
    cid: u128,
    k: int,
    conversation_id: u128,
    message_id: u128,
    now: Timestamp,
    model: Seq<char>,
    system_prompt: Seq<char>,
)
    requires
        can_start(s),
        s.current == Some(cid),
        first_position(s.conversations, cid, k),
    ensures
        ({
            let (s1, started) = start_chat_spec(s, conversation_id, message_id, now, model, system_prompt);
            let c = s.conversations[k];
            let n = c.messages.len();
            &&& started is Some
            &&& started->0.conversation_id == cid
            &&& started->0.request.model == c.model
            &&& started->0.request.stream
            &&& started->0.request.messages.len() == n + 1
            &&& forall|i: int|
                0 <= i < n ==> #[trigger] started->0.request.messages[i] == (provider::MessageView {
                    role: c.messages[i].role,
                    content: c.messages[i].content,
                })
            &&& started->0.request.messages[n as int] == (provider::MessageView {
                role: "user"@,
                content: s.input,
            })
            &&& s1.conversations.len() == s.conversations.len()
            &&& forall|j: int|
                0 <= j < s.conversations.len() && j != k ==> s1.conversations[j] == s.conversations[j]
            &&& s1.conversations[k].messages == c.messages.push(
                MessageView {
                    id: message_id,
                    role: "user"@,
                    content: s.input,
                    timestamp: now,
                    token_count: None,
                },
            )
            &&& s1.conversations[k].model == c.model
            &&& s1.conversations[k].id == cid
            &&& s1.conversations[k].updated_at == now
            &&& s1.current == Some(cid)
            &&& s1.input == Seq::<char>::empty()
            &&& s1.streaming == Some(Seq::<char>::empty())
        }),
{
    lemma_position_is(s.conversations, cid, k);
    let c = s.conversations[k];
    let c1 = with_message(c, message_spec(message_id, "user"@, s.input, now), now);
    law_request_carries_history(c1);
}

/// Choosing a model gives it to the open conversation alone, marked updated
/// at `now`, and hands back that conversation's identifier; with no
/// conversation open, nothing changes.
pub proof fn law_select_model_sets_open_conversation(
    s: SessionView,
    name: Seq<char>,
    now: Timestamp,
    cid: u128,
    k: int,
)
    ensures
        s.current is None ==> select_model_spec(s, name, now) == (s, None::<u128>),
        s.current == Some(cid) && first_position(s.conversations, cid, k) ==> ({
            let (s1, saved) = select_model_spec(s, name, now);
            &&& saved == Some(cid)
            &&& s1.conversations.len() == s.conversations.len()
            &&& s1.conversations[k].model == name
            &&& s1.conversations[k].updated_at == now
            &&& s1.conversations[k].messages == s.conversations[k].messages
            &&& s1.conversations[k].id == cid
            &&& forall|j: int|
                0 <= j < s.conversations.len() && j != k ==> s1.conversations[j] == s.conversations[j]
            &&& s1.current == s.current
        }),
{
    if s.current == Some(cid) && first_position(s.conversations, cid, k) {
        lemma_position_is(s.conversations, cid, k);
    }
}

/// A new conversation is put first, ahead of all the others in their order,
/// and opened; nothing else changes.
pub proof fn law_new_conversation_goes_first(s: SessionView, c: ConversationView)
    ensures
        with_new_conversation(s, c).conversations.len() == s.conversations.len() + 1,
        with_new_conversation(s, c).conversations[0] == c,
        forall|j: int|
            0 <= j < s.conversations.len() ==> #[trigger] with_new_conversation(s, c).conversations[j + 1]
                == s.conversations[j],
        with_new_conversation(s, c).current == Some(c.id),
        with_new_conversation(s, c).input == s.input,
        with_new_conversation(s, c).streaming == s.streaming,
        position_of(with_new_conversation(s, c).conversations, c.id) == Some(0int),
{
    let cs = with_new_conversation(s, c).conversations;
    assert(first_position(cs, c.id, 0));
    lemma_position_is(cs, c.id, 0);
}

} // verus!
