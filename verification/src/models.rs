//! Conversations and the messages in them.

use vstd::prelude::*;
use vstd::string::StringExecFns;
use crate::ids::{is_random_uuid, new_id};
use crate::time::{Timestamp, clock_reading};

verus! {

/// One message of a conversation.
#[derive(Debug, Clone)]
pub struct Message {
    pub id: u128,
    /// `"user"` or `"assistant"`.
    pub role: String,
    pub content: String,
    pub timestamp: Timestamp,
    pub token_count: Option<usize>,
}

/// A message as plain values.
pub struct MessageView {
    pub id: u128,
    pub role: Seq<char>,
    pub content: Seq<char>,
    pub timestamp: Timestamp,
    pub token_count: Option<usize>,
}

impl View for Message {
    type V = MessageView;

    open spec fn view(&self) -> MessageView {
        MessageView {
            id: self.id,
            role: self.role@,
            content: self.content@,
            timestamp: self.timestamp,
            token_count: self.token_count,
        }
    }
}

/// A conversation: its settings and its messages, oldest first.
#[derive(Debug, Clone)]
pub struct Conversation {
    pub id: u128,
    pub title: String,
    pub model: String,
    pub system_prompt: String,
    pub messages: Vec<Message>,
    pub created_at: Timestamp,
    pub updated_at: Timestamp,
}

/// A conversation as plain values.
pub struct ConversationView {
    pub id: u128,
    pub title: Seq<char>,
    pub model: Seq<char>,
    pub system_prompt: Seq<char>,
    pub messages: Seq<MessageView>,
    pub created_at: Timestamp,
    pub updated_at: Timestamp,
}

/// The views of a sequence of messages.
pub open spec fn message_views(messages: Seq<Message>) -> Seq<MessageView> {
    messages.map_values(|m: Message| m@)
}

impl View for Conversation {
    type V = ConversationView;

    open spec fn view(&self) -> ConversationView {
        ConversationView {
            id: self.id,
            title: self.title@,
            model: self.model@,
            system_prompt: self.system_prompt@,
            messages: message_views(self.messages@),
            created_at: self.created_at,
            updated_at: self.updated_at,
        }
    }
}

/// The title a new conversation starts with.
pub open spec fn initial_title() -> Seq<char> {
    "New Conversation"@
}

/// The message with the given identifier, role, content and time, and no
/// token count.
pub open spec fn message_spec(id: u128, role: Seq<char>, content: Seq<char>, at: Timestamp) -> MessageView {
    MessageView { id, role, content, timestamp: at, token_count: None }
}

/// A conversation with no message yet, created and last updated at `now`.
pub open spec fn fresh_conversation(
    id: u128,
    now: Timestamp,
    model: Seq<char>,
    system_prompt: Seq<char>,
) -> ConversationView {
    ConversationView {
        id,
        title: initial_title(),
        model,
        system_prompt,
        messages: Seq::empty(),
        created_at: now,
        updated_at: now,
    }
}

/// A new conversation is titled "New Conversation", has the given
/// identifier, model and system prompt, holds no message, and was created and
/// last updated at the same time.
pub proof fn law_fresh_conversation(id: u128, now: Timestamp, model: Seq<char>, system_prompt: Seq<char>)
    ensures
        fresh_conversation(id, now, model, system_prompt).id == id,
        fresh_conversation(id, now, model, system_prompt).title == "New Conversation"@,
        fresh_conversation(id, now, model, system_prompt).model == model,
        fresh_conversation(id, now, model, system_prompt).system_prompt == system_prompt,
        fresh_conversation(id, now, model, system_prompt).messages.len() == 0,
        fresh_conversation(id, now, model, system_prompt).created_at == now,
        fresh_conversation(id, now, model, system_prompt).updated_at == now,
        message_spec(id, model, system_prompt, now).id == id,
        message_spec(id, model, system_prompt, now).role == model,
        message_spec(id, model, system_prompt, now).content == system_prompt,
        message_spec(id, model, system_prompt, now).timestamp == now,
        message_spec(id, model, system_prompt, now).token_count is None,
{
}

impl Message {
    /// A message with the given identifier and time.
    pub fn new_at(id: u128, role: String, content: String, timestamp: Timestamp) -> (res: Message)
        ensures
            res@ == message_spec(id, role@, content@, timestamp),
    {
        Message { id, role, content, timestamp, token_count: None }
    }

    /// A message with a fresh random identifier, stamped with the current time.
    pub fn new(role: String, content: String) -> (res: Message)
        ensures
            res@ == message_spec(res.id, role@, content@, res.timestamp),
            is_random_uuid(res.id),
            clock_reading(res.timestamp),
    {
        let id = new_id();
        Message::new_at(id, role, content, Timestamp::now())
    }
}

impl Conversation {
    /// A conversation with the given identifier, created at `now`.
    pub fn new_at(id: u128, now: Timestamp, model: String, system_prompt: String) -> (res: Conversation)
        ensures
            res@ == fresh_conversation(id, now, model@, system_prompt@),
    {
        let res = Conversation {
            id,
            title: String::from_str("New Conversation"),
            model,
            system_prompt,
            messages: Vec::new(),
            created_at: now,
            updated_at: now,
        };
        assert(res@.messages =~= Seq::<MessageView>::empty());
        res
    }

    /// A conversation with a fresh random identifier, created now.
    pub fn new(model: String, system_prompt: String) -> (res: Conversation)
        ensures
            res@ == fresh_conversation(res.id, res.created_at, model@, system_prompt@),
            is_random_uuid(res.id),
            clock_reading(res.created_at),
    {
        let id = new_id();
        Conversation::new_at(id, Timestamp::now(), model, system_prompt)
    }
}

} // verus!
