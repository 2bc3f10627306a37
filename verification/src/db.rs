//! The rows a conversation is stored as, and the conversation read back from
//! them. Conversations are kept in a `conversations` table keyed by the text of
//! their identifier, and their messages in a `messages` table that names the
//! conversation each belongs to; times are stored as RFC 3339 text.

use vstd::prelude::*;
use crate::ids::{id_text, parse_id, uuid_hyphenated, uuid_read};
use crate::models::{Conversation, ConversationView, Message, MessageView, message_views};
use crate::time::{Timestamp, exact_text, reads_as, rfc3339_read, timestamp_text};

verus! {

/// A row of the `conversations` table.
#[derive(Debug, Clone)]
pub struct ConversationRow {
    pub id: String,
    pub title: String,
    pub model: String,
    pub system_prompt: String,
    pub created_at: String,
    pub updated_at: String,
}

/// A row of the `conversations` table as plain values.
pub struct ConversationRowView {
    pub id: Seq<char>,
    pub title: Seq<char>,
    pub model: Seq<char>,
    pub system_prompt: Seq<char>,
    pub created_at: Seq<char>,
    pub updated_at: Seq<char>,
}

impl View for ConversationRow {
    type V = ConversationRowView;

    open spec fn view(&self) -> ConversationRowView {
        ConversationRowView {
            id: self.id@,
            title: self.title@,
            model: self.model@,
            system_prompt: self.system_prompt@,
            created_at: self.created_at@,
            updated_at: self.updated_at@,
        }
    }
}

/// A row of the `messages` table.
#[derive(Debug, Clone)]
pub struct MessageRow {
    pub id: String,
    pub conversation_id: String,
    pub role: String,
    pub content: String,
    pub timestamp: String,
    pub token_count: Option<usize>,
}

/// A row of the `messages` table as plain values.
pub struct MessageRowView {
    pub id: Seq<char>,
    pub conversation_id: Seq<char>,
    pub role: Seq<char>,
    pub content: Seq<char>,
    pub timestamp: Seq<char>,
    pub token_count: Option<usize>,
}

impl View for MessageRow {
    type V = MessageRowView;

    open spec fn view(&self) -> MessageRowView {
        MessageRowView {
            id: self.id@,
            conversation_id: self.conversation_id@,
            role: self.role@,
            content: self.content@,
            timestamp: self.timestamp@,
            token_count: self.token_count,
        }
    }
}

/// The views of a sequence of message rows.
pub open spec fn message_row_views(rows: Seq<MessageRow>) -> Seq<MessageRowView> {
    rows.map_values(|r: MessageRow| r@)
}

/// The row a conversation is stored as.
pub open spec fn conversation_row_of(c: ConversationView) -> ConversationRowView {
    ConversationRowView {
        id: uuid_hyphenated(c.id),
        title: c.title,
        model: c.model,
        system_prompt: c.system_prompt,
        created_at: timestamp_text(c.created_at),
        updated_at: timestamp_text(c.updated_at),
    }
}

/// The row a message of the conversation `conversation_id` is stored as.
pub open spec fn message_row_of(conversation_id: u128, m: MessageView) -> MessageRowView {
    MessageRowView {
        id: uuid_hyphenated(m.id),
        conversation_id: uuid_hyphenated(conversation_id),
        role: m.role,
        content: m.content,
        timestamp: timestamp_text(m.timestamp),
        token_count: m.token_count,
    }
}

/// The rows the messages of a conversation are stored as, in their order.
pub open spec fn message_rows_of(c: ConversationView) -> Seq<MessageRowView> {
    c.messages.map_values(|m: MessageView| message_row_of(c.id, m))
}

/// Whether a message row can be read: its identifier and its time parse.
pub open spec fn message_row_readable(row: MessageRowView) -> bool {
    uuid_read(row.id) is Some && rfc3339_read(row.timestamp) is Some
}

/// Whether `m` is what the row reads as: the identifier and the time that the
/// texts parse to, and the other fields as they are. The row's
/// `conversation_id` plays no part: the rows are selected by it.
pub open spec fn message_read_as(row: MessageRowView, m: MessageView) -> bool {
    &&& uuid_read(row.id) == Some(m.id)
    &&& reads_as(row.timestamp, m.timestamp)
    &&& m.role == row.role
    &&& m.content == row.content
    &&& m.token_count == row.token_count
}

/// Whether a conversation row and its message rows can be read.
pub open spec fn conversation_rows_readable(row: ConversationRowView, messages: Seq<MessageRowView>) -> bool {
    &&& uuid_read(row.id) is Some
    &&& rfc3339_read(row.created_at) is Some
    &&& rfc3339_read(row.updated_at) is Some
    &&& forall|i: int| 0 <= i < messages.len() ==> message_row_readable(#[trigger] messages[i])
}

/// Whether `c` is what a conversation row and its message rows read as, the
/// messages in the order of the rows.
pub open spec fn conversation_read_as(
    row: ConversationRowView,
    messages: Seq<MessageRowView>,
    c: ConversationView,
) -> bool {
    &&& uuid_read(row.id) == Some(c.id)
    &&& c.title == row.title
    &&& c.model == row.model
    &&& c.system_prompt == row.system_prompt
    &&& reads_as(row.created_at, c.created_at)
    &&& reads_as(row.updated_at, c.updated_at)
    &&& c.messages.len() == messages.len()
    &&& forall|i: int| 0 <= i < messages.len() ==> message_read_as(#[trigger] messages[i], c.messages[i])
}

/// Whether every time in a conversation is written as text that reads back as
/// the same time (a four-digit year, leap seconds included).
pub open spec fn times_exact(c: ConversationView) -> bool {
    &&& exact_text(c.created_at)
    &&& exact_text(c.updated_at)
    &&& forall|i: int| 0 <= i < c.messages.len() ==> exact_text(#[trigger] c.messages[i].timestamp)
}

/// The row a conversation is stored as.
pub fn conversation_row(conv: &Conversation) -> (row: ConversationRow)
    ensures
        row@ == conversation_row_of(conv@),
{
    ConversationRow {
        id: id_text(conv.id),
        title: conv.title.clone(),
        model: conv.model.clone(),
        system_prompt: conv.system_prompt.clone(),
        created_at: conv.created_at.to_rfc3339(),
        updated_at: conv.updated_at.to_rfc3339(),
    }
}

/// The row a message of the conversation `conversation_id` is stored as.
pub fn message_row(conversation_id: u128, msg: &Message) -> (row: MessageRow)
    ensures
        row@ == message_row_of(conversation_id, msg@),
{
    MessageRow {
        id: id_text(msg.id),
        conversation_id: id_text(conversation_id),
        role: msg.role.clone(),
        content: msg.content.clone(),
        timestamp: msg.timestamp.to_rfc3339(),
        token_count: msg.token_count,
    }
}

/// The rows the messages of a conversation are stored as, in their order.
pub fn message_rows(conv: &Conversation) -> (rows: Vec<MessageRow>)
    ensures
        message_row_views(rows@) == message_rows_of(conv@),
{
    let mut rows: Vec<MessageRow> = Vec::new();
    let mut i: usize = 0;
    while i < conv.messages.len()
        invariant
            i <= conv.messages.len(),
            rows.len() == i,
            forall|j: int| 0 <= j < i ==> #[trigger] rows@[j]@ == message_row_of(conv.id, conv.messages@[j]@),
        decreases conv.messages.len() - i,
    {
        let row = message_row(conv.id, &conv.messages[i]);
        rows.push(row);
        i = i + 1;
    }
    assert(message_row_views(rows@) =~= message_rows_of(conv@));
    rows
}

/// The message that a row reads as, or `None` where its identifier or its
/// time does not parse. A row written by `message_row` reads back as the
/// message it was written from, if the message's time has a four-digit year.
pub fn read_message(row: &MessageRow) -> (res: Option<Message>)
    ensures
        res is Some <==> message_row_readable(row@),
        res matches Some(m) ==> message_read_as(row@, m@),
        forall|cid: u128, m: MessageView|
            exact_text(m.timestamp) && row@ == #[trigger] message_row_of(cid, m) ==> (res matches Some(r)
                && r@ == m),
{
    let id = parse_id(row.id.as_str());
    let timestamp = Timestamp::parse_rfc3339(row.timestamp.as_str());
    match (id, timestamp) {
        (Some(id), Some(timestamp)) => Some(
            Message {
                id,
                role: row.role.clone(),
                content: row.content.clone(),
                timestamp,
                token_count: row.token_count,
            },
        ),
        _ => None,
    }
}

/// The conversation that a row and its message rows read as, the messages in
/// the order of the rows, or `None` where an identifier or a time does not
/// parse. The rows written by `conversation_row` and `message_rows` read back
/// as the conversation they were written from, if all its times have a
/// four-digit year.
pub fn read_conversation(row: &ConversationRow, messages: &Vec<MessageRow>) -> (res: Option<Conversation>)
    ensures
        res is Some <==> conversation_rows_readable(row@, message_row_views(messages@)),
        res matches Some(c) ==> conversation_read_as(row@, message_row_views(messages@), c@),
        forall|c: ConversationView|
            times_exact(c) && row@ == #[trigger] conversation_row_of(c) && message_row_views(messages@)
                == message_rows_of(c) ==> (res matches Some(r) && r@ == c),
{
    let id = parse_id(row.id.as_str());
    let created_at = Timestamp::parse_rfc3339(row.created_at.as_str());
    let updated_at = Timestamp::parse_rfc3339(row.updated_at.as_str());
    let ghost rows = message_row_views(messages@);
    let mut read: Vec<Message> = Vec::new();
    let mut i: usize = 0;
    while i < messages.len()
        invariant
            i <= messages.len(),
            rows == message_row_views(messages@),
            read.len() == i,
            forall|j: int| 0 <= j < i ==> message_row_readable(#[trigger] rows[j]),
            forall|j: int| 0 <= j < i ==> message_read_as(rows[j], #[trigger] read@[j]@),
            forall|j: int, cid: u128, m: MessageView|
                0 <= j < i && exact_text(m.timestamp) && rows[j] == #[trigger] message_row_of(cid, m)
                    ==> #[trigger] read@[j]@ == m,
        decreases messages.len() - i,
    {
        match read_message(&messages[i]) {
            Some(m) => {
                read.push(m);
            },
            None => {
                proof {
                    assert(rows[i as int] == messages@[i as int]@);
                    assert forall|v: ConversationView|
                        times_exact(v) && row@ == #[trigger] conversation_row_of(v) && rows
                            == message_rows_of(v) implies false by {
                        assert(rows.len() == messages@.len());
                        assert(message_rows_of(v).len() == v.messages.len());
                        assert(rows[i as int] == message_row_of(v.id, v.messages[i as int]));
                        assert(exact_text(v.messages[i as int].timestamp));
                    }
                }
                return None;
            },
        }
        i = i + 1;
    }
    match (id, created_at, updated_at) {
        (Some(id), Some(created_at), Some(updated_at)) => {
            let c = Conversation {
                id,
                title: row.title.clone(),
                model: row.model.clone(),
                system_prompt: row.system_prompt.clone(),
                messages: read,
                created_at,
                updated_at,
            };
            proof {
                assert forall|v: ConversationView|
                    times_exact(v) && row@ == #[trigger] conversation_row_of(v) && rows == message_rows_of(
                        v,
                    ) implies c@ == v by {
                    assert(rows.len() == v.messages.len());
                    assert forall|j: int| 0 <= j < v.messages.len() implies c@.messages[j] == v.messages[j] by {
                        assert(rows[j] == message_row_of(v.id, v.messages[j]));
                        assert(exact_text(v.messages[j].timestamp));
                    }
                    assert(c@.messages =~= v.messages);
                }
            }
            Some(c)
        },
        _ => None,
    }
}

/// Each column of a stored row holds the field it is named after: the
/// identifier's text, the title, the model, the system prompt, and the text of
/// each time; a message row holds its own identifier, its conversation's,
/// its role, its content, its time and its token count. The messages are
/// stored one row each, in their order. Reading a row takes each field from
/// the column of its name.
pub proof fn law_rows_hold_their_fields(
    c: ConversationView,
    cid: u128,
    m: MessageView,
    row: ConversationRowView,
    rows: Seq<MessageRowView>,
    read: ConversationView,
    mrow: MessageRowView,
    mread: MessageView,
)
    ensures
        conversation_row_of(c).id == uuid_hyphenated(c.id),
        conversation_row_of(c).title == c.title,
        conversation_row_of(c).model == c.model,
        conversation_row_of(c).system_prompt == c.system_prompt,
        conversation_row_of(c).created_at == timestamp_text(c.created_at),
        conversation_row_of(c).updated_at == timestamp_text(c.updated_at),
        message_row_of(cid, m).id == uuid_hyphenated(m.id),
        message_row_of(cid, m).conversation_id == uuid_hyphenated(cid),
        message_row_of(cid, m).role == m.role,
        message_row_of(cid, m).content == m.content,
        message_row_of(cid, m).timestamp == timestamp_text(m.timestamp),
        message_row_of(cid, m).token_count == m.token_count,
        message_rows_of(c).len() == c.messages.len(),
        forall|i: int|
            0 <= i < c.messages.len() ==> #[trigger] message_rows_of(c)[i] == message_row_of(
                c.id,
                c.messages[i],
            ),
        conversation_read_as(row, rows, read) ==> {
            &&& uuid_read(row.id) == Some(read.id)
            &&& read.title == row.title
            &&& read.model == row.model
            &&& read.system_prompt == row.system_prompt
            &&& reads_as(row.created_at, read.created_at)
            &&& reads_as(row.updated_at, read.updated_at)
            &&& read.messages.len() == rows.len()
        },
        message_read_as(mrow, mread) ==> {
            &&& uuid_read(mrow.id) == Some(mread.id)
            &&& mread.role == mrow.role
            &&& mread.content == mrow.content
            &&& reads_as(mrow.timestamp, mread.timestamp)
            &&& mread.token_count == mrow.token_count
        },
{
}

} // verus!
