use rustyllama::db::{conversation_row, message_row, message_rows, read_conversation, read_message, ConversationRow, MessageRow};
use rustyllama::ids::{id_text, new_id, parse_id};
use rustyllama::models::{Conversation, Message};
use rustyllama::time::{Timestamp, MAX_SECONDS, MIN_SECONDS};

fn at(secs: i64, nanos: u32) -> Timestamp {
    Timestamp::new(secs, nanos).unwrap()
}

#[test]
fn timestamp_bounds() {
    assert!(Timestamp::new(0, 0).is_some());
    assert!(Timestamp::new(MIN_SECONDS, 0).is_some());
    assert!(Timestamp::new(MAX_SECONDS, 999_999_999).is_some());
    assert!(Timestamp::new(MIN_SECONDS - 1, 0).is_none());
    assert!(Timestamp::new(MAX_SECONDS + 1, 0).is_none());
    assert!(Timestamp::new(0, 1_000_000_000).is_none());
    // A leap second is held on the last second of a minute only.
    assert!(Timestamp::new(59, 1_500_000_000).is_some());
    assert!(Timestamp::new(-1, 1_500_000_000).is_some());
    assert!(Timestamp::new(58, 1_500_000_000).is_none());
    assert!(Timestamp::new(59, 2_000_000_000).is_none());
    let t = at(1_700_000_000, 5);
    assert_eq!(t.secs(), 1_700_000_000);
    assert_eq!(t.nanos(), 5);
}

#[test]
fn timestamp_rfc3339_text() {
    assert_eq!(at(0, 0).to_rfc3339(), "1970-01-01T00:00:00+00:00");
    assert_eq!(at(1_431_648_000, 0).to_rfc3339(), "2015-05-15T00:00:00+00:00");
    assert_eq!(at(1_431_648_000, 123_000_000).to_rfc3339(), "2015-05-15T00:00:00.123+00:00");
    let t = Timestamp::parse_rfc3339("2015-05-15T00:00:00.123+00:00").unwrap();
    assert_eq!((t.secs(), t.nanos()), (1_431_648_000, 123_000_000));
    let z = Timestamp::parse_rfc3339("2015-05-15T02:00:00+02:00").unwrap();
    assert_eq!((z.secs(), z.nanos()), (1_431_648_000, 0));
    assert!(Timestamp::parse_rfc3339("yesterday").is_none());
}

#[test]
fn leap_second_reads_back() {
    // 2016-12-31T23:59:60.5Z: the last second of the day, plus a leap second.
    let t = at(1_483_228_799, 1_500_000_000);
    let text = t.to_rfc3339();
    assert_eq!(text, "2016-12-31T23:59:60.500+00:00");
    let back = Timestamp::parse_rfc3339(&text).unwrap();
    assert_eq!((back.secs(), back.nanos()), (1_483_228_799, 1_500_000_000));
    let mut c = Conversation::new_at(0x44, t, "m".to_string(), "p".to_string());
    c.messages.push(Message::new_at(0x45, "user".to_string(), "x".to_string(), t));
    let read = read_conversation(&conversation_row(&c), &message_rows(&c)).unwrap();
    assert_eq!(read.created_at.nanos(), 1_500_000_000);
    assert_eq!(read.messages[0].timestamp.nanos(), 1_500_000_000);
}

#[test]
fn timestamp_now_is_after_epoch() {
    let t = Timestamp::now();
    assert!(t.secs() > 1_600_000_000);
    assert!(t.nanos() < 1_000_000_000);
}

#[test]
fn uuid_text_round_trip() {
    let v: u128 = 0x550e8400_e29b_41d4_a716_446655440000;
    assert_eq!(id_text(v), "550e8400-e29b-41d4-a716-446655440000");
    assert_eq!(id_text(0), "00000000-0000-0000-0000-000000000000");
    assert_eq!(parse_id("550e8400-e29b-41d4-a716-446655440000"), Some(v));
    assert_eq!(parse_id("not an id"), None);
    let fresh = new_id();
    assert_eq!((fresh >> 76) & 0xF, 4);
    assert_eq!((fresh >> 62) & 0x3, 2);
    assert_eq!(parse_id(&id_text(fresh)), Some(fresh));
}

#[test]
fn new_conversation_is_empty_and_titled() {
    let c = Conversation::new("llama2".to_string(), "Be brief.".to_string());
    assert_eq!(c.title, "New Conversation");
    assert_eq!(c.model, "llama2");
    assert_eq!(c.system_prompt, "Be brief.");
    assert!(c.messages.is_empty());
    assert_eq!(c.created_at.secs(), c.updated_at.secs());
    assert_eq!(c.created_at.nanos(), c.updated_at.nanos());
    let d = Conversation::new_at(7, at(100, 0), "m".to_string(), "p".to_string());
    assert_eq!(d.id, 7);
    assert_eq!(d.created_at.secs(), 100);
}

#[test]
fn new_message_has_no_token_count() {
    let m = Message::new("user".to_string(), "hi".to_string());
    assert_eq!(m.role, "user");
    assert_eq!(m.content, "hi");
    assert_eq!(m.token_count, None);
    let n = Message::new_at(3, "assistant".to_string(), "yo".to_string(), at(5, 6));
    assert_eq!(n.id, 3);
    assert_eq!(n.timestamp.secs(), 5);
}

fn sample() -> Conversation {
    let mut c = Conversation::new_at(0x11, at(1_700_000_000, 0), "llama2".to_string(), "sys".to_string());
    c.messages.push(Message::new_at(0x22, "user".to_string(), "Hello".to_string(), at(1_700_000_001, 250_000_000)));
    let mut reply = Message::new_at(0x33, "assistant".to_string(), "Hi there".to_string(), at(1_700_000_002, 7));
    reply.token_count = Some(12);
    c.messages.push(reply);
    c.updated_at = at(1_700_000_002, 7);
    c
}

#[test]
fn conversation_rows_hold_text() {
    let c = sample();
    let row = conversation_row(&c);
    assert_eq!(row.id, "00000000-0000-0000-0000-000000000011");
    assert_eq!(row.title, "New Conversation");
    assert_eq!(row.created_at, "2023-11-14T22:13:20+00:00");
    assert_eq!(row.updated_at, "2023-11-14T22:13:22.000000007+00:00");
    let rows = message_rows(&c);
    assert_eq!(rows.len(), 2);
    assert_eq!(rows[0].id, "00000000-0000-0000-0000-000000000022");
    assert_eq!(rows[0].conversation_id, row.id);
    assert_eq!(rows[0].timestamp, "2023-11-14T22:13:21.250+00:00");
    assert_eq!(rows[1].token_count, Some(12));
    let single = message_row(0x11, &c.messages[1]);
    assert_eq!(single.content, "Hi there");
}

#[test]
fn conversation_reads_back_as_written() {
    let c = sample();
    let back = read_conversation(&conversation_row(&c), &message_rows(&c)).unwrap();
    assert_eq!(back.id, c.id);
    assert_eq!(back.title, c.title);
    assert_eq!(back.model, c.model);
    assert_eq!(back.system_prompt, c.system_prompt);
    assert_eq!(back.created_at.secs(), c.created_at.secs());
    assert_eq!(back.updated_at.nanos(), 7);
    assert_eq!(back.messages.len(), 2);
    assert_eq!(back.messages[0].id, 0x22);
    assert_eq!(back.messages[0].timestamp.nanos(), 250_000_000);
    assert_eq!(back.messages[1].content, "Hi there");
    assert_eq!(back.messages[1].token_count, Some(12));
}

#[test]
fn unreadable_rows_give_nothing() {
    let c = sample();
    let mut row = conversation_row(&c);
    row.id = "zzz".to_string();
    assert!(read_conversation(&row, &message_rows(&c)).is_none());
    let mut rows = message_rows(&c);
    rows[1].timestamp = "later".to_string();
    assert!(read_conversation(&conversation_row(&c), &rows).is_none());
    let bad = MessageRow {
        id: "00000000-0000-0000-0000-000000000001".to_string(),
        conversation_id: String::new(),
        role: "user".to_string(),
        content: "x".to_string(),
        timestamp: "2020-01-01T00:00:00Z".to_string(),
        token_count: None,
    };
    let m = read_message(&bad).unwrap();
    assert_eq!(m.id, 1);
    assert_eq!(m.timestamp.secs(), 1_577_836_800);
    let empty = ConversationRow {
        id: "00000000-0000-0000-0000-000000000002".to_string(),
        title: "t".to_string(),
        model: "m".to_string(),
        system_prompt: "s".to_string(),
        created_at: "2020-01-01T00:00:00Z".to_string(),
        updated_at: "bad".to_string(),
    };
    assert!(read_conversation(&empty, &vec![]).is_none());
}
