use rustyllama::models::{Conversation, Message};
use rustyllama::provider::{ChatResponse, Message as ChatMessage};
use rustyllama::session::{send_requested, ChatSession};
use rustyllama::stream::{StreamEvent, StreamState};
use rustyllama::time::Timestamp;

fn at(secs: i64) -> Timestamp {
    Timestamp::new(secs, 0).unwrap()
}

fn reply(text: &str, done: bool) -> StreamEvent {
    StreamEvent::Reply(ChatResponse {
        message: Some(ChatMessage { role: "assistant".to_string(), content: text.to_string() }),
        done,
        done_reason: None,
    })
}

fn defaults() -> (String, String) {
    ("llama2".to_string(), "You are a helpful assistant.".to_string())
}

#[test]
fn blank_input_starts_nothing() {
    let mut s = ChatSession::new(vec![]);
    s.input_text = "   \n".to_string();
    let (m, p) = defaults();
    assert!(s.start_chat_at(1, 2, at(10), m, p).is_none());
    assert!(s.conversations.is_empty());
    assert_eq!(s.current_conversation, None);
    assert_eq!(s.input_text, "   \n");
    assert!(!s.is_streaming());
}

#[test]
fn first_message_creates_conversation() {
    let mut s = ChatSession::new(vec![Conversation::new_at(9, at(1), "old".to_string(), "p".to_string())]);
    s.input_text = "Hello".to_string();
    let (m, p) = defaults();
    let start = s.start_chat_at(1, 2, at(10), m, p).unwrap();
    assert_eq!(start.conversation_id, 1);
    assert_eq!(s.current_conversation, Some(1));
    assert_eq!(s.conversations.len(), 2);
    assert_eq!(s.conversations[0].id, 1);
    assert_eq!(s.conversations[0].title, "New Conversation");
    assert_eq!(s.conversations[0].model, "llama2");
    assert_eq!(s.conversations[0].messages.len(), 1);
    assert_eq!(s.conversations[0].messages[0].id, 2);
    assert_eq!(s.conversations[0].messages[0].role, "user");
    assert_eq!(s.conversations[0].messages[0].content, "Hello");
    assert_eq!(s.conversations[1].id, 9);
    assert_eq!(s.input_text, "");
    assert!(s.is_streaming());
    assert_eq!(s.streaming_response, Some(String::new()));
    assert_eq!(start.request.model, "llama2");
    assert!(start.request.stream);
    assert!(start.request.options.is_empty());
    assert_eq!(start.request.messages.len(), 1);
    assert_eq!(start.request.messages[0].content, "Hello");
    assert_eq!(start.request.messages[0].role, "user");
}

#[test]
fn no_start_while_streaming() {
    let mut s = ChatSession::new(vec![]);
    s.input_text = "one".to_string();
    let (m, p) = defaults();
    assert!(s.start_chat_at(1, 2, at(10), m.clone(), p.clone()).is_some());
    s.input_text = "two".to_string();
    assert!(s.start_chat_at(3, 4, at(11), m, p).is_none());
    assert_eq!(s.conversations.len(), 1);
    assert_eq!(s.conversations[0].messages.len(), 1);
    assert_eq!(s.input_text, "two");
}

#[test]
fn full_chat_turn() {
    let mut existing = Conversation::new_at(5, at(1), "mistral".to_string(), "p".to_string());
    existing.messages.push(Message::new_at(50, "user".to_string(), "earlier".to_string(), at(2)));
    let mut s = ChatSession::new(vec![existing]);
    s.select_conversation(5);
    assert_eq!(s.current().unwrap().id, 5);
    s.input_text = "Why is the sky blue?".to_string();
    let (m, p) = defaults();
    let start = s.start_chat_at(1, 51, at(10), m, p).unwrap();
    assert_eq!(start.conversation_id, 5);
    assert_eq!(start.request.model, "mistral");
    assert_eq!(start.request.messages.len(), 2);
    assert_eq!(start.request.messages[0].content, "earlier");

    let mut state = StreamState::default();
    state.begin(start.conversation_id);
    let mut output = String::new();
    assert!(!state.step(&mut output, reply("Rayleigh ", false)));
    assert_eq!(state.response, "Rayleigh ");

    // Polling mid-stream shows what arrived so far.
    assert_eq!(s.check_stream_state_at(&mut state, 52, at(11)), None);
    assert_eq!(s.streaming_response, Some("Rayleigh ".to_string()));

    assert!(state.step(&mut output, reply("scattering.", true)));
    assert!(state.done);
    assert_eq!(state.response, "Rayleigh scattering.");

    assert_eq!(s.check_stream_state_at(&mut state, 52, at(12)), Some(5));
    assert!(!s.is_streaming());
    assert_eq!(s.streaming_response, None);
    let c = s.conversation(5).unwrap();
    assert_eq!(c.messages.len(), 3);
    assert_eq!(c.messages[1].role, "user");
    assert_eq!(c.messages[1].content, "Why is the sky blue?");
    assert_eq!(c.messages[2].id, 52);
    assert_eq!(c.messages[2].role, "assistant");
    assert_eq!(c.messages[2].content, "Rayleigh scattering.");
    assert_eq!(c.updated_at.secs(), 12);
    assert_eq!(state.conversation_id, None);
    assert_eq!(state.response, "");
    assert!(!state.done);
    assert_eq!(state.error, None);
}

#[test]
fn failed_stream_records_error() {
    let mut s = ChatSession::new(vec![]);
    s.input_text = "hi".to_string();
    let (m, p) = defaults();
    let start = s.start_chat_at(1, 2, at(10), m, p).unwrap();
    let mut state = StreamState::default();
    state.begin(start.conversation_id);
    let mut output = String::new();
    assert!(!state.step(&mut output, reply("par", false)));
    assert!(state.step(&mut output, StreamEvent::Failed("connection reset".to_string())));
    assert_eq!(state.response, "par");
    assert_eq!(state.error, Some("connection reset".to_string()));
    assert_eq!(s.check_stream_state_at(&mut state, 3, at(11)), Some(1));
    let c = s.current().unwrap();
    assert_eq!(c.messages[1].content, "connection reset");
    assert_eq!(c.messages[1].role, "assistant");
}

#[test]
fn stream_that_runs_out() {
    let mut state = StreamState::default();
    state.begin(8);
    let mut output = String::new();
    assert!(!state.step(&mut output, reply("a", false)));
    assert!(!state.step(&mut output, StreamEvent::Reply(ChatResponse { message: None, done: false, done_reason: None })));
    assert!(!state.step(&mut output, reply("b", false)));
    assert!(state.step(&mut output, StreamEvent::Ended));
    assert_eq!(output, "ab");
    assert_eq!(state.response, "ab");
    assert!(state.done);
    assert_eq!(state.conversation_id, Some(8));
}

#[test]
fn poll_without_stream_changes_nothing() {
    let mut s = ChatSession::new(vec![]);
    let mut state = StreamState::default();
    state.done = true;
    assert_eq!(s.check_stream_state_at(&mut state, 1, at(1)), None);
    assert!(state.done);
    assert!(s.conversations.is_empty());
    let mut fresh = StreamState::default();
    assert_eq!(s.check_stream_state(&mut fresh), None);
}

#[test]
fn model_choice() {
    let mut s = ChatSession::new(vec![
        Conversation::new_at(1, at(1), "llama2".to_string(), "p".to_string()),
        Conversation::new_at(2, at(1), "phi".to_string(), "p".to_string()),
    ]);
    assert!(!s.is_model_selected(&"llama2".to_string()));
    assert_eq!(s.select_model_at("mistral".to_string(), at(5)), None);
    s.select_conversation(2);
    assert!(s.is_model_selected(&"phi".to_string()));
    assert_eq!(s.select_model_at("mistral".to_string(), at(5)), Some(2));
    assert!(s.is_model_selected(&"mistral".to_string()));
    assert_eq!(s.conversations[1].model, "mistral");
    assert_eq!(s.conversations[1].updated_at.secs(), 5);
    assert_eq!(s.conversations[0].model, "llama2");
    assert_eq!(s.select_model("gemma".to_string()), Some(2));
    assert_eq!(s.current().unwrap().model, "gemma");
}

#[test]
fn new_conversation_goes_first() {
    let mut s = ChatSession::new(vec![Conversation::new_at(1, at(1), "a".to_string(), "p".to_string())]);
    let id = s.create_new_conversation("b".to_string(), "q".to_string());
    assert_eq!(s.current_conversation, Some(id));
    assert_eq!(s.conversations[0].id, id);
    assert_eq!(s.conversations[0].model, "b");
    assert_eq!(s.position(1), Some(1));
    assert_eq!(s.position(12345), None);
    assert!(s.conversation(12345).is_none());
}

#[test]
fn start_chat_with_fresh_ids() {
    let mut s = ChatSession::new(vec![]);
    s.input_text = "hey".to_string();
    let (m, p) = defaults();
    let start = s.start_chat(m, p).unwrap();
    assert_eq!(s.current_conversation, Some(start.conversation_id));
    assert_eq!(s.conversations[0].messages[0].content, "hey");
}

#[test]
fn send_keys() {
    assert!(send_requested(true, false, false, false));
    assert!(send_requested(false, true, true, false));
    assert!(!send_requested(false, true, true, true));
    assert!(!send_requested(false, false, true, false));
    assert!(!send_requested(false, true, false, false));
}
