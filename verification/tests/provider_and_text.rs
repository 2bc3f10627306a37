use rustyllama::config::{Settings, Theme};
use rustyllama::models;
use rustyllama::ndjson::LineBuffer;
use rustyllama::provider::{
    decimal_text, health_from_status, model_info, models_from_response, size_label, Message, OllamaConfig,
    OllamaModel, OllamaModelDetails, OllamaModelsResponse,
};
use rustyllama::text::{is_blank, is_white_space};
use rustyllama::time::Timestamp;

#[test]
fn default_ollama_config() {
    let c = OllamaConfig::default();
    assert_eq!(c.base_url, "http://localhost:11434");
    assert_eq!(c.timeout, 30);
    assert_eq!(c.models_url(), "http://localhost:11434/api/models");
    assert_eq!(c.chat_url(), "http://localhost:11434/api/chat");
}

#[test]
fn size_labels_are_decimal() {
    assert_eq!(size_label(0), "0 bytes");
    assert_eq!(size_label(7), "7 bytes");
    assert_eq!(size_label(3_825_819_519), "3825819519 bytes");
    assert_eq!(size_label(u64::MAX), "18446744073709551615 bytes");
}

#[test]
fn listed_models_are_shown() {
    let with_details = OllamaModel {
        name: "llama2:7b".to_string(),
        size: Some(1024),
        details: Some(OllamaModelDetails { quantization_level: Some("Q4_0".to_string()), context_length: Some(4096) }),
    };
    let bare = OllamaModel { name: "tiny".to_string(), size: None, details: None };
    let info = model_info(&with_details);
    assert_eq!(info.name, "llama2:7b");
    assert_eq!(info.size, Some("1024 bytes".to_string()));
    assert_eq!(info.quantization, Some("Q4_0".to_string()));
    assert_eq!(info.context_length, Some(4096));
    let all = models_from_response(&OllamaModelsResponse { models: vec![with_details, bare] });
    assert_eq!(all.len(), 2);
    assert_eq!(all[1].name, "tiny");
    assert_eq!(all[1].size, None);
    assert_eq!(all[1].quantization, None);
    assert_eq!(all[1].context_length, None);
}

#[test]
fn decimal_text_writes_digits() {
    assert_eq!(decimal_text(0), "0");
    assert_eq!(decimal_text(10), "10");
    assert_eq!(decimal_text(907), "907");
    assert_eq!(decimal_text(u64::MAX), u64::MAX.to_string());
}

#[test]
fn streamed_lines_one_per_reply() {
    let mut buf = LineBuffer::new();
    let a = buf.push(b"{\"message\":{\"role\":\"assistant\",\"content\":\"Hel\"},\"done\":false}\n{\"mess");
    assert_eq!(a.len(), 1);
    assert_eq!(a[0], b"{\"message\":{\"role\":\"assistant\",\"content\":\"Hel\"},\"done\":false}".to_vec());
    let b = buf.push(b"age\":null,\"done\":true}\n\n");
    assert_eq!(b, vec![b"{\"message\":null,\"done\":true}".to_vec()]);
    assert!(buf.partial.is_empty());
    assert_eq!(buf.finish(), None);
    let c = buf.push(b"tail");
    assert!(c.is_empty());
    assert_eq!(buf.finish(), Some(b"tail".to_vec()));
}

#[test]
fn chunking_does_not_change_lines() {
    let body: &[u8] = b"one\ntwo\n\nthree\nfour";
    let mut whole = LineBuffer::new();
    let all = whole.push(body);
    for cut in 0..=body.len() {
        let mut parts = LineBuffer::new();
        let mut lines = parts.push(&body[..cut]);
        lines.extend(parts.push(&body[cut..]));
        assert_eq!(lines, all);
        assert_eq!(parts.partial, whole.partial);
    }
    assert_eq!(all, vec![b"one".to_vec(), b"two".to_vec(), b"three".to_vec()]);
    assert_eq!(whole.finish(), Some(b"four".to_vec()));
}

#[test]
fn health_follows_status() {
    assert_eq!(health_from_status(200), Ok(()));
    assert_eq!(health_from_status(204), Ok(()));
    assert_eq!(health_from_status(299), Ok(()));
    assert_eq!(health_from_status(300), Err("Health check failed".to_string()));
    assert_eq!(health_from_status(199), Err("Health check failed".to_string()));
    assert_eq!(health_from_status(404), Err("Health check failed".to_string()));
}

#[test]
fn stored_message_becomes_chat_message() {
    let stored = models::Message::new_at(1, "user".to_string(), "Hi".to_string(), Timestamp::new(0, 0).unwrap());
    let m: Message = stored.into();
    assert_eq!(m.role, "user");
    assert_eq!(m.content, "Hi");
}

#[test]
fn blank_input() {
    assert!(is_blank(""));
    assert!(is_blank(" \t\r\n"));
    assert!(is_blank("\u{3000}\u{a0}\u{2028}\u{85}"));
    assert!(!is_blank(" a "));
    assert!(!is_blank("\u{200b}"));
    assert!(is_white_space('\u{1680}'));
    assert!(!is_white_space('x'));
    for c in ['\u{9}', '\u{a}', '\u{b}', '\u{c}', '\u{d}', ' ', '\u{2000}', '\u{200a}', '\u{202f}', '\u{205f}'] {
        assert!(is_white_space(c));
        assert_eq!(is_white_space(c), c.is_whitespace());
    }
    for u in 0u32..0x3100 {
        if let Some(c) = char::from_u32(u) {
            assert_eq!(is_white_space(c), c.is_whitespace(), "{:x}", u);
        }
    }
}

#[test]
fn default_settings() {
    let s = Settings::default();
    assert_eq!(s.default_model, "llama2");
    assert_eq!(s.default_system_prompt, "You are a helpful assistant.");
    assert!(s.theme == Theme::Dark);
    assert_eq!(s.ollama.base_url, "http://localhost:11434");
    assert_eq!(s.ollama.timeout, 30);
}

#[test]
fn themes_compare() {
    assert!(Theme::Dark == Theme::Dark);
    assert!(Theme::Light != Theme::System);
}
