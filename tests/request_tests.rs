use game_companion::request::{
    build_translation_prompt, check_api_key, check_status, data_payload, image_data_url,
    reply_outcome, request_turns, stream_endpoint, system_instruction, translation_history,
    trim_history, wire_role, LineBuffer, LocalFailure, RequestFailure,
};
use game_companion::request::{accept_fragment, FragmentStep};
use game_companion::state::{AppState, ChatMessage, MessageRole, SendAction};

fn conversation(n: usize) -> Vec<ChatMessage> {
    (0..n)
        .map(|i| ChatMessage {
            role: if i % 2 == 0 { MessageRole::User } else { MessageRole::Assistant },
            content: format!("m{i}"),
        })
        .collect()
}

#[test]
fn short_history_is_sent_whole() {
    let msgs = conversation(5);
    let sent = trim_history(&msgs);
    assert_eq!(sent.len(), 5);
    assert_eq!(sent[0].content, "m0");
}

#[test]
fn long_history_keeps_last_fifty() {
    let msgs = conversation(60);
    let sent = trim_history(&msgs);
    assert_eq!(sent.len(), 50);
    assert_eq!(sent[0].role, MessageRole::User);
    assert_eq!(sent[0].content, "m10");
    assert_eq!(sent[49].content, "m59");
}

#[test]
fn trimmed_history_drops_leading_assistant() {
    let msgs = conversation(61);
    let sent = trim_history(&msgs);
    assert_eq!(sent.len(), 49);
    assert_eq!(sent[0].role, MessageRole::User);
    assert_eq!(sent[0].content, "m12");
    for w in sent.windows(2) {
        let a: usize = w[0].content[1..].parse().unwrap();
        let b: usize = w[1].content[1..].parse().unwrap();
        assert_eq!(a + 1, b);
    }
}

#[test]
fn system_prompt_names_the_game() {
    let t = system_instruction(&Some("Elden Ring".to_string()), "Be brief.");
    assert_eq!(t.as_deref(), Some("The user is currently playing Elden Ring. Be brief."));
    let u = system_instruction(&None, "Be brief.");
    assert_eq!(u.as_deref(), Some("Be brief."));
    assert_eq!(system_instruction(&None, ""), None);
}

#[test]
fn status_failures_map_to_messages() {
    assert_eq!(RequestFailure::Status(400).message(), "Bad request. Try a shorter message.");
    assert_eq!(RequestFailure::Status(403).message(), "Invalid API key.");
    assert_eq!(RequestFailure::Status(429).message(), "Rate limited.");
    assert_eq!(RequestFailure::Status(500).message(), "API server error. Try again.");
    assert_eq!(RequestFailure::Status(503).message(), "API server error. Try again.");
    assert_eq!(RequestFailure::Status(418).message(), "API error (HTTP 418).");
    assert_eq!(RequestFailure::Status(404).message(), "API error (HTTP 404).");
}

#[test]
fn transport_failures_map_to_messages() {
    assert_eq!(RequestFailure::Timeout.message(), "Request timed out. Try again.");
    assert_eq!(
        RequestFailure::Transport("connection refused".to_string()).message(),
        "Network error: connection refused"
    );
    assert_eq!(RequestFailure::Stream("reset".to_string()).message(), "Stream error: reset");
    assert_eq!(RequestFailure::EmptyBody.message(), "Empty response from API.");
    assert_eq!(
        RequestFailure::MissingKey.message(),
        "No API key configured. Add your key to config.toml."
    );
}

#[test]
fn status_check_accepts_success_range() {
    assert!(check_status(200).is_none());
    assert!(check_status(299).is_none());
    assert!(matches!(check_status(429), Some(RequestFailure::Status(429))));
    assert!(matches!(check_status(199), Some(RequestFailure::Status(199))));
}

#[test]
fn missing_key_is_reported() {
    assert!(matches!(check_api_key(""), Some(RequestFailure::MissingKey)));
    assert!(check_api_key("k").is_none());
}

#[test]
fn empty_stream_is_a_failure() {
    assert!(matches!(reply_outcome(String::new()), Err(RequestFailure::EmptyBody)));
    assert_eq!(reply_outcome("ok".to_string()).ok().as_deref(), Some("ok"));
}

#[test]
fn line_buffer_yields_complete_trimmed_lines() {
    let mut b = LineBuffer::new();
    b.push_text("data: {\"a\":1}\r\n\nda");
    assert_eq!(b.next_line().as_deref(), Some("data: {\"a\":1}"));
    assert_eq!(b.next_line().as_deref(), Some(""));
    assert_eq!(b.next_line(), None);
    b.push_text("ta: x\n");
    assert_eq!(b.next_line().as_deref(), Some("data: x"));
    assert_eq!(b.next_line(), None);
}

#[test]
fn data_lines_give_payloads() {
    assert_eq!(data_payload("data: {\"x\":1}").as_deref(), Some("{\"x\":1}"));
    assert_eq!(data_payload("data: ").as_deref(), Some(""));
    assert_eq!(data_payload("event: ping"), None);
    assert_eq!(data_payload("data:"), None);
}

#[test]
fn translation_prompt_names_language() {
    assert_eq!(
        build_translation_prompt("German"),
        "Translate all foreign/non-English text visible on screen to German. If no foreign text is visible, say so briefly. Be concise \u{2014} just provide the translations, grouped logically."
    );
}

#[test]
fn translation_replaces_last_user_message() {
    let msgs = conversation(3);
    let out = translation_history(msgs, "PROMPT".to_string());
    assert_eq!(out.len(), 3);
    assert_eq!(out[0].content, "m0");
    assert_eq!(out[2].content, "PROMPT");
    let msgs = conversation(2);
    let out = translation_history(msgs, "PROMPT".to_string());
    assert_eq!(out[1].content, "m1");
}

#[test]
fn screenshot_goes_with_last_user_turn() {
    let msgs = conversation(3);
    let turns = request_turns(&msgs, Some("IMG".to_string()));
    assert_eq!(turns.len(), 3);
    assert_eq!(turns[0].image, None);
    assert_eq!(turns[1].image, None);
    assert_eq!(turns[2].image.as_deref(), Some("IMG"));
    assert_eq!(turns[2].text, "m2");
    let msgs = conversation(2);
    let turns = request_turns(&msgs, Some("IMG".to_string()));
    assert!(turns.iter().all(|t| t.image.is_none()));
}

#[test]
fn wire_roles_and_endpoint() {
    assert_eq!(wire_role(MessageRole::User), "user");
    assert_eq!(wire_role(MessageRole::Assistant), "model");
    assert_eq!(
        stream_endpoint("gemini-2.5-flash"),
        "https://generativelanguage.googleapis.com/v1beta/models/gemini-2.5-flash:streamGenerateContent?alt=sse"
    );
    assert_eq!(image_data_url("QUJD"), "data:image/png;base64,QUJD");
}

#[test]
fn local_failures_map_to_messages() {
    assert_eq!(LocalFailure::NoScreenshot.message(), "No screenshot captured for translation.");
    assert_eq!(LocalFailure::Timeout.message(), "Local model timed out. Is it running?");
    assert_eq!(
        LocalFailure::Connect { endpoint: "http://x".to_string() }.message(),
        "Cannot connect to local model at http://x. Is Ollama/LM Studio running?"
    );
    assert_eq!(LocalFailure::Transport("e".to_string()).message(), "Local model error: e");
    assert_eq!(
        LocalFailure::Status { status: "500 Internal Server Error".to_string(), body: "b".to_string() }
            .message(),
        "Local model error (HTTP 500 Internal Server Error): b"
    );
    assert_eq!(
        LocalFailure::Parse("eof".to_string()).message(),
        "Failed to parse local model response: eof"
    );
    assert_eq!(LocalFailure::Empty.message(), "Empty response from local model.");
}

#[test]
fn fragments_feed_reply_until_cancelled() {
    let mut s = AppState::new();
    s.input_buffer = "hi".to_string();
    let g = match s.begin_send() {
        SendAction::SpawnRequest { generation } => generation,
        other => panic!("unexpected {:?}", other),
    };
    let mut full = String::new();
    assert_eq!(accept_fragment(&mut full, &mut s, g, ""), FragmentStep::Skipped);
    assert_eq!(accept_fragment(&mut full, &mut s, g, "Hel"), FragmentStep::Appended);
    assert_eq!(accept_fragment(&mut full, &mut s, g, "lo"), FragmentStep::Appended);
    assert_eq!(full, "Hello");
    assert_eq!(s.streaming_response, "Hello");
    s.cancel();
    assert_eq!(accept_fragment(&mut full, &mut s, g, "!"), FragmentStep::Cancelled);
    assert_eq!(full, "Hello!");
    assert_eq!(s.streaming_response, "");
}
