use game_companion::request::RequestFailure;
use game_companion::state::{AppState, ChatMessage, FrameStep, MessageRole, SendAction};

fn sent(state: &mut AppState, text: &str) -> u64 {
    state.input_buffer = text.to_string();
    match state.begin_send() {
        SendAction::SpawnRequest { generation } => generation,
        other => panic!("unexpected {:?}", other),
    }
}

#[test]
fn new_state_is_idle() {
    let s = AppState::new();
    assert!(!s.visible);
    assert!(s.messages.is_empty());
    assert!(!s.is_loading);
    assert_eq!(s.request_generation, 0);
    assert!(!s.captures_input());
}

#[test]
fn blank_input_is_ignored() {
    let mut s = AppState::new();
    s.input_buffer = "   ".to_string();
    assert_eq!(s.begin_send(), SendAction::Ignored);
    assert!(s.messages.is_empty());
    assert_eq!(s.request_generation, 0);
    assert_eq!(s.input_buffer, "   ");
}

#[test]
fn send_commits_trimmed_text() {
    let mut s = AppState::new();
    s.error = Some("old".to_string());
    s.streaming_response = String::new();
    let g = sent(&mut s, "  hello there \n");
    assert_eq!(g, 1);
    assert_eq!(s.messages.len(), 1);
    assert_eq!(s.messages[0].role, MessageRole::User);
    assert_eq!(s.messages[0].content, "hello there");
    assert_eq!(s.input_buffer, "");
    assert!(s.is_loading);
    assert_eq!(s.error, None);
}

#[test]
fn chunks_accumulate_then_reply_commits() {
    let mut s = AppState::new();
    let g = sent(&mut s, "hi");
    assert!(s.append_chunk(g, "Hel"));
    assert!(s.append_chunk(g, "lo"));
    assert_eq!(s.streaming_response, "Hello");
    assert!(s.finish_request(g, Ok("Hello".to_string())));
    assert_eq!(s.messages.len(), 2);
    assert_eq!(s.messages[1].role, MessageRole::Assistant);
    assert_eq!(s.messages[1].content, "Hello");
    assert_eq!(s.streaming_response, "");
    assert!(!s.is_loading);
    assert_eq!(s.last_user_text(), "hi");
}

#[test]
fn stale_generation_writes_nothing() {
    let mut s = AppState::new();
    let g = sent(&mut s, "first");
    s.cancel();
    let before_msgs = s.messages.len();
    let before_err = s.error.clone();
    assert!(!s.append_chunk(g, "late"));
    assert!(!s.finish_request(g, Ok("late reply".to_string())));
    assert!(!s.finish_request(g, Err("late error".to_string())));
    assert_eq!(s.messages.len(), before_msgs);
    assert_eq!(s.streaming_response, "");
    assert_eq!(s.error, before_err);
}

#[test]
fn clear_chat_resets_conversation() {
    let mut s = AppState::new();
    let g = sent(&mut s, "hello");
    s.append_chunk(g, "partial");
    let before = s.request_generation;
    s.clear_chat();
    assert!(s.messages.is_empty());
    assert_eq!(s.streaming_response, "");
    assert!(!s.is_loading);
    assert_eq!(s.error, None);
    assert!(s.request_generation > before);
    assert!(!s.append_chunk(g, "more"));
}

#[test]
fn cancel_mid_stream_keeps_partial_text() {
    let mut s = AppState::new();
    let g = sent(&mut s, "what boss is this?");
    assert!(s.append_chunk(g, "This appears "));
    s.cancel();
    assert_eq!(s.messages.len(), 2);
    assert_eq!(s.messages[1].role, MessageRole::Assistant);
    assert_eq!(s.messages[1].content, "This appears  [cancelled]");
    assert!(!s.is_loading);
    assert_eq!(s.error.as_deref(), Some("Cancelled."));
    assert!(!s.append_chunk(g, "the boss"));
    assert_eq!(s.streaming_response, "");
    assert_eq!(s.messages.len(), 2);
}

#[test]
fn cancel_without_partial_adds_no_message() {
    let mut s = AppState::new();
    sent(&mut s, "hi");
    s.cancel();
    assert_eq!(s.messages.len(), 1);
    assert_eq!(s.error.as_deref(), Some("Cancelled."));
}

#[test]
fn rate_limited_request_reports_error() {
    let mut s = AppState::new();
    let g = sent(&mut s, "hello");
    let err = RequestFailure::Status(429).message();
    assert!(s.finish_request(g, Err(err)));
    assert_eq!(s.error.as_deref(), Some("Rate limited."));
    assert!(!s.is_loading);
    assert_eq!(s.messages.len(), 1);
    assert_eq!(s.messages[0].content, "hello");
}

#[test]
fn failure_keeps_partial_reply() {
    let mut s = AppState::new();
    let g = sent(&mut s, "hello");
    s.append_chunk(g, "Part");
    assert!(s.finish_request(g, Err("Stream error: reset".to_string())));
    assert_eq!(s.messages.len(), 2);
    assert_eq!(s.messages[1].content, "Part");
    assert_eq!(s.error.as_deref(), Some("Stream error: reset"));
}

#[test]
fn send_with_screenshot_waits_two_frames() {
    let mut s = AppState::new();
    s.visible = true;
    s.attach_screenshot = true;
    s.input_buffer = "what boss is this?".to_string();
    // frame N: the send happens while the panel is drawn
    let g = match s.begin_send() {
        SendAction::AwaitCapture { generation } => generation,
        other => panic!("unexpected {:?}", other),
    };
    assert!(s.capture_pending);
    assert!(s.send_pending_capture);
    assert_eq!(s.capture_wait_frames, 2);
    // frame N+1: hidden, settling
    assert_eq!(s.begin_frame(), FrameStep::HoldForCapture);
    // frame N+2: capture
    assert_eq!(s.begin_frame(), FrameStep::CaptureNow);
    let pending = s.capture_finished(Some("iVBORw0K".to_string())).expect("request to spawn");
    assert_eq!(pending.generation, g);
    assert_eq!(pending.screenshot.as_deref(), Some("iVBORw0K"));
    assert_eq!(s.captured_screenshot.as_deref(), Some("iVBORw0K"));
    assert!(!s.send_pending_capture);
    assert!(!s.capture_pending);
    assert_eq!(s.begin_frame(), FrameStep::Draw);
    assert!(s.append_chunk(g, "This "));
    assert_eq!(s.streaming_response, "This ");
    assert!(s.append_chunk(g, "is the boss."));
    assert_eq!(s.streaming_response, "This is the boss.");
    assert!(s.finish_request(g, Ok("This is the boss.".to_string())));
    assert_eq!(s.messages.last().unwrap().content, "This is the boss.");
}

#[test]
fn failed_capture_sends_text_only() {
    let mut s = AppState::new();
    s.attach_screenshot = true;
    s.input_buffer = "hi".to_string();
    s.begin_send();
    let pending = s.capture_finished(None).expect("request to spawn");
    assert_eq!(pending.screenshot, None);
    assert_eq!(s.captured_screenshot, None);
    assert_eq!(s.error.as_deref(), Some("Screenshot capture failed \u{2014} sending text only."));
}

#[test]
fn capture_without_waiting_send_is_stored() {
    let mut s = AppState::new();
    s.capture_pending = true;
    assert!(s.capture_finished(Some("abc".to_string())).is_none());
    assert_eq!(s.captured_screenshot.as_deref(), Some("abc"));
}

#[test]
fn hidden_panel_is_not_drawn() {
    let mut s = AppState::new();
    assert_eq!(s.begin_frame(), FrameStep::Hidden);
    s.toggle_visible();
    assert_eq!(s.begin_frame(), FrameStep::Draw);
    assert!(s.captures_input());
}

#[test]
fn last_user_text_skips_assistant_messages() {
    let mut s = AppState::new();
    assert_eq!(s.last_user_text(), "");
    s.messages.push(ChatMessage { role: MessageRole::User, content: "q".to_string() });
    s.messages.push(ChatMessage { role: MessageRole::Assistant, content: "a".to_string() });
    assert_eq!(s.last_user_text(), "q");
}
