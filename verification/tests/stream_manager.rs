use beme_lib::ai::azure_audio::RealtimeAudioSession;
use beme_lib::ai::azure_vision::{ResponseAction, ResponsesTextStream};
use beme_lib::ai::{AiError, AudioSession, CaptureSource, Role, TextStream};
use beme_lib::capture::screen::{CaptureFrame, CaptureStep, ScreenCapture};
use beme_lib::stream_manager::{
    audio_status, chunk_result, now_iso, suggestion_json, test_log_line,
    AudioState, OutboundEvent, RollingContext, StreamManager, SuggestionPayload,
    DEFAULT_MAX_CONTEXT_PAIRS,
};
use beme_lib::ai::{ConversationEntry, ProviderConfig};
use beme_lib::encoding::fits_base64;
use std::cell::RefCell;
use std::rc::Rc;

/// A session that records what it is sent.
struct MockAudioSession {
    sent: Rc<RefCell<Vec<Vec<u8>>>>,
    closed: bool,
    fail_close: bool,
}

impl AudioSession for MockAudioSession {
    fn send_audio(&mut self, audio_data: &[u8]) -> Result<(), AiError> {
        if self.closed {
            return Err(AiError::ConnectionError("Session closed".into()));
        }
        self.sent.borrow_mut().push(audio_data.to_vec());
        Ok(())
    }

    fn close(&mut self) -> Result<(), AiError> {
        if self.fail_close {
            return Err(AiError::ConnectionError("close failed".into()));
        }
        self.closed = true;
        Ok(())
    }
}

fn mock_session() -> (MockAudioSession, Rc<RefCell<Vec<Vec<u8>>>>) {
    let sent = Rc::new(RefCell::new(Vec::new()));
    (MockAudioSession { sent: Rc::clone(&sent), closed: false, fail_close: false }, sent)
}

fn configured() -> StreamManager<MockAudioSession> {
    let mut sm = StreamManager::new();
    sm.configure_azure("https://test.openai.azure.com", "test-key", "gpt-4o", "You are helpful.", false);
    sm
}

#[test]
fn stream_manager_starts_unconfigured() {
    let sm: StreamManager<MockAudioSession> = StreamManager::new();
    assert!(!sm.is_configured());
    assert_eq!(sm.audio_state(), AudioState::Unconfigured);
    assert_eq!(sm.next_id(), 1);
    assert!(sm.context().is_empty());
    let default: StreamManager<MockAudioSession> = StreamManager::default();
    assert!(!default.is_configured());
    assert!(!default.has_audio_session());
}

#[test]
fn configure_azure_sets_provider() {
    let mut sm: StreamManager<MockAudioSession> = StreamManager::new();
    sm.configure_azure(
        "https://test.openai.azure.com",
        "test-key",
        "gpt-4o",
        "You are helpful.",
        false,
    );
    assert!(sm.is_configured());
}

#[test]
fn suggestion_id_increments() {
    let mut sm = configured();
    let id1 = sm.analyze_frame("a").unwrap().id();
    let id2 = sm.analyze_frame("b").unwrap().id();
    assert_eq!(id1, 1);
    assert_eq!(id2, 2);
}

#[test]
fn turn_identities_increase_across_vision_and_audio() {
    let mut sm = configured();
    let mut ids = vec![sm.analyze_frame("a").unwrap().id()];
    let (session, _sent) = mock_session();
    sm.audio_connected(session);
    // the first audio turn took identity 2
    let done = sm.on_audio_response(Some(Ok(String::new())), "t");
    match &done.events[0] {
        OutboundEvent::Suggestion(p) => ids.push(p.id),
        other => panic!("expected a suggestion, got {other:?}"),
    }
    ids.push(sm.analyze_frame("b").unwrap().id());
    let done = sm.on_audio_response(Some(Ok(String::new())), "t");
    match &done.events[0] {
        OutboundEvent::Suggestion(p) => ids.push(p.id),
        other => panic!("expected a suggestion, got {other:?}"),
    }
    assert_eq!(ids, vec![1, 2, 4, 3]);
    assert_eq!(sm.next_id(), 6);
}

#[test]
fn unconfigured_manager_analyses_nothing() {
    let mut sm: StreamManager<MockAudioSession> = StreamManager::new();
    assert!(sm.analyze_frame("a").is_none());
    assert_eq!(sm.next_id(), 1);
    assert!(sm.rebuild_request("a").is_none());
    assert!(sm.on_vision_response(200, "200 OK", "", false).is_none());
}

#[test]
fn now_iso_format() {
    let ts = now_iso();
    assert!(ts.ends_with('Z'));
    assert_eq!(&ts[4..5], "-");
    assert_eq!(&ts[7..8], "-");
    assert_eq!(&ts[10..11], "T");
    assert_eq!(ts.len(), 20);
}

#[test]
fn audio_chunks_reach_session() {
    let mut sm = StreamManager::new();
    let (session, sent) = mock_session();
    sm.inject_audio_session(session);

    let chunk = vec![1u8, 2, 3, 4, 5];
    sm.process_audio_chunk(&chunk).expect("should succeed");

    let received = sent.borrow().first().cloned().expect("should receive data");
    assert_eq!(received, chunk);
}

#[test]
fn multiple_chunks_arrive_in_order() {
    let mut sm = StreamManager::new();
    let (session, sent) = mock_session();
    sm.inject_audio_session(session);

    let chunks: Vec<Vec<u8>> = vec![vec![10, 20], vec![30, 40, 50], vec![60]];
    for c in &chunks {
        sm.process_audio_chunk(c).unwrap();
    }
    assert_eq!(*sent.borrow(), chunks);
}

#[test]
fn process_audio_chunk_fails_without_session() {
    let mut sm: StreamManager<MockAudioSession> = StreamManager::new();
    let err = sm.process_audio_chunk(&[1, 2, 3]).unwrap_err();
    assert_eq!(err, "No active audio session");
}

#[test]
fn session_lifecycle() {
    let mut sm = StreamManager::new();

    assert!(!sm.has_audio_session());

    let (session, _sent) = mock_session();
    sm.inject_audio_session(session);
    assert!(sm.has_audio_session());

    sm.process_audio_chunk(&[1]).unwrap();

    sm.clear_audio_session();
    assert!(!sm.has_audio_session());

    assert!(sm.process_audio_chunk(&[1]).is_err());
}

#[test]
fn response_channel_delivers_canned_responses() {
    let mut sm: StreamManager<MockAudioSession> = StreamManager::new();
    let (session, _sent) = mock_session();
    sm.audio_connected(session);

    let mut texts = Vec::new();
    let mut flags = Vec::new();
    for item in [Ok("Hello".to_string()), Ok(" world".to_string()), Ok(String::new())] {
        let reaction = sm.on_audio_response(Some(item), "t");
        assert!(reaction.keep_reading);
        for event in reaction.events {
            match event {
                OutboundEvent::Suggestion(p) => {
                    assert_eq!(p.source, "audio");
                    assert_eq!(p.id, 1);
                    flags.push(p.done);
                    texts.push(p.text);
                }
                other => panic!("expected a suggestion, got {other:?}"),
            }
        }
    }
    assert_eq!(texts, vec!["Hello", " world", ""]);
    assert_eq!(flags, vec![false, false, true]);

    let end = sm.on_audio_response(None, "t");
    assert!(!end.keep_reading);
    assert_eq!(end.events, vec![OutboundEvent::AudioStatus(audio_status("disconnected", None))]);
    assert_eq!(sm.audio_state(), AudioState::Disconnected);
    assert!(!sm.has_audio_session());
}

#[test]
fn response_channel_propagates_errors() {
    let mut sm: StreamManager<MockAudioSession> = StreamManager::new();
    let (session, _sent) = mock_session();
    sm.audio_connected(session);

    let first = sm.on_audio_response(Some(Ok("partial".into())), "t1");
    match &first.events[0] {
        OutboundEvent::Suggestion(p) => assert_eq!(p.text, "partial"),
        other => panic!("expected a suggestion, got {other:?}"),
    }

    let second = sm.on_audio_response(
        Some(Err(AiError::ConnectionError("lost connection".into()))),
        "t2",
    );
    assert!(!second.keep_reading);
    assert_eq!(second.events.len(), 3);
    match &second.events[0] {
        OutboundEvent::Error(p) => {
            assert!(p.message.contains("lost connection"));
            assert_eq!(p.message, "Connection failed: lost connection");
            assert_eq!(p.timestamp, "t2");
        }
        other => panic!("expected an error, got {other:?}"),
    }
    assert_eq!(
        second.events[1],
        OutboundEvent::AudioStatus(audio_status(
            "error",
            Some("Connection failed: lost connection".into())
        ))
    );
    assert_eq!(second.events[2], OutboundEvent::AudioStatus(audio_status("disconnected", None)));
    assert_eq!(sm.audio_state(), AudioState::Errored);
    assert!(!sm.has_audio_session());
}

#[test]
fn closed_session_rejects_audio() {
    let (mut session, _sent) = mock_session();

    session.send_audio(&[1, 2]).unwrap();
    session.close().unwrap();

    let result = session.send_audio(&[3, 4]);
    assert!(result.is_err());
}

#[test]
fn session_errors_come_back_as_messages() {
    let mut sm = StreamManager::new();
    let (mut session, _sent) = mock_session();
    session.close().unwrap();
    sm.inject_audio_session(session);
    assert_eq!(sm.process_audio_chunk(&[1]).unwrap_err(), "Connection failed: Session closed");
    assert!(sm.has_audio_session());
    assert_eq!(chunk_result(Ok(())), Ok(()));
    assert_eq!(
        chunk_result(Err(AiError::RateLimited { retry_after_ms: 1000 })),
        Err("Rate limited \u{2014} retry after 1000ms".to_string())
    );
}

#[test]
fn error_messages_name_their_kind() {
    assert_eq!(AiError::ConnectionError("x".into()).to_string(), "Connection failed: x");
    assert_eq!(AiError::AuthError("x".into()).to_string(), "Authentication failed: x");
    assert_eq!(AiError::ModelError("x".into()).to_string(), "Model error: x");
    assert_eq!(AiError::InvalidResponse("x".into()).to_string(), "Invalid response: x");
    assert_eq!(
        AiError::RateLimited { retry_after_ms: 0 }.to_string(),
        "Rate limited \u{2014} retry after 0ms"
    );
    assert_eq!(
        AiError::RateLimited { retry_after_ms: u64::MAX }.to_string(),
        "Rate limited \u{2014} retry after 18446744073709551615ms"
    );
}

#[test]
fn base64_chunks_are_decoded_before_sending() {
    let mut sm = StreamManager::new();
    assert_eq!(sm.send_audio_chunk("AQID").unwrap_err(), "No active audio session");
    let (session, sent) = mock_session();
    sm.inject_audio_session(session);
    sm.send_audio_chunk("AQID").unwrap();
    assert_eq!(*sent.borrow(), vec![vec![1u8, 2, 3]]);
    let error = sm.send_audio_chunk("not base64!").unwrap_err();
    assert!(error.starts_with("Invalid base64: "), "{error}");
    assert_eq!(sent.borrow().len(), 1);
    assert!(fits_base64(0));
    assert!(fits_base64(1 << 20));
    assert!(!fits_base64(usize::MAX));
    assert!(fits_base64((isize::MAX as usize / 4) * 3));
    assert!(!fits_base64((isize::MAX as usize / 4) * 3 + 1));
}

#[test]
fn audio_session_starts_connects_and_stops() {
    let mut sm: StreamManager<RealtimeAudioSession> = StreamManager::new();
    let refused = sm.start_audio_session();
    assert_eq!(refused.connect.unwrap_err(), "Audio provider not configured");
    assert!(refused.events.is_empty());
    assert_eq!(sm.audio_state(), AudioState::Unconfigured);

    sm.configure_audio("https://x.cognitiveservices.azure.com/", "key", "dep", "listen");
    assert_eq!(sm.audio_state(), AudioState::Configured);
    let start = sm.start_audio_session();
    assert_eq!(start.events, vec![audio_status("connecting", None)]);
    let connect = start.connect.unwrap();
    assert_eq!(
        connect.url,
        "wss://x.openai.azure.com/openai/realtime?api-version=2025-04-01-preview&deployment=dep"
    );
    assert_eq!(connect.api_key, "key");
    assert!(connect.session_config.contains("\"instructions\":\"listen\""));
    assert_eq!(sm.audio_state(), AudioState::Connecting);

    // reconfiguring while a session comes up does not reset it
    sm.configure_audio("https://x.cognitiveservices.azure.com/", "key", "dep", "listen");
    assert_eq!(sm.audio_state(), AudioState::Connecting);

    assert_eq!(
        sm.audio_connected(RealtimeAudioSession::new(60)),
        audio_status("connected", None)
    );
    assert_eq!(sm.audio_state(), AudioState::Connected);
    assert!(sm.has_audio_session());
    sm.process_audio_chunk(&[1, 2]).unwrap();

    assert_eq!(sm.stop_audio_session(), Ok(audio_status("disconnected", None)));
    assert_eq!(sm.audio_state(), AudioState::Disconnected);
    assert!(!sm.has_audio_session());
    // stopping without a session still reports the state
    assert_eq!(sm.stop_audio_session(), Ok(audio_status("disconnected", None)));
}

#[test]
fn failed_start_is_reported_as_an_error_status() {
    let mut sm: StreamManager<RealtimeAudioSession> = StreamManager::new();
    sm.configure_audio("data:text/plain,Stuff", "key", "dep", "listen");
    let start = sm.start_audio_session();
    let message = start.connect.unwrap_err();
    assert_eq!(
        message,
        "Failed to start audio session: Connection failed: no host in endpoint URL"
    );
    assert_eq!(
        start.events,
        vec![audio_status("connecting", None), audio_status("error", Some(message.clone()))]
    );
    assert_eq!(sm.audio_state(), AudioState::Errored);

    let (text, status) =
        sm.audio_connect_failed(&AiError::ConnectionError("WebSocket connect: refused".into()));
    assert_eq!(text, "Failed to start audio session: Connection failed: WebSocket connect: refused");
    assert_eq!(status, audio_status("error", Some(text.clone())));
    // a later configuration makes the audio side ready again
    sm.configure_audio("https://x.openai.azure.com", "key", "dep", "listen");
    assert_eq!(sm.audio_state(), AudioState::Configured);
}

#[test]
fn failed_close_keeps_the_session() {
    let mut sm = StreamManager::new();
    let (mut session, _sent) = mock_session();
    session.fail_close = true;
    sm.inject_audio_session(session);
    assert_eq!(sm.stop_audio_session(), Err("Connection failed: close failed".to_string()));
    assert!(sm.has_audio_session());
}

#[test]
fn prompts_are_updated_by_source() {
    let mut sm = configured();
    sm.configure_audio("e", "k", "d", "audio prompt");
    assert_eq!(sm.get_prompts(), ("You are helpful.".to_string(), "audio prompt".to_string()));
    sm.update_prompt("vision", "look closely");
    sm.update_prompt("audio", "listen closely");
    sm.update_prompt("other", "ignored");
    assert_eq!(sm.get_prompts(), ("look closely".to_string(), "listen closely".to_string()));
    // the updated prompt is the one that goes into the next request
    let turn = sm.analyze_frame("QUJD").unwrap();
    let body: serde_json::Value =
        serde_json::from_str(&turn.request().as_ref().unwrap().body).unwrap();
    assert_eq!(body["instructions"], "look closely");
}

#[test]
fn reconfiguring_the_vision_provider_clears_the_context() {
    let mut sm = configured();
    for i in 0..3 {
        let mut turn = sm.analyze_frame("f").unwrap();
        turn.on_chunk(&format!("answer {i}"), "t");
        sm.complete_analysis(turn, "t");
    }
    assert_eq!(sm.context().len(), 6);
    sm.remember_response_id(Some("resp_1".into()));
    sm.configure_azure("https://other.example", "k2", "gpt-4o-mini", "new prompt", true);
    assert_eq!(sm.context().len(), 0);
    // the new provider names no previous response
    let request = sm.rebuild_request("f").unwrap();
    assert!(!request.body.contains("previous_response_id"));
    assert_eq!(request.auth_header, "Authorization");
    // identities are not reused after reconfiguration
    assert_eq!(sm.analyze_frame("f").unwrap().id(), 4);
}

#[test]
fn context_keeps_the_latest_pairs_only() {
    let mut sm: StreamManager<MockAudioSession> = StreamManager::with_context_limit(2);
    sm.configure_azure("e", "k", "m", "p", false);
    for i in 0..5 {
        let mut turn = sm.analyze_frame("f").unwrap();
        turn.on_chunk("answer ", "t");
        turn.on_chunk(&i.to_string(), "t");
        sm.complete_analysis(turn, &format!("t{i}"));
        let len = sm.context().len();
        assert_eq!(len % 2, 0);
        assert!(len <= 4);
    }
    let context = sm.context();
    assert_eq!(context.len(), 4);
    let contents: Vec<&str> = context.iter().map(|e| e.content.as_str()).collect();
    assert_eq!(contents, vec!["What do you see?", "answer 3", "What do you see?", "answer 4"]);
    assert_eq!(context[0].role, Role::User);
    assert_eq!(context[1].role, Role::Assistant);
    assert_eq!(context[1].source, CaptureSource::Screen);
    assert_eq!(context[0].timestamp, "t3");
    assert_eq!(context[3].timestamp, "t4");
}

#[test]
fn rolling_context_evicts_from_the_oldest_end() {
    let entry = |role: Role, content: &str| ConversationEntry {
        role,
        content: content.to_string(),
        timestamp: "t".to_string(),
        source: CaptureSource::Screen,
    };
    let mut context = RollingContext::new(1);
    assert_eq!(context.max_pairs(), 1);
    context.push_pair(entry(Role::User, "q1"), entry(Role::Assistant, "a1"));
    assert_eq!(context.len(), 2);
    context.push_pair(entry(Role::User, "q2"), entry(Role::Assistant, "a2"));
    assert_eq!(context.len(), 2);
    let kept: Vec<String> = context.snapshot().into_iter().map(|e| e.content).collect();
    assert_eq!(kept, vec!["q2", "a2"]);
    context.clear();
    assert_eq!(context.len(), 0);

    let mut none = RollingContext::new(0);
    none.push_pair(entry(Role::User, "q"), entry(Role::Assistant, "a"));
    assert_eq!(none.len(), 0);

    assert_eq!(DEFAULT_MAX_CONTEXT_PAIRS, 10);
    let mut default: StreamManager<MockAudioSession> = StreamManager::new();
    default.configure_azure("e", "k", "m", "p", false);
    for _ in 0..12 {
        let turn = default.analyze_frame("f").unwrap();
        default.complete_analysis(turn, "t");
    }
    assert_eq!(default.context().len(), 20);
}

#[test]
fn failed_turn_reports_an_error_and_leaves_the_context() {
    let mut sm = configured();
    let mut turn = sm.analyze_frame("f").unwrap();
    let delta = turn.on_chunk("partial", "t1");
    assert_eq!((delta.id, delta.done, delta.text.as_str()), (1, false, "partial"));
    let other = sm.analyze_frame("g").unwrap();
    let error = turn.fail(&AiError::InvalidResponse("Invalid JSON in SSE: x".into()), "t2");
    assert_eq!(error.message, "Invalid response: Invalid JSON in SSE: x");
    assert_eq!(error.timestamp, "t2");
    assert!(sm.context().is_empty());
    // the other turn in flight completes as if nothing had happened
    let done = sm.complete_analysis(other, "t3");
    assert_eq!((done.id, done.done), (2, true));
    assert_eq!(sm.context().len(), 2);
}

#[test]
fn stale_response_is_forgotten_before_the_retry() {
    let mut sm = configured();
    sm.remember_response_id(Some("resp_old".into()));
    let turn = sm.analyze_frame("f").unwrap();
    assert!(turn.request().as_ref().unwrap().body.contains("\"previous_response_id\":\"resp_old\""));
    let action = sm.on_vision_response(
        400,
        "400 Bad Request",
        "previous_response_not_found",
        false,
    );
    assert_eq!(action, Some(ResponseAction::Retry));
    let retry = sm.rebuild_request("f").unwrap();
    assert!(!retry.body.contains("previous_response_id"));
    assert_eq!(sm.on_vision_response(200, "200 OK", "", true), Some(ResponseAction::Stream));
}

#[test]
fn suggestion_events_are_logged_as_json_lines() {
    let payload = SuggestionPayload {
        text: "say \"hi\"".to_string(),
        timestamp: "2024-01-01T00:00:00Z".to_string(),
        done: false,
        id: 42,
        source: "screen".to_string(),
    };
    assert_eq!(
        suggestion_json(&payload),
        "{\"text\":\"say \\\"hi\\\"\",\"timestamp\":\"2024-01-01T00:00:00Z\",\"done\":false,\"id\":42,\"source\":\"screen\"}"
    );
    let line = test_log_line("ai:suggestion", &payload);
    let parsed: serde_json::Value = serde_json::from_str(&line).unwrap();
    assert_eq!(parsed["event"], "ai:suggestion");
    assert_eq!(parsed["timestamp"], "2024-01-01T00:00:00Z");
    assert_eq!(parsed["payload"]["text"], "say \"hi\"");
    assert_eq!(parsed["payload"]["done"], serde_json::Value::Bool(false));
    assert_eq!(parsed["payload"]["id"], serde_json::Value::from(42));
    assert_eq!(OutboundEvent::Suggestion(payload).name(), "ai:suggestion");
    assert_eq!(OutboundEvent::AudioStatus(audio_status("error", None)).name(), "ai:audio-status");
}

/// An 8 by 8 frame whose first `bright` cells are white and the rest black.
fn cells_image(bright: usize) -> CaptureFrame {
    let mut pixels = Vec::with_capacity(256);
    for i in 0..64 {
        let v = if i < bright { 255 } else { 0 };
        pixels.extend_from_slice(&[v, v, v, 255]);
    }
    CaptureFrame::new(pixels, 8, 8, String::from("t")).unwrap()
}

#[test]
fn only_the_changed_frame_is_analysed_end_to_end() {
    let mut sm = configured();
    let mut capture = ScreenCapture::new(2000, 1024, 75);
    let mut emitted = Vec::new();
    // two bits from the stored hash, two bits from the first frame, then
    // forty bits from the second
    for bright in [2, 4, 44] {
        if let CaptureStep::Emit(frame) = capture.on_capture(Ok(cells_image(bright))) {
            emitted.push(frame);
        }
    }
    assert_eq!(emitted.len(), 1);
    assert_eq!(emitted[0].distance, 40);

    let mut turn = sm.analyze_frame(&emitted[0].data).unwrap();
    let request = turn.request().as_ref().unwrap();
    assert!(request.body.contains(&emitted[0].data));

    let mut stream = ResponsesTextStream::new();
    stream.feed(b"data: {\"type\":\"response.created\",\"response\":{\"id\":\"resp_7\"}}\n\n");
    for word in ["Click", " the", " button"] {
        let line = format!(
            "data: {{\"type\":\"response.output_text.delta\",\"delta\":\"{word}\"}}\n\n"
        );
        stream.feed(line.as_bytes());
    }
    stream.feed(b"data: {\"type\":\"response.completed\"}\n\n");

    let mut events = Vec::new();
    while let Some(chunk) = stream.next_chunk() {
        events.push(turn.on_chunk(&chunk.unwrap(), "t"));
    }
    assert!(stream.is_done());
    sm.remember_response_id(stream.response_id());
    events.push(sm.complete_analysis(turn, "t"));

    assert_eq!(events.len(), 4);
    let texts: Vec<&str> = events.iter().map(|e| e.text.as_str()).collect();
    assert_eq!(texts, vec!["Click", " the", " button", ""]);
    assert!(events[..3].iter().all(|e| !e.done));
    assert!(events[3].done);
    assert!(events.iter().all(|e| e.id == 1 && e.source == "screen"));

    let context = sm.context();
    assert_eq!(context.len(), 2);
    assert_eq!(context[1].content, "Click the button");
    // the next request continues the conversation that the stream announced
    assert!(sm.rebuild_request("f").unwrap().body.contains("\"previous_response_id\":\"resp_7\""));
}

#[test]
fn saved_settings_configure_the_providers() {
    let config = |endpoint: &str, key: &str, audio: &str| ProviderConfig {
        endpoint: endpoint.to_string(),
        api_key: key.to_string(),
        vision_deployment: "gpt-4o".to_string(),
        audio_deployment: audio.to_string(),
        vision_prompt: "look".to_string(),
        audio_prompt: "listen".to_string(),
    };
    let mut sm: StreamManager<MockAudioSession> = StreamManager::new();
    assert!(!sm.configure_from(&config("", "key", "rt"), false));
    assert!(!sm.configure_from(&config("https://x.example", "", "rt"), false));
    assert!(!sm.is_configured());
    assert_eq!(sm.audio_state(), AudioState::Unconfigured);

    assert!(sm.configure_from(&config("https://x.example", "key", ""), true));
    assert!(sm.is_configured());
    assert_eq!(sm.audio_state(), AudioState::Unconfigured);
    assert_eq!(sm.get_prompts(), ("look".to_string(), String::new()));
    assert_eq!(sm.rebuild_request("f").unwrap().auth_value, "Bearer key");

    assert!(sm.configure_from(&config("https://x.example", "key", "rt"), false));
    assert_eq!(sm.audio_state(), AudioState::Configured);
    assert_eq!(sm.get_prompts(), ("look".to_string(), "listen".to_string()));
}
