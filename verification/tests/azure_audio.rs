use beme_lib::ai::azure_audio::{
    build_audio_append, build_audio_commit, build_response_create, build_session_config,
    classify_event, parse_event, reader_action, reader_step, realtime_url_for_host, AudioEvent,
    AzureAudioClient, EventFields, Inbound, ReaderAction, RealtimeAudioSession,
    DEFAULT_COMMIT_INTERVAL,
};
use beme_lib::ai::{AiError, AiProvider, AudioSession};
use base64::engine::general_purpose::STANDARD as BASE64;
use base64::Engine as _;
use serde_json::Value;

fn parse(text: &str) -> Value {
    serde_json::from_str(text).unwrap()
}

#[test]
fn session_config_json_structure() {
    let cfg = parse(&build_session_config("You are a helpful assistant."));
    assert_eq!(cfg["type"], "session.update");
    let session = &cfg["session"];
    assert_eq!(session["modalities"][0], "text");
    assert_eq!(session["instructions"], "You are a helpful assistant.");
    assert_eq!(session["input_audio_format"], "pcm16");
    assert_eq!(session["input_audio_transcription"]["model"], "whisper-1");
    assert!(session["turn_detection"].is_null());
}

#[test]
fn session_config_escapes_the_prompt() {
    let prompt = "say \"hi\"\nand \\ stop \u{1F600}";
    let cfg = parse(&build_session_config(prompt));
    assert_eq!(cfg["session"]["instructions"], prompt);
    assert_eq!(cfg["session"]["modalities"].as_array().unwrap().len(), 1);
}

#[test]
fn audio_append_message_construction() {
    let pcm: &[u8] = &[0x01, 0x02, 0xFF, 0x00];
    let msg = parse(&build_audio_append(pcm));
    assert_eq!(msg["type"], "input_audio_buffer.append");
    let audio_b64 = msg["audio"].as_str().unwrap();
    let decoded = BASE64.decode(audio_b64).unwrap();
    assert_eq!(decoded, pcm);
}

#[test]
fn session_messages_are_exact() {
    assert_eq!(
        build_audio_append(&[0x01, 0x02, 0xFF, 0x00]),
        "{\"audio\":\"AQL/AA==\",\"type\":\"input_audio_buffer.append\"}"
    );
    assert_eq!(build_audio_commit(), "{\"type\":\"input_audio_buffer.commit\"}");
    assert_eq!(build_response_create(), "{\"type\":\"response.create\"}");
    assert_eq!(
        build_session_config("p"),
        "{\"session\":{\"input_audio_format\":\"pcm16\",\"input_audio_transcription\":{\"model\":\"whisper-1\"},\"instructions\":\"p\",\"modalities\":[\"text\"],\"turn_detection\":null},\"type\":\"session.update\"}"
    );
}

#[test]
fn parse_text_delta_event() {
    let event = r#"{"type":"response.text.delta","delta":"Hello"}"#;
    let result = parse_event(event).unwrap();
    assert_eq!(result, AudioEvent::Delta("Hello".to_string()));
}

#[test]
fn parse_transcript_delta_event() {
    let event = r#"{"type":"response.audio_transcript.delta","delta":"Hi"}"#;
    assert_eq!(parse_event(event).unwrap(), AudioEvent::Delta("Hi".to_string()));
    // a delta without text is an empty delta
    let event = r#"{"type":"response.text.delta"}"#;
    assert_eq!(parse_event(event).unwrap(), AudioEvent::Delta(String::new()));
    let event = r#"{"type":"response.text.delta","delta":7}"#;
    assert_eq!(parse_event(event).unwrap(), AudioEvent::Delta(String::new()));
}

#[test]
fn parse_text_done_event() {
    let event = r#"{"type":"response.text.done","text":"Hello world"}"#;
    let result = parse_event(event).unwrap();
    assert_eq!(result, AudioEvent::Skip);
}

#[test]
fn parse_response_done_event() {
    let event = r#"{"type":"response.done","response":{}}"#;
    let result = parse_event(event).unwrap();
    assert_eq!(result, AudioEvent::Done);
}

#[test]
fn parse_error_event() {
    let event = r#"{"type":"error","error":{"message":"rate limit exceeded","code":"rate_limit"}}"#;
    let result = parse_event(event);
    assert!(result.is_err());
    let err = result.unwrap_err();
    match err {
        AiError::ModelError(msg) => {
            assert!(msg.contains("rate limit exceeded"));
            assert!(msg.contains("rate_limit"));
            assert_eq!(msg, "[rate_limit] rate limit exceeded");
        }
        other => panic!("expected ModelError, got: {other:?}"),
    }
}

#[test]
fn parse_error_event_without_details() {
    let err = parse_event(r#"{"type":"error"}"#).unwrap_err();
    assert_eq!(err, AiError::ModelError("[] unknown error".to_string()));
}

#[test]
fn parse_unknown_event_is_skipped() {
    let event = r#"{"type":"session.created","session":{"id":"abc"}}"#;
    let result = parse_event(event).unwrap();
    assert_eq!(result, AudioEvent::Skip);
    assert_eq!(parse_event("{}").unwrap(), AudioEvent::Skip);
    assert_eq!(parse_event("[1,2]").unwrap(), AudioEvent::Skip);
    assert_eq!(parse_event(r#"{"type":17}"#).unwrap(), AudioEvent::Skip);
}

#[test]
fn parse_invalid_json_returns_error() {
    let result = parse_event("not json");
    assert!(result.is_err());
    match result.unwrap_err() {
        AiError::InvalidResponse(msg) => {
            assert!(msg.contains("bad JSON"));
            assert!(msg.starts_with("bad JSON: "));
            assert!(msg.len() > "bad JSON: ".len());
        }
        other => panic!("expected InvalidResponse, got: {other:?}"),
    }
}

#[test]
fn events_are_classified_by_their_fields() {
    let fields = |kind: Option<&str>, delta: Option<&str>| EventFields {
        kind: kind.map(String::from),
        delta: delta.map(String::from),
        error_message: None,
        error_code: None,
    };
    assert_eq!(
        classify_event(&fields(Some("response.text.delta"), Some("a"))),
        Ok(AudioEvent::Delta("a".into()))
    );
    assert_eq!(classify_event(&fields(Some("response.done"), Some("a"))), Ok(AudioEvent::Done));
    assert_eq!(classify_event(&fields(None, Some("a"))), Ok(AudioEvent::Skip));
    assert_eq!(
        classify_event(&fields(Some("response.audio_transcript.done"), None)),
        Ok(AudioEvent::Skip)
    );
    let error = EventFields {
        kind: Some("error".into()),
        delta: None,
        error_message: Some("boom".into()),
        error_code: None,
    };
    assert_eq!(classify_event(&error), Err(AiError::ModelError("[] boom".into())));
}

#[test]
fn reader_decides_for_each_message() {
    let text = |s: &str| Inbound::Text(s.to_string());
    assert_eq!(
        reader_step(&text(r#"{"type":"response.text.delta","delta":"Hello"}"#)),
        ReaderAction::Deliver("Hello".into())
    );
    assert_eq!(reader_step(&text(r#"{"type":"response.done"}"#)), ReaderAction::TurnDone);
    assert_eq!(reader_step(&text(r#"{"type":"session.updated"}"#)), ReaderAction::Ignore);
    assert_eq!(reader_step(&Inbound::Other), ReaderAction::Ignore);
    assert_eq!(
        reader_step(&Inbound::ReadError("reset".into())),
        ReaderAction::Fail(AiError::ConnectionError("WebSocket read: reset".into()))
    );
    assert_eq!(
        reader_step(&text(r#"{"type":"error","error":{"message":"m","code":"c"}}"#)),
        ReaderAction::Fail(AiError::ModelError("[c] m".into()))
    );
    match reader_step(&text("{")) {
        ReaderAction::Fail(AiError::InvalidResponse(m)) => assert!(m.starts_with("bad JSON: ")),
        other => panic!("expected a failure, got {other:?}"),
    }
    assert_eq!(reader_action(Ok(AudioEvent::Skip)), ReaderAction::Ignore);
}

#[test]
fn realtime_url_moves_to_the_openai_domain() {
    assert_eq!(
        realtime_url_for_host("dev-beme-ai.cognitiveservices.azure.com", "gpt-4o-realtime-preview"),
        "wss://dev-beme-ai.openai.azure.com/openai/realtime?api-version=2025-04-01-preview&deployment=gpt-4o-realtime-preview"
    );
    assert_eq!(
        realtime_url_for_host("x.openai.azure.com", "d"),
        "wss://x.openai.azure.com/openai/realtime?api-version=2025-04-01-preview&deployment=d"
    );
}

fn client(endpoint: &str) -> AzureAudioClient {
    AzureAudioClient {
        endpoint: endpoint.to_string(),
        api_key: "key".to_string(),
        deployment: "dep".to_string(),
        system_prompt: "default".to_string(),
    }
}

#[test]
fn websocket_url_comes_from_the_endpoint_host() {
    assert_eq!(
        client("https://dev-beme-ai.cognitiveservices.azure.com/").websocket_url().unwrap(),
        "wss://dev-beme-ai.openai.azure.com/openai/realtime?api-version=2025-04-01-preview&deployment=dep"
    );
    match client("not a url").websocket_url().unwrap_err() {
        AiError::ConnectionError(m) => assert!(m.starts_with("bad endpoint URL: "), "{m}"),
        other => panic!("expected ConnectionError, got {other:?}"),
    }
    assert_eq!(
        client("data:text/plain,Stuff").websocket_url().unwrap_err(),
        AiError::ConnectionError("no host in endpoint URL".into())
    );
}

#[test]
fn audio_provider_plans_a_session_and_refuses_frames() {
    let provider = client("https://x.openai.azure.com");
    assert_eq!(provider.name(), "azure-realtime-audio");
    let connect = provider.start_audio_stream("listen").unwrap();
    assert_eq!(
        connect.url,
        "wss://x.openai.azure.com/openai/realtime?api-version=2025-04-01-preview&deployment=dep"
    );
    assert_eq!(connect.api_key, "key");
    assert_eq!(connect.session_config, build_session_config("listen"));
    assert_eq!(
        provider.analyze_frame("img", "p").unwrap_err(),
        AiError::ModelError("AzureAudioClient does not support vision analysis".into())
    );
    assert!(client("nope").start_audio_stream("p").is_err());
}

#[test]
fn session_commits_after_every_interval() {
    let mut session = RealtimeAudioSession::new(3);
    session.send_audio(&[1, 2]).unwrap();
    session.send_audio(&[3, 4]).unwrap();
    assert_eq!(session.chunks_since_commit(), 2);
    assert_eq!(
        session.take_outbox(),
        vec![build_audio_append(&[1, 2]), build_audio_append(&[3, 4])]
    );
    session.send_audio(&[5, 6]).unwrap();
    assert_eq!(session.chunks_since_commit(), 0);
    assert_eq!(
        session.take_outbox(),
        vec![build_audio_append(&[5, 6]), build_audio_commit(), build_response_create()]
    );
    assert!(session.take_outbox().is_empty());
    session.send_audio(&[7]).unwrap();
    assert_eq!(session.chunks_since_commit(), 1);
}

#[test]
fn default_session_commits_after_sixty_chunks() {
    assert_eq!(DEFAULT_COMMIT_INTERVAL, 60);
    let mut session = RealtimeAudioSession::new(DEFAULT_COMMIT_INTERVAL);
    for _ in 0..59 {
        session.send_audio(&[0, 0]).unwrap();
    }
    assert_eq!(session.take_outbox().len(), 59);
    session.send_audio(&[0, 0]).unwrap();
    let last = session.take_outbox();
    assert_eq!(last.len(), 3);
    assert_eq!(last[1], build_audio_commit());
    assert_eq!(last[2], build_response_create());
}

#[test]
fn session_with_interval_zero_or_one_commits_every_chunk() {
    for interval in [0, 1] {
        let mut session = RealtimeAudioSession::new(interval);
        session.send_audio(&[9]).unwrap();
        assert_eq!(session.take_outbox().len(), 3);
        session.send_audio(&[9]).unwrap();
        assert_eq!(session.take_outbox().len(), 3);
    }
}

#[test]
fn stopped_writer_refuses_audio() {
    let mut session = RealtimeAudioSession::new(60);
    assert!(session.is_open());
    session.send_audio(&[1]).unwrap();
    let error = session.send_failed("broken pipe");
    assert_eq!(error, AiError::ConnectionError("WebSocket send: broken pipe".into()));
    assert!(!session.is_open());
    assert_eq!(
        session.send_audio(&[2]).unwrap_err(),
        AiError::ConnectionError("send audio: channel closed".into())
    );
    assert_eq!(session.take_outbox().len(), 1);
    assert_eq!(session.chunks_since_commit(), 1);
}

#[test]
fn close_is_recorded_once() {
    let mut session = RealtimeAudioSession::new(60);
    assert!(!session.close_requested());
    session.close().unwrap();
    assert!(session.close_requested());
    session.close().unwrap();
    assert!(session.close_requested());
    assert!(session.is_open());
    session.writer_stopped();
    assert!(!session.is_open());
    assert!(session.send_audio(&[1]).is_err());
}
