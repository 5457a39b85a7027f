//! The realtime audio provider: the messages of a session, the decoding of
//! server events, and the state of one live session.

use vstd::prelude::*;
use crate::ai::endpoint::{endpoint_host, url_error_text, url_host};
use crate::ai::json::{
    json_error_text, json_quote, json_quoted, json_strings, lookup, opt_text, parse_json,
    parsed_json, string_at,
};
use crate::ai::types::{AiError, AiErrorView, AudioSession};
use crate::ai::{AiProvider, AudioConnect, FrameRequest};
use crate::encoding::{base64_encode, base64_fits, base64_text, replace, replace_all};
use crate::text::str_equals;

verus! {

/// Azure OpenAI Realtime API audio client (WebSocket).
#[derive(Debug, Clone)]
pub struct AzureAudioClient {
    pub endpoint: String,
    pub api_key: String,
    pub deployment: String,
    pub system_prompt: String,
}

/// An audio client as plain values.
pub struct AzureAudioClientView {
    pub endpoint: Seq<char>,
    pub api_key: Seq<char>,
    pub deployment: Seq<char>,
    pub system_prompt: Seq<char>,
}

impl View for AzureAudioClient {
    type V = AzureAudioClientView;

    open spec fn view(&self) -> AzureAudioClientView {
        AzureAudioClientView {
            endpoint: self.endpoint@,
            api_key: self.api_key@,
            deployment: self.deployment@,
            system_prompt: self.system_prompt@,
        }
    }
}

/// Number of chunks after which a session commits its audio and asks for a
/// response: about fifteen seconds of 250 ms chunks.
pub const DEFAULT_COMMIT_INTERVAL: u32 = 60;

/// The `session.update` message for `system_prompt`: text output only, PCM16
/// input, transcription by whisper-1, server-side turn detection off.
pub open spec fn session_config_text(system_prompt: Seq<char>) -> Seq<char> {
    "{\"session\":{\"input_audio_format\":\"pcm16\",\"input_audio_transcription\":{\"model\":\"whisper-1\"},\"instructions\":"@
        + json_quoted(system_prompt)
        + ",\"modalities\":[\"text\"],\"turn_detection\":null},\"type\":\"session.update\"}"@
}

/// The `input_audio_buffer.append` message that carries `pcm` as base64.
pub open spec fn audio_append_text(pcm: Seq<u8>) -> Seq<char> {
    "{\"audio\":"@ + json_quoted(base64_text(pcm)) + ",\"type\":\"input_audio_buffer.append\"}"@
}

/// The `input_audio_buffer.commit` message.
pub open spec fn audio_commit_text() -> Seq<char> {
    "{\"type\":\"input_audio_buffer.commit\"}"@
}

/// The `response.create` message.
pub open spec fn response_create_text() -> Seq<char> {
    "{\"type\":\"response.create\"}"@
}

/// Builds the `session.update` message.
pub fn build_session_config(system_prompt: &str) -> (message: String)
    ensures
        message@ == session_config_text(system_prompt@),
{
    let quoted = json_quote(system_prompt);
    String::from_str(
        "{\"session\":{\"input_audio_format\":\"pcm16\",\"input_audio_transcription\":{\"model\":\"whisper-1\"},\"instructions\":",
    ).concat(quoted.as_str()).concat(
        ",\"modalities\":[\"text\"],\"turn_detection\":null},\"type\":\"session.update\"}",
    )
}

/// Builds an `input_audio_buffer.append` message from raw PCM bytes.
pub fn build_audio_append(pcm: &[u8]) -> (message: String)
    requires
        base64_fits(pcm@.len()),
    ensures
        message@ == audio_append_text(pcm@),
{
    let audio = base64_encode(pcm);
    let quoted = json_quote(audio.as_str());
    String::from_str("{\"audio\":").concat(quoted.as_str()).concat(
        ",\"type\":\"input_audio_buffer.append\"}",
    )
}

/// Builds an `input_audio_buffer.commit` message.
pub fn build_audio_commit() -> (message: String)
    ensures
        message@ == audio_commit_text(),
{
    String::from_str("{\"type\":\"input_audio_buffer.commit\"}")
}

/// Builds a `response.create` message, which asks the model to answer.
pub fn build_response_create() -> (message: String)
    ensures
        message@ == response_create_text(),
{
    String::from_str("{\"type\":\"response.create\"}")
}

/// Parsed event from the Realtime API.
#[derive(Debug, Clone, PartialEq)]
pub enum AudioEvent {
    /// A text delta to forward.
    Delta(String),
    /// The response turn is complete.
    Done,
    /// Nothing actionable.
    Skip,
}

/// An event as plain values.
pub enum AudioEventView {
    Delta(Seq<char>),
    Done,
    Skip,
}

impl View for AudioEvent {
    type V = AudioEventView;

    open spec fn view(&self) -> AudioEventView {
        match self {
            AudioEvent::Delta(text) => AudioEventView::Delta(text@),
            AudioEvent::Done => AudioEventView::Done,
            AudioEvent::Skip => AudioEventView::Skip,
        }
    }
}

/// The fields of a server event that the classification reads.
#[derive(Debug, Clone)]
pub struct EventFields {
    /// The string at `/type`.
    pub kind: Option<String>,
    /// The string at `/delta`.
    pub delta: Option<String>,
    /// The string at `/error/message`.
    pub error_message: Option<String>,
    /// The string at `/error/code`.
    pub error_code: Option<String>,
}

/// Event fields as plain values.
pub struct EventFieldsView {
    pub kind: Option<Seq<char>>,
    pub delta: Option<Seq<char>>,
    pub error_message: Option<Seq<char>>,
    pub error_code: Option<Seq<char>>,
}

impl View for EventFields {
    type V = EventFieldsView;

    open spec fn view(&self) -> EventFieldsView {
        EventFieldsView {
            kind: opt_text(self.kind),
            delta: opt_text(self.delta),
            error_message: opt_text(self.error_message),
            error_code: opt_text(self.error_code),
        }
    }
}

/// The fields of the event that a document holds.
pub open spec fn event_fields_of(doc: Map<Seq<char>, Seq<char>>) -> EventFieldsView {
    EventFieldsView {
        kind: string_at(doc, "/type"@),
        delta: string_at(doc, "/delta"@),
        error_message: string_at(doc, "/error/message"@),
        error_code: string_at(doc, "/error/code"@),
    }
}

/// `text`, or `default` where there is none.
pub open spec fn text_or(text: Option<Seq<char>>, default: Seq<char>) -> Seq<char> {
    match text {
        Some(t) => t,
        None => default,
    }
}

/// The message of a model error with the backend's code and message.
pub open spec fn model_error_text(fields: EventFieldsView) -> Seq<char> {
    "["@ + text_or(fields.error_code, ""@) + "] "@ + text_or(
        fields.error_message,
        "unknown error"@,
    )
}

/// The message of a model error holds the backend's code and the backend's
/// message, in that order.
pub proof fn lemma_model_error_names_code_and_message(fields: EventFieldsView)
    requires
        fields.error_code is Some,
        fields.error_message is Some,
    ensures
        ({
            let text = model_error_text(fields);
            let code = fields.error_code->0;
            let message = fields.error_message->0;
            &&& text.len() == code.len() + message.len() + 3
            &&& text.subrange(1, 1 + code.len() as int) == code
            &&& text.subrange(3 + code.len() as int, text.len() as int) == message
        }),
{
    reveal_strlit("[");
    reveal_strlit("] ");
    let text = model_error_text(fields);
    let code = fields.error_code->0;
    let message = fields.error_message->0;
    assert(text.len() == code.len() + message.len() + 3);
    assert(text.subrange(1, 1 + code.len() as int) =~= code);
    assert(text.subrange(3 + code.len() as int, text.len() as int) =~= message);
}

/// How a server event is classified. Text and transcript deltas carry their
/// delta text, `response.done` ends the turn, `error` becomes a model error
/// with the backend's code and message, everything else is skipped.
pub open spec fn classify_event_spec(fields: EventFieldsView) -> Result<
    AudioEventView,
    AiErrorView,
> {
    if fields.kind == Some("response.text.delta"@) || fields.kind == Some(
        "response.audio_transcript.delta"@,
    ) {
        Ok(AudioEventView::Delta(text_or(fields.delta, ""@)))
    } else if fields.kind == Some("response.done"@) {
        Ok(AudioEventView::Done)
    } else if fields.kind == Some("error"@) {
        Err(AiErrorView::ModelError(model_error_text(fields)))
    } else {
        Ok(AudioEventView::Skip)
    }
}

/// The view of a classification result.
pub open spec fn event_result_view(result: Result<AudioEvent, AiError>) -> Result<
    AudioEventView,
    AiErrorView,
> {
    match result {
        Ok(event) => Ok(event@),
        Err(error) => Err(error@),
    }
}

/// Reads the fields of an event out of a parsed document.
pub fn read_event_fields(doc: &serde_json::Value) -> (fields: EventFields)
    ensures
        fields@ == event_fields_of(json_strings(*doc)),
{
    EventFields {
        kind: lookup(doc, "/type"),
        delta: lookup(doc, "/delta"),
        error_message: lookup(doc, "/error/message"),
        error_code: lookup(doc, "/error/code"),
    }
}

fn kind_is(kind: &Option<String>, name: &str) -> (same: bool)
    ensures
        same == (opt_text(*kind) == Some(name@)),
{
    match kind {
        Some(k) => str_equals(k.as_str(), name),
        None => false,
    }
}

fn owned_or(text: &Option<String>, default: &str) -> (owned: String)
    ensures
        owned@ == text_or(opt_text(*text), default@),
{
    match text {
        Some(t) => t.clone(),
        None => String::from_str(default),
    }
}

/// Classifies one server event by its fields.
pub fn classify_event(fields: &EventFields) -> (result: Result<AudioEvent, AiError>)
    ensures
        event_result_view(result) == classify_event_spec(fields@),
{
    if kind_is(&fields.kind, "response.text.delta") || kind_is(
        &fields.kind,
        "response.audio_transcript.delta",
    ) {
        Ok(AudioEvent::Delta(owned_or(&fields.delta, "")))
    } else if kind_is(&fields.kind, "response.done") {
        Ok(AudioEvent::Done)
    } else if kind_is(&fields.kind, "error") {
        let code = owned_or(&fields.error_code, "");
        let message = owned_or(&fields.error_message, "unknown error");
        let text = String::from_str("[").concat(code.as_str()).concat("] ").concat(
            message.as_str(),
        );
        Err(AiError::ModelError(text))
    } else {
        Ok(AudioEvent::Skip)
    }
}

/// Parses a single server event. Text that is no JSON document is an invalid
/// response whose message begins with `bad JSON: `.
pub fn parse_event(text: &str) -> (result: Result<AudioEvent, AiError>)
    ensures
        match parsed_json(text@) {
            Some(doc) => event_result_view(result) == classify_event_spec(event_fields_of(doc)),
            None => match result {
                Err(AiError::InvalidResponse(message)) => "bad JSON: "@.is_prefix_of(message@),
                _ => false,
            },
        },
{
    match parse_json(text) {
        Ok(doc) => {
            let fields = read_event_fields(&doc);
            classify_event(&fields)
        },
        Err(error) => {
            let detail = json_error_text(&error);
            Err(AiError::InvalidResponse(String::from_str("bad JSON: ").concat(detail.as_str())))
        },
    }
}

/// The address of the realtime endpoint on `host` for `deployment`. A host
/// under `.cognitiveservices.azure.com` is addressed under
/// `.openai.azure.com`, where the realtime API lives.
pub open spec fn realtime_url_text(host: Seq<char>, deployment: Seq<char>) -> Seq<char> {
    "wss://"@ + replace_all(host, ".cognitiveservices.azure.com"@, ".openai.azure.com"@)
        + "/openai/realtime?api-version=2025-04-01-preview&deployment="@ + deployment
}

/// Builds the WebSocket address of the realtime endpoint on `host`.
pub fn realtime_url_for_host(host: &str, deployment: &str) -> (url: String)
    ensures
        url@ == realtime_url_text(host@, deployment@),
{
    proof {
        reveal_strlit(".cognitiveservices.azure.com");
    }
    let ws_host = replace(host, ".cognitiveservices.azure.com", ".openai.azure.com");
    String::from_str("wss://").concat(ws_host.as_str()).concat(
        "/openai/realtime?api-version=2025-04-01-preview&deployment=",
    ).concat(deployment)
}

/// What `websocket_url` returns for an endpoint whose host lookup gave
/// `host`: the address on success, a connection error where the endpoint is
/// no URL or has no host.
pub open spec fn websocket_url_ok(
    host: Option<Option<Seq<char>>>,
    deployment: Seq<char>,
    result: Result<String, AiError>,
) -> bool {
    match host {
        Some(Some(h)) => match result {
            Ok(url) => url@ == realtime_url_text(h, deployment),
            Err(_) => false,
        },
        Some(None) => match result {
            Err(AiError::ConnectionError(message)) => message@ == "no host in endpoint URL"@,
            _ => false,
        },
        None => match result {
            Err(AiError::ConnectionError(message)) => "bad endpoint URL: "@.is_prefix_of(
                message@,
            ),
            _ => false,
        },
    }
}

impl AzureAudioClient {
    /// The WebSocket address of this client's realtime endpoint.
    pub fn websocket_url(&self) -> (result: Result<String, AiError>)
        ensures
            websocket_url_ok(url_host(self.endpoint@), self.deployment@, result),
    {
        match endpoint_host(self.endpoint.as_str()) {
            Ok(Some(host)) => Ok(realtime_url_for_host(host.as_str(), self.deployment.as_str())),
            Ok(None) => Err(AiError::ConnectionError(String::from_str("no host in endpoint URL"))),
            Err(error) => {
                let detail = url_error_text(&error);
                Err(
                    AiError::ConnectionError(
                        String::from_str("bad endpoint URL: ").concat(detail.as_str()),
                    ),
                )
            },
        }
    }
}

impl AiProvider for AzureAudioClient {
    /// The audio provider analyses no frames: always a model error.
    fn analyze_frame(&self, frame_data: &str, system_prompt: &str) -> (result: Result<
        FrameRequest,
        AiError,
    >)
        ensures
            match result {
                Err(AiError::ModelError(message)) => message@
                    == "AzureAudioClient does not support vision analysis"@,
                _ => false,
            },
    {
        Err(
            AiError::ModelError(
                String::from_str("AzureAudioClient does not support vision analysis"),
            ),
        )
    }

    /// The connection for a new session: the realtime address, the
    /// credential, and the `session.update` message for `system_prompt`.
    fn start_audio_stream(&self, system_prompt: &str) -> (result: Result<AudioConnect, AiError>)
        ensures
            match result {
                Ok(connect) => {
                    &&& websocket_url_ok(
                        url_host(self.endpoint@),
                        self.deployment@,
                        Ok(connect.url),
                    )
                    &&& connect.api_key@ == self.api_key@
                    &&& connect.session_config@ == session_config_text(system_prompt@)
                },
                Err(error) => websocket_url_ok(
                    url_host(self.endpoint@),
                    self.deployment@,
                    Err(error),
                ),
            },
    {
        match self.websocket_url() {
            Ok(url) => Ok(
                AudioConnect {
                    url,
                    api_key: self.api_key.clone(),
                    session_config: build_session_config(system_prompt),
                },
            ),
            Err(error) => Err(error),
        }
    }

    fn name(&self) -> (name: &'static str)
        ensures
            name@ == "azure-realtime-audio"@,
    {
        "azure-realtime-audio"
    }
}

/// The texts of a queue of messages.
pub open spec fn texts(messages: Seq<String>) -> Seq<Seq<char>> {
    messages.map_values(|m: String| m@)
}

/// Live audio session, seen from the sender's side: the messages queued for
/// the socket, and the count that drives the periodic commit.
#[derive(Debug)]
pub struct RealtimeAudioSession {
    outbox: Vec<String>,
    open: bool,
    close_requested: bool,
    chunks_since_commit: u32,
    commit_interval: u32,
}

/// A session as plain values.
pub struct RealtimeAudioSessionView {
    /// Messages queued for the socket, oldest first.
    pub outbox: Seq<Seq<char>>,
    /// Whether the writer still takes messages.
    pub open: bool,
    /// Whether the caller has asked to close the session.
    pub close_requested: bool,
    /// Number of audio chunks sent since the last commit.
    pub chunks_since_commit: u32,
    /// Commit after this many chunks.
    pub commit_interval: u32,
}

impl RealtimeAudioSessionView {
    /// The count stays below the commit interval: a session commits before
    /// it counts that far.
    pub open spec fn count_in_bounds(self) -> bool {
        self.chunks_since_commit == 0 || self.chunks_since_commit < self.commit_interval
    }

    /// The session after one more chunk: its append message is queued, and
    /// once `commit_interval` chunks have gathered, a commit and a response
    /// request follow and the count starts over.
    pub open spec fn after_chunk(self, pcm: Seq<u8>) -> RealtimeAudioSessionView {
        if self.chunks_since_commit + 1 >= self.commit_interval {
            RealtimeAudioSessionView {
                outbox: self.outbox.push(audio_append_text(pcm)).push(audio_commit_text()).push(
                    response_create_text(),
                ),
                chunks_since_commit: 0,
                ..self
            }
        } else {
            RealtimeAudioSessionView {
                outbox: self.outbox.push(audio_append_text(pcm)),
                chunks_since_commit: (self.chunks_since_commit + 1) as u32,
                ..self
            }
        }
    }
}

/// Sending a chunk keeps the count below the commit interval.
pub proof fn lemma_chunk_keeps_count_in_bounds(session: RealtimeAudioSessionView, pcm: Seq<u8>)
    requires
        session.count_in_bounds(),
    ensures
        session.after_chunk(pcm).count_in_bounds(),
{
}

/// Of any `commit_interval` chunks sent in a row, exactly the one that fills
/// the interval queues a commit: a chunk commits if and only if the count
/// before it was one short of the interval.
pub proof fn lemma_commit_when_interval_full(session: RealtimeAudioSessionView, pcm: Seq<u8>)
    requires
        session.count_in_bounds(),
        session.commit_interval > 0,
    ensures
        session.after_chunk(pcm).outbox.len() == session.outbox.len() + 3
            <==> session.chunks_since_commit + 1 == session.commit_interval,
        session.after_chunk(pcm).outbox.len() == session.outbox.len() + 1
            <==> session.chunks_since_commit + 1 < session.commit_interval,
{
}

impl View for RealtimeAudioSession {
    type V = RealtimeAudioSessionView;

    closed spec fn view(&self) -> RealtimeAudioSessionView {
        RealtimeAudioSessionView {
            outbox: texts(self.outbox@),
            open: self.open,
            close_requested: self.close_requested,
            chunks_since_commit: self.chunks_since_commit,
            commit_interval: self.commit_interval,
        }
    }
}

impl RealtimeAudioSession {
    /// A fresh, open session that commits every `commit_interval` chunks.
    pub fn new(commit_interval: u32) -> (session: RealtimeAudioSession)
        ensures
            session@ == (RealtimeAudioSessionView {
                outbox: Seq::empty(),
                open: true,
                close_requested: false,
                chunks_since_commit: 0,
                commit_interval,
            }),
            session@.count_in_bounds(),
    {
        let session = RealtimeAudioSession {
            outbox: Vec::new(),
            open: true,
            close_requested: false,
            chunks_since_commit: 0,
            commit_interval,
        };
        assert(texts(session.outbox@) =~= Seq::empty());
        session
    }

    /// Number of chunks sent since the last commit.
    pub fn chunks_since_commit(&self) -> (count: u32)
        ensures
            count == self@.chunks_since_commit,
    {
        self.chunks_since_commit
    }

    /// Hands over the queued messages, oldest first, and empties the queue.
    pub fn take_outbox(&mut self) -> (messages: Vec<String>)
        ensures
            texts(messages@) == old(self)@.outbox,
            final(self)@ == (RealtimeAudioSessionView { outbox: Seq::empty(), ..old(self)@ }),
    {
        let mut messages: Vec<String> = Vec::new();
        std::mem::swap(&mut self.outbox, &mut messages);
        assert(texts(self.outbox@) =~= Seq::empty());
        messages
    }

    /// Whether the caller has asked to close the session.
    pub fn close_requested(&self) -> (requested: bool)
        ensures
            requested == self@.close_requested,
    {
        self.close_requested
    }

    /// Whether the writer still takes messages.
    pub fn is_open(&self) -> (open: bool)
        ensures
            open == self@.open,
    {
        self.open
    }

    /// Records that the writer has stopped: later chunks are refused.
    pub fn writer_stopped(&mut self)
        ensures
            final(self)@ == (RealtimeAudioSessionView { open: false, ..old(self)@ }),
    {
        self.open = false;
    }
}

impl AudioSession for RealtimeAudioSession {
    /// An open session queues the chunk, and with every
    /// `commit_interval`-th chunk a commit and a response request. A
    /// session whose writer has stopped refuses the chunk and stays as it
    /// is.
    open spec fn send_outcome(
        before: &Self,
        audio_data: Seq<u8>,
        after: &Self,
        result: Result<(), AiError>,
    ) -> bool {
        if before@.open {
            result is Ok && after@ == before@.after_chunk(audio_data)
        } else {
            after@ == before@ && (match result {
                Err(AiError::ConnectionError(message)) => message@
                    == "send audio: channel closed"@,
                _ => false,
            })
        }
    }

    /// Closing always succeeds and only records the request: the queue and
    /// the count are untouched, and closing twice is the same as closing
    /// once.
    open spec fn close_outcome(before: &Self, after: &Self, result: Result<(), AiError>) -> bool {
        result is Ok && after@ == (RealtimeAudioSessionView { close_requested: true, ..before@ })
    }

    fn send_audio(&mut self, audio_data: &[u8]) -> (result: Result<(), AiError>)
    {
        if !self.open {
            return Err(AiError::ConnectionError(String::from_str("send audio: channel closed")));
        }
        let ghost before = self.outbox@;
        self.outbox.push(build_audio_append(audio_data));
        assert(texts(self.outbox@) =~= texts(before).push(audio_append_text(audio_data@)));
        let reached = match self.chunks_since_commit.checked_add(1) {
            Some(count) => count >= self.commit_interval,
            None => true,
        };
        if reached {
            self.chunks_since_commit = 0;
            let ghost appended = self.outbox@;
            self.outbox.push(build_audio_commit());
            let ghost committed = self.outbox@;
            self.outbox.push(build_response_create());
            assert(texts(committed) =~= texts(appended).push(audio_commit_text()));
            assert(texts(self.outbox@) =~= texts(committed).push(response_create_text()));
        } else {
            self.chunks_since_commit = self.chunks_since_commit + 1;
        }
        Ok(())
    }

    fn close(&mut self) -> (result: Result<(), AiError>)
    {
        self.close_requested = true;
        Ok(())
    }
}

/// One message read from the socket, as plain values.
#[derive(Debug, Clone)]
pub enum Inbound {
    /// A text message with its content.
    Text(String),
    /// A message that is no text: binary, ping, pong, close.
    Other,
    /// The read failed, with the transport's reason.
    ReadError(String),
}

/// What the reader does with one inbound message.
#[derive(Debug, Clone, PartialEq)]
pub enum ReaderAction {
    /// Hand the delta on, and stop reading if nobody listens any more.
    Deliver(String),
    /// Hand on the end of the turn and go on reading.
    TurnDone,
    /// Go on reading.
    Ignore,
    /// Hand the error on and stop reading.
    Fail(AiError),
}

/// A reader action as plain values.
pub enum ReaderActionView {
    Deliver(Seq<char>),
    TurnDone,
    Ignore,
    Fail(AiErrorView),
}

impl View for ReaderAction {
    type V = ReaderActionView;

    open spec fn view(&self) -> ReaderActionView {
        match self {
            ReaderAction::Deliver(text) => ReaderActionView::Deliver(text@),
            ReaderAction::TurnDone => ReaderActionView::TurnDone,
            ReaderAction::Ignore => ReaderActionView::Ignore,
            ReaderAction::Fail(error) => ReaderActionView::Fail(error@),
        }
    }
}

/// The reader's action for a classified event: a delta is delivered, the end
/// of a turn is signalled, a skipped event is ignored, an error ends the
/// reading.
pub open spec fn action_for_event(event: Result<AudioEventView, AiErrorView>) -> ReaderActionView {
    match event {
        Ok(AudioEventView::Delta(text)) => ReaderActionView::Deliver(text),
        Ok(AudioEventView::Done) => ReaderActionView::TurnDone,
        Ok(AudioEventView::Skip) => ReaderActionView::Ignore,
        Err(error) => ReaderActionView::Fail(error),
    }
}

/// The reader's action for a classified event.
pub fn reader_action(event: Result<AudioEvent, AiError>) -> (action: ReaderAction)
    ensures
        action@ == action_for_event(event_result_view(event)),
{
    match event {
        Ok(AudioEvent::Delta(text)) => ReaderAction::Deliver(text),
        Ok(AudioEvent::Done) => ReaderAction::TurnDone,
        Ok(AudioEvent::Skip) => ReaderAction::Ignore,
        Err(error) => ReaderAction::Fail(error),
    }
}

/// The connection error that reports a failed read.
pub open spec fn read_failure_text(reason: Seq<char>) -> Seq<char> {
    "WebSocket read: "@ + reason
}

/// The connection error that reports a failed send.
pub open spec fn send_failure_text(reason: Seq<char>) -> Seq<char> {
    "WebSocket send: "@ + reason
}

/// Decides what the reader does with one inbound message. A text message is
/// parsed and classified; other messages are ignored; a failed read ends the
/// reading with a connection error.
pub fn reader_step(message: &Inbound) -> (action: ReaderAction)
    ensures
        match *message {
            Inbound::Text(text) => match parsed_json(text@) {
                Some(doc) => action@ == action_for_event(
                    classify_event_spec(event_fields_of(doc)),
                ),
                None => match action {
                    ReaderAction::Fail(AiError::InvalidResponse(detail)) => "bad JSON: "@.is_prefix_of(
                        detail@,
                    ),
                    _ => false,
                },
            },
            Inbound::Other => action@ == ReaderActionView::Ignore,
            Inbound::ReadError(reason) => action@ == ReaderActionView::Fail(
                AiErrorView::ConnectionError(read_failure_text(reason@)),
            ),
        },
{
    match message {
        Inbound::Text(text) => reader_action(parse_event(text.as_str())),
        Inbound::Other => ReaderAction::Ignore,
        Inbound::ReadError(reason) => ReaderAction::Fail(
            AiError::ConnectionError(String::from_str("WebSocket read: ").concat(reason.as_str())),
        ),
    }
}

impl RealtimeAudioSession {
    /// Records that a send on the socket failed: the writer stops, and the
    /// connection error to report is returned.
    pub fn send_failed(&mut self, reason: &str) -> (error: AiError)
        ensures
            final(self)@ == (RealtimeAudioSessionView { open: false, ..old(self)@ }),
            error@ == AiErrorView::ConnectionError(send_failure_text(reason@)),
    {
        self.open = false;
        AiError::ConnectionError(String::from_str("WebSocket send: ").concat(reason))
    }
}

} // verus!
