//! The vision provider: the request for one frame, the handling of the HTTP
//! status, and the incremental decoding of the event stream that answers.

use vstd::prelude::*;
use crate::ai::json::{
    json_error_text, json_quote, json_quoted, json_strings, lookup, opt_text, parse_json,
    parsed_json, string_at,
};
use crate::ai::types::{AiError, AiErrorView, TextStream};
use crate::ai::{AiProvider, AudioConnect, FrameRequest};
use crate::encoding::{
    trim, trim_end_matches, trimmed, utf8_lossy, utf8_lossy_text, without_trailing,
};
use crate::text::{
    contains_seq, drop_trailing_byte, find_byte, first_index_of, lemma_first_index_of,
    lemma_first_index_prefix,
    starts_with, str_contains, str_equals, strip_trailing_byte, trim_ascii, trim_ascii_space,
};
use vstd::string::StringSliceAdditionalSpecFns;
use vstd::utf8::encode_utf8;

verus! {

/// Client of the Azure OpenAI Responses API for frame analysis.
#[derive(Debug, Clone)]
pub struct AzureVisionClient {
    endpoint: String,
    api_key: String,
    model: String,
    system_prompt: String,
    /// When true, the credential is sent as a bearer token.
    use_bearer: bool,
    /// Identifier of the previous response, which a follow-up request names.
    previous_response_id: Option<String>,
}

/// A vision client as plain values.
pub struct AzureVisionClientView {
    pub endpoint: Seq<char>,
    pub api_key: Seq<char>,
    pub model: Seq<char>,
    pub system_prompt: Seq<char>,
    pub use_bearer: bool,
    pub previous_response_id: Option<Seq<char>>,
}

impl View for AzureVisionClient {
    type V = AzureVisionClientView;

    closed spec fn view(&self) -> AzureVisionClientView {
        AzureVisionClientView {
            endpoint: self.endpoint@,
            api_key: self.api_key@,
            model: self.model@,
            system_prompt: self.system_prompt@,
            use_bearer: self.use_bearer,
            previous_response_id: opt_text(self.previous_response_id),
        }
    }
}

/// The member that names the previous response, or nothing.
pub open spec fn previous_response_member(previous: Option<Seq<char>>) -> Seq<char> {
    match previous {
        Some(id) => ",\"previous_response_id\":"@ + json_quoted(id),
        None => Seq::empty(),
    }
}

/// The JSON body of the request that analyses `frame_data` under
/// `system_prompt`: one user message with a fixed question and the frame as
/// a JPEG data URL, streamed, with at most 300 output tokens.
pub open spec fn request_body_text(
    model: Seq<char>,
    frame_data: Seq<char>,
    system_prompt: Seq<char>,
    previous: Option<Seq<char>>,
) -> Seq<char> {
    "{\"input\":[{\"content\":[{\"text\":\"What do you see?\",\"type\":\"input_text\"},{\"image_url\":"@
        + json_quoted("data:image/jpeg;base64,"@ + frame_data)
        + ",\"type\":\"input_image\"}],\"role\":\"user\",\"type\":\"message\"}],\"instructions\":"@
        + json_quoted(system_prompt) + ",\"max_output_tokens\":300,\"model\":"@ + json_quoted(
        model,
    ) + previous_response_member(previous) + ",\"stream\":true,\"truncation\":\"auto\"}"@
}

/// The address of the Responses API under `endpoint`.
pub open spec fn responses_url_text(endpoint: Seq<char>) -> Seq<char> {
    without_trailing(endpoint, '/') + "/openai/v1/responses?api-version=preview"@
}

/// What to do with the answer to a request.
#[derive(Debug, Clone, PartialEq)]
pub enum ResponseAction {
    /// Read the body as an event stream.
    Stream,
    /// Send the request once more, built anew.
    Retry,
    /// Give up with this error.
    Fail(AiError),
}

/// A response action as plain values.
pub enum ResponseActionView {
    Stream,
    Retry,
    Fail(AiErrorView),
}

impl View for ResponseAction {
    type V = ResponseActionView;

    open spec fn view(&self) -> ResponseActionView {
        match self {
            ResponseAction::Stream => ResponseActionView::Stream,
            ResponseAction::Retry => ResponseActionView::Retry,
            ResponseAction::Fail(error) => ResponseActionView::Fail(error@),
        }
    }
}

/// Whether an HTTP status reports success.
pub open spec fn is_success(status: u16) -> bool {
    200 <= status < 300
}

/// The connection error for a status that is no success.
pub open spec fn http_failure_text(status_text: Seq<char>, body: Seq<char>) -> Seq<char> {
    "HTTP "@ + status_text + ": "@ + body
}

/// Whether a first answer says that the named previous response is stale:
/// status 400 with `previous_response_not_found` somewhere in its body,
/// both taken as UTF-8 bytes.
pub open spec fn is_stale_correlation(status: u16, body: Seq<char>) -> bool {
    status == 400 && contains_seq(encode_utf8(body), encode_utf8("previous_response_not_found"@))
}

/// How an answer is handled. Success is streamed. A first answer that reports
/// a stale previous response is retried; 401 and 403 are authentication
/// errors with the body, 429 is a rate limit of one second, every other
/// failure is a connection error with status and body. A failed retry is
/// always a connection error.
pub open spec fn response_action_spec(
    status: u16,
    status_text: Seq<char>,
    body: Seq<char>,
    retried: bool,
) -> ResponseActionView {
    if is_success(status) {
        ResponseActionView::Stream
    } else if retried {
        ResponseActionView::Fail(AiErrorView::ConnectionError(http_failure_text(status_text, body)))
    } else if is_stale_correlation(status, body) {
        ResponseActionView::Retry
    } else if status == 401 || status == 403 {
        ResponseActionView::Fail(AiErrorView::AuthError(body))
    } else if status == 429 {
        ResponseActionView::Fail(AiErrorView::RateLimited { retry_after_ms: 1000 })
    } else {
        ResponseActionView::Fail(AiErrorView::ConnectionError(http_failure_text(status_text, body)))
    }
}

fn http_failure(status_text: &str, body: &str) -> (error: AiError)
    ensures
        error@ == AiErrorView::ConnectionError(http_failure_text(status_text@, body@)),
{
    AiError::ConnectionError(
        String::from_str("HTTP ").concat(status_text).concat(": ").concat(body),
    )
}

fn clone_opt(text: &Option<String>) -> (copy: Option<String>)
    ensures
        opt_text(copy) == opt_text(*text),
{
    match text {
        Some(t) => Some(t.clone()),
        None => None,
    }
}

impl AzureVisionClient {
    /// A client that sends its credential in the `api-key` header and names
    /// no previous response.
    pub fn new(endpoint: &str, api_key: &str, model: &str, system_prompt: &str) -> (client:
        AzureVisionClient)
        ensures
            client@ == (AzureVisionClientView {
                endpoint: endpoint@,
                api_key: api_key@,
                model: model@,
                system_prompt: system_prompt@,
                use_bearer: false,
                previous_response_id: None,
            }),
    {
        AzureVisionClient {
            endpoint: String::from_str(endpoint),
            api_key: String::from_str(api_key),
            model: String::from_str(model),
            system_prompt: String::from_str(system_prompt),
            use_bearer: false,
            previous_response_id: None,
        }
    }

    /// The same client, sending its credential as a bearer token.
    pub fn with_bearer(self) -> (client: AzureVisionClient)
        ensures
            client@ == (AzureVisionClientView { use_bearer: true, ..self@ }),
    {
        let mut client = self;
        client.use_bearer = true;
        client
    }

    /// The endpoint this client was made with.
    pub fn endpoint(&self) -> (endpoint: &str)
        ensures
            endpoint@ == self@.endpoint,
    {
        self.endpoint.as_str()
    }

    /// The prompt this client was made with.
    pub fn system_prompt(&self) -> (prompt: &str)
        ensures
            prompt@ == self@.system_prompt,
    {
        self.system_prompt.as_str()
    }

    /// The identifier of the previous response, if one is remembered.
    pub fn previous_response_id(&self) -> (id: Option<String>)
        ensures
            opt_text(id) == self@.previous_response_id,
    {
        clone_opt(&self.previous_response_id)
    }

    /// Remembers `id` as the previous response, or forgets it.
    pub fn set_previous_response_id(&mut self, id: Option<String>)
        ensures
            final(self)@ == (AzureVisionClientView {
                previous_response_id: opt_text(id),
                ..old(self)@
            }),
    {
        self.previous_response_id = id;
    }

    /// Builds the JSON body of the request for one frame. The previous
    /// response is named if and only if one is remembered.
    pub fn build_request_body(&self, frame_data: &str, system_prompt: &str) -> (body: String)
        ensures
            body@ == request_body_text(
                self@.model,
                frame_data@,
                system_prompt@,
                self@.previous_response_id,
            ),
    {
        let image_url = String::from_str("data:image/jpeg;base64,").concat(frame_data);
        let quoted_image = json_quote(image_url.as_str());
        let quoted_prompt = json_quote(system_prompt);
        let quoted_model = json_quote(self.model.as_str());
        let mut body = String::from_str(
            "{\"input\":[{\"content\":[{\"text\":\"What do you see?\",\"type\":\"input_text\"},{\"image_url\":",
        );
        body.append(quoted_image.as_str());
        body.append(
            ",\"type\":\"input_image\"}],\"role\":\"user\",\"type\":\"message\"}],\"instructions\":",
        );
        body.append(quoted_prompt.as_str());
        body.append(",\"max_output_tokens\":300,\"model\":");
        body.append(quoted_model.as_str());
        match &self.previous_response_id {
            Some(id) => {
                let quoted_id = json_quote(id.as_str());
                body.append(",\"previous_response_id\":");
                body.append(quoted_id.as_str());
            },
            None => {},
        }
        body.append(",\"stream\":true,\"truncation\":\"auto\"}");
        assert(body@ =~= request_body_text(
            self@.model,
            frame_data@,
            system_prompt@,
            self@.previous_response_id,
        ));
        body
    }

    /// The address the request is posted to.
    pub fn request_url(&self) -> (url: String)
        ensures
            url@ == responses_url_text(self@.endpoint),
    {
        String::from_str(trim_end_matches(self.endpoint.as_str(), '/')).concat(
            "/openai/v1/responses?api-version=preview",
        )
    }

    /// Name and value of the header that carries the credential:
    /// `Authorization: Bearer <key>` in bearer mode, `api-key: <key>` else.
    pub fn auth_header(&self) -> (header: (String, String))
        ensures
            self@.use_bearer ==> header.0@ == "Authorization"@ && header.1@ == "Bearer "@
                + self@.api_key,
            !self@.use_bearer ==> header.0@ == "api-key"@ && header.1@ == self@.api_key,
    {
        if self.use_bearer {
            (
                String::from_str("Authorization"),
                String::from_str("Bearer ").concat(self.api_key.as_str()),
            )
        } else {
            (String::from_str("api-key"), self.api_key.clone())
        }
    }

    /// Decides what to do with the answer to a request. `status_text` is the
    /// status as it is printed, `body` the body of a failed answer, and
    /// `retried` says whether the request was the one retry. When the
    /// decision is to retry, the previous response is forgotten, so that the
    /// request built next does not name it; otherwise the client is
    /// unchanged.
    pub fn on_response(&mut self, status: u16, status_text: &str, body: &str, retried: bool) -> (action:
        ResponseAction)
        ensures
            action@ == response_action_spec(status, status_text@, body@, retried),
            action@ is Retry ==> final(self)@ == (AzureVisionClientView {
                previous_response_id: None,
                ..old(self)@
            }),
            !(action@ is Retry) ==> final(self)@ == old(self)@,
    {
        if 200 <= status && status < 300 {
            return ResponseAction::Stream;
        }
        if retried {
            return ResponseAction::Fail(http_failure(status_text, body));
        }
        if status == 400 && str_contains(body, "previous_response_not_found") {
            self.previous_response_id = None;
            return ResponseAction::Retry;
        }
        if status == 401 || status == 403 {
            return ResponseAction::Fail(AiError::AuthError(String::from_str(body)));
        }
        if status == 429 {
            return ResponseAction::Fail(AiError::RateLimited { retry_after_ms: 1000 });
        }
        ResponseAction::Fail(http_failure(status_text, body))
    }
}

/// Whether `request` is the request that `client` plans for `frame_data`
/// under `system_prompt`: posted to the Responses API under the client's
/// endpoint, with the client's credential in the header of its auth mode,
/// and with the body for the frame.
pub open spec fn frame_request_ok(
    client: AzureVisionClientView,
    frame_data: Seq<char>,
    system_prompt: Seq<char>,
    request: FrameRequest,
) -> bool {
    &&& request.url@ == responses_url_text(client.endpoint)
    &&& request.body@ == request_body_text(
        client.model,
        frame_data,
        system_prompt,
        client.previous_response_id,
    )
    &&& client.use_bearer ==> request.auth_header@ == "Authorization"@ && request.auth_value@
        == "Bearer "@ + client.api_key
    &&& !client.use_bearer ==> request.auth_header@ == "api-key"@ && request.auth_value@
        == client.api_key
}

impl AiProvider for AzureVisionClient {
    /// The request for one frame: address, credential header and body.
    fn analyze_frame(&self, frame_data: &str, system_prompt: &str) -> (result: Result<
        FrameRequest,
        AiError,
    >)
        ensures
            match result {
                Ok(request) => frame_request_ok(self@, frame_data@, system_prompt@, request),
                Err(_) => false,
            },
    {
        let (auth_header, auth_value) = self.auth_header();
        Ok(
            FrameRequest {
                url: self.request_url(),
                auth_header,
                auth_value,
                body: self.build_request_body(frame_data, system_prompt),
            },
        )
    }

    /// The vision provider opens no audio session: always a model error.
    fn start_audio_stream(&self, system_prompt: &str) -> (result: Result<AudioConnect, AiError>)
        ensures
            match result {
                Err(AiError::ModelError(message)) => message@
                    == "Audio streaming not supported by AzureVisionClient"@,
                _ => false,
            },
    {
        Err(
            AiError::ModelError(
                String::from_str("Audio streaming not supported by AzureVisionClient"),
            ),
        )
    }

    fn name(&self) -> (name: &'static str)
        ensures
            name@ == "azure-openai-vision"@,
    {
        "azure-openai-vision"
    }
}

/// What one `data:` payload of the event stream means.
#[derive(Debug, Clone, PartialEq)]
pub enum ParseResult {
    /// A text chunk to emit.
    Delta(String),
    /// The identifier of the response, to name in a follow-up request.
    ResponseId(String),
    /// The stream is finished.
    Done,
    /// Nothing to do for this event.
    Skip,
    /// The payload could not be decoded.
    Error(AiError),
}

/// The meaning of a payload as plain values. An undecodable payload is
/// `Invalid`, whatever the parser has to say about it.
pub enum SseOutcome {
    Delta(Seq<char>),
    ResponseId(Seq<char>),
    Done,
    Skip,
    Invalid,
}

impl ParseResult {
    /// Whether this result is the one that `outcome` asks for. An invalid
    /// payload is reported as an invalid response whose message begins with
    /// `Invalid JSON in SSE: `.
    pub open spec fn agrees_with(self, outcome: SseOutcome) -> bool {
        match outcome {
            SseOutcome::Delta(text) => match self {
                ParseResult::Delta(t) => t@ == text,
                _ => false,
            },
            SseOutcome::ResponseId(id) => match self {
                ParseResult::ResponseId(i) => i@ == id,
                _ => false,
            },
            SseOutcome::Done => self is Done,
            SseOutcome::Skip => self is Skip,
            SseOutcome::Invalid => match self {
                ParseResult::Error(AiError::InvalidResponse(message)) => "Invalid JSON in SSE: "@.is_prefix_of(
                    message@,
                ),
                _ => false,
            },
        }
    }
}

/// The fields of a stream event that the classification reads.
#[derive(Debug, Clone)]
pub struct SseFields {
    /// The string at `/type`.
    pub kind: Option<String>,
    /// The string at `/delta`.
    pub delta: Option<String>,
    /// The string at `/response/id`.
    pub response_id: Option<String>,
}

/// Stream event fields as plain values.
pub struct SseFieldsView {
    pub kind: Option<Seq<char>>,
    pub delta: Option<Seq<char>>,
    pub response_id: Option<Seq<char>>,
}

impl View for SseFields {
    type V = SseFieldsView;

    open spec fn view(&self) -> SseFieldsView {
        SseFieldsView {
            kind: opt_text(self.kind),
            delta: opt_text(self.delta),
            response_id: opt_text(self.response_id),
        }
    }
}

/// The fields of the event that a document holds.
pub open spec fn sse_fields_of(doc: Map<Seq<char>, Seq<char>>) -> SseFieldsView {
    SseFieldsView {
        kind: string_at(doc, "/type"@),
        delta: string_at(doc, "/delta"@),
        response_id: string_at(doc, "/response/id"@),
    }
}

/// How a stream event is classified. A text delta that is not empty is
/// emitted; `response.created` hands over the response identifier if it has
/// one; `response.output_text.done` and `response.completed` end the
/// stream; everything else is skipped.
pub open spec fn classify_sse_spec(fields: SseFieldsView) -> SseOutcome {
    if fields.kind == Some("response.output_text.delta"@) {
        match fields.delta {
            Some(delta) => if delta.len() == 0 {
                SseOutcome::Skip
            } else {
                SseOutcome::Delta(delta)
            },
            None => SseOutcome::Skip,
        }
    } else if fields.kind == Some("response.created"@) {
        match fields.response_id {
            Some(id) => SseOutcome::ResponseId(id),
            None => SseOutcome::Skip,
        }
    } else if fields.kind == Some("response.output_text.done"@) || fields.kind == Some(
        "response.completed"@,
    ) {
        SseOutcome::Done
    } else {
        SseOutcome::Skip
    }
}

/// What a `data:` payload means: `[DONE]` between white space ends the
/// stream, any other payload is a JSON event.
pub open spec fn parse_sse_spec(data: Seq<char>) -> SseOutcome {
    let inner = trimmed(data);
    if inner == "[DONE]"@ {
        SseOutcome::Done
    } else {
        match parsed_json(inner) {
            Some(doc) => classify_sse_spec(sse_fields_of(doc)),
            None => SseOutcome::Invalid,
        }
    }
}

/// Reads the fields of a stream event out of a parsed document.
pub fn read_sse_fields(doc: &serde_json::Value) -> (fields: SseFields)
    ensures
        fields@ == sse_fields_of(json_strings(*doc)),
{
    SseFields {
        kind: lookup(doc, "/type"),
        delta: lookup(doc, "/delta"),
        response_id: lookup(doc, "/response/id"),
    }
}

fn kind_is(kind: &Option<String>, name: &str) -> (same: bool)
    ensures
        same == (opt_text(*kind) == Some(name@)),
{
    match kind {
        Some(k) => str_equals(k.as_str(), name),
        None => false,
    }
}

/// Classifies one stream event by its fields.
pub fn classify_sse_fields(fields: &SseFields) -> (result: ParseResult)
    ensures
        result.agrees_with(classify_sse_spec(fields@)),
{
    if kind_is(&fields.kind, "response.output_text.delta") {
        match &fields.delta {
            Some(delta) => if delta.as_str().is_empty() {
                ParseResult::Skip
            } else {
                ParseResult::Delta(delta.clone())
            },
            None => ParseResult::Skip,
        }
    } else if kind_is(&fields.kind, "response.created") {
        match &fields.response_id {
            Some(id) => ParseResult::ResponseId(id.clone()),
            None => ParseResult::Skip,
        }
    } else if kind_is(&fields.kind, "response.output_text.done") || kind_is(
        &fields.kind,
        "response.completed",
    ) {
        ParseResult::Done
    } else {
        ParseResult::Skip
    }
}

/// Parses a single `data:` payload of the event stream.
pub fn parse_sse_data(data: &str) -> (result: ParseResult)
    ensures
        result.agrees_with(parse_sse_spec(data@)),
{
    let inner = trim(data);
    if str_equals(inner, "[DONE]") {
        return ParseResult::Done;
    }
    match parse_json(inner) {
        Ok(doc) => {
            let fields = read_sse_fields(&doc);
            classify_sse_fields(&fields)
        },
        Err(error) => {
            let detail = json_error_text(&error);
            ParseResult::Error(
                AiError::InvalidResponse(
                    String::from_str("Invalid JSON in SSE: ").concat(detail.as_str()),
                ),
            )
        },
    }
}

/// The bytes of `data:`, the field name that opens a payload line.
pub open spec fn data_prefix() -> Seq<u8> {
    seq![0x64u8, 0x61u8, 0x74u8, 0x61u8, 0x3au8]
}

/// The payload of a line: what follows `data:`, or `None` for a line that
/// does not begin with it.
pub open spec fn data_payload(line: Seq<u8>) -> Option<Seq<u8>> {
    if data_prefix().is_prefix_of(line) {
        Some(line.skip(5))
    } else {
        None
    }
}

/// What the payload bytes of a line mean, read as UTF-8.
pub open spec fn payload_outcome(payload: Seq<u8>) -> SseOutcome {
    parse_sse_spec(utf8_lossy_text(payload))
}

/// Streaming reader for the events of the Responses API. Bytes are fed in
/// as they arrive; chunks are decoded as soon as a complete line holds one.
#[derive(Debug)]
pub struct ResponsesTextStream {
    buffer: Vec<u8>,
    done: bool,
    closed: bool,
    response_id: Option<String>,
}

/// A stream as plain values.
pub struct ResponsesTextStreamView {
    /// Bytes that arrived and were not decoded yet.
    pub buffer: Seq<u8>,
    /// Whether the stream has ended: nothing more will be decoded.
    pub done: bool,
    /// Whether the transport has closed: no more bytes will arrive.
    pub closed: bool,
    /// The response identifier that the stream has announced, if any.
    pub response_id: Option<Seq<char>>,
}

impl View for ResponsesTextStream {
    type V = ResponsesTextStreamView;

    closed spec fn view(&self) -> ResponsesTextStreamView {
        ResponsesTextStreamView {
            buffer: self.buffer@,
            done: self.done,
            closed: self.closed,
            response_id: opt_text(self.response_id),
        }
    }
}

/// What a call of `next_chunk` hands out.
pub enum Poll {
    /// A text chunk.
    Chunk(Seq<char>),
    /// A payload that could not be decoded.
    Invalid,
    /// Nothing: the stream has ended, or a complete line has yet to arrive.
    Nothing,
}

/// A stream after a call of `next_chunk`, with what the call handed out.
pub struct Polled {
    pub state: ResponsesTextStreamView,
    pub poll: Poll,
}

/// The last decoding of a stream whose transport has closed: what is left
/// in the buffer, without the white space around it, is read as one more
/// line. The stream is done afterwards, and its buffer empty.
pub open spec fn flush_spec(s: ResponsesTextStreamView) -> Polled {
    let ended = ResponsesTextStreamView { buffer: Seq::empty(), done: true, ..s };
    match data_payload(trim_ascii_space(s.buffer)) {
        Some(payload) => match payload_outcome(payload) {
            SseOutcome::Delta(text) => Polled { state: ended, poll: Poll::Chunk(text) },
            SseOutcome::ResponseId(id) => Polled {
                state: ResponsesTextStreamView { response_id: Some(id), ..ended },
                poll: Poll::Nothing,
            },
            SseOutcome::Invalid => Polled { state: ended, poll: Poll::Invalid },
            _ => Polled { state: ended, poll: Poll::Nothing },
        },
        None => Polled { state: ended, poll: Poll::Nothing },
    }
}

/// One call of `next_chunk`. Complete lines are taken from the front of the
/// buffer, each without its line feed and the carriage returns before it,
/// until one hands out a chunk, ends the stream or cannot be decoded. Lines
/// that do not begin with `data:` are passed over, and so are events that
/// ask for nothing; a response identifier is remembered. An undecodable
/// payload ends the stream. Where no complete line is left, a closed
/// stream is flushed and an open one waits.
pub open spec fn poll_spec(s: ResponsesTextStreamView) -> Polled
    decreases s.buffer.len(),
{
    if s.done {
        Polled { state: s, poll: Poll::Nothing }
    } else {
        match first_index_of(s.buffer, 0x0au8) {
            Some(at) => if 0 <= at < s.buffer.len() {
                let line = drop_trailing_byte(s.buffer.subrange(0, at), 0x0du8);
                let rest = ResponsesTextStreamView { buffer: s.buffer.skip(at + 1), ..s };
                match data_payload(line) {
                    Some(payload) => match payload_outcome(payload) {
                        SseOutcome::Delta(text) => Polled { state: rest, poll: Poll::Chunk(text) },
                        SseOutcome::ResponseId(id) => poll_spec(
                            ResponsesTextStreamView { response_id: Some(id), ..rest },
                        ),
                        SseOutcome::Done => Polled {
                            state: ResponsesTextStreamView { done: true, ..rest },
                            poll: Poll::Nothing,
                        },
                        SseOutcome::Skip => poll_spec(rest),
                        SseOutcome::Invalid => Polled {
                            state: ResponsesTextStreamView { done: true, ..rest },
                            poll: Poll::Invalid,
                        },
                    },
                    None => poll_spec(rest),
                }
            } else {
                Polled { state: s, poll: Poll::Nothing }
            },
            None => if s.closed {
                flush_spec(s)
            } else {
                Polled { state: s, poll: Poll::Nothing }
            },
        }
    }
}

/// A stream that has ended hands out nothing more and does not change,
/// whatever arrives.
pub proof fn lemma_ended_stream_is_silent(s: ResponsesTextStreamView)
    requires
        s.done,
    ensures
        poll_spec(s).poll is Nothing,
        poll_spec(s).state == s,
{
}

/// A terminal event ends the stream: after a line that means `Done`, the
/// lines behind it are not decoded.
pub proof fn lemma_terminal_event_ends_stream(s: ResponsesTextStreamView, at: int)
    requires
        !s.done,
        first_index_of(s.buffer, 0x0au8) == Some(at),
        0 <= at < s.buffer.len(),
        data_payload(drop_trailing_byte(s.buffer.subrange(0, at), 0x0du8)) is Some,
        payload_outcome(
            data_payload(drop_trailing_byte(s.buffer.subrange(0, at), 0x0du8))->0,
        ) is Done,
    ensures
        poll_spec(s).poll is Nothing,
        poll_spec(s).state.done,
        poll_spec(poll_spec(s).state).poll is Nothing,
{
}

impl ResponsesTextStreamView {
    /// The stream after `bytes` have arrived.
    pub open spec fn fed(self, bytes: Seq<u8>) -> ResponsesTextStreamView {
        ResponsesTextStreamView { buffer: self.buffer + bytes, ..self }
    }
}

/// What a stream hands out when it is polled until it hands out nothing.
pub struct Drained {
    /// What the calls handed out, in order.
    pub items: Seq<Poll>,
    /// The stream afterwards.
    pub state: ResponsesTextStreamView,
}

/// Polling a stream until it hands out nothing.
pub open spec fn drain_spec(s: ResponsesTextStreamView) -> Drained
    decreases s.buffer.len(),
{
    let polled = poll_spec(s);
    if polled.poll is Nothing || polled.state.buffer.len() >= s.buffer.len() {
        Drained { items: Seq::empty(), state: polled.state }
    } else {
        let rest = drain_spec(polled.state);
        Drained { items: seq![polled.poll] + rest.items, state: rest.state }
    }
}

/// A call of `next_chunk` never grows the buffer, takes at least one line
/// from it whenever it hands something out, and leaves the transport as
/// open or closed as it was.
pub proof fn lemma_poll_consumes(s: ResponsesTextStreamView)
    ensures
        poll_spec(s).state.buffer.len() <= s.buffer.len(),
        !(poll_spec(s).poll is Nothing) ==> poll_spec(s).state.buffer.len() < s.buffer.len(),
        poll_spec(s).state.closed == s.closed,
    decreases s.buffer.len(),
{
    if !s.done {
        match first_index_of(s.buffer, 0x0au8) {
            Some(at) => {
                if 0 <= at < s.buffer.len() {
                    let line = drop_trailing_byte(s.buffer.subrange(0, at), 0x0du8);
                    let rest = ResponsesTextStreamView { buffer: s.buffer.skip(at + 1), ..s };
                    match data_payload(line) {
                        Some(payload) => match payload_outcome(payload) {
                            SseOutcome::ResponseId(id) => {
                                lemma_poll_consumes(
                                    ResponsesTextStreamView { response_id: Some(id), ..rest },
                                );
                            },
                            SseOutcome::Skip => {
                                lemma_poll_consumes(rest);
                            },
                            _ => {},
                        },
                        None => {
                            lemma_poll_consumes(rest);
                        },
                    }
                }
            },
            None => {
                if s.closed && !(flush_spec(s).poll is Nothing) {
                    // What is flushed begins with `data:`, so the buffer was
                    // not empty.
                    assert(data_payload(trim_ascii_space(s.buffer)) is Some);
                    lemma_trim_is_no_longer(s.buffer);
                }
            },
        }
    }
}

proof fn lemma_drop_trailing_space_is_no_longer(s: Seq<u8>)
    ensures
        crate::text::drop_trailing_space(s).len() <= s.len(),
    decreases s.len(),
{
    if s.len() > 0 && crate::text::is_ascii_space(s.last()) {
        lemma_drop_trailing_space_is_no_longer(s.drop_last());
    }
}

proof fn lemma_skip_leading_space_is_no_longer(s: Seq<u8>)
    ensures
        crate::text::skip_leading_space(s).len() <= s.len(),
    decreases s.len(),
{
    if s.len() > 0 && crate::text::is_ascii_space(s[0]) {
        lemma_skip_leading_space_is_no_longer(s.drop_first());
    }
}

proof fn lemma_trim_is_no_longer(s: Seq<u8>)
    ensures
        trim_ascii_space(s).len() <= s.len(),
{
    lemma_skip_leading_space_is_no_longer(s);
    lemma_drop_trailing_space_is_no_longer(crate::text::skip_leading_space(s));
}

/// Bytes that arrive later do not change what an open stream hands out
/// from the lines it already holds: a call on the stream with the new
/// bytes hands out what a call without them would, and where that is
/// nothing, the call goes on where the other stopped.
pub proof fn lemma_poll_before_or_after_feed(s: ResponsesTextStreamView, more: Seq<u8>)
    requires
        !s.closed,
    ensures
        !(poll_spec(s).poll is Nothing) ==> poll_spec(s.fed(more)) == (Polled {
            state: poll_spec(s).state.fed(more),
            poll: poll_spec(s).poll,
        }),
        poll_spec(s).poll is Nothing ==> poll_spec(s.fed(more)) == poll_spec(
            poll_spec(s).state.fed(more),
        ),
    decreases s.buffer.len(),
{
    if !s.done {
        match first_index_of(s.buffer, 0x0au8) {
            Some(at) => {
                lemma_first_index_of(s.buffer, 0x0au8);
                lemma_first_index_prefix(s.buffer, more, 0x0au8);
                let all = s.buffer + more;
                assert(all.subrange(0, at) =~= s.buffer.subrange(0, at));
                assert(all.skip(at + 1) =~= s.buffer.skip(at + 1) + more);
                let line = drop_trailing_byte(s.buffer.subrange(0, at), 0x0du8);
                let rest = ResponsesTextStreamView { buffer: s.buffer.skip(at + 1), ..s };
                assert(rest.fed(more) == (ResponsesTextStreamView {
                    buffer: all.skip(at + 1),
                    ..s.fed(more)
                }));
                match data_payload(line) {
                    Some(payload) => match payload_outcome(payload) {
                        SseOutcome::ResponseId(id) => {
                            let named = ResponsesTextStreamView { response_id: Some(id), ..rest };
                            lemma_poll_before_or_after_feed(named, more);
                            assert(named.fed(more) == (ResponsesTextStreamView {
                                response_id: Some(id),
                                ..rest.fed(more)
                            }));
                        },
                        SseOutcome::Skip => {
                            lemma_poll_before_or_after_feed(rest, more);
                        },
                        SseOutcome::Done => {
                            let ended = ResponsesTextStreamView { done: true, ..rest };
                            assert(ended.fed(more) == (ResponsesTextStreamView {
                                done: true,
                                ..rest.fed(more)
                            }));
                        },
                        SseOutcome::Invalid => {
                            let ended = ResponsesTextStreamView { done: true, ..rest };
                            assert(ended.fed(more) == (ResponsesTextStreamView {
                                done: true,
                                ..rest.fed(more)
                            }));
                        },
                        SseOutcome::Delta(_) => {},
                    },
                    None => {
                        lemma_poll_before_or_after_feed(rest, more);
                    },
                }
            },
            None => {},
        }
    }
}

/// Partial reads do not matter: however the bytes of a response are cut
/// into reads, and whenever the stream is polled in between, the same
/// chunks come out in the same order and the stream ends in the same
/// state. Polling an open stream dry, feeding it and polling it dry again
/// gives what feeding first and polling once gives.
pub proof fn lemma_partial_reads_do_not_matter(s: ResponsesTextStreamView, more: Seq<u8>)
    requires
        !s.closed,
    ensures
        drain_spec(s.fed(more)).items == drain_spec(s).items + drain_spec(
            drain_spec(s).state.fed(more),
        ).items,
        drain_spec(s.fed(more)).state == drain_spec(drain_spec(s).state.fed(more)).state,
    decreases s.buffer.len(),
{
    let polled = poll_spec(s);
    lemma_poll_consumes(s);
    lemma_poll_consumes(s.fed(more));
    lemma_poll_before_or_after_feed(s, more);
    if polled.poll is Nothing {
        lemma_poll_consumes(polled.state.fed(more));
        assert(drain_spec(s).items =~= Seq::<Poll>::empty());
        assert(drain_spec(s.fed(more)).items =~= drain_spec(polled.state.fed(more)).items);
    } else {
        lemma_partial_reads_do_not_matter(polled.state, more);
        let later = drain_spec(polled.state);
        assert(drain_spec(s.fed(more)).items =~= seq![polled.poll] + drain_spec(
            polled.state.fed(more),
        ).items);
        assert(drain_spec(s.fed(more)).items =~= drain_spec(s).items + drain_spec(
            drain_spec(s).state.fed(more),
        ).items);
    }
}

/// Whether `result` is what `poll` asks `next_chunk` to hand out. An
/// undecodable payload is handed out as an invalid response whose message
/// begins with `Invalid JSON in SSE: `.
pub open spec fn chunk_agrees(result: Option<Result<String, AiError>>, poll: Poll) -> bool {
    match poll {
        Poll::Chunk(text) => match result {
            Some(Ok(chunk)) => chunk@ == text,
            _ => false,
        },
        Poll::Invalid => match result {
            Some(Err(AiError::InvalidResponse(message))) => "Invalid JSON in SSE: "@.is_prefix_of(
                message@,
            ),
            _ => false,
        },
        Poll::Nothing => result is None,
    }
}

/// The connection error that reports a failed read of the body.
pub open spec fn stream_failure_text(reason: Seq<char>) -> Seq<char> {
    "Stream read error: "@ + reason
}

fn payload_of(line: &[u8]) -> (payload: Option<&[u8]>)
    ensures
        match payload {
            Some(p) => data_payload(line@) == Some(p@),
            None => data_payload(line@) is None,
        },
{
    let prefix: Vec<u8> = vec![0x64u8, 0x61u8, 0x74u8, 0x61u8, 0x3au8];
    assert(prefix@ =~= data_prefix());
    if starts_with(line, prefix.as_slice()) {
        let payload = vstd::slice::slice_subrange(line, 5, line.len());
        assert(payload@ =~= line@.skip(5));
        Some(payload)
    } else {
        None
    }
}

fn parse_payload(payload: &[u8]) -> (result: ParseResult)
    ensures
        result.agrees_with(payload_outcome(payload@)),
{
    let text = utf8_lossy(payload);
    parse_sse_data(text.as_str())
}

impl ResponsesTextStream {
    /// An open stream that has seen no bytes.
    pub fn new() -> (stream: ResponsesTextStream)
        ensures
            stream@ == (ResponsesTextStreamView {
                buffer: Seq::empty(),
                done: false,
                closed: false,
                response_id: None,
            }),
    {
        ResponsesTextStream { buffer: Vec::new(), done: false, closed: false, response_id: None }
    }

    /// Takes the bytes of one network read.
    pub fn feed(&mut self, bytes: &[u8])
        ensures
            final(self)@ == (ResponsesTextStreamView {
                buffer: old(self)@.buffer + bytes@,
                ..old(self)@
            }),
    {
        let mut i: usize = 0;
        while i < bytes.len()
            invariant
                i <= bytes.len(),
                self.buffer@ == old(self).buffer@ + bytes@.subrange(0, i as int),
                self.done == old(self).done,
                self.closed == old(self).closed,
                self.response_id == old(self).response_id,
            decreases bytes.len() - i,
        {
            self.buffer.push(bytes[i]);
            i = i + 1;
            assert(self.buffer@ =~= old(self).buffer@ + bytes@.subrange(0, i as int));
        }
        assert(bytes@.subrange(0, i as int) =~= bytes@);
    }

    /// Records that the transport has closed: the next call of `next_chunk`
    /// that finds no complete line flushes the buffer.
    pub fn finish(&mut self)
        ensures
            final(self)@ == (ResponsesTextStreamView { closed: true, ..old(self)@ }),
    {
        self.closed = true;
    }

    /// Records that reading the body failed: the stream is done, and the
    /// connection error to report is returned.
    pub fn fail(&mut self, reason: &str) -> (error: AiError)
        ensures
            final(self)@ == (ResponsesTextStreamView { done: true, ..old(self)@ }),
            error@ == AiErrorView::ConnectionError(stream_failure_text(reason@)),
    {
        self.done = true;
        AiError::ConnectionError(String::from_str("Stream read error: ").concat(reason))
    }

    /// Whether the stream has ended.
    pub fn is_done(&self) -> (done: bool)
        ensures
            done == self@.done,
    {
        self.done
    }

    /// The response identifier that the stream has announced, if any.
    pub fn response_id(&self) -> (id: Option<String>)
        ensures
            opt_text(id) == self@.response_id,
    {
        clone_opt(&self.response_id)
    }

    fn flush(&mut self) -> (result: Option<Result<String, AiError>>)
        requires
            !old(self)@.done,
        ensures
            final(self)@ == flush_spec(old(self)@).state,
            chunk_agrees(result, flush_spec(old(self)@).poll),
    {
        self.done = true;
        let mut remaining: Vec<u8> = Vec::new();
        std::mem::swap(&mut self.buffer, &mut remaining);
        assert(self.buffer@ =~= Seq::empty());
        let inner = trim_ascii(remaining.as_slice());
        match payload_of(inner) {
            Some(payload) => match parse_payload(payload) {
                ParseResult::Delta(text) => Some(Ok(text)),
                ParseResult::ResponseId(id) => {
                    self.response_id = Some(id);
                    None
                },
                ParseResult::Error(error) => Some(Err(error)),
                _ => None,
            },
            None => None,
        }
    }
}

/// Whether `results` are what `items` ask a stream to hand out, one by
/// one.
pub open spec fn chunks_agree(results: Seq<Result<String, AiError>>, items: Seq<Poll>) -> bool {
    &&& results.len() == items.len()
    &&& forall|i: int| 0 <= i < results.len() ==> chunk_agrees(Some(results[i]), #[trigger] items[i])
}

impl ResponsesTextStream {
    /// Decodes every chunk that the bytes fed so far hold, in order: calls
    /// `next_chunk` until it hands out nothing.
    pub fn drain(&mut self) -> (results: Vec<Result<String, AiError>>)
        ensures
            chunks_agree(results@, drain_spec(old(self)@).items),
            final(self)@ == drain_spec(old(self)@).state,
    {
        let mut results: Vec<Result<String, AiError>> = Vec::new();
        let ghost mut handed: Seq<Poll> = Seq::empty();
        loop
            invariant
                chunks_agree(results@, handed),
                drain_spec(old(self)@).items == handed + drain_spec(self@).items,
                drain_spec(old(self)@).state == drain_spec(self@).state,
            decreases self@.buffer.len(),
        {
            let ghost before = self@;
            proof {
                lemma_poll_consumes(before);
            }
            match self.next_chunk() {
                Some(result) => {
                    proof {
                        let item = poll_spec(before).poll;
                        assert(handed.push(item) + drain_spec(self@).items =~= handed + (seq![item]
                            + drain_spec(self@).items));
                        handed = handed.push(item);
                    }
                    results.push(result);
                },
                None => {
                    proof {
                        assert(handed + Seq::<Poll>::empty() =~= handed);
                    }
                    return results;
                },
            }
        }
    }
}

impl TextStream for ResponsesTextStream {
    /// Decodes the next text chunk from the bytes fed so far. `None` means
    /// that the stream has ended or that a complete line has yet to arrive;
    /// `is_done` tells the two apart.
    fn next_chunk(&mut self) -> (result: Option<Result<String, AiError>>)
        ensures
            final(self)@ == poll_spec(old(self)@).state,
            chunk_agrees(result, poll_spec(old(self)@).poll),
    {
        if self.done {
            return None;
        }
        loop
            invariant
                !self@.done,
                poll_spec(self@) == poll_spec(old(self)@),
            decreases self@.buffer.len(),
        {
            proof {
                lemma_first_index_of(self@.buffer, 0x0au8);
            }
            match find_byte(self.buffer.as_slice(), 0x0au8) {
                Some(at) => {
                    let ghost before = self@;
                    assert(at < self.buffer.len());
                    let rest = self.buffer.split_off(at + 1);
                    let mut taken: Vec<u8> = rest;
                    std::mem::swap(&mut self.buffer, &mut taken);
                    assert(self.buffer@ =~= before.buffer.skip(at + 1));
                    let whole = vstd::slice::slice_subrange(taken.as_slice(), 0, at);
                    assert(whole@ =~= before.buffer.subrange(0, at as int));
                    let line = strip_trailing_byte(whole, 0x0du8);
                    match payload_of(line) {
                        Some(payload) => match parse_payload(payload) {
                            ParseResult::Delta(text) => {
                                return Some(Ok(text));
                            },
                            ParseResult::ResponseId(id) => {
                                self.response_id = Some(id);
                            },
                            ParseResult::Done => {
                                self.done = true;
                                return None;
                            },
                            ParseResult::Skip => {},
                            ParseResult::Error(error) => {
                                self.done = true;
                                return Some(Err(error));
                            },
                        },
                        None => {},
                    }
                },
                None => {
                    if self.closed {
                        return self.flush();
                    }
                    return None;
                },
            }
        }
    }
}

} // verus!
