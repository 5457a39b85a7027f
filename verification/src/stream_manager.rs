//! The orchestrator: provider configuration, turn identities, the rolling
//! conversation context, and the events that go out to the user interface.
//!
//! The manager performs no I/O. The caller runs the requests and the
//! sockets, hands every answer to the manager, and emits the events that the
//! manager returns, in the order in which it returns them.

use vstd::prelude::*;
use crate::ai::types::{
    AiError, AiErrorView, AudioSession, CaptureSource, ConversationEntry, ConversationEntryView,
    Role,
};
use crate::ai::azure_audio::{
    session_config_text, websocket_url_ok, AzureAudioClient, AzureAudioClientView,
};
use crate::ai::endpoint::url_host;
use crate::ai::json::{json_quote, json_quoted};
use crate::text::{decimal_digits, push_decimal, str_equals};
use crate::ai::azure_vision::{
    frame_request_ok, response_action_spec, AzureVisionClient, AzureVisionClientView,
    ResponseAction,
};
use crate::ai::json::opt_text;
use crate::ai::{AiProvider, AudioConnect, FrameRequest};
use crate::clock::{format_iso_seconds, unix_time_now};
use crate::ai::types::ProviderConfig;
use crate::encoding::{
    base64_bytes, base64_decode, base64_error_text, base64_fits, fits_base64,
};

verus! {

/// Payload of an `ai:suggestion` event.
#[derive(Debug, Clone, PartialEq)]
pub struct SuggestionPayload {
    pub text: String,
    pub timestamp: String,
    pub done: bool,
    pub id: u64,
    pub source: String,
}

/// A suggestion as plain values.
pub struct SuggestionPayloadView {
    pub text: Seq<char>,
    pub timestamp: Seq<char>,
    pub done: bool,
    pub id: u64,
    pub source: Seq<char>,
}

impl View for SuggestionPayload {
    type V = SuggestionPayloadView;

    open spec fn view(&self) -> SuggestionPayloadView {
        SuggestionPayloadView {
            text: self.text@,
            timestamp: self.timestamp@,
            done: self.done,
            id: self.id,
            source: self.source@,
        }
    }
}

/// Payload of an `ai:error` event.
#[derive(Debug, Clone, PartialEq)]
pub struct AiErrorPayload {
    pub message: String,
    pub timestamp: String,
}

/// An error payload as plain values.
pub struct AiErrorPayloadView {
    pub message: Seq<char>,
    pub timestamp: Seq<char>,
}

impl View for AiErrorPayload {
    type V = AiErrorPayloadView;

    open spec fn view(&self) -> AiErrorPayloadView {
        AiErrorPayloadView { message: self.message@, timestamp: self.timestamp@ }
    }
}

/// Payload of an `ai:audio-status` event. The status is one of
/// `connecting`, `connected`, `disconnected` and `error`.
#[derive(Debug, Clone, PartialEq)]
pub struct AudioStatusPayload {
    pub status: String,
    pub message: Option<String>,
}

/// A status payload as plain values.
pub struct AudioStatusPayloadView {
    pub status: Seq<char>,
    pub message: Option<Seq<char>>,
}

impl View for AudioStatusPayload {
    type V = AudioStatusPayloadView;

    open spec fn view(&self) -> AudioStatusPayloadView {
        AudioStatusPayloadView { status: self.status@, message: opt_text(self.message) }
    }
}

/// An event for the user interface.
#[derive(Debug, Clone, PartialEq)]
pub enum OutboundEvent {
    Suggestion(SuggestionPayload),
    Error(AiErrorPayload),
    AudioStatus(AudioStatusPayload),
}

/// An outbound event as plain values.
pub enum OutboundEventView {
    Suggestion(SuggestionPayloadView),
    Error(AiErrorPayloadView),
    AudioStatus(AudioStatusPayloadView),
}

impl View for OutboundEvent {
    type V = OutboundEventView;

    open spec fn view(&self) -> OutboundEventView {
        match self {
            OutboundEvent::Suggestion(p) => OutboundEventView::Suggestion(p@),
            OutboundEvent::Error(p) => OutboundEventView::Error(p@),
            OutboundEvent::AudioStatus(p) => OutboundEventView::AudioStatus(p@),
        }
    }
}

impl OutboundEvent {
    /// The name under which the event is emitted.
    pub fn name(&self) -> (name: &'static str)
        ensures
            self@ is Suggestion ==> name@ == "ai:suggestion"@,
            self@ is Error ==> name@ == "ai:error"@,
            self@ is AudioStatus ==> name@ == "ai:audio-status"@,
    {
        match self {
            OutboundEvent::Suggestion(_) => "ai:suggestion",
            OutboundEvent::Error(_) => "ai:error",
            OutboundEvent::AudioStatus(_) => "ai:audio-status",
        }
    }
}

/// The views of a list of events, in order.
pub open spec fn event_views(events: Seq<OutboundEvent>) -> Seq<OutboundEventView> {
    events.map_values(|e: OutboundEvent| e@)
}

/// A text delta of turn `id`.
pub open spec fn delta_payload(
    text: Seq<char>,
    timestamp: Seq<char>,
    id: u64,
    source: Seq<char>,
) -> SuggestionPayloadView {
    SuggestionPayloadView { text, timestamp, done: false, id, source }
}

/// The terminal marker of turn `id`: no text, `done` set.
pub open spec fn done_payload(timestamp: Seq<char>, id: u64, source: Seq<char>) -> SuggestionPayloadView {
    SuggestionPayloadView { text: Seq::empty(), timestamp, done: true, id, source }
}

/// A status payload.
pub open spec fn status_payload(status: Seq<char>, message: Option<Seq<char>>) -> AudioStatusPayloadView {
    AudioStatusPayloadView { status, message }
}

fn make_delta(text: String, timestamp: &str, id: u64, source: &str) -> (payload: SuggestionPayload)
    ensures
        payload@ == delta_payload(text@, timestamp@, id, source@),
{
    SuggestionPayload {
        text,
        timestamp: String::from_str(timestamp),
        done: false,
        id,
        source: String::from_str(source),
    }
}

fn make_done(timestamp: &str, id: u64, source: &str) -> (payload: SuggestionPayload)
    ensures
        payload@ == done_payload(timestamp@, id, source@),
{
    SuggestionPayload {
        text: String::new(),
        timestamp: String::from_str(timestamp),
        done: true,
        id,
        source: String::from_str(source),
    }
}

fn make_error(error: &AiError, timestamp: &str) -> (payload: AiErrorPayload)
    ensures
        payload@ == (AiErrorPayloadView { message: error@.message(), timestamp: timestamp@ }),
{
    AiErrorPayload { message: error.to_string(), timestamp: String::from_str(timestamp) }
}

/// Builds an audio status payload.
pub fn audio_status(status: &str, message: Option<String>) -> (payload: AudioStatusPayload)
    ensures
        payload@ == status_payload(status@, opt_text(message)),
{
    AudioStatusPayload { status: String::from_str(status), message }
}

/// The last `limit` entries of `entries`, or all of them if there are no
/// more than `limit`.
pub open spec fn keep_last<T>(entries: Seq<T>, limit: int) -> Seq<T> {
    if entries.len() > limit && limit >= 0 {
        entries.skip(entries.len() - limit)
    } else {
        entries
    }
}

/// Trimming, appending and trimming again keeps what trimming once at the
/// end keeps: however many entries are pushed through a bounded context,
/// what remains are the last `limit` of all that were ever pushed.
pub proof fn lemma_keep_last_absorbs<T>(entries: Seq<T>, more: Seq<T>, limit: int)
    requires
        limit >= 0,
    ensures
        keep_last(keep_last(entries, limit) + more, limit) == keep_last(entries + more, limit),
{
    assert(keep_last(keep_last(entries, limit) + more, limit) =~= keep_last(
        entries + more,
        limit,
    ));
}

/// What `keep_last` keeps is the end of the sequence: eviction takes from
/// the oldest end only, and never more than needed.
pub proof fn lemma_keep_last_is_suffix<T>(entries: Seq<T>, limit: int)
    requires
        limit >= 0,
    ensures
        keep_last(entries, limit).len() == if entries.len() > limit {
            limit
        } else {
            entries.len() as int
        },
        forall|i: int|
            0 <= i < keep_last(entries, limit).len() ==> keep_last(entries, limit)[i]
                == entries[entries.len() - keep_last(entries, limit).len() + i],
{
}

/// The views of a list of entries, in order.
pub open spec fn entry_views(entries: Seq<ConversationEntry>) -> Seq<ConversationEntryView> {
    entries.map_values(|e: ConversationEntry| e@)
}

/// Bounded history of user and assistant entries, oldest first. Entries
/// come in pairs; once more than `max_pairs` pairs are held, the oldest are
/// evicted.
#[derive(Debug)]
pub struct RollingContext {
    entries: Vec<ConversationEntry>,
    max_pairs: usize,
}

/// A rolling context as plain values.
pub struct RollingContextView {
    pub entries: Seq<ConversationEntryView>,
    pub max_pairs: usize,
}

impl RollingContextView {
    /// The entries after one more pair.
    pub open spec fn with_pair(
        self,
        user: ConversationEntryView,
        assistant: ConversationEntryView,
    ) -> Seq<ConversationEntryView> {
        keep_last(self.entries.push(user).push(assistant), 2 * self.max_pairs)
    }
}

impl View for RollingContext {
    type V = RollingContextView;

    closed spec fn view(&self) -> RollingContextView {
        RollingContextView { entries: entry_views(self.entries@), max_pairs: self.max_pairs }
    }
}

impl RollingContext {
    #[verifier::type_invariant]
    spec fn in_bounds(self) -> bool {
        self.entries@.len() % 2 == 0 && self.entries@.len() <= 2 * self.max_pairs
    }

    /// An empty context that holds up to `max_pairs` pairs.
    pub fn new(max_pairs: usize) -> (context: RollingContext)
        ensures
            context@ == (RollingContextView { entries: Seq::empty(), max_pairs }),
    {
        let context = RollingContext { entries: Vec::new(), max_pairs };
        assert(entry_views(context.entries@) =~= Seq::empty());
        context
    }

    /// The number of entries held: always even, and never more than twice
    /// the number of pairs allowed.
    pub fn len(&self) -> (len: usize)
        ensures
            len == self@.entries.len(),
            len % 2 == 0,
            len <= 2 * self@.max_pairs,
    {
        proof {
            use_type_invariant(self);
        }
        self.entries.len()
    }

    /// How many pairs the context holds at most.
    pub fn max_pairs(&self) -> (max_pairs: usize)
        ensures
            max_pairs == self@.max_pairs,
    {
        self.max_pairs
    }

    /// A copy of the entries, oldest first.
    pub fn snapshot(&self) -> (entries: Vec<ConversationEntry>)
        ensures
            entry_views(entries@) == self@.entries,
    {
        let mut entries: Vec<ConversationEntry> = Vec::new();
        let mut i: usize = 0;
        while i < self.entries.len()
            invariant
                i <= self.entries.len(),
                entries@.len() == i,
                forall|j: int| 0 <= j < i ==> entries@[j]@ == self.entries@[j]@,
            decreases self.entries.len() - i,
        {
            entries.push(self.entries[i].duplicate());
            i = i + 1;
        }
        assert(entry_views(entries@) =~= entry_views(self.entries@));
        entries
    }

    /// Forgets every entry.
    pub fn clear(&mut self)
        ensures
            final(self)@ == (RollingContextView { entries: Seq::empty(), ..old(self)@ }),
    {
        self.entries = Vec::new();
        assert(entry_views(self.entries@) =~= Seq::empty());
    }

    /// Appends a user entry and the assistant entry that answers it, and
    /// evicts the oldest entries beyond the limit.
    pub fn push_pair(&mut self, user: ConversationEntry, assistant: ConversationEntry)
        ensures
            final(self)@ == (RollingContextView {
                entries: old(self)@.with_pair(user@, assistant@),
                ..old(self)@
            }),
    {
        proof {
            use_type_invariant(&*self);
        }
        let held: usize = self.entries.len();
        let ghost all = entry_views(self.entries@).push(user@).push(assistant@);
        if self.max_pairs == 0 {
            assert(keep_last(all, 0) =~= entry_views(self.entries@));
            return;
        }
        let first: usize = if held / 2 >= self.max_pairs {
            2
        } else {
            0
        };
        let mut kept: Vec<ConversationEntry> = Vec::new();
        let mut i: usize = first;
        while i < held
            invariant
                first <= i <= held,
                held == self.entries.len(),
                kept@.len() == i - first,
                forall|j: int| 0 <= j < i - first ==> kept@[j]@ == self.entries@[first + j]@,
            decreases held - i,
        {
            kept.push(self.entries[i].duplicate());
            i = i + 1;
        }
        kept.push(user);
        kept.push(assistant);
        assert(all.len() == held + 2);
        assert(forall|j: int| 0 <= j < held ==> all[j] == self.entries@[j]@);
        assert(entry_views(kept@) =~= keep_last(all, 2 * self.max_pairs));
        self.entries = kept;
    }
}

/// Number of user and assistant pairs that a manager keeps unless told
/// otherwise.
pub const DEFAULT_MAX_CONTEXT_PAIRS: usize = 10;

/// The question that stands for a frame in the conversation context.
pub open spec fn frame_question() -> Seq<char> {
    "What do you see?"@
}

/// Where the audio session stands.
#[derive(Debug, Clone, Copy, PartialEq, Eq, Structural)]
pub enum AudioState {
    /// No audio provider is configured.
    Unconfigured,
    /// A provider is configured and no session was started.
    Configured,
    /// A connection is being opened.
    Connecting,
    /// A session is live.
    Connected,
    /// The session has ended without an error.
    Disconnected,
    /// Connecting, reading or writing failed.
    Errored,
}

/// One analysis of a frame in flight: its identity and the text received
/// so far.
#[derive(Debug)]
pub struct VisionTurn {
    id: u64,
    request: Result<FrameRequest, AiError>,
    text: String,
}

/// A vision turn as plain values.
pub struct VisionTurnView {
    pub id: u64,
    pub text: Seq<char>,
}

impl View for VisionTurn {
    type V = VisionTurnView;

    closed spec fn view(&self) -> VisionTurnView {
        VisionTurnView { id: self.id, text: self.text@ }
    }
}

impl VisionTurn {
    /// The request that the provider planned for this turn.
    pub closed spec fn planned(&self) -> Result<FrameRequest, AiError> {
        self.request
    }

    /// The identity of the turn.
    pub fn id(&self) -> (id: u64)
        ensures
            id == self@.id,
    {
        self.id
    }

    /// The request to send, or the error that kept the provider from
    /// planning one.
    pub fn request(&self) -> (request: &Result<FrameRequest, AiError>)
        ensures
            *request == self.planned(),
    {
        &self.request
    }

    /// Takes one text chunk of the answer and returns the delta event for
    /// it, which carries the turn's identity. The chunk is added to the
    /// text of the turn.
    pub fn on_chunk(&mut self, chunk: &str, timestamp: &str) -> (payload: SuggestionPayload)
        ensures
            payload@ == delta_payload(chunk@, timestamp@, old(self)@.id, "screen"@),
            final(self)@ == (VisionTurnView { text: old(self)@.text + chunk@, ..old(self)@ }),
            final(self).planned() == old(self).planned(),
    {
        self.text.append(chunk);
        make_delta(String::from_str(chunk), timestamp, self.id, "screen")
    }

    /// Ends the turn with an error and returns the error event. A failed
    /// turn emits no terminal marker and adds nothing to the context.
    pub fn fail(self, error: &AiError, timestamp: &str) -> (payload: AiErrorPayload)
        ensures
            payload@ == (AiErrorPayloadView { message: error@.message(), timestamp: timestamp@ }),
    {
        make_error(error, timestamp)
    }
}

/// What the manager does with one item from the audio reader.
#[derive(Debug)]
pub struct AudioReaction {
    /// Events to emit, in order.
    pub events: Vec<OutboundEvent>,
    /// Whether to go on reading.
    pub keep_reading: bool,
}

/// What the start of an audio session gives.
#[derive(Debug)]
pub struct AudioStart {
    /// The connection to open, or why none can be opened.
    pub connect: Result<AudioConnect, String>,
    /// Status events to emit, in order.
    pub events: Vec<AudioStatusPayload>,
}

/// The views of a list of status payloads, in order.
pub open spec fn status_views(events: Seq<AudioStatusPayload>) -> Seq<AudioStatusPayloadView> {
    events.map_values(|e: AudioStatusPayload| e@)
}

/// The message for a session that could not be started.
pub open spec fn start_failure_text(error: AiErrorView) -> Seq<char> {
    "Failed to start audio session: "@ + error.message()
}

/// Whether `message` is the refusal to start a session for an endpoint
/// whose host lookup gave `host`: an endpoint that is no URL is refused
/// with the parser's reason, one without a host is refused as such, and
/// one with a host is not refused.
pub open spec fn start_refusal_ok(host: Option<Option<Seq<char>>>, message: Seq<char>) -> bool {
    match host {
        Some(Some(_)) => false,
        Some(None) => message == start_failure_text(
            AiErrorView::ConnectionError("no host in endpoint URL"@),
        ),
        None => exists|detail: Seq<char>|
            message == #[trigger] start_failure_text(
                AiErrorView::ConnectionError("bad endpoint URL: "@ + detail),
            ),
    }
}

/// Shared state of the AI pipeline.
pub struct StreamManager<S: AudioSession> {
    provider: Option<AzureVisionClient>,
    system_prompt: String,
    next_id: u64,
    audio_provider: Option<AzureAudioClient>,
    audio_session: Option<S>,
    audio_prompt: String,
    audio_state: AudioState,
    audio_turn: u64,
    context: RollingContext,
}

/// A manager as plain values.
pub struct StreamManagerView<S> {
    /// The configured vision provider.
    pub provider: Option<AzureVisionClientView>,
    /// The prompt for frame analysis.
    pub system_prompt: Seq<char>,
    /// The identity that the next turn gets.
    pub next_id: u64,
    /// The configured audio provider.
    pub audio_provider: Option<AzureAudioClientView>,
    /// The live audio session, if there is one.
    pub audio_session: Option<S>,
    /// The prompt for audio sessions.
    pub audio_prompt: Seq<char>,
    /// Where the audio session stands.
    pub audio_state: AudioState,
    /// The identity of the audio turn under way.
    pub audio_turn: u64,
    /// The rolling context, oldest entry first.
    pub context: Seq<ConversationEntryView>,
    /// How many pairs the context holds at most.
    pub max_context_pairs: usize,
}

impl<S: AudioSession> View for StreamManager<S> {
    type V = StreamManagerView<S>;

    closed spec fn view(&self) -> StreamManagerView<S> {
        StreamManagerView {
            provider: match self.provider {
                Some(p) => Some(p@),
                None => None,
            },
            system_prompt: self.system_prompt@,
            next_id: self.next_id,
            audio_provider: match self.audio_provider {
                Some(p) => Some(p@),
                None => None,
            },
            audio_session: self.audio_session,
            audio_prompt: self.audio_prompt@,
            audio_state: self.audio_state,
            audio_turn: self.audio_turn,
            context: self.context@.entries,
            max_context_pairs: self.context@.max_pairs,
        }
    }
}

impl<S> StreamManagerView<S> {
    /// The context after a completed turn: a user entry with the question
    /// that stands for the frame and an assistant entry with the whole
    /// answer, both from the screen, and the oldest entries evicted beyond
    /// the limit.
    pub open spec fn context_after_turn(self, answer: Seq<char>, timestamp: Seq<char>) -> Seq<
        ConversationEntryView,
    > {
        keep_last(
            self.context.push(
                ConversationEntryView {
                    role: Role::User,
                    content: frame_question(),
                    timestamp,
                    source: CaptureSource::Screen,
                },
            ).push(
                ConversationEntryView {
                    role: Role::Assistant,
                    content: answer,
                    timestamp,
                    source: CaptureSource::Screen,
                },
            ),
            2 * self.max_context_pairs,
        )
    }
}

impl<S: AudioSession> Default for StreamManager<S> {
    /// A manager with nothing configured; see `StreamManager::new`.
    fn default() -> (manager: StreamManager<S>)
        ensures
            manager@ == (StreamManagerView::<S> {
                provider: None,
                system_prompt: Seq::empty(),
                next_id: 1,
                audio_provider: None,
                audio_session: None,
                audio_prompt: Seq::empty(),
                audio_state: AudioState::Unconfigured,
                audio_turn: 0,
                context: Seq::empty(),
                max_context_pairs: DEFAULT_MAX_CONTEXT_PAIRS,
            }),
    {
        StreamManager::new()
    }
}

/// The result of `process_audio_chunk` for what the session returned.
pub open spec fn chunk_result_ok(sent: Result<(), AiError>, result: Result<(), String>) -> bool {
    match sent {
        Ok(()) => result is Ok,
        Err(error) => match result {
            Err(message) => message@ == error@.message(),
            Ok(()) => false,
        },
    }
}

/// Turns what a session returned into the result that the caller sees: an
/// error becomes its message.
pub fn chunk_result(sent: Result<(), AiError>) -> (result: Result<(), String>)
    ensures
        chunk_result_ok(sent, result),
{
    match sent {
        Ok(()) => Ok(()),
        Err(error) => Err(error.to_string()),
    }
}

impl<S: AudioSession> StreamManager<S> {
    /// A manager with nothing configured, whose first turn gets identity 1.
    pub fn new() -> (manager: StreamManager<S>)
        ensures
            manager@ == (StreamManagerView::<S> {
                provider: None,
                system_prompt: Seq::empty(),
                next_id: 1,
                audio_provider: None,
                audio_session: None,
                audio_prompt: Seq::empty(),
                audio_state: AudioState::Unconfigured,
                audio_turn: 0,
                context: Seq::empty(),
                max_context_pairs: DEFAULT_MAX_CONTEXT_PAIRS,
            }),
    {
        Self::with_context_limit(DEFAULT_MAX_CONTEXT_PAIRS)
    }

    /// A manager with nothing configured that keeps up to
    /// `max_context_pairs` pairs of context.
    pub fn with_context_limit(max_context_pairs: usize) -> (manager: StreamManager<S>)
        ensures
            manager@ == (StreamManagerView::<S> {
                provider: None,
                system_prompt: Seq::empty(),
                next_id: 1,
                audio_provider: None,
                audio_session: None,
                audio_prompt: Seq::empty(),
                audio_state: AudioState::Unconfigured,
                audio_turn: 0,
                context: Seq::empty(),
                max_context_pairs,
            }),
    {
        StreamManager {
            provider: None,
            system_prompt: String::new(),
            next_id: 1,
            audio_provider: None,
            audio_session: None,
            audio_prompt: String::new(),
            audio_state: AudioState::Unconfigured,
            audio_turn: 0,
            context: RollingContext::new(max_context_pairs),
        }
    }

    /// Configures the vision provider with Azure OpenAI credentials. The
    /// new provider names no previous response, and the rolling context is
    /// cleared: what was said under the old provider grounds nothing under
    /// the new one.
    pub fn configure_azure(
        &mut self,
        endpoint: &str,
        api_key: &str,
        deployment: &str,
        system_prompt: &str,
        use_bearer: bool,
    )
        ensures
            final(self)@ == (StreamManagerView {
                provider: Some(
                    AzureVisionClientView {
                        endpoint: endpoint@,
                        api_key: api_key@,
                        model: deployment@,
                        system_prompt: system_prompt@,
                        use_bearer,
                        previous_response_id: None,
                    },
                ),
                system_prompt: system_prompt@,
                context: Seq::empty(),
                ..old(self)@
            }),
    {
        let mut client = AzureVisionClient::new(endpoint, api_key, deployment, system_prompt);
        if use_bearer {
            client = client.with_bearer();
        }
        self.provider = Some(client);
        self.system_prompt = String::from_str(system_prompt);
        self.context.clear();
    }

    /// Whether a vision provider is configured.
    pub fn is_configured(&self) -> (configured: bool)
        ensures
            configured == self@.provider.is_some(),
    {
        self.provider.is_some()
    }

    /// Configures the audio provider with Azure OpenAI Realtime
    /// credentials. A session that is connecting or connected goes on; in
    /// every other state the audio side is now configured.
    pub fn configure_audio(
        &mut self,
        endpoint: &str,
        api_key: &str,
        deployment: &str,
        system_prompt: &str,
    )
        ensures
            final(self)@ == (StreamManagerView {
                audio_provider: Some(
                    AzureAudioClientView {
                        endpoint: endpoint@,
                        api_key: api_key@,
                        deployment: deployment@,
                        system_prompt: system_prompt@,
                    },
                ),
                audio_prompt: system_prompt@,
                audio_state: if old(self)@.audio_state == AudioState::Connecting || old(
                    self,
                )@.audio_state == AudioState::Connected {
                    old(self)@.audio_state
                } else {
                    AudioState::Configured
                },
                ..old(self)@
            }),
    {
        self.audio_provider = Some(
            AzureAudioClient {
                endpoint: String::from_str(endpoint),
                api_key: String::from_str(api_key),
                deployment: String::from_str(deployment),
                system_prompt: String::from_str(system_prompt),
            },
        );
        self.audio_prompt = String::from_str(system_prompt);
        match self.audio_state {
            AudioState::Connecting | AudioState::Connected => {},
            _ => {
                self.audio_state = AudioState::Configured;
            },
        }
    }

    /// The identity that the next turn gets.
    pub fn next_id(&self) -> (id: u64)
        ensures
            id == self@.next_id,
    {
        self.next_id
    }

    /// Where the audio session stands.
    pub fn audio_state(&self) -> (state: AudioState)
        ensures
            state == self@.audio_state,
    {
        self.audio_state
    }

    /// Both prompts: vision first, audio second.
    pub fn get_prompts(&self) -> (prompts: (String, String))
        ensures
            prompts.0@ == self@.system_prompt,
            prompts.1@ == self@.audio_prompt,
    {
        (self.system_prompt.clone(), self.audio_prompt.clone())
    }

    /// Updates a prompt. `source` is `vision` or `audio`; any other source
    /// changes nothing.
    pub fn update_prompt(&mut self, source: &str, text: &str)
        ensures
            source@ == "vision"@ ==> final(self)@ == (StreamManagerView {
                system_prompt: text@,
                ..old(self)@
            }),
            source@ != "vision"@ && source@ == "audio"@ ==> final(self)@ == (StreamManagerView {
                audio_prompt: text@,
                ..old(self)@
            }),
            source@ != "vision"@ && source@ != "audio"@ ==> final(self)@ == old(self)@,
    {
        if crate::text::str_equals(source, "vision") {
            self.system_prompt = String::from_str(text);
        } else if crate::text::str_equals(source, "audio") {
            self.audio_prompt = String::from_str(text);
        }
    }

    /// A copy of the rolling context, oldest entry first. It always holds
    /// an even number of entries, and no more than twice the number of
    /// pairs allowed.
    pub fn context(&self) -> (entries: Vec<ConversationEntry>)
        ensures
            entry_views(entries@) == self@.context,
            entries@.len() % 2 == 0,
            entries@.len() <= 2 * self@.max_context_pairs,
    {
        // the length is even and within the limit, whatever was pushed
        let held = self.context.len();
        let entries = self.context.snapshot();
        assert(entry_views(entries@).len() == entries@.len() == held);
        entries
    }

    fn allocate_id(&mut self) -> (id: u64)
        requires
            old(self)@.next_id < u64::MAX,
        ensures
            id == old(self)@.next_id,
            final(self)@ == (StreamManagerView { next_id: (id + 1) as u64, ..old(self)@ }),
    {
        let id = self.next_id;
        self.next_id = id + 1;
        id
    }

    /// Begins the analysis of a frame. Without a vision provider there is
    /// nothing to do and nothing changes. With one, the turn gets the next
    /// identity, which is then used up, and carries the request that the
    /// provider plans for the frame under the current prompt. Turns begun
    /// one after the other get increasing identities, and any number of
    /// them may be in flight.
    pub fn analyze_frame(&mut self, frame_data: &str) -> (turn: Option<VisionTurn>)
        requires
            old(self)@.next_id < u64::MAX,
        ensures
            old(self)@.provider is None ==> turn is None && final(self)@ == old(self)@,
            old(self)@.provider is Some ==> turn is Some && turn->0@ == (VisionTurnView {
                id: old(self)@.next_id,
                text: Seq::empty(),
            }) && final(self)@ == (StreamManagerView {
                next_id: (old(self)@.next_id + 1) as u64,
                ..old(self)@
            }) && (match turn->0.planned() {
                Ok(request) => frame_request_ok(
                    old(self)@.provider->0,
                    frame_data@,
                    old(self)@.system_prompt,
                    request,
                ),
                Err(_) => false,
            }),
    {
        let request = match &self.provider {
            Some(provider) => provider.analyze_frame(frame_data, self.system_prompt.as_str()),
            None => {
                return None;
            },
        };
        let id = self.allocate_id();
        Some(VisionTurn { id, request, text: String::new() })
    }

    /// Decides what to do with the answer to a turn's request; see
    /// `AzureVisionClient::on_response`. `None` without a provider. A
    /// decision to retry makes the provider forget the previous response.
    pub fn on_vision_response(
        &mut self,
        status: u16,
        status_text: &str,
        body: &str,
        retried: bool,
    ) -> (action: Option<ResponseAction>)
        ensures
            old(self)@.provider is None ==> action is None && final(self)@ == old(self)@,
            old(self)@.provider is Some ==> action is Some && action->0@ == response_action_spec(
                status,
                status_text@,
                body@,
                retried,
            ) && final(self)@ == (StreamManagerView {
                provider: Some(
                    if action->0@ is Retry {
                        AzureVisionClientView {
                            previous_response_id: None,
                            ..old(self)@.provider->0
                        }
                    } else {
                        old(self)@.provider->0
                    },
                ),
                ..old(self)@
            }),
    {
        let mut provider = None;
        std::mem::swap(&mut self.provider, &mut provider);
        match provider {
            Some(mut client) => {
                let action = client.on_response(status, status_text, body, retried);
                self.provider = Some(client);
                Some(action)
            },
            None => None,
        }
    }

    /// The request for `frame_data` as the provider plans it now: after a
    /// decision to retry, it no longer names the previous response.
    pub fn rebuild_request(&self, frame_data: &str) -> (request: Option<FrameRequest>)
        ensures
            self@.provider is None ==> request is None,
            self@.provider is Some ==> request is Some && frame_request_ok(
                self@.provider->0,
                frame_data@,
                self@.system_prompt,
                request->0,
            ),
    {
        match &self.provider {
            Some(provider) => match provider.analyze_frame(
                frame_data,
                self.system_prompt.as_str(),
            ) {
                Ok(request) => Some(request),
                Err(_) => None,
            },
            None => None,
        }
    }

    /// Remembers the identifier that a stream announced for its response,
    /// so that the next request can name it. Without a provider nothing
    /// changes.
    pub fn remember_response_id(&mut self, id: Option<String>)
        ensures
            old(self)@.provider is None ==> final(self)@ == old(self)@,
            old(self)@.provider is Some ==> final(self)@ == (StreamManagerView {
                provider: Some(
                    AzureVisionClientView {
                        previous_response_id: opt_text(id),
                        ..old(self)@.provider->0
                    },
                ),
                ..old(self)@
            }),
    {
        let mut provider = None;
        std::mem::swap(&mut self.provider, &mut provider);
        match provider {
            Some(mut client) => {
                client.set_previous_response_id(id);
                self.provider = Some(client);
            },
            None => {},
        }
    }

    /// Completes a turn whose stream has ended. Returns the terminal
    /// marker, which carries the turn's identity, and appends the turn to
    /// the rolling context as a user and assistant pair, evicting the
    /// oldest entries beyond the limit.
    pub fn complete_analysis(&mut self, turn: VisionTurn, timestamp: &str) -> (payload:
        SuggestionPayload)
        ensures
            payload@ == done_payload(timestamp@, turn@.id, "screen"@),
            final(self)@ == (StreamManagerView {
                context: old(self)@.context_after_turn(turn@.text, timestamp@),
                ..old(self)@
            }),
    {
        let payload = make_done(timestamp, turn.id, "screen");
        let user = ConversationEntry {
            role: Role::User,
            content: String::from_str("What do you see?"),
            timestamp: String::from_str(timestamp),
            source: CaptureSource::Screen,
        };
        let assistant = ConversationEntry {
            role: Role::Assistant,
            content: turn.text,
            timestamp: String::from_str(timestamp),
            source: CaptureSource::Screen,
        };
        self.context.push_pair(user, assistant);
        payload
    }
}

/// What the manager does with one item from the audio reader, as plain
/// values: the events to emit, whether to go on reading, and the manager
/// afterwards.
pub struct AudioReactionSpec<S> {
    pub events: Seq<OutboundEventView>,
    pub keep_reading: bool,
    pub manager: StreamManagerView<S>,
}

impl<S> StreamManagerView<S> {
    /// How the manager reacts to one item from the audio reader. Text is a
    /// delta of the turn under way. An empty text ends the turn: its
    /// terminal marker goes out and the next turn gets a fresh identity. An
    /// error is reported as an error event and as status `error`, then
    /// `disconnected`; the end of the stream is reported as `disconnected`.
    /// Either way the session handle is discarded and reading stops.
    pub open spec fn audio_reaction(
        self,
        item: Option<Result<Seq<char>, AiErrorView>>,
        timestamp: Seq<char>,
    ) -> AudioReactionSpec<S> {
        match item {
            Some(Ok(text)) => if text.len() == 0 {
                AudioReactionSpec {
                    events: seq![
                        OutboundEventView::Suggestion(
                            done_payload(timestamp, self.audio_turn, "audio"@),
                        ),
                    ],
                    keep_reading: true,
                    manager: StreamManagerView {
                        audio_turn: self.next_id,
                        next_id: (self.next_id + 1) as u64,
                        ..self
                    },
                }
            } else {
                AudioReactionSpec {
                    events: seq![
                        OutboundEventView::Suggestion(
                            delta_payload(text, timestamp, self.audio_turn, "audio"@),
                        ),
                    ],
                    keep_reading: true,
                    manager: self,
                }
            },
            Some(Err(error)) => AudioReactionSpec {
                events: seq![
                    OutboundEventView::Error(
                        AiErrorPayloadView { message: error.message(), timestamp },
                    ),
                    OutboundEventView::AudioStatus(
                        status_payload("error"@, Some(error.message())),
                    ),
                    OutboundEventView::AudioStatus(status_payload("disconnected"@, None)),
                ],
                keep_reading: false,
                manager: StreamManagerView {
                    audio_state: AudioState::Errored,
                    audio_session: None,
                    ..self
                },
            },
            None => AudioReactionSpec {
                events: seq![
                    OutboundEventView::AudioStatus(status_payload("disconnected"@, None)),
                ],
                keep_reading: false,
                manager: StreamManagerView {
                    audio_state: AudioState::Disconnected,
                    audio_session: None,
                    ..self
                },
            },
        }
    }
}

/// Audio turns get increasing identities: the terminal marker of a turn
/// carries the turn's identity, every delta after it carries a greater
/// one, and the identity of the turn under way was always handed out
/// before the next one.
pub proof fn lemma_audio_turns_increase<S>(manager: StreamManagerView<S>, timestamp: Seq<char>)
    requires
        manager.audio_turn < manager.next_id < u64::MAX,
    ensures
        ({
            let after = manager.audio_reaction(Some(Ok(Seq::empty())), timestamp);
            &&& after.events == seq![
                OutboundEventView::Suggestion(
                    done_payload(timestamp, manager.audio_turn, "audio"@),
                ),
            ]
            &&& after.manager.audio_turn > manager.audio_turn
            &&& after.manager.audio_turn < after.manager.next_id
            &&& after.manager.next_id > manager.next_id
        }),
{
}

/// The view of an item from the audio reader.
pub open spec fn item_view(item: Option<Result<String, AiError>>) -> Option<
    Result<Seq<char>, AiErrorView>,
> {
    match item {
        Some(Ok(text)) => Some(Ok(text@)),
        Some(Err(error)) => Some(Err(error@)),
        None => None,
    }
}

/// Whether `process_audio_chunk` can take a manager from `before` to
/// `after` with `result`, for the chunk `audio_data`. Without a session
/// the chunk is refused and nothing changes. With one, the session's
/// `send_audio` gets the chunk, and an error it returns comes back as its
/// message; nothing but the session changes.
pub open spec fn chunk_processed<S: AudioSession>(
    before: StreamManagerView<S>,
    audio_data: Seq<u8>,
    after: StreamManagerView<S>,
    result: Result<(), String>,
) -> bool {
    match before.audio_session {
        None => after == before && (match result {
            Err(message) => message@ == "No active audio session"@,
            Ok(()) => false,
        }),
        Some(session) => exists|session_after: S, sent: Result<(), AiError>|
            {
                &&& #[trigger] S::send_outcome(&session, audio_data, &session_after, sent)
                &&& chunk_result_ok(sent, result)
                &&& after == (StreamManagerView { audio_session: Some(session_after), ..before })
            },
    }
}

/// Whether `stop_audio_session` can take a manager from `before` to
/// `after` with `result`. A live session is closed first; if closing fails
/// the session stays and the error's message comes back. Otherwise the
/// handle is discarded, the audio side is disconnected, and the status
/// event to emit comes back.
pub open spec fn session_stopped<S: AudioSession>(
    before: StreamManagerView<S>,
    after: StreamManagerView<S>,
    result: Result<AudioStatusPayload, String>,
) -> bool {
    let stopped = StreamManagerView {
        audio_session: None,
        audio_state: AudioState::Disconnected,
        ..before
    };
    match before.audio_session {
        None => after == stopped && (match result {
            Ok(payload) => payload@ == status_payload("disconnected"@, None),
            Err(_) => false,
        }),
        Some(session) => exists|session_after: S, closed: Result<(), AiError>|
            {
                &&& #[trigger] S::close_outcome(&session, &session_after, closed)
                &&& match closed {
                    Ok(()) => after == stopped && (match result {
                        Ok(payload) => payload@ == status_payload("disconnected"@, None),
                        Err(_) => false,
                    }),
                    Err(error) => after == (StreamManagerView {
                        audio_session: Some(session_after),
                        ..before
                    }) && (match result {
                        Err(message) => message@ == error@.message(),
                        Ok(_) => false,
                    }),
                }
            },
    }
}

/// The JSON object of a suggestion, members in the order of its fields.
pub open spec fn suggestion_json_text(payload: SuggestionPayloadView) -> Seq<char> {
    "{\"text\":"@ + json_quoted(payload.text) + ",\"timestamp\":"@ + json_quoted(payload.timestamp)
        + ",\"done\":"@ + (if payload.done {
        "true"@
    } else {
        "false"@
    }) + ",\"id\":"@ + decimal_digits(payload.id as nat) + ",\"source\":"@ + json_quoted(
        payload.source,
    ) + "}"@
}

/// One line of the test log: the event's name, the payload's timestamp and
/// the payload. Name and timestamp are written as they are.
pub open spec fn test_log_text(event_name: Seq<char>, payload: SuggestionPayloadView) -> Seq<char> {
    "{\"event\":\""@ + event_name + "\",\"timestamp\":\""@ + payload.timestamp
        + "\",\"payload\":"@ + suggestion_json_text(payload) + "}"@
}

/// Writes a suggestion as a JSON object.
pub fn suggestion_json(payload: &SuggestionPayload) -> (json: String)
    ensures
        json@ == suggestion_json_text(payload@),
{
    let text = json_quote(payload.text.as_str());
    let timestamp = json_quote(payload.timestamp.as_str());
    let source = json_quote(payload.source.as_str());
    let mut json = String::from_str("{\"text\":");
    json.append(text.as_str());
    json.append(",\"timestamp\":");
    json.append(timestamp.as_str());
    json.append(",\"done\":");
    if payload.done {
        json.append("true");
    } else {
        json.append("false");
    }
    json.append(",\"id\":");
    push_decimal(&mut json, payload.id);
    json.append(",\"source\":");
    json.append(source.as_str());
    json.append("}");
    assert(json@ =~= suggestion_json_text(payload@));
    json
}

/// Writes the line that records a suggestion event in the test log.
pub fn test_log_line(event_name: &str, payload: &SuggestionPayload) -> (line: String)
    ensures
        line@ == test_log_text(event_name@, payload@),
{
    let json = suggestion_json(payload);
    let mut line = String::from_str("{\"event\":\"");
    line.append(event_name);
    line.append("\",\"timestamp\":\"");
    line.append(payload.timestamp.as_str());
    line.append("\",\"payload\":");
    line.append(json.as_str());
    line.append("}");
    assert(line@ =~= test_log_text(event_name@, payload@));
    line
}

/// The current time in UTC as `YYYY-MM-DDTHH:MM:SSZ`. The text is that of
/// some moment at or after the Unix epoch; which one, the clock decides.
pub fn now_iso() -> (text: String)
    ensures
        exists|secs: nat| text@ == #[trigger] crate::clock::iso_seconds(secs),
{
    let (secs, _millis) = unix_time_now();
    format_iso_seconds(secs)
}

impl<S: AudioSession> StreamManager<S> {
    /// What the start of a session gives for the connection that the audio
    /// provider planned. A plan is handed on and the audio side is
    /// connecting. A failure is reported as status `error` with its
    /// message, and the audio side has failed. `connecting` goes out first
    /// in both cases.
    pub fn audio_start_for(&mut self, plan: Result<AudioConnect, AiError>) -> (start: AudioStart)
        ensures
            match plan {
                Ok(connect) => {
                    &&& start.connect == Ok::<AudioConnect, String>(connect)
                    &&& status_views(start.events@) == seq![status_payload("connecting"@, None)]
                    &&& final(self)@ == (StreamManagerView {
                        audio_state: AudioState::Connecting,
                        ..old(self)@
                    })
                },
                Err(error) => {
                    &&& match start.connect {
                        Err(message) => message@ == start_failure_text(error@),
                        Ok(_) => false,
                    }
                    &&& status_views(start.events@) == seq![
                        status_payload("connecting"@, None),
                        status_payload("error"@, Some(start_failure_text(error@))),
                    ]
                    &&& final(self)@ == (StreamManagerView {
                        audio_state: AudioState::Errored,
                        ..old(self)@
                    })
                },
            },
    {
        let mut events: Vec<AudioStatusPayload> = Vec::new();
        events.push(audio_status("connecting", None));
        match plan {
            Ok(connect) => {
                self.audio_state = AudioState::Connecting;
                assert(status_views(events@) =~= seq![status_payload("connecting"@, None)]);
                AudioStart { connect: Ok(connect), events }
            },
            Err(error) => {
                let message = String::from_str("Failed to start audio session: ").concat(
                    error.to_string().as_str(),
                );
                events.push(audio_status("error", Some(message.clone())));
                self.audio_state = AudioState::Errored;
                assert(status_views(events@) =~= seq![
                    status_payload("connecting"@, None),
                    status_payload("error"@, Some(start_failure_text(error@))),
                ]);
                AudioStart { connect: Err(message), events }
            },
        }
    }

    /// Starts an audio session: asks the audio provider for the connection
    /// and reports what `audio_start_for` makes of it. Without an audio
    /// provider the start is refused, nothing changes and nothing is
    /// emitted.
    pub fn start_audio_session(&mut self) -> (start: AudioStart)
        ensures
            old(self)@.audio_provider is None ==> final(self)@ == old(self)@
                && start.events@.len() == 0 && (match start.connect {
                Err(message) => message@ == "Audio provider not configured"@,
                Ok(_) => false,
            }),
            old(self)@.audio_provider is Some ==> status_views(start.events@).len() >= 1
                && status_views(start.events@)[0] == status_payload("connecting"@, None)
                && (match start.connect {
                Ok(connect) => {
                    &&& websocket_url_ok(
                        url_host(old(self)@.audio_provider->0.endpoint),
                        old(self)@.audio_provider->0.deployment,
                        Ok(connect.url),
                    )
                    &&& connect.api_key@ == old(self)@.audio_provider->0.api_key
                    &&& connect.session_config@ == session_config_text(old(self)@.audio_prompt)
                    &&& status_views(start.events@).len() == 1
                    &&& final(self)@ == (StreamManagerView {
                        audio_state: AudioState::Connecting,
                        ..old(self)@
                    })
                },
                Err(message) => {
                    &&& start_refusal_ok(
                        url_host(old(self)@.audio_provider->0.endpoint),
                        message@,
                    )
                    &&& status_views(start.events@) == seq![
                        status_payload("connecting"@, None),
                        status_payload("error"@, Some(message@)),
                    ]
                    &&& final(self)@ == (StreamManagerView {
                        audio_state: AudioState::Errored,
                        ..old(self)@
                    })
                },
            }),
    {
        let plan = match &self.audio_provider {
            Some(provider) => provider.start_audio_stream(self.audio_prompt.as_str()),
            None => {
                return AudioStart {
                    connect: Err(String::from_str("Audio provider not configured")),
                    events: Vec::new(),
                };
            },
        };
        proof {
            match &plan {
                Err(AiError::ConnectionError(reason)) => {
                    let prefix = "bad endpoint URL: "@;
                    if prefix.is_prefix_of(reason@) {
                        assert(reason@ =~= prefix + reason@.skip(prefix.len() as int));
                    }
                },
                _ => {},
            }
        }
        self.audio_start_for(plan)
    }

    /// Records that the connection could not be opened: the audio side has
    /// failed. Returns the message for the caller and the status event to
    /// emit.
    pub fn audio_connect_failed(&mut self, error: &AiError) -> (report: (
        String,
        AudioStatusPayload,
    ))
        ensures
            report.0@ == start_failure_text(error@),
            report.1@ == status_payload("error"@, Some(start_failure_text(error@))),
            final(self)@ == (StreamManagerView { audio_state: AudioState::Errored, ..old(self)@ }),
    {
        let message = String::from_str("Failed to start audio session: ").concat(
            error.to_string().as_str(),
        );
        self.audio_state = AudioState::Errored;
        let payload = audio_status("error", Some(message.clone()));
        (message, payload)
    }

    /// Records that the connection is open: `session` becomes the one live
    /// session, replacing any other, and the first audio turn gets the next
    /// identity. Returns the status event to emit.
    pub fn audio_connected(&mut self, session: S) -> (payload: AudioStatusPayload)
        requires
            old(self)@.next_id < u64::MAX,
        ensures
            payload@ == status_payload("connected"@, None),
            final(self)@ == (StreamManagerView {
                audio_session: Some(session),
                audio_state: AudioState::Connected,
                audio_turn: old(self)@.next_id,
                next_id: (old(self)@.next_id + 1) as u64,
                ..old(self)@
            }),
    {
        self.audio_session = Some(session);
        self.audio_state = AudioState::Connected;
        let id = self.allocate_id();
        self.audio_turn = id;
        audio_status("connected", None)
    }

    /// Takes one item from the audio reader, `None` for the end of the
    /// stream, and says what to emit and whether to go on reading; see
    /// `StreamManagerView::audio_reaction`.
    pub fn on_audio_response(
        &mut self,
        item: Option<Result<String, AiError>>,
        timestamp: &str,
    ) -> (reaction: AudioReaction)
        requires
            (match item {
                Some(Ok(text)) => text@.len() == 0,
                _ => false,
            }) ==> old(self)@.next_id < u64::MAX,
        ensures
            event_views(reaction.events@) == old(self)@.audio_reaction(
                item_view(item),
                timestamp@,
            ).events,
            reaction.keep_reading == old(self)@.audio_reaction(
                item_view(item),
                timestamp@,
            ).keep_reading,
            final(self)@ == old(self)@.audio_reaction(item_view(item), timestamp@).manager,
    {
        let ghost spec = old(self)@.audio_reaction(item_view(item), timestamp@);
        let mut events: Vec<OutboundEvent> = Vec::new();
        match item {
            Some(Ok(text)) => {
                if text.as_str().is_empty() {
                    events.push(
                        OutboundEvent::Suggestion(make_done(timestamp, self.audio_turn, "audio")),
                    );
                    let id = self.allocate_id();
                    self.audio_turn = id;
                } else {
                    events.push(
                        OutboundEvent::Suggestion(
                            make_delta(text, timestamp, self.audio_turn, "audio"),
                        ),
                    );
                }
                assert(event_views(events@) =~= spec.events);
                AudioReaction { events, keep_reading: true }
            },
            Some(Err(error)) => {
                events.push(OutboundEvent::Error(make_error(&error, timestamp)));
                events.push(
                    OutboundEvent::AudioStatus(audio_status("error", Some(error.to_string()))),
                );
                events.push(OutboundEvent::AudioStatus(audio_status("disconnected", None)));
                self.audio_state = AudioState::Errored;
                self.audio_session = None;
                assert(event_views(events@) =~= spec.events);
                AudioReaction { events, keep_reading: false }
            },
            None => {
                events.push(OutboundEvent::AudioStatus(audio_status("disconnected", None)));
                self.audio_state = AudioState::Disconnected;
                self.audio_session = None;
                assert(event_views(events@) =~= spec.events);
                AudioReaction { events, keep_reading: false }
            },
        }
    }

    /// Sends a chunk of audio PCM data to the live session; see
    /// `chunk_processed`.
    pub fn process_audio_chunk(&mut self, audio_data: &[u8]) -> (result: Result<(), String>)
        requires
            base64_fits(audio_data@.len()),
        ensures
            chunk_processed(old(self)@, audio_data@, final(self)@, result),
    {
        let mut slot: Option<S> = None;
        std::mem::swap(&mut self.audio_session, &mut slot);
        match slot {
            Some(mut session) => {
                let ghost before = session;
                let sent = session.send_audio(audio_data);
                let ghost after = session;
                let ghost sent_result = sent;
                self.audio_session = Some(session);
                let result = chunk_result(sent);
                assert(S::send_outcome(&before, audio_data@, &after, sent_result));
                result
            },
            None => Err(String::from_str("No active audio session")),
        }
    }

    /// Decodes a chunk of audio from base64 and sends it to the live
    /// session. Text that is no base64 is refused with a message that
    /// begins with `Invalid base64: `, and so is a chunk too large to be
    /// sent on; nothing changes then.
    pub fn send_audio_chunk(&mut self, data: &str) -> (result: Result<(), String>)
        ensures
            match base64_bytes(data@) {
                Some(bytes) => if base64_fits(bytes.len()) {
                    chunk_processed(old(self)@, bytes, final(self)@, result)
                } else {
                    final(self)@ == old(self)@ && (match result {
                        Err(message) => message@ == "Invalid base64: chunk too large"@,
                        Ok(()) => false,
                    })
                },
                None => final(self)@ == old(self)@ && (match result {
                    Err(message) => "Invalid base64: "@.is_prefix_of(message@),
                    Ok(()) => false,
                }),
            },
    {
        match base64_decode(data) {
            Ok(bytes) => {
                if fits_base64(bytes.len()) {
                    self.process_audio_chunk(bytes.as_slice())
                } else {
                    Err(String::from_str("Invalid base64: chunk too large"))
                }
            },
            Err(error) => {
                let detail = base64_error_text(&error);
                Err(String::from_str("Invalid base64: ").concat(detail.as_str()))
            },
        }
    }

    /// Whether an audio session is live.
    pub fn has_audio_session(&self) -> (live: bool)
        ensures
            live == self@.audio_session.is_some(),
    {
        self.audio_session.is_some()
    }

    /// Puts `session` in place as the live session, replacing any other.
    /// Nothing is emitted and nothing else changes.
    pub fn inject_audio_session(&mut self, session: S)
        ensures
            final(self)@ == (StreamManagerView { audio_session: Some(session), ..old(self)@ }),
    {
        self.audio_session = Some(session);
    }

    /// Removes the live session without closing it. Nothing is emitted and
    /// nothing else changes.
    pub fn clear_audio_session(&mut self)
        ensures
            final(self)@ == (StreamManagerView { audio_session: None, ..old(self)@ }),
    {
        self.audio_session = None;
    }

    /// Closes the audio session; see `session_stopped`.
    pub fn stop_audio_session(&mut self) -> (result: Result<AudioStatusPayload, String>)
        ensures
            session_stopped(old(self)@, final(self)@, result),
    {
        let mut slot: Option<S> = None;
        std::mem::swap(&mut self.audio_session, &mut slot);
        match slot {
            Some(mut session) => {
                let ghost before = session;
                let closed = session.close();
                let ghost after = session;
                assert(S::close_outcome(&before, &after, closed));
                match closed {
                    Ok(()) => {},
                    Err(error) => {
                        self.audio_session = Some(session);
                        return Err(error.to_string());
                    },
                }
            },
            None => {},
        }
        self.audio_state = AudioState::Disconnected;
        Ok(audio_status("disconnected", None))
    }
}

impl<S: AudioSession> StreamManager<S> {
    /// Configures the providers from saved settings. Settings without an
    /// endpoint or without a credential configure nothing. Otherwise the
    /// vision provider is configured, and the audio provider too if the
    /// settings name an audio deployment. Returns whether anything was
    /// configured.
    pub fn configure_from(&mut self, config: &ProviderConfig, use_bearer: bool) -> (configured:
        bool)
        ensures
            configured == (config.endpoint@.len() > 0 && config.api_key@.len() > 0),
            !configured ==> final(self)@ == old(self)@,
            configured ==> final(self)@.provider == Some(
                AzureVisionClientView {
                    endpoint: config.endpoint@,
                    api_key: config.api_key@,
                    model: config.vision_deployment@,
                    system_prompt: config.vision_prompt@,
                    use_bearer,
                    previous_response_id: None,
                },
            ) && final(self)@.system_prompt == config.vision_prompt@ && final(self)@.context
                == Seq::<ConversationEntryView>::empty() && final(self)@.next_id == old(
                self,
            )@.next_id && final(self)@.audio_session == old(self)@.audio_session,
            configured && config.audio_deployment@.len() == 0 ==> final(self)@.audio_provider
                == old(self)@.audio_provider && final(self)@.audio_prompt == old(
                self,
            )@.audio_prompt && final(self)@.audio_state == old(self)@.audio_state,
            configured && config.audio_deployment@.len() > 0 ==> final(self)@.audio_provider
                == Some(
                AzureAudioClientView {
                    endpoint: config.endpoint@,
                    api_key: config.api_key@,
                    deployment: config.audio_deployment@,
                    system_prompt: config.audio_prompt@,
                },
            ) && final(self)@.audio_prompt == config.audio_prompt@,
    {
        if config.endpoint.as_str().is_empty() || config.api_key.as_str().is_empty() {
            return false;
        }
        self.configure_azure(
            config.endpoint.as_str(),
            config.api_key.as_str(),
            config.vision_deployment.as_str(),
            config.vision_prompt.as_str(),
            use_bearer,
        );
        if !config.audio_deployment.as_str().is_empty() {
            self.configure_audio(
                config.endpoint.as_str(),
                config.api_key.as_str(),
                config.audio_deployment.as_str(),
                config.audio_prompt.as_str(),
            );
        }
        true
    }
}

} // verus!
