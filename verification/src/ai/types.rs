//! Shared types of the providers: conversation entries, the error taxonomy
//! and the two session capabilities.

use vstd::prelude::*;
use crate::encoding::base64_fits;
use crate::text::{decimal_digits, push_decimal};

verus! {

/// Who spoke a conversation entry.
#[derive(Debug, Clone, Copy, PartialEq, Eq, Structural)]
pub enum Role {
    User,
    Assistant,
    System,
}

/// Which capture stream an entry or event came from.
#[derive(Debug, Clone, Copy, PartialEq, Eq, Structural)]
pub enum CaptureSource {
    Screen,
    Audio,
}

/// A previous interaction, kept as context for later turns.
#[derive(Debug, Clone)]
pub struct ConversationEntry {
    pub role: Role,
    pub content: String,
    pub timestamp: String,
    pub source: CaptureSource,
}

/// What a conversation entry holds, as plain values.
pub struct ConversationEntryView {
    pub role: Role,
    pub content: Seq<char>,
    pub timestamp: Seq<char>,
    pub source: CaptureSource,
}

impl View for ConversationEntry {
    type V = ConversationEntryView;

    open spec fn view(&self) -> ConversationEntryView {
        ConversationEntryView {
            role: self.role,
            content: self.content@,
            timestamp: self.timestamp@,
            source: self.source,
        }
    }
}

impl ConversationEntry {
    /// A copy with the same role, text, timestamp and source.
    pub fn duplicate(&self) -> (copy: ConversationEntry)
        ensures
            copy@ == self@,
    {
        ConversationEntry {
            role: self.role,
            content: self.content.clone(),
            timestamp: self.timestamp.clone(),
            source: self.source,
        }
    }
}

/// Error type for AI operations.
#[derive(Debug, Clone, PartialEq)]
pub enum AiError {
    /// Transport-level failure or a non-success HTTP status.
    ConnectionError(String),
    /// The backend refused the credential.
    AuthError(String),
    /// The backend asked to slow down.
    RateLimited { retry_after_ms: u64 },
    /// The backend reported an error of its own.
    ModelError(String),
    /// The backend sent something that could not be decoded.
    InvalidResponse(String),
}

/// An error as plain values.
pub enum AiErrorView {
    ConnectionError(Seq<char>),
    AuthError(Seq<char>),
    RateLimited { retry_after_ms: u64 },
    ModelError(Seq<char>),
    InvalidResponse(Seq<char>),
}

impl View for AiError {
    type V = AiErrorView;

    open spec fn view(&self) -> AiErrorView {
        match self {
            AiError::ConnectionError(m) => AiErrorView::ConnectionError(m@),
            AiError::AuthError(m) => AiErrorView::AuthError(m@),
            AiError::RateLimited { retry_after_ms } => AiErrorView::RateLimited {
                retry_after_ms: *retry_after_ms,
            },
            AiError::ModelError(m) => AiErrorView::ModelError(m@),
            AiError::InvalidResponse(m) => AiErrorView::InvalidResponse(m@),
        }
    }
}

impl AiErrorView {
    /// The text shown to the user for this error.
    pub open spec fn message(self) -> Seq<char> {
        match self {
            AiErrorView::ConnectionError(m) => "Connection failed: "@ + m,
            AiErrorView::AuthError(m) => "Authentication failed: "@ + m,
            AiErrorView::RateLimited { retry_after_ms } => "Rate limited \u{2014} retry after "@
                + decimal_digits(retry_after_ms as nat) + "ms"@,
            AiErrorView::ModelError(m) => "Model error: "@ + m,
            AiErrorView::InvalidResponse(m) => "Invalid response: "@ + m,
        }
    }
}

impl AiError {
    /// The text shown to the user for this error.
    pub fn to_string(&self) -> (text: String)
        ensures
            text@ == self@.message(),
    {
        match self {
            AiError::ConnectionError(m) => String::from_str("Connection failed: ").concat(
                m.as_str(),
            ),
            AiError::AuthError(m) => String::from_str("Authentication failed: ").concat(
                m.as_str(),
            ),
            AiError::RateLimited { retry_after_ms } => {
                let mut text = String::from_str("Rate limited \u{2014} retry after ");
                push_decimal(&mut text, *retry_after_ms);
                text.append("ms");
                text
            },
            AiError::ModelError(m) => String::from_str("Model error: ").concat(m.as_str()),
            AiError::InvalidResponse(m) => String::from_str("Invalid response: ").concat(
                m.as_str(),
            ),
        }
    }

    /// A copy of this error.
    pub fn duplicate(&self) -> (copy: AiError)
        ensures
            copy@ == self@,
    {
        match self {
            AiError::ConnectionError(m) => AiError::ConnectionError(m.clone()),
            AiError::AuthError(m) => AiError::AuthError(m.clone()),
            AiError::RateLimited { retry_after_ms } => AiError::RateLimited {
                retry_after_ms: *retry_after_ms,
            },
            AiError::ModelError(m) => AiError::ModelError(m.clone()),
            AiError::InvalidResponse(m) => AiError::InvalidResponse(m.clone()),
        }
    }
}

/// A streamed answer, read chunk by chunk.
pub trait TextStream {
    /// The next text chunk that can be decoded from what has arrived, or
    /// `None` when there is none.
    fn next_chunk(&mut self) -> Option<Result<String, AiError>>;
}

/// A bidirectional audio session.
pub trait AudioSession: Sized {
    /// Whether a call of `send_audio` with `audio_data` can take the session
    /// from `before` to `after` and return `result`. A kind of session that
    /// promises something about its `send_audio` says so here; by default
    /// nothing is promised.
    open spec fn send_outcome(
        before: &Self,
        audio_data: Seq<u8>,
        after: &Self,
        result: Result<(), AiError>,
    ) -> bool {
        true
    }

    /// Whether a call of `close` can take the session from `before` to
    /// `after` and return `result`. By default nothing is promised.
    open spec fn close_outcome(before: &Self, after: &Self, result: Result<(), AiError>) -> bool {
        true
    }

    /// Sends one chunk of raw PCM bytes to the model. The chunk must be
    /// small enough for its base64 text to fit in memory.
    fn send_audio(&mut self, audio_data: &[u8]) -> (result: Result<(), AiError>)
        requires
            base64_fits(audio_data@.len()),
        ensures
            Self::send_outcome(old(self), audio_data@, final(self), result),
    ;

    /// Closes the session.
    fn close(&mut self) -> (result: Result<(), AiError>)
        ensures
            Self::close_outcome(old(self), final(self), result),
    ;
}

/// Configuration for an AI provider.
#[derive(Debug, Clone)]
pub struct ProviderConfig {
    pub endpoint: String,
    pub api_key: String,
    pub vision_deployment: String,
    pub audio_deployment: String,
    pub vision_prompt: String,
    pub audio_prompt: String,
}

} // verus!
