//! Providers for the hosted model: request building and stream decoding.
//!
//! A provider decides what is sent and how the answer is read. It performs no
//! network call itself: it hands out the request as plain values, and decodes
//! what the caller feeds back.

use vstd::prelude::*;

pub mod azure_audio;
pub mod azure_vision;
pub mod endpoint;
pub mod json;
pub mod types;

pub use types::{
    AiError, AiErrorView, AudioSession, CaptureSource, ConversationEntry, ConversationEntryView,
    ProviderConfig, Role, TextStream,
};

verus! {

/// One streaming HTTP request for the analysis of a frame.
#[derive(Debug, Clone)]
pub struct FrameRequest {
    /// Where to post the body.
    pub url: String,
    /// Name of the header that carries the credential.
    pub auth_header: String,
    /// Value of that header.
    pub auth_value: String,
    /// The JSON body.
    pub body: String,
}

/// What it takes to open one audio session.
#[derive(Debug, Clone)]
pub struct AudioConnect {
    /// The WebSocket address.
    pub url: String,
    /// The credential, sent in the `api-key` header.
    pub api_key: String,
    /// The first message, which configures the session.
    pub session_config: String,
}

/// Capability of a configured provider.
pub trait AiProvider {
    /// The request that analyses one base64-encoded JPEG frame under
    /// `system_prompt`.
    fn analyze_frame(&self, frame_data: &str, system_prompt: &str) -> Result<
        FrameRequest,
        AiError,
    >;

    /// The connection that starts an audio session under `system_prompt`.
    fn start_audio_stream(&self, system_prompt: &str) -> Result<AudioConnect, AiError>;

    /// Provider name for logging and display.
    fn name(&self) -> &'static str;
}

} // verus!
