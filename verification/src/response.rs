//! The chat-completion response model and the decorator's response policy.
//!
//! Every response and every stream chunk that leaves the decorator reports
//! the model's public name, never the adapter's internal identifier. A
//! stream chunk additionally decides whether it triggers the usage log and
//! the metrics record: exactly the chunk carrying a usage record does.

use vstd::prelude::*;
use crate::request::{ChatMessage, ChatRequest, MessageView};

verus! {

/// Token-usage counters attached to a response or to one stream chunk.
#[derive(Clone, Copy, PartialEq, Eq, Structural, Debug)]
pub struct Usage {
    /// Tokens consumed by the prompt.
    pub prompt_tokens: u32,
    /// Tokens produced by the completion.
    pub completion_tokens: u32,
    /// The sum the provider reports.
    pub total_tokens: u32,
}

/// A full chat-completion response.
#[derive(Debug)]
pub struct ChatResponse {
    /// The provider's response identifier.
    pub id: String,
    /// The model identifier the response reports.
    pub model: String,
    /// The produced messages, one per choice.
    pub choices: Vec<ChatMessage>,
    /// Token-usage counters, if the provider sent them.
    pub usage: Option<Usage>,
}

/// The mathematical model of a [`ChatResponse`].
pub struct ResponseView {
    /// The provider's response identifier.
    pub id: Seq<char>,
    /// The model identifier the response reports.
    pub model: Seq<char>,
    /// The produced messages, one per choice.
    pub choices: Seq<MessageView>,
    /// Token-usage counters, if the provider sent them.
    pub usage: Option<Usage>,
}

impl View for ChatResponse {
    type V = ResponseView;

    open spec fn view(&self) -> ResponseView {
        ResponseView {
            id: self.id@,
            model: self.model@,
            choices: self.choices@.map_values(|m: ChatMessage| m@),
            usage: self.usage,
        }
    }
}

/// One chunk of a streamed chat-completion response.
#[derive(Debug)]
pub struct StreamChunk {
    /// The model identifier the chunk reports.
    pub model: String,
    /// The content delta carried by this chunk, if any.
    pub delta: Option<String>,
    /// Token-usage counters; a provider typically sends them on the last
    /// chunk only, and may never send them.
    pub usage: Option<Usage>,
}

/// The mathematical model of a [`StreamChunk`].
pub struct ChunkView {
    /// The model identifier the chunk reports.
    pub model: Seq<char>,
    /// The content delta carried by this chunk, if any.
    pub delta: Option<Seq<char>>,
    /// Token-usage counters, if this chunk carries them.
    pub usage: Option<Usage>,
}

impl View for StreamChunk {
    type V = ChunkView;

    open spec fn view(&self) -> ChunkView {
        ChunkView {
            model: self.model@,
            delta: match self.delta {
                Some(ref d) => Some(d@),
                None => None,
            },
            usage: self.usage,
        }
    }
}

/// Rewrites the reported model of a full response to the public name; no
/// other part of the response changes.
pub fn rewrite_response(resp: ChatResponse, public_name: &str) -> (r: ChatResponse)
    ensures
        r@ == (ResponseView { model: public_name@, ..resp@ }),
{
    let mut out = resp;
    out.model = public_name.to_owned();
    out
}

/// Rewrites the reported model of one stream chunk to the public name, and
/// reports whether this chunk must trigger the usage log and the metrics
/// record: exactly when it carries a usage record. No other part of the
/// chunk changes.
pub fn rewrite_chunk(chunk: StreamChunk, public_name: &str) -> (r: (StreamChunk, bool))
    ensures
        r.0@ == (ChunkView { model: public_name@, ..chunk@ }),
        r.1 <==> chunk.usage is Some,
{
    let mut out = chunk;
    out.model = public_name.to_owned();
    let log_usage = out.usage.is_some();
    (out, log_usage)
}

/// The labels a request contributes to the metrics record of its call.
#[derive(Debug)]
pub struct TelemetryLabels {
    /// The model identifier the request addressed.
    pub model: String,
    /// Whether the call streams its response.
    pub stream: bool,
}

/// Derives the metric labels of a request.
pub fn request_labels(req: &ChatRequest) -> (r: TelemetryLabels)
    ensures
        r.model@ == req.model@,
        r.stream == (req.stream == Some(true)),
{
    let stream = match req.stream {
        Some(true) => true,
        _ => false,
    };
    TelemetryLabels { model: req.model.clone(), stream }
}

} // verus!
