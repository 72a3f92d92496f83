//! The chat-completion request model.
//!
//! A request is a model identifier, an ordered message sequence, and one
//! optional slot per recognized generation override. The slots the library
//! itself reads — the streaming flag and the stream options — are typed;
//! every other slot carries a [`ParamValue`] verbatim.

use vstd::prelude::*;
use crate::values::{ParamValue, ParamValueV, StreamOptions};

verus! {

/// The role a chat message is attributed to.
#[derive(Clone, Copy, PartialEq, Eq, Structural, Debug)]
pub enum Role {
    /// A system instruction.
    System,
    /// An end-user turn.
    User,
    /// A model turn.
    Assistant,
    /// A tool result.
    Tool,
}

/// One message of a conversation.
#[derive(Debug)]
pub struct ChatMessage {
    /// Who the message is attributed to.
    pub role: Role,
    /// The message text.
    pub content: String,
}

/// The mathematical model of a [`ChatMessage`].
pub struct MessageView {
    /// Who the message is attributed to.
    pub role: Role,
    /// The message text.
    pub content: Seq<char>,
}

impl View for ChatMessage {
    type V = MessageView;

    open spec fn view(&self) -> MessageView {
        MessageView { role: self.role, content: self.content@ }
    }
}

/// A chat-completion request.
#[derive(Debug)]
pub struct ChatRequest {
    /// The model the caller addressed.
    pub model: String,
    /// The conversation so far, oldest first.
    pub messages: Vec<ChatMessage>,
    /// Frequency-penalty override.
    pub frequency_penalty: Option<ParamValue>,
    /// Logit-bias override.
    pub logit_bias: Option<ParamValue>,
    /// Whether to return log probabilities.
    pub logprobs: Option<ParamValue>,
    /// How many top log probabilities to return.
    pub top_logprobs: Option<ParamValue>,
    /// Cap on generated tokens.
    pub max_completion_tokens: Option<ParamValue>,
    /// Whether the completion may be stored by the provider.
    pub store: Option<ParamValue>,
    /// Caller-supplied metadata.
    pub metadata: Option<ParamValue>,
    /// How many choices to generate.
    pub n: Option<ParamValue>,
    /// Presence-penalty override.
    pub presence_penalty: Option<ParamValue>,
    /// Output-format constraint.
    pub response_format: Option<ParamValue>,
    /// Sampling seed.
    pub seed: Option<ParamValue>,
    /// Stop sequences.
    pub stop: Option<ParamValue>,
    /// Whether the response is streamed.
    pub stream: Option<bool>,
    /// Options for a streamed response.
    pub stream_options: Option<StreamOptions>,
    /// Sampling temperature.
    pub temperature: Option<ParamValue>,
    /// Nucleus-sampling bound.
    pub top_p: Option<ParamValue>,
    /// Tools offered to the model.
    pub tools: Option<ParamValue>,
    /// Constraint on tool selection.
    pub tool_choice: Option<ParamValue>,
    /// Whether tools may be called in parallel.
    pub parallel_tool_calls: Option<ParamValue>,
    /// End-user identifier.
    pub user: Option<ParamValue>,
}

/// The mathematical model of a [`ChatRequest`].
pub struct ChatRequestV {
    /// The model the caller addressed.
    pub model: Seq<char>,
    /// The conversation so far, oldest first.
    pub messages: Seq<MessageView>,
    /// Frequency-penalty override.
    pub frequency_penalty: Option<ParamValueV>,
    /// Logit-bias override.
    pub logit_bias: Option<ParamValueV>,
    /// Whether to return log probabilities.
    pub logprobs: Option<ParamValueV>,
    /// How many top log probabilities to return.
    pub top_logprobs: Option<ParamValueV>,
    /// Cap on generated tokens.
    pub max_completion_tokens: Option<ParamValueV>,
    /// Whether the completion may be stored by the provider.
    pub store: Option<ParamValueV>,
    /// Caller-supplied metadata.
    pub metadata: Option<ParamValueV>,
    /// How many choices to generate.
    pub n: Option<ParamValueV>,
    /// Presence-penalty override.
    pub presence_penalty: Option<ParamValueV>,
    /// Output-format constraint.
    pub response_format: Option<ParamValueV>,
    /// Sampling seed.
    pub seed: Option<ParamValueV>,
    /// Stop sequences.
    pub stop: Option<ParamValueV>,
    /// Whether the response is streamed.
    pub stream: Option<bool>,
    /// Options for a streamed response.
    pub stream_options: Option<StreamOptions>,
    /// Sampling temperature.
    pub temperature: Option<ParamValueV>,
    /// Nucleus-sampling bound.
    pub top_p: Option<ParamValueV>,
    /// Tools offered to the model.
    pub tools: Option<ParamValueV>,
    /// Constraint on tool selection.
    pub tool_choice: Option<ParamValueV>,
    /// Whether tools may be called in parallel.
    pub parallel_tool_calls: Option<ParamValueV>,
    /// End-user identifier.
    pub user: Option<ParamValueV>,
}

/// The model of an optional parameter value.
pub open spec fn opt_view(o: Option<ParamValue>) -> Option<ParamValueV> {
    match o {
        Some(v) => Some(v@),
        None => None,
    }
}

impl View for ChatRequest {
    type V = ChatRequestV;

    open spec fn view(&self) -> ChatRequestV {
        ChatRequestV {
            model: self.model@,
            messages: self.messages@.map_values(|m: ChatMessage| m@),
            frequency_penalty: opt_view(self.frequency_penalty),
            logit_bias: opt_view(self.logit_bias),
            logprobs: opt_view(self.logprobs),
            top_logprobs: opt_view(self.top_logprobs),
            max_completion_tokens: opt_view(self.max_completion_tokens),
            store: opt_view(self.store),
            metadata: opt_view(self.metadata),
            n: opt_view(self.n),
            presence_penalty: opt_view(self.presence_penalty),
            response_format: opt_view(self.response_format),
            seed: opt_view(self.seed),
            stop: opt_view(self.stop),
            stream: self.stream,
            stream_options: self.stream_options,
            temperature: opt_view(self.temperature),
            top_p: opt_view(self.top_p),
            tools: opt_view(self.tools),
            tool_choice: opt_view(self.tool_choice),
            parallel_tool_calls: opt_view(self.parallel_tool_calls),
            user: opt_view(self.user),
        }
    }
}

impl ChatRequest {
    /// A request with the given model and messages and every override unset.
    pub fn new(model: String, messages: Vec<ChatMessage>) -> (r: ChatRequest)
        ensures
            r@ == (ChatRequestV {
                model: model@,
                messages: messages@.map_values(|m: ChatMessage| m@),
                frequency_penalty: None,
                logit_bias: None,
                logprobs: None,
                top_logprobs: None,
                max_completion_tokens: None,
                store: None,
                metadata: None,
                n: None,
                presence_penalty: None,
                response_format: None,
                seed: None,
                stop: None,
                stream: None,
                stream_options: None,
                temperature: None,
                top_p: None,
                tools: None,
                tool_choice: None,
                parallel_tool_calls: None,
                user: None,
            }),
    {
        ChatRequest {
            model,
            messages,
            frequency_penalty: None,
            logit_bias: None,
            logprobs: None,
            top_logprobs: None,
            max_completion_tokens: None,
            store: None,
            metadata: None,
            n: None,
            presence_penalty: None,
            response_format: None,
            seed: None,
            stop: None,
            stream: None,
            stream_options: None,
            temperature: None,
            top_p: None,
            tools: None,
            tool_choice: None,
            parallel_tool_calls: None,
            user: None,
        }
    }
}

} // verus!
