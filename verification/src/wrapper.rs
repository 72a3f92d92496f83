//! The chat decorator: per-model request policy.
//!
//! A [`ChatWrapper`] carries the public model name, an optional system
//! prompt, and an ordered default-parameter list. Its preparation pipeline
//! transforms every outbound request in a fixed order: system-prompt
//! injection first, then default-parameter backfill, then forced usage
//! accounting for streaming requests, so that no default can suppress the
//! forced usage accounting.

use vstd::prelude::*;
use crate::request::{ChatMessage, ChatRequest, ChatRequestV, MessageView, Role};
use crate::text::str_eq;
use crate::values::{ParamValue, ParamValueV, StreamOptions};

verus! {

/// A request field that the default-parameter list may backfill.
#[derive(Clone, Copy, PartialEq, Eq, Structural, Debug)]
pub enum FieldName {
    /// `frequency_penalty`
    FrequencyPenalty,
    /// `logit_bias`
    LogitBias,
    /// `logprobs`
    Logprobs,
    /// `top_logprobs`
    TopLogprobs,
    /// `max_completion_tokens`
    MaxCompletionTokens,
    /// `store`
    Store,
    /// `metadata`
    Metadata,
    /// `n`
    N,
    /// `presence_penalty`
    PresencePenalty,
    /// `response_format`
    ResponseFormat,
    /// `seed`
    Seed,
    /// `stop`
    Stop,
    /// `stream`
    Stream,
    /// `stream_options`
    StreamOpts,
    /// `temperature`
    Temperature,
    /// `top_p`
    TopP,
    /// `tools`
    Tools,
    /// `tool_choice`
    ToolChoice,
    /// `parallel_tool_calls`
    ParallelToolCalls,
    /// `user`
    User,
}

/// The field a default-parameter name denotes, if it is recognized.
pub open spec fn field_name_of(k: Seq<char>) -> Option<FieldName> {
    if k == "frequency_penalty"@ {
        Some(FieldName::FrequencyPenalty)
    } else if k == "logit_bias"@ {
        Some(FieldName::LogitBias)
    } else if k == "logprobs"@ {
        Some(FieldName::Logprobs)
    } else if k == "top_logprobs"@ {
        Some(FieldName::TopLogprobs)
    } else if k == "max_completion_tokens"@ {
        Some(FieldName::MaxCompletionTokens)
    } else if k == "store"@ {
        Some(FieldName::Store)
    } else if k == "metadata"@ {
        Some(FieldName::Metadata)
    } else if k == "n"@ {
        Some(FieldName::N)
    } else if k == "presence_penalty"@ {
        Some(FieldName::PresencePenalty)
    } else if k == "response_format"@ {
        Some(FieldName::ResponseFormat)
    } else if k == "seed"@ {
        Some(FieldName::Seed)
    } else if k == "stop"@ {
        Some(FieldName::Stop)
    } else if k == "stream"@ {
        Some(FieldName::Stream)
    } else if k == "stream_options"@ {
        Some(FieldName::StreamOpts)
    } else if k == "temperature"@ {
        Some(FieldName::Temperature)
    } else if k == "top_p"@ {
        Some(FieldName::TopP)
    } else if k == "tools"@ {
        Some(FieldName::Tools)
    } else if k == "tool_choice"@ {
        Some(FieldName::ToolChoice)
    } else if k == "parallel_tool_calls"@ {
        Some(FieldName::ParallelToolCalls)
    } else if k == "user"@ {
        Some(FieldName::User)
    } else {
        None
    }
}

/// Maps a default-parameter name to the field it denotes; unrecognized
/// names map to `None`.
pub fn parse_field_name(k: &str) -> (r: Option<FieldName>)
    ensures
        r == field_name_of(k@),
{
    if str_eq(k, "frequency_penalty") {
        Some(FieldName::FrequencyPenalty)
    } else if str_eq(k, "logit_bias") {
        Some(FieldName::LogitBias)
    } else if str_eq(k, "logprobs") {
        Some(FieldName::Logprobs)
    } else if str_eq(k, "top_logprobs") {
        Some(FieldName::TopLogprobs)
    } else if str_eq(k, "max_completion_tokens") {
        Some(FieldName::MaxCompletionTokens)
    } else if str_eq(k, "store") {
        Some(FieldName::Store)
    } else if str_eq(k, "metadata") {
        Some(FieldName::Metadata)
    } else if str_eq(k, "n") {
        Some(FieldName::N)
    } else if str_eq(k, "presence_penalty") {
        Some(FieldName::PresencePenalty)
    } else if str_eq(k, "response_format") {
        Some(FieldName::ResponseFormat)
    } else if str_eq(k, "seed") {
        Some(FieldName::Seed)
    } else if str_eq(k, "stop") {
        Some(FieldName::Stop)
    } else if str_eq(k, "stream") {
        Some(FieldName::Stream)
    } else if str_eq(k, "stream_options") {
        Some(FieldName::StreamOpts)
    } else if str_eq(k, "temperature") {
        Some(FieldName::Temperature)
    } else if str_eq(k, "top_p") {
        Some(FieldName::TopP)
    } else if str_eq(k, "tools") {
        Some(FieldName::Tools)
    } else if str_eq(k, "tool_choice") {
        Some(FieldName::ToolChoice)
    } else if str_eq(k, "parallel_tool_calls") {
        Some(FieldName::ParallelToolCalls)
    } else if str_eq(k, "user") {
        Some(FieldName::User)
    } else {
        None
    }
}

/// One default-parameter entry: a name and the fallback value for it.
#[derive(Debug)]
pub struct DefaultEntry {
    /// The parameter name.
    pub key: String,
    /// The fallback value.
    pub value: ParamValue,
}

/// The mathematical model of a [`DefaultEntry`].
pub struct DefaultEntryV {
    /// The parameter name.
    pub key: Seq<char>,
    /// The fallback value.
    pub value: ParamValueV,
}

impl View for DefaultEntry {
    type V = DefaultEntryV;

    open spec fn view(&self) -> DefaultEntryV {
        DefaultEntryV { key: self.key@, value: self.value@ }
    }
}

impl DefaultEntry {
    /// An equal-valued copy.
    pub fn duplicate(&self) -> (r: DefaultEntry)
        ensures
            r@ == self@,
    {
        DefaultEntry { key: self.key.clone(), value: self.value.duplicate() }
    }
}

/// An equal-valued copy of a default-parameter list.
pub fn clone_defaults(ds: &Vec<DefaultEntry>) -> (r: Vec<DefaultEntry>)
    ensures
        r@.map_values(|e: DefaultEntry| e@) == ds@.map_values(|e: DefaultEntry| e@),
{
    let n = ds.len();
    let mut acc: Vec<DefaultEntry> = Vec::new();
    let mut i: usize = 0;
    proof {
        assert(acc@.map_values(|e: DefaultEntry| e@) =~= ds@.map_values(
            |e: DefaultEntry| e@,
        ).take(0));
    }
    while i < n
        invariant
            0 <= i <= n,
            n == ds@.len(),
            acc@.map_values(|e: DefaultEntry| e@) == ds@.map_values(|e: DefaultEntry| e@).take(
                i as int,
            ),
        decreases n - i,
    {
        let ghost prev = acc@.map_values(|e: DefaultEntry| e@);
        acc.push(ds[i].duplicate());
        proof {
            assert(acc@.map_values(|e: DefaultEntry| e@) =~= prev.push(ds@[i as int]@));
            assert(ds@.map_values(|e: DefaultEntry| e@).take(i + 1) =~= prev.push(
                ds@[i as int]@,
            ));
        }
        i += 1;
    }
    proof {
        assert(ds@.map_values(|e: DefaultEntry| e@).take(n as int) =~= ds@.map_values(
            |e: DefaultEntry| e@,
        ));
    }
    acc
}

/// The value a request field holds, seen uniformly as a parameter value.
pub open spec fn field_of(req: ChatRequestV, f: FieldName) -> Option<ParamValueV> {
    match f {
        FieldName::FrequencyPenalty => req.frequency_penalty,
        FieldName::LogitBias => req.logit_bias,
        FieldName::Logprobs => req.logprobs,
        FieldName::TopLogprobs => req.top_logprobs,
        FieldName::MaxCompletionTokens => req.max_completion_tokens,
        FieldName::Store => req.store,
        FieldName::Metadata => req.metadata,
        FieldName::N => req.n,
        FieldName::PresencePenalty => req.presence_penalty,
        FieldName::ResponseFormat => req.response_format,
        FieldName::Seed => req.seed,
        FieldName::Stop => req.stop,
        FieldName::Stream => match req.stream {
            Some(b) => Some(ParamValueV::Bool(b)),
            None => None,
        },
        FieldName::StreamOpts => match req.stream_options {
            Some(o) => Some(ParamValueV::Stream(o)),
            None => None,
        },
        FieldName::Temperature => req.temperature,
        FieldName::TopP => req.top_p,
        FieldName::Tools => req.tools,
        FieldName::ToolChoice => req.tool_choice,
        FieldName::ParallelToolCalls => req.parallel_tool_calls,
        FieldName::User => req.user,
    }
}

/// The value a default entry would store into field `f`, if its value fits
/// that field.
pub open spec fn entry_default(f: FieldName, v: ParamValueV) -> Option<ParamValueV> {
    match f {
        FieldName::Stream => if v is Bool {
            Some(v)
        } else {
            None
        },
        FieldName::StreamOpts => if v is Stream {
            Some(v)
        } else {
            None
        },
        _ => Some(v),
    }
}

/// Backfills one field: the default is stored only when the field is unset
/// and the value fits the field; a caller-supplied value always wins.
pub open spec fn apply_default(req: ChatRequestV, f: FieldName, v: ParamValueV) -> ChatRequestV {
    match f {
        FieldName::FrequencyPenalty => if req.frequency_penalty is None {
            ChatRequestV { frequency_penalty: Some(v), ..req }
        } else {
            req
        },
        FieldName::LogitBias => if req.logit_bias is None {
            ChatRequestV { logit_bias: Some(v), ..req }
        } else {
            req
        },
        FieldName::Logprobs => if req.logprobs is None {
            ChatRequestV { logprobs: Some(v), ..req }
        } else {
            req
        },
        FieldName::TopLogprobs => if req.top_logprobs is None {
            ChatRequestV { top_logprobs: Some(v), ..req }
        } else {
            req
        },
        FieldName::MaxCompletionTokens => if req.max_completion_tokens is None {
            ChatRequestV { max_completion_tokens: Some(v), ..req }
        } else {
            req
        },
        FieldName::Store => if req.store is None {
            ChatRequestV { store: Some(v), ..req }
        } else {
            req
        },
        FieldName::Metadata => if req.metadata is None {
            ChatRequestV { metadata: Some(v), ..req }
        } else {
            req
        },
        FieldName::N => if req.n is None {
            ChatRequestV { n: Some(v), ..req }
        } else {
            req
        },
        FieldName::PresencePenalty => if req.presence_penalty is None {
            ChatRequestV { presence_penalty: Some(v), ..req }
        } else {
            req
        },
        FieldName::ResponseFormat => if req.response_format is None {
            ChatRequestV { response_format: Some(v), ..req }
        } else {
            req
        },
        FieldName::Seed => if req.seed is None {
            ChatRequestV { seed: Some(v), ..req }
        } else {
            req
        },
        FieldName::Stop => if req.stop is None {
            ChatRequestV { stop: Some(v), ..req }
        } else {
            req
        },
        FieldName::Stream => match (req.stream, v) {
            (None, ParamValueV::Bool(b)) => ChatRequestV { stream: Some(b), ..req },
            _ => req,
        },
        FieldName::StreamOpts => match (req.stream_options, v) {
            (None, ParamValueV::Stream(o)) => ChatRequestV { stream_options: Some(o), ..req },
            _ => req,
        },
        FieldName::Temperature => if req.temperature is None {
            ChatRequestV { temperature: Some(v), ..req }
        } else {
            req
        },
        FieldName::TopP => if req.top_p is None {
            ChatRequestV { top_p: Some(v), ..req }
        } else {
            req
        },
        FieldName::Tools => if req.tools is None {
            ChatRequestV { tools: Some(v), ..req }
        } else {
            req
        },
        FieldName::ToolChoice => if req.tool_choice is None {
            ChatRequestV { tool_choice: Some(v), ..req }
        } else {
            req
        },
        FieldName::ParallelToolCalls => if req.parallel_tool_calls is None {
            ChatRequestV { parallel_tool_calls: Some(v), ..req }
        } else {
            req
        },
        FieldName::User => if req.user is None {
            ChatRequestV { user: Some(v), ..req }
        } else {
            req
        },
    }
}

/// Backfills from one entry; entries with unrecognized names change nothing.
pub open spec fn apply_entry(req: ChatRequestV, e: DefaultEntryV) -> ChatRequestV {
    match field_name_of(e.key) {
        Some(f) => apply_default(req, f, e.value),
        None => req,
    }
}

/// Backfills from every entry of the list, first entry first.
pub open spec fn apply_defaults(req: ChatRequestV, ds: Seq<DefaultEntryV>) -> ChatRequestV
    decreases ds.len(),
{
    if ds.len() == 0 {
        req
    } else {
        apply_defaults(apply_entry(req, ds[0]), ds.skip(1))
    }
}

/// The first default of the list that would fill field `f`, if any.
pub open spec fn first_default(ds: Seq<DefaultEntryV>, f: FieldName) -> Option<ParamValueV>
    decreases ds.len(),
{
    if ds.len() == 0 {
        None
    } else if field_name_of(ds[0].key) == Some(f) && entry_default(f, ds[0].value) is Some {
        entry_default(f, ds[0].value)
    } else {
        first_default(ds.skip(1), f)
    }
}

/// Inserts the configured system prompt, if any, as the first message;
/// every existing message shifts down by one.
pub open spec fn inject_spec(req: ChatRequestV, prompt: Option<Seq<char>>) -> ChatRequestV {
    match prompt {
        Some(p) => ChatRequestV {
            messages: seq![MessageView { role: Role::System, content: p }] + req.messages,
            ..req
        },
        None => req,
    }
}

/// Forces usage accounting on for streaming requests, overriding any
/// caller-supplied stream options.
pub open spec fn enforce_usage_spec(req: ChatRequestV) -> ChatRequestV {
    if req.stream == Some(true) {
        ChatRequestV { stream_options: Some(StreamOptions { include_usage: true }), ..req }
    } else {
        req
    }
}

/// The decorator configuration applied to every chat request of one model.
#[derive(Debug)]
pub struct ChatWrapper {
    /// The name the model is registered under; every response reports it.
    pub public_name: String,
    /// The system prompt injected into every request, if configured.
    pub system_prompt: Option<String>,
    /// The default-parameter list, applied in order.
    pub defaults: Vec<DefaultEntry>,
}

/// The mathematical model of a [`ChatWrapper`].
pub struct WrapperV {
    /// The name the model is registered under.
    pub public_name: Seq<char>,
    /// The system prompt injected into every request, if configured.
    pub system_prompt: Option<Seq<char>>,
    /// The default-parameter list, applied in order.
    pub defaults: Seq<DefaultEntryV>,
}

impl View for ChatWrapper {
    type V = WrapperV;

    open spec fn view(&self) -> WrapperV {
        WrapperV {
            public_name: self.public_name@,
            system_prompt: match self.system_prompt {
                Some(ref s) => Some(s@),
                None => None,
            },
            defaults: self.defaults@.map_values(|e: DefaultEntry| e@),
        }
    }
}

/// The whole preparation pipeline, in its contractual order: injection,
/// then backfill, then usage enforcement.
pub open spec fn prepare_spec(req: ChatRequestV, w: WrapperV) -> ChatRequestV {
    enforce_usage_spec(apply_defaults(inject_spec(req, w.system_prompt), w.defaults))
}

impl ChatWrapper {
    /// A decorator configuration with the given public name, system prompt,
    /// and default-parameter list.
    pub fn new(public_name: &str, system_prompt: Option<String>, defaults: Vec<DefaultEntry>) -> (r:
        ChatWrapper)
        ensures
            r@ == (WrapperV {
                public_name: public_name@,
                system_prompt: match system_prompt {
                    Some(s) => Some(s@),
                    None => None,
                },
                defaults: defaults@.map_values(|e: DefaultEntry| e@),
            }),
    {
        ChatWrapper { public_name: public_name.to_owned(), system_prompt, defaults }
    }

    /// Injects the configured system prompt, if any, at position 0.
    pub fn with_system_prompt(&self, req: ChatRequest) -> (r: ChatRequest)
        ensures
            r@ == inject_spec(req@, self@.system_prompt),
    {
        match &self.system_prompt {
            None => req,
            Some(p) => {
                let mut out = req;
                out.messages.insert(0, ChatMessage { role: Role::System, content: p.clone() });
                proof {
                    assert(out@.messages =~= seq![
                        MessageView { role: Role::System, content: p@ },
                    ] + req@.messages);
                    assert(out@ =~= inject_spec(req@, self@.system_prompt));
                }
                out
            },
        }
    }

    /// Backfills every recognized, unset field from the default list;
    /// caller-supplied values always win and unknown names are ignored.
    pub fn with_model_defaults(&self, req: ChatRequest) -> (r: ChatRequest)
        ensures
            r@ == apply_defaults(req@, self@.defaults),
    {
        let mut out = req;
        let n = self.defaults.len();
        let mut i: usize = 0;
        proof {
            assert(self@.defaults.take(0) =~= Seq::<DefaultEntryV>::empty());
        }
        while i < n
            invariant
                0 <= i <= n,
                n == self.defaults@.len(),
                out@ == apply_defaults(req@, self@.defaults.take(i as int)),
            decreases n - i,
        {
            let e = &self.defaults[i];
            match parse_field_name(e.key.as_str()) {
                Some(f) => {
                    apply_default_exec(&mut out, f, &e.value);
                },
                None => {},
            }
            proof {
                assert(self@.defaults[i as int] == self.defaults@[i as int]@);
                assert(self@.defaults.take(i + 1) =~= self@.defaults.take(i as int).push(
                    self@.defaults[i as int],
                ));
                lemma_apply_defaults_push(req@, self@.defaults.take(i as int), self@.defaults[i as int]);
            }
            i += 1;
        }
        proof {
            assert(self@.defaults.take(n as int) =~= self@.defaults);
        }
        out
    }

    /// Forces `include_usage` on for streaming requests.
    pub fn with_stream_usage(req: ChatRequest) -> (r: ChatRequest)
        ensures
            r@ == enforce_usage_spec(req@),
    {
        let mut out = req;
        let streaming = match out.stream {
            Some(true) => true,
            _ => false,
        };
        if streaming {
            out.stream_options = Some(StreamOptions { include_usage: true });
        }
        out
    }

    /// Prepares an outbound request: system-prompt injection, then
    /// default-parameter backfill, then forced streaming-usage accounting.
    pub fn prepare_req(&self, req: ChatRequest) -> (r: ChatRequest)
        ensures
            r@ == prepare_spec(req@, self@),
            req@.stream == Some(true) ==> r@.stream_options == Some(
                StreamOptions { include_usage: true },
            ),
    {
        let a = self.with_system_prompt(req);
        let b = self.with_model_defaults(a);
        let c = ChatWrapper::with_stream_usage(b);
        proof {
            lemma_prepare_forces_stream_usage(req@, self@);
        }
        c
    }
}

/// Backfills one field of the request in place.
fn apply_default_exec(req: &mut ChatRequest, f: FieldName, v: &ParamValue)
    ensures
        final(req)@ == apply_default(old(req)@, f, v@),
{
    match f {
        FieldName::FrequencyPenalty => {
            if req.frequency_penalty.is_none() {
                req.frequency_penalty = Some(v.duplicate());
            }
        },
        FieldName::LogitBias => {
            if req.logit_bias.is_none() {
                req.logit_bias = Some(v.duplicate());
            }
        },
        FieldName::Logprobs => {
            if req.logprobs.is_none() {
                req.logprobs = Some(v.duplicate());
            }
        },
        FieldName::TopLogprobs => {
            if req.top_logprobs.is_none() {
                req.top_logprobs = Some(v.duplicate());
            }
        },
        FieldName::MaxCompletionTokens => {
            if req.max_completion_tokens.is_none() {
                req.max_completion_tokens = Some(v.duplicate());
            }
        },
        FieldName::Store => {
            if req.store.is_none() {
                req.store = Some(v.duplicate());
            }
        },
        FieldName::Metadata => {
            if req.metadata.is_none() {
                req.metadata = Some(v.duplicate());
            }
        },
        FieldName::N => {
            if req.n.is_none() {
                req.n = Some(v.duplicate());
            }
        },
        FieldName::PresencePenalty => {
            if req.presence_penalty.is_none() {
                req.presence_penalty = Some(v.duplicate());
            }
        },
        FieldName::ResponseFormat => {
            if req.response_format.is_none() {
                req.response_format = Some(v.duplicate());
            }
        },
        FieldName::Seed => {
            if req.seed.is_none() {
                req.seed = Some(v.duplicate());
            }
        },
        FieldName::Stop => {
            if req.stop.is_none() {
                req.stop = Some(v.duplicate());
            }
        },
        FieldName::Stream => {
            if req.stream.is_none() {
                match v {
                    ParamValue::Bool(b) => {
                        req.stream = Some(*b);
                    },
                    _ => {},
                }
            }
        },
        FieldName::StreamOpts => {
            if req.stream_options.is_none() {
                match v {
                    ParamValue::Stream(o) => {
                        req.stream_options = Some(*o);
                    },
                    _ => {},
                }
            }
        },
        FieldName::Temperature => {
            if req.temperature.is_none() {
                req.temperature = Some(v.duplicate());
            }
        },
        FieldName::TopP => {
            if req.top_p.is_none() {
                req.top_p = Some(v.duplicate());
            }
        },
        FieldName::Tools => {
            if req.tools.is_none() {
                req.tools = Some(v.duplicate());
            }
        },
        FieldName::ToolChoice => {
            if req.tool_choice.is_none() {
                req.tool_choice = Some(v.duplicate());
            }
        },
        FieldName::ParallelToolCalls => {
            if req.parallel_tool_calls.is_none() {
                req.parallel_tool_calls = Some(v.duplicate());
            }
        },
        FieldName::User => {
            if req.user.is_none() {
                req.user = Some(v.duplicate());
            }
        },
    }
}

/// Backfilling a list extended by one entry backfills the list, then the
/// extra entry.
pub proof fn lemma_apply_defaults_push(req: ChatRequestV, ds: Seq<DefaultEntryV>, e: DefaultEntryV)
    ensures
        apply_defaults(req, ds.push(e)) == apply_entry(apply_defaults(req, ds), e),
    decreases ds.len(),
{
    if ds.len() == 0 {
        assert(ds.push(e)[0] == e);
        assert(ds.push(e).skip(1) =~= Seq::<DefaultEntryV>::empty());
        assert(apply_defaults(apply_entry(req, e), Seq::<DefaultEntryV>::empty()) == apply_entry(
            req,
            e,
        ));
        assert(apply_defaults(req, Seq::<DefaultEntryV>::empty()) == req);
    } else {
        assert(ds.push(e)[0] == ds[0]);
        assert(ds.push(e).skip(1) =~= ds.skip(1).push(e));
        lemma_apply_defaults_push(apply_entry(req, ds[0]), ds.skip(1), e);
        assert(apply_defaults(req, ds.push(e)) == apply_defaults(
            apply_entry(req, ds[0]),
            ds.skip(1).push(e),
        ));
        assert(apply_defaults(req, ds) == apply_defaults(apply_entry(req, ds[0]), ds.skip(1)));
    }
}

/// What one backfill step does to one field, seen uniformly.
pub proof fn lemma_apply_entry_field(req: ChatRequestV, e: DefaultEntryV, f: FieldName)
    ensures
        field_of(apply_entry(req, e), f) == (
        if field_name_of(e.key) == Some(f) && field_of(req, f) is None && entry_default(
            f,
            e.value,
        ) is Some {
            entry_default(f, e.value)
        } else {
            field_of(req, f)
        }),
{
}

/// Backfilling never touches the message list or the model field.
pub proof fn lemma_apply_defaults_shape(req: ChatRequestV, ds: Seq<DefaultEntryV>)
    ensures
        apply_defaults(req, ds).messages == req.messages,
        apply_defaults(req, ds).model == req.model,
    decreases ds.len(),
{
    if ds.len() > 0 {
        lemma_apply_defaults_shape(apply_entry(req, ds[0]), ds.skip(1));
    }
}

/// Law: for any recognized default-parameter name left unset by the
/// caller, backfilling stores the first applicable default; a field the
/// caller set is never changed.
pub proof fn lemma_apply_defaults_field(req: ChatRequestV, ds: Seq<DefaultEntryV>, f: FieldName)
    ensures
        field_of(apply_defaults(req, ds), f) == (
        if field_of(req, f) is Some {
            field_of(req, f)
        } else {
            first_default(ds, f)
        }),
    decreases ds.len(),
{
    if ds.len() > 0 {
        lemma_apply_entry_field(req, ds[0], f);
        lemma_apply_defaults_field(apply_entry(req, ds[0]), ds.skip(1), f);
    }
}

/// Law: preparation puts the configured system prompt, if any, first;
/// every original message keeps its relative order, shifted down by one.
/// Without a configured prompt the message list is unchanged.
pub proof fn lemma_prepare_injects_system_prompt(req: ChatRequestV, w: WrapperV)
    ensures
        w.system_prompt matches Some(p) ==> {
            let r = prepare_spec(req, w);
            &&& r.messages.len() == req.messages.len() + 1
            &&& r.messages[0] == (MessageView { role: Role::System, content: p })
            &&& forall|i: int| 0 <= i < req.messages.len() ==> r.messages[i + 1] == req.messages[i]
        },
        w.system_prompt is None ==> prepare_spec(req, w).messages == req.messages,
{
    lemma_apply_defaults_shape(inject_spec(req, w.system_prompt), w.defaults);
}

/// Law: for any recognized default-parameter name, the prepared request
/// holds the caller's value if the caller set that field, else the first
/// applicable default, else nothing. For the stream-options field this
/// holds whenever the prepared request is not streaming; a streaming
/// request has its stream options overwritten by usage enforcement.
pub proof fn lemma_prepare_backfills_defaults(req: ChatRequestV, w: WrapperV, f: FieldName)
    ensures
        f != FieldName::StreamOpts || prepare_spec(req, w).stream != Some(true) ==> field_of(
            prepare_spec(req, w),
            f,
        ) == (
        if field_of(req, f) is Some {
            field_of(req, f)
        } else {
            first_default(w.defaults, f)
        }),
{
    let injected = inject_spec(req, w.system_prompt);
    assert(field_of(injected, f) == field_of(req, f));
    lemma_apply_defaults_field(injected, w.defaults, f);
}

/// Law: for any request with the streaming flag set, the prepared request
/// carries stream options with usage accounting on, whatever the caller
/// or the defaults supplied.
pub proof fn lemma_prepare_forces_stream_usage(req: ChatRequestV, w: WrapperV)
    ensures
        req.stream == Some(true) ==> prepare_spec(req, w).stream_options == Some(
            StreamOptions { include_usage: true },
        ),
{
    if req.stream == Some(true) {
        let injected = inject_spec(req, w.system_prompt);
        lemma_apply_defaults_field(injected, w.defaults, FieldName::Stream);
        assert(field_of(apply_defaults(injected, w.defaults), FieldName::Stream) == Some(
            ParamValueV::Bool(true),
        ));
    }
}

} // verus!
