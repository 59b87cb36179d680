//! Chat completion in the format of OpenAI, as Deepseek and xAI speak it
//! too.

use vstd::prelude::*;
use crate::error::{CompletionError, CompletionErrorView};
use crate::json::{
    child, item, items_view, json_text, lemma_array_view, lemma_object_view, members_view,
    opt_view, render_opt, Json, JsonView, Number, NumberView,
};
use crate::message::{
    calls_view, history_view, Message, MessageView, ToolCall, ToolCallView, ToolResponse,
};
use crate::embeddings::text_view;
use crate::settings::{backend_config, spec_backend_config, ConfigError, ConfigErrorView};
use crate::text::{join, spec_join, string_views};
use crate::usage::TokenUsage;

verus! {

/// The backends that speak the format.
#[derive(Debug, Clone, Copy, PartialEq, Eq)]
pub enum Dialect {
    OpenAI,
    Deepseek,
    Xai,
}

/// What a configuration may set: the name of the environment variable that
/// holds the key, the address of the endpoint, and the model.
#[derive(Debug, PartialEq, Eq)]
pub struct ModelConfig {
    pub api_key: Option<String>,
    pub api_url: Option<String>,
    pub model: Option<String>,
}

/// Where and as what a backend is reached.
#[derive(Debug, PartialEq, Eq)]
pub struct Endpoint {
    /// The name of the environment variable that holds the key.
    pub api_key_var: String,
    /// The address of the endpoint.
    pub api_url: String,
    /// The model.
    pub model: String,
}

/// The reply length that a client of a backend starts with.
pub const DEFAULT_TOKENS: usize = 2400;

/// The temperature that a client of a backend starts with: the bits of the
/// double 1.0.
pub const DEFAULT_TEMP_BITS: u64 = 0x3FF0_0000_0000_0000;

impl Dialect {
    /// The environment variable that holds the key, unless the
    /// configuration names another.
    pub open spec fn spec_key_var(self) -> Seq<char> {
        match self {
            Dialect::OpenAI => "SEEDFRAME_OPENAI_API_KEY"@,
            Dialect::Deepseek => "SEEDFRAME_DEEPSEEK_API_KEY"@,
            Dialect::Xai => "SEEDFRAME_XAI_API_KEY"@,
        }
    }

    /// The address of the endpoint, unless the configuration gives another.
    pub open spec fn spec_url(self) -> Seq<char> {
        match self {
            Dialect::OpenAI => "https://api.openai.com/v1/chat/completions"@,
            Dialect::Deepseek => "https://api.deepseek.com/chat/completions"@,
            Dialect::Xai => "https://api.x.ai/v1/chat/completions"@,
        }
    }

    /// The model, unless the configuration names another.
    pub open spec fn spec_model(self) -> Seq<char> {
        match self {
            Dialect::OpenAI => "gpt-4o-mini"@,
            Dialect::Deepseek => "deepseek"@,
            Dialect::Xai => "grok-2-latest"@,
        }
    }

    /// The environment variable that holds the key, unless the
    /// configuration names another.
    pub fn key_var(self) -> (r: &'static str)
        ensures
            r@ == self.spec_key_var(),
    {
        match self {
            Dialect::OpenAI => "SEEDFRAME_OPENAI_API_KEY",
            Dialect::Deepseek => "SEEDFRAME_DEEPSEEK_API_KEY",
            Dialect::Xai => "SEEDFRAME_XAI_API_KEY",
        }
    }

    /// The address of the endpoint, unless the configuration gives another.
    pub fn url(self) -> (r: &'static str)
        ensures
            r@ == self.spec_url(),
    {
        match self {
            Dialect::OpenAI => "https://api.openai.com/v1/chat/completions",
            Dialect::Deepseek => "https://api.deepseek.com/chat/completions",
            Dialect::Xai => "https://api.x.ai/v1/chat/completions",
        }
    }

    /// The model, unless the configuration names another.
    pub fn model(self) -> (r: &'static str)
        ensures
            r@ == self.spec_model(),
    {
        match self {
            Dialect::OpenAI => "gpt-4o-mini",
            Dialect::Deepseek => "deepseek",
            Dialect::Xai => "grok-2-latest",
        }
    }

    /// Whether requests ask the backend to keep the exchange.
    pub fn stores(self) -> (r: bool)
        ensures
            r == (self is OpenAI),
    {
        match self {
            Dialect::OpenAI => true,
            _ => false,
        }
    }

    /// Whether a reply may come without text.
    pub fn admits_no_text(self) -> (r: bool)
        ensures
            r == (self is OpenAI),
    {
        match self {
            Dialect::OpenAI => true,
            _ => false,
        }
    }
}

/// The model of a configuration, or of what is wrong with it.
pub open spec fn config_view(r: Result<ModelConfig, ConfigError>) -> Result<
    (Option<Seq<char>>, Option<Seq<char>>, Option<Seq<char>>),
    ConfigErrorView,
> {
    match r {
        Ok(c) => Ok((text_view(c.api_key), text_view(c.api_url), text_view(c.model))),
        Err(e) => Err(e@),
    }
}

impl ModelConfig {
    /// The configuration that a JSON text stands for: an object with the
    /// members `api_key`, `api_url` and `model`, each a text, `null` or
    /// missing, and with no other member.
    pub fn from_json(text: &str) -> (r: Result<Self, ConfigError>)
        ensures
            config_view(r) == spec_backend_config(text@, "api_key"@),
    {
        match backend_config(text, "api_key") {
            Ok((api_key, api_url, model)) => Ok(ModelConfig { api_key, api_url, model }),
            Err(e) => Err(e),
        }
    }
}

/// A text, or another where it is missing.
pub open spec fn spec_or(given: Option<String>, fallback: Seq<char>) -> Seq<char> {
    match given {
        Some(text) => text@,
        None => fallback,
    }
}

/// What a configuration and the backend's own settings make of an endpoint:
/// each setting is the configured one, or the backend's where the
/// configuration is silent.
pub fn endpoint(dialect: Dialect, config: Option<ModelConfig>) -> (r: Endpoint)
    ensures
        match config {
            Some(c) => r.api_key_var@ == spec_or(c.api_key, dialect.spec_key_var()) && r.api_url@
                == spec_or(c.api_url, dialect.spec_url()) && r.model@ == spec_or(
                c.model,
                dialect.spec_model(),
            ),
            None => r.api_key_var@ == dialect.spec_key_var() && r.api_url@ == dialect.spec_url()
                && r.model@ == dialect.spec_model(),
        },
{
    match config {
        Some(c) => Endpoint {
            api_key_var: match c.api_key {
                Some(v) => v,
                None => String::from_str(dialect.key_var()),
            },
            api_url: match c.api_url {
                Some(v) => v,
                None => String::from_str(dialect.url()),
            },
            model: match c.model {
                Some(v) => v,
                None => String::from_str(dialect.model()),
            },
        },
        None => Endpoint {
            api_key_var: String::from_str(dialect.key_var()),
            api_url: String::from_str(dialect.url()),
            model: String::from_str(dialect.model()),
        },
    }
}

/// Whether an HTTP status reports success: 200 to 299.
pub fn is_success(status: u16) -> (r: bool)
    ensures
        r == (200 <= status < 300),
{
    200 <= status && status < 300
}

/// A text as `Debug` writes it: between quotes, with what stands for the
/// characters that cannot stand for themselves there.
pub uninterp spec fn quoted(text: Seq<char>) -> Seq<char>;

/// A text as `Debug` writes it, from `format!`. The result depends on the
/// text alone.
#[verifier::external_body]
fn debug_text(text: &str) -> (r: String)
    ensures
        r@ == quoted(text@),
{
    format!("{text:?}")
}

/// A tool call as it is written, from its three fields as they are
/// written: the fields by name, between braces behind the name of the type.
pub open spec fn spec_call_layout(id: Seq<char>, name: Seq<char>, arguments: Seq<char>) -> Seq<char> {
    "ToolCall { id: "@ + id + ", name: "@ + name + ", arguments: "@ + arguments + " }"@
}

/// A tool call as it is written behind the text of a message: its fields
/// by name, each text as `Debug` writes it.
pub open spec fn spec_call_text(call: ToolCallView) -> Seq<char> {
    spec_call_layout(quoted(call.id), quoted(call.name), quoted(call.arguments))
}

/// The tool calls of a message as they are written behind the message's
/// own text: in brackets, with `, ` between them.
pub open spec fn calls_text(calls: Seq<ToolCallView>) -> Seq<char> {
    "["@ + spec_join(Seq::new(calls.len(), |i: int| spec_call_text(calls[i])), ", "@) + "]"@
}

/// A tool call as it is written, from its three fields as they are
/// written.
pub fn call_layout(id: &str, name: &str, arguments: &str) -> (r: String)
    ensures
        r@ == spec_call_layout(id@, name@, arguments@),
{
    let mut text = String::from_str("ToolCall { id: ");
    text.append(id);
    text.append(", name: ");
    text.append(name);
    text.append(", arguments: ");
    text.append(arguments);
    text.append(" }");
    text
}

/// A tool call as it is written behind the text of a message.
pub fn call_text(call: &ToolCall) -> (r: String)
    ensures
        r@ == spec_call_text(call@),
{
    let id = debug_text(call.id.as_str());
    let name = debug_text(call.name.as_str());
    let arguments = debug_text(call.arguments.as_str());
    call_layout(id.as_str(), name.as_str(), arguments.as_str())
}

/// A list as it is written, from its items as they are written: the items
/// in brackets, with `, ` between them.
pub fn list_layout(items: &Vec<String>) -> (r: String)
    ensures
        r@ == "["@ + spec_join(string_views(items@), ", "@) + "]"@,
{
    let mut text = String::from_str("[");
    text.append(join(items, ", ").as_str());
    text.append("]");
    text
}

/// The tool calls of a message as they are written behind the message's
/// own text.
pub fn debug_calls(calls: &Vec<ToolCall>) -> (r: String)
    ensures
        r@ == calls_text(calls_view(calls@)),
{
    let mut texts: Vec<String> = Vec::new();
    let mut i: usize = 0;
    while i < calls.len()
        invariant
            i <= calls@.len(),
            texts@.len() == i,
            forall|j: int| 0 <= j < i ==> (#[trigger] texts@[j])@ == spec_call_text(calls@[j]@),
        decreases calls@.len() - i,
    {
        texts.push(call_text(&calls[i]));
        i += 1;
    }
    proof {
        assert(string_views(texts@) =~= Seq::new(
            calls_view(calls@).len(),
            |i: int| spec_call_text(calls_view(calls@)[i]),
        ));
    }
    list_layout(&texts)
}

/// The role under which a message is sent.
pub open spec fn spec_role(message: MessageView) -> Seq<char> {
    match message {
        MessageView::Preamble(_) => "system"@,
        MessageView::User { .. } => "user"@,
        MessageView::Assistant { .. } => "assistant"@,
    }
}

/// The text with which a message is sent: its own text, and for a message
/// of the assistant that asks for tool calls the calls behind it. Tool
/// results are not sent.
pub open spec fn spec_wire_text(message: MessageView) -> Seq<char> {
    match message {
        MessageView::Preamble(text) => text,
        MessageView::User { content, tool_responses } => content,
        MessageView::Assistant { content, tool_calls } => match tool_calls {
            Some(calls) => content + " "@ + calls_text(calls),
            None => content,
        },
    }
}

/// A message as it is sent: its role and its text.
pub open spec fn spec_wire_message(message: MessageView) -> JsonView {
    JsonView::Object(
        seq![
            ("role"@, JsonView::Text(spec_role(message))),
            ("content"@, JsonView::Text(spec_wire_text(message))),
        ],
    )
}

/// The text with which a user's message is sent: its own text. The tool
/// results that it carries are not sent.
pub fn serialize_user(content: &str, tool_responses: &Option<Vec<ToolResponse>>) -> (r: String)
    ensures
        r@ == content@,
{
    String::from_str(content)
}

/// The text with which an assistant's message is sent: its own text, and
/// behind it the tool calls that it asks for.
pub fn serialize_assistant(content: &str, tool_calls: &Option<Vec<ToolCall>>) -> (r: String)
    ensures
        r@ == match tool_calls {
            Some(calls) => content@ + " "@ + calls_text(calls_view(calls@)),
            None => content@,
        },
{
    let mut text = String::from_str(content);
    match tool_calls {
        Some(calls) => {
            text.append(" ");
            text.append(debug_calls(calls).as_str());
        },
        None => {},
    }
    text
}

/// A message as it is sent.
pub fn wire_message(message: &Message) -> (r: Json)
    ensures
        r@ == spec_wire_message(message@),
{
    let (role, text) = match message {
        Message::Preamble(text) => ("system", text.clone()),
        Message::User { content, tool_responses } => (
            "user",
            serialize_user(content.as_str(), tool_responses),
        ),
        Message::Assistant { content, tool_calls } => (
            "assistant",
            serialize_assistant(content.as_str(), tool_calls),
        ),
    };
    let mut members: Vec<(String, Json)> = Vec::new();
    members.push((String::from_str("role"), Json::Text(String::from_str(role))));
    members.push((String::from_str("content"), Json::Text(text)));
    proof {
        lemma_object_view(members);
        assert(members_view(members@) =~= seq![
            ("role"@, JsonView::Text(spec_role(message@))),
            ("content"@, JsonView::Text(spec_wire_text(message@))),
        ]);
    }
    Json::Object(members)
}

/// The messages of a request: the history and then the new message, each
/// as it is sent.
pub open spec fn spec_wire_messages(history: Seq<MessageView>, message: MessageView) -> Seq<
    JsonView,
> {
    Seq::new(
        history.len() + 1,
        |i: int|
            if i < history.len() {
                spec_wire_message(history[i])
            } else {
                spec_wire_message(message)
            },
    )
}

/// The body of a request: the model, the messages, the temperature and the
/// reply length; before these the wish to have the exchange kept, for a
/// backend that knows it; and behind these the tools, where some are
/// offered.
pub open spec fn spec_chat_request(
    dialect: Dialect,
    model: Seq<char>,
    history: Seq<MessageView>,
    message: MessageView,
    temperature: JsonView,
    max_tokens: usize,
    tools: Option<Seq<JsonView>>,
) -> JsonView {
    let head = if dialect is OpenAI {
        seq![("store"@, JsonView::Bool(true))]
    } else {
        Seq::empty()
    };
    let body = seq![
        ("model"@, JsonView::Text(model)),
        ("messages"@, JsonView::Array(spec_wire_messages(history, message))),
        ("temperature"@, temperature),
        ("max_tokens"@, JsonView::Number(NumberView::PosInt(max_tokens as u64))),
    ];
    let tail = match tools {
        Some(declarations) => seq![("tools"@, JsonView::Array(declarations))],
        None => Seq::empty(),
    };
    JsonView::Object(head + body + tail)
}

/// The body of a request. `temperature` is the JSON number to send, and
/// `tools` the declarations of the tools on offer.
pub fn chat_request(
    dialect: Dialect,
    model: &str,
    history: &Vec<Message>,
    message: &Message,
    temperature: Json,
    max_tokens: usize,
    tools: Option<Vec<Json>>,
) -> (r: Json)
    ensures
        r@ == spec_chat_request(
            dialect,
            model@,
            history_view(history@),
            message@,
            temperature@,
            max_tokens,
            match tools {
                Some(declarations) => Some(items_view(declarations@)),
                None => None,
            },
        ),
{
    let ghost wanted = spec_wire_messages(history_view(history@), message@);
    let ghost offered: Option<Seq<JsonView>> = match &tools {
        Some(declarations) => Some(items_view(declarations@)),
        None => None,
    };
    let mut messages: Vec<Json> = Vec::new();
    let mut i: usize = 0;
    while i < history.len()
        invariant
            i <= history@.len(),
            messages@.len() == i,
            forall|j: int| 0 <= j < i ==> (#[trigger] messages@[j])@ == spec_wire_message(history@[j]@),
        decreases history@.len() - i,
    {
        messages.push(wire_message(&history[i]));
        i += 1;
    }
    messages.push(wire_message(message));
    proof {
        lemma_array_view(messages);
        assert(items_view(messages@) =~= wanted);
    }
    let mut members: Vec<(String, Json)> = Vec::new();
    if dialect.stores() {
        members.push((String::from_str("store"), Json::Bool(true)));
    }
    members.push((String::from_str("model"), Json::Text(String::from_str(model))));
    members.push((String::from_str("messages"), Json::Array(messages)));
    members.push((String::from_str("temperature"), temperature));
    members.push(
        (String::from_str("max_tokens"), Json::Number(Number::PosInt(max_tokens as u64))),
    );
    match tools {
        Some(declarations) => {
            proof {
                lemma_array_view(declarations);
            }
            members.push((String::from_str("tools"), Json::Array(declarations)));
        },
        None => {},
    }
    proof {
        lemma_object_view(members);
        let head = if dialect is OpenAI {
            seq![("store"@, JsonView::Bool(true))]
        } else {
            Seq::empty()
        };
        let body = seq![
            ("model"@, JsonView::Text(model@)),
            ("messages"@, JsonView::Array(wanted)),
            ("temperature"@, temperature@),
            ("max_tokens"@, JsonView::Number(NumberView::PosInt(max_tokens as u64))),
        ];
        let tail = match offered {
            Some(declarations) => seq![("tools"@, JsonView::Array(declarations))],
            None => Seq::empty(),
        };
        assert(members_view(members@) =~= head + body + tail);
    }
    Json::Object(members)
}

/// The body of a request for an extraction: that of a request without
/// tools, and behind it what the backend is told to reply with.
pub open spec fn spec_extraction_request(
    dialect: Dialect,
    model: Seq<char>,
    history: Seq<MessageView>,
    message: MessageView,
    temperature: JsonView,
    max_tokens: usize,
    format: JsonView,
) -> JsonView {
    match spec_chat_request(dialect, model, history, message, temperature, max_tokens, None) {
        JsonView::Object(members) => JsonView::Object(members.push(("response_format"@, format))),
        other => other,
    }
}

/// The body of a request for an extraction.
pub fn extraction_request(
    dialect: Dialect,
    model: &str,
    history: &Vec<Message>,
    message: &Message,
    temperature: Json,
    max_tokens: usize,
    format: Json,
) -> (r: Json)
    ensures
        r@ == spec_extraction_request(
            dialect,
            model@,
            history_view(history@),
            message@,
            temperature@,
            max_tokens,
            format@,
        ),
{
    match chat_request(dialect, model, history, message, temperature, max_tokens, None) {
        Json::Object(mut members) => {
            let ghost before = members_view(members@);
            proof {
                lemma_object_view(members);
            }
            members.push((String::from_str("response_format"), format));
            proof {
                lemma_object_view(members);
                assert(members_view(members@) =~= before.push(("response_format"@, format@)));
            }
            Json::Object(members)
        },
        other => other,
    }
}

/// The text of a reply to a request for an extraction: that of its
/// message, which has to be there.
pub fn extraction_reply(body: &Json) -> (r: Result<String, CompletionError>)
    ensures
        match spec_reply_message(body@).at_key("content"@).as_text() {
            Some(text) => r matches Ok(found) && found@ == text,
            None => r matches Err(e) && e@ == CompletionErrorView::ParseError("Missing content"@),
        },
{
    let message = child(item(child(Some(body), "choices"), 0), "message");
    let content = match child(message, "content") {
        Some(v) => v.as_str(),
        None => None,
    };
    match content {
        Some(text) => Ok(String::from_str(text)),
        None => Err(CompletionError::ParseError(String::from_str("Missing content"))),
    }
}

/// The message of the first choice of a reply.
pub open spec fn spec_reply_message(body: JsonView) -> JsonView {
    body.at_key("choices"@).at_index(0).at_key("message"@)
}

/// The text of a reply: that of its message. A reply without text reads as
/// an empty one where the backend admits that.
pub open spec fn spec_reply_text(dialect: Dialect, body: JsonView) -> Option<Seq<char>> {
    let content = spec_reply_message(body).at_key("content"@);
    if content is Null && dialect is OpenAI {
        Some(Seq::empty())
    } else {
        content.as_text()
    }
}

/// The tool call that one entry of a reply's list stands for: its `id`, the
/// name of its function, and the function's arguments as JSON text. An
/// entry without an `id` or a function name that are strings stands for
/// none.
pub open spec fn spec_tool_call(entry: JsonView) -> Option<ToolCallView> {
    let function = entry.at_key("function"@);
    match (entry.at_key("id"@).as_text(), function.at_key("name"@).as_text()) {
        (Some(id), Some(name)) => Some(
            ToolCallView { id, name, arguments: json_text(function.at_key("arguments"@)) },
        ),
        _ => None,
    }
}

/// Every entry stands for a tool call.
pub open spec fn spec_all_calls(entries: Seq<JsonView>) -> bool {
    forall|i: int| 0 <= i < entries.len() ==> spec_tool_call(#[trigger] entries[i]) is Some
}

/// The tool calls that the entries stand for.
pub open spec fn spec_calls_of(entries: Seq<JsonView>) -> Seq<ToolCallView> {
    Seq::new(entries.len(), |i: int| spec_tool_call(entries[i])->0)
}

/// The entries of a reply's list of tool calls; none where the message has
/// no such list or an empty one.
pub open spec fn spec_reply_entries(body: JsonView) -> Option<Seq<JsonView>> {
    match spec_reply_message(body).at_key("tool_calls"@) {
        JsonView::Array(entries) => if entries.len() > 0 {
            Some(entries)
        } else {
            None
        },
        _ => None,
    }
}

/// The token counts of a reply, where it reports all three as non-negative
/// integers.
pub open spec fn spec_reply_usage(body: JsonView) -> Option<TokenUsage> {
    let usage = body.at_key("usage"@);
    match (
        usage.at_key("prompt_tokens"@).as_u64(),
        usage.at_key("completion_tokens"@).as_u64(),
        usage.at_key("total_tokens"@).as_u64(),
    ) {
        (Some(p), Some(c), Some(t)) => Some(
            TokenUsage { prompt_tokens: Some(p), completion_tokens: Some(c), total_tokens: Some(t) },
        ),
        _ => None,
    }
}

/// What a reply means: the assistant's message with its tool calls, and
/// the token counts. A reply without text, with an entry in its list of
/// tool calls that stands for none, or without all token counts is refused,
/// and the first of these that applies decides the error.
pub open spec fn spec_parse_reply(dialect: Dialect, body: JsonView) -> Result<
    (MessageView, TokenUsage),
    CompletionErrorView,
> {
    match spec_reply_text(dialect, body) {
        None => Err(CompletionErrorView::ParseError("Invalid response body"@)),
        Some(content) => {
            let entries = spec_reply_entries(body);
            if entries is Some && !spec_all_calls(entries->0) {
                Err(CompletionErrorView::ParseError("Invalid response body"@))
            } else {
                match spec_reply_usage(body) {
                    None => Err(
                        CompletionErrorView::ParseError(
                            "Failed to parse usage data from response"@,
                        ),
                    ),
                    Some(usage) => Ok(
                        (
                            MessageView::Assistant {
                                content,
                                tool_calls: match entries {
                                    Some(e) => Some(spec_calls_of(e)),
                                    None => None,
                                },
                            },
                            usage,
                        ),
                    ),
                }
            }
        },
    }
}

/// The tool call that one entry of a reply's list stands for.
pub fn tool_call_of(entry: &Json) -> (r: Option<ToolCall>)
    ensures
        match r {
            Some(call) => spec_tool_call(entry@) == Some(call@),
            None => spec_tool_call(entry@) is None,
        },
{
    let function = child(Some(entry), "function");
    let id = match child(Some(entry), "id") {
        Some(v) => v.as_str(),
        None => None,
    };
    let name = match child(function, "name") {
        Some(v) => v.as_str(),
        None => None,
    };
    match (id, name) {
        (Some(id), Some(name)) => Some(
            ToolCall {
                id: String::from_str(id),
                name: String::from_str(name),
                arguments: render_opt(child(function, "arguments")),
            },
        ),
        _ => None,
    }
}

/// The token counts of a reply.
pub fn reply_usage(body: &Json) -> (r: Option<TokenUsage>)
    ensures
        r == spec_reply_usage(body@),
{
    let usage = child(Some(body), "usage");
    let prompt = match child(usage, "prompt_tokens") {
        Some(v) => v.as_u64(),
        None => None,
    };
    let completion = match child(usage, "completion_tokens") {
        Some(v) => v.as_u64(),
        None => None,
    };
    let total = match child(usage, "total_tokens") {
        Some(v) => v.as_u64(),
        None => None,
    };
    match (prompt, completion, total) {
        (Some(p), Some(c), Some(t)) => Some(
            TokenUsage { prompt_tokens: Some(p), completion_tokens: Some(c), total_tokens: Some(t) },
        ),
        _ => None,
    }
}

/// The model of the result of reading a reply.
pub open spec fn parsed_view(parsed: Result<(Message, TokenUsage), CompletionError>) -> Result<
    (MessageView, TokenUsage),
    CompletionErrorView,
> {
    match parsed {
        Ok((message, usage)) => Ok((message@, usage)),
        Err(e) => Err(e@),
    }
}

/// Reads the body of a successful reply.
pub fn parse_reply(dialect: Dialect, body: &Json) -> (r: Result<
    (Message, TokenUsage),
    CompletionError,
>)
    ensures
        parsed_view(r) == spec_parse_reply(dialect, body@),
{
    let message = child(item(child(Some(body), "choices"), 0), "message");
    let content = match child(message, "content") {
        None => if dialect.admits_no_text() {
            Some(String::new())
        } else {
            None
        },
        Some(v) => if v.is_null() && dialect.admits_no_text() {
            Some(String::new())
        } else {
            match v.as_str() {
                Some(text) => Some(String::from_str(text)),
                None => None,
            }
        },
    };
    let content = match content {
        Some(text) => text,
        None => {
            return Err(CompletionError::ParseError(String::from_str("Invalid response body")));
        },
    };
    let entries = match child(message, "tool_calls") {
        Some(v) => match v.as_array() {
            Some(entries) => if entries.len() > 0 {
                Some(entries)
            } else {
                None
            },
            None => None,
        },
        None => None,
    };
    let tool_calls = match entries {
        None => None,
        Some(entries) => {
            let ghost all = items_view(entries@);
            let mut calls: Vec<ToolCall> = Vec::new();
            let mut i: usize = 0;
            while i < entries.len()
                invariant
                    i <= entries@.len(),
                    all == items_view(entries@),
                    spec_reply_text(dialect, body@) is Some,
                    spec_reply_entries(body@) == Some(all),
                    calls@.len() == i,
                    forall|j: int| 0 <= j < i ==> spec_tool_call(#[trigger] all[j]) == Some(calls@[j]@),
                decreases entries@.len() - i,
            {
                match tool_call_of(&entries[i]) {
                    Some(call) => calls.push(call),
                    None => {
                        assert(spec_tool_call(all[i as int]) is None);
                        return Err(
                            CompletionError::ParseError(String::from_str("Invalid response body")),
                        );
                    },
                }
                i += 1;
            }
            assert(calls_view(calls@) =~= spec_calls_of(all));
            Some(calls)
        },
    };
    match reply_usage(body) {
        None => Err(
            CompletionError::ParseError(String::from_str("Failed to parse usage data from response")),
        ),
        Some(usage) => Ok((Message::Assistant { content, tool_calls }, usage)),
    }
}

/// What a reply with an HTTP status that reports no success means: the
/// backend's refusal, with the status and the body, or a note that the body
/// could not be read.
pub fn provider_error(status: u16, body: Option<String>) -> (r: CompletionError)
    ensures
        r@ == CompletionErrorView::ProviderError(
            status,
            match body {
                Some(text) => text@,
                None => "Unknown error (failed to read response body)"@,
            },
        ),
{
    CompletionError::ProviderError(
        status,
        match body {
            Some(text) => text,
            None => String::from_str("Unknown error (failed to read response body)"),
        },
    )
}

} // verus!
