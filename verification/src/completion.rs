//! The client: conversation history, the call pipeline and its options.

use vstd::prelude::*;
use crate::embeddings::{
    extend_context, hits_view, spec_context, spec_context_from, spec_extend_context, text_view,
    Embedder, EmbeddingView, DEFAULT_TOP_N,
};
use crate::error::{
    CompletionError, CompletionErrorView, Error, ErrorView, ExtractionError, StateError,
    StateErrorView, ToolSetError, ToolSetErrorView,
};
use crate::json::Json;
use crate::message::{
    calls_view, clone_calls, extend_history, history_view, responses_view, retain_preambles,
    spec_appended, spec_last_calls, spec_preambles, Message, MessageHistory, MessageView, ToolCall,
    ToolCallView, ToolResponse, ToolResponseView,
};
use crate::state::{spec_fetch, spec_register, State, StateStore};
use crate::tools::{batch_view, dispatched, spec_collect, ExecutionStrategy, ToolSet};
use crate::usage::{spec_accumulate, spec_no_usage, TokenUsage};
use std::any::TypeId;

verus! {

/// The sampling temperature of a model call. The library passes it on and
/// never computes with it: it is carried as the bits of an IEEE 754 double.
#[derive(Debug, Clone, Copy, PartialEq, Eq)]
pub struct Temperature(pub u64);

/// A type that a model's reply can be turned into.
pub trait Extractor: Sized {
    /// The JSON schema generated for the type.
    fn schema() -> Json;

    /// The path of the type, with `::` between its segments.
    fn type_path() -> String;

    /// The value that a reply stands for, or why it stands for none.
    fn from_reply(reply: &str) -> Result<Self, String>;
}

/// A language model backend.
pub trait CompletionModel: Send + Sized {
    /// A client for this model, with the backend's own temperature and
    /// reply length.
    fn build_client<V: Send + Sync + 'static>(
        self,
        preamble: &str,
        embedder_instances: Vec<Embedder>,
        tools: ToolSet<V>,
    ) -> Client<Self, V>;

    /// Sends `message`, after the messages of `history`, and returns the
    /// reply and what it cost.
    fn send<V: Send + Sync + 'static>(
        &mut self,
        message: Message,
        history: &MessageHistory,
        tools: Option<&ToolSet<V>>,
        temperature: Temperature,
        max_tokens: usize,
    ) -> Result<(Message, TokenUsage), CompletionError>;

    /// Sends `message` and turns the reply into a `T`. A backend without
    /// that capability fails with `ExtractionNotSupported`.
    fn extract<T: Extractor>(
        &mut self,
        message: Message,
        history: &MessageHistory,
        temperature: Temperature,
        max_tokens: usize,
    ) -> (r: Result<T, CompletionError>) {
        Err(CompletionError::ExtractorError(ExtractionError::ExtractionNotSupported))
    }
}

/// The options of one call.
pub struct SendOptions {
    /// Whether tool calls in the reply are dispatched.
    pub execute_tools: bool,
    /// Whether the tools are offered to the model.
    pub with_tools: bool,
    /// Whether the message with the tool results is kept in the history.
    pub append_tool_response: bool,
    /// Whether retrieved context is added to the prompt.
    pub with_context: bool,
    /// Whether the call leaves the client's history alone.
    pub one_shot: bool,
}

/// What a call leaves behind: its result, and the client's history and
/// running totals after it.
pub struct SendOutcome {
    pub result: Result<MessageView, ErrorView>,
    pub history: Seq<MessageView>,
    pub usage: TokenUsage,
}

/// Whether the tools are sent along: only if asked for, and only if there
/// are any.
pub open spec fn spec_offers_tools(with_tools: bool, tools: nat) -> bool {
    with_tools && tools > 0
}

/// The history that a call is made with: the caller's own one, or an empty
/// one, for a one-shot call; else the client's.
pub open spec fn spec_call_history(
    one_shot: bool,
    given: Option<Seq<MessageView>>,
    persistent: Seq<MessageView>,
) -> Seq<MessageView> {
    if one_shot {
        match given {
            Some(h) => h,
            None => Seq::empty(),
        }
    } else {
        persistent
    }
}

/// The text that is sent: the prompt, followed by the context in its frame
/// where there is one and it is asked for.
pub open spec fn spec_outbound_text(
    prompt: Seq<char>,
    context: Option<Seq<char>>,
    with_context: bool,
) -> Seq<char> {
    match context {
        Some(c) => if with_context {
            prompt + "\n\n<context>\n"@ + c + "\n</context>\n"@
        } else {
            prompt
        },
        None => prompt,
    }
}

/// The message that is sent.
pub open spec fn spec_outbound(
    prompt: Seq<char>,
    context: Option<Seq<char>>,
    with_context: bool,
) -> MessageView {
    MessageView::User {
        content: spec_outbound_text(prompt, context, with_context),
        tool_responses: None,
    }
}

/// The history after the model has replied: unchanged by a one-shot call,
/// else longer by the prompt as the user wrote it and by the reply.
pub open spec fn spec_history_after_reply(
    history: Seq<MessageView>,
    prompt: Seq<char>,
    reply: MessageView,
    one_shot: bool,
) -> Seq<MessageView> {
    if one_shot {
        history
    } else {
        history.push(MessageView::User { content: prompt, tool_responses: None }).push(reply)
    }
}

/// The tool calls to dispatch for a reply: those of an assistant message
/// that carries some, if dispatch is asked for.
pub open spec fn spec_pending_calls(execute_tools: bool, reply: MessageView) -> Option<
    Seq<ToolCallView>,
> {
    if execute_tools {
        match reply {
            MessageView::Assistant { content, tool_calls: Some(calls) } => Some(calls),
            _ => None,
        }
    } else {
        None
    }
}

/// The message that carries the results of a batch: a user message without
/// text.
pub open spec fn spec_tool_message(values: Seq<ToolResponseView>) -> MessageView {
    MessageView::User { content: Seq::empty(), tool_responses: Some(values) }
}

/// The history after a batch: longer by the message with the results, if
/// that is asked for and the call is not one-shot.
pub open spec fn spec_history_after_tools(
    history: Seq<MessageView>,
    values: Seq<ToolResponseView>,
    append: bool,
    one_shot: bool,
) -> Seq<MessageView> {
    if append && !one_shot {
        history.push(spec_tool_message(values))
    } else {
        history
    }
}

/// What a call leaves behind, from what the embedders, the model and the
/// tools came back with.
///
/// A failure of the retrieval or of the model ends the call with nothing
/// changed. After a reply the history and the totals are brought up to
/// date; a failure of the tools then ends the call. Where tools ran, the
/// result is the message with their results, else the reply.
pub open spec fn spec_send(
    options: SendOptions,
    history: Seq<MessageView>,
    usage: TokenUsage,
    prompt: Seq<char>,
    context: Result<Option<Seq<char>>, ErrorView>,
    reply: Result<(MessageView, TokenUsage), CompletionErrorView>,
    batch: Result<Seq<ToolResponseView>, ToolSetErrorView>,
) -> SendOutcome {
    match context {
        Err(e) => SendOutcome { result: Err(e), history, usage },
        Ok(_) => match reply {
            Err(e) => SendOutcome { result: Err(ErrorView::Completion(e)), history, usage },
            Ok((message, cost)) => {
                let recorded = spec_history_after_reply(history, prompt, message, options.one_shot);
                let totals = spec_accumulate(usage, cost);
                match spec_pending_calls(options.execute_tools, message) {
                    None => SendOutcome { result: Ok(message), history: recorded, usage: totals },
                    Some(_) => match batch {
                        Err(e) => SendOutcome {
                            result: Err(ErrorView::ToolSet(e)),
                            history: recorded,
                            usage: totals,
                        },
                        Ok(values) => SendOutcome {
                            result: Ok(spec_tool_message(values)),
                            history: spec_history_after_tools(
                                recorded,
                                values,
                                options.append_tool_response,
                                options.one_shot,
                            ),
                            usage: totals,
                        },
                    },
                }
            },
        },
    }
}

/// A one-shot call leaves the history as it was, whatever the embedders,
/// the model and the tools come back with.
pub proof fn lemma_one_shot_keeps_history(
    options: SendOptions,
    history: Seq<MessageView>,
    usage: TokenUsage,
    prompt: Seq<char>,
    context: Result<Option<Seq<char>>, ErrorView>,
    reply: Result<(MessageView, TokenUsage), CompletionErrorView>,
    batch: Result<Seq<ToolResponseView>, ToolSetErrorView>,
)
    requires
        options.one_shot,
    ensures
        spec_send(options, history, usage, prompt, context, reply, batch).history == history,
{
}

/// A call that is not one-shot only ever adds to the history, and what it
/// adds starts with the prompt and the reply.
pub proof fn lemma_send_extends_history(
    options: SendOptions,
    history: Seq<MessageView>,
    usage: TokenUsage,
    prompt: Seq<char>,
    context: Result<Option<Seq<char>>, ErrorView>,
    reply: Result<(MessageView, TokenUsage), CompletionErrorView>,
    batch: Result<Seq<ToolResponseView>, ToolSetErrorView>,
)
    requires
        !options.one_shot,
    ensures
        ({
            let after = spec_send(options, history, usage, prompt, context, reply, batch).history;
            &&& history.len() <= after.len() <= history.len() + 3
            &&& after.take(history.len() as int) == history
            &&& context is Ok && reply is Ok ==> after.len() >= history.len() + 2 && after[history.len() as int]
                == (MessageView::User { content: prompt, tool_responses: None })
                && after[history.len() as int + 1] == reply->Ok_0.0
            &&& context is Err || reply is Err ==> after == history
        }),
{
    let after = spec_send(options, history, usage, prompt, context, reply, batch).history;
    assert(after.take(history.len() as int) =~= history);
}

/// What the retrieval may come back with from `embedders` embedders: a
/// failure of an embedder, or the context that `spec_context` makes of the
/// answers of the embedders that were asked.
pub open spec fn retrieved(embedders: nat, context: Result<Option<Seq<char>>, ErrorView>) -> bool {
    match context {
        Ok(found) => exists|answers: Seq<Seq<EmbeddingView>>|
            answered(embedders, answers) && found == spec_context(answers),
        Err(e) => embedders > 0 && (e is Embedder || e is VectorStore),
    }
}

/// What a batch of `calls` may come back with from a set of `tools` tools:
/// the result that `spec_collect` makes of what the calls that were made
/// came back with.
pub open spec fn batched(
    tools: nat,
    strategy: ExecutionStrategy,
    calls: Seq<ToolCallView>,
    batch: Result<Seq<ToolResponseView>, ToolSetErrorView>,
) -> bool {
    exists|outcomes: Seq<Result<ToolResponseView, ToolSetErrorView>>|
        dispatched(tools, strategy, calls, outcomes) && batch == spec_collect(strategy, outcomes)
}

/// `outcome` is what a call leaves behind for some way in which the
/// embedders, the model and the tools may come back: the embedders as
/// `retrieved` says, the model in any way, and the tools as `batched` says
/// of the calls that the reply asks for.
pub open spec fn sent(
    options: SendOptions,
    history: Seq<MessageView>,
    usage: TokenUsage,
    prompt: Seq<char>,
    embedders: nat,
    tools: nat,
    strategy: ExecutionStrategy,
    outcome: SendOutcome,
) -> bool {
    exists|
        context: Result<Option<Seq<char>>, ErrorView>,
        reply: Result<(MessageView, TokenUsage), CompletionErrorView>,
        batch: Result<Seq<ToolResponseView>, ToolSetErrorView>,
    |
        #![trigger spec_send(options, history, usage, prompt, context, reply, batch)]
        {
            &&& spec_send(options, history, usage, prompt, context, reply, batch) == outcome
            &&& retrieved(embedders, context)
            &&& context is Ok && reply is Ok ==> match spec_pending_calls(
                options.execute_tools,
                reply->Ok_0.0,
            ) {
                Some(calls) => batched(tools, strategy, calls, batch),
                None => true,
            }
        }
}

/// The model of what a model came back with.
pub open spec fn reply_view(reply: Result<(Message, TokenUsage), CompletionError>) -> Result<
    (MessageView, TokenUsage),
    CompletionErrorView,
> {
    match reply {
        Ok((message, cost)) => Ok((message@, cost)),
        Err(e) => Err(e@),
    }
}

/// The model of the result of a call.
pub open spec fn result_view(result: Result<Message, Error>) -> Result<MessageView, ErrorView> {
    match result {
        Ok(message) => Ok(message@),
        Err(e) => Err(e@),
    }
}

/// The model of what the retrieval came back with.
pub open spec fn context_view(context: Result<Option<String>, Error>) -> Result<
    Option<Seq<char>>,
    ErrorView,
> {
    match context {
        Ok(text) => Ok(text_view(text)),
        Err(e) => Err(e@),
    }
}

/// The tools that are sent along with a call.
pub fn offered_tools<V: Send + Sync + 'static>(tools: &ToolSet<V>, with_tools: bool) -> (r: Option<
    &ToolSet<V>,
>)
    ensures
        match r {
            Some(offered) => spec_offers_tools(with_tools, tools.0@.len()) && *offered == *tools,
            None => !spec_offers_tools(with_tools, tools.0@.len()),
        },
{
    if with_tools && tools.0.len() > 0 {
        Some(tools)
    } else {
        None
    }
}

/// The history that a one-shot call is made with; `None` for a call that
/// is made with the client's history.
pub fn own_history(one_shot: bool, given: Option<MessageHistory>) -> (r: Option<MessageHistory>)
    ensures
        match r {
            Some(history) => one_shot && history_view(history@) == spec_call_history(
                one_shot,
                match given {
                    Some(h) => Some(history_view(h@)),
                    None => None,
                },
                Seq::empty(),
            ),
            None => !one_shot,
        },
{
    if one_shot {
        match given {
            Some(history) => Some(history),
            None => {
                let history: MessageHistory = Vec::new();
                assert(history_view(history@) =~= Seq::<MessageView>::empty());
                Some(history)
            },
        }
    } else {
        None
    }
}

/// The message that is sent for a prompt.
pub fn outbound_message(prompt: &str, context: &Option<String>, with_context: bool) -> (r: Message)
    ensures
        r@ == spec_outbound(prompt@, text_view(*context), with_context),
{
    let mut content = String::from_str(prompt);
    match context {
        Some(c) => {
            if with_context {
                content.append("\n\n<context>\n");
                content.append(c.as_str());
                content.append("\n</context>\n");
            }
        },
        None => {},
    }
    Message::User { content, tool_responses: None }
}

/// The tool calls to dispatch for a reply.
pub fn pending_calls(execute_tools: bool, reply: &Message) -> (r: Option<Vec<ToolCall>>)
    ensures
        match r {
            Some(calls) => spec_pending_calls(execute_tools, reply@) == Some(calls_view(calls@)),
            None => spec_pending_calls(execute_tools, reply@) is None,
        },
{
    if !execute_tools {
        return None;
    }
    match reply {
        Message::Assistant { content: _, tool_calls: Some(calls) } => Some(clone_calls(calls)),
        _ => None,
    }
}

/// The message that carries the results of a batch.
pub fn tool_message(values: Vec<ToolResponse>) -> (r: Message)
    ensures
        r@ == spec_tool_message(responses_view(values@)),
{
    Message::User { content: String::new(), tool_responses: Some(values) }
}

/// A client of a language model: the conversation so far, the tools and the
/// state they share, the embedders that supply context, and the running
/// token totals.
#[verifier::reject_recursive_types(V)]
pub struct Client<M: CompletionModel, V: Send + Sync + 'static> {
    completion_model: M,
    history: MessageHistory,
    tools: ToolSet<V>,
    embedders: Vec<Embedder>,
    token_usage: TokenUsage,
    states: StateStore<V>,
    temperature: Temperature,
    max_tokens: usize,
}

/// The options of one call, with the prompt. It is made by
/// [`Client::prompt`], changed by its setters and used up by `send` or
/// `extract`.
#[verifier::reject_recursive_types(V)]
pub struct PromptBuilder<'a, M: CompletionModel, V: Send + Sync + 'static> {
    /// The prompt as the user wrote it.
    pub prompt: String,
    /// The client that the call is made on.
    pub client: &'a mut Client<M, V>,
    /// Whether tool calls in the reply are dispatched.
    pub execute_tools: bool,
    /// Whether the tools are offered to the model.
    pub with_tools: bool,
    /// Whether the message with the tool results is kept in the history.
    pub append_tool_response: bool,
    /// Whether the call is one-shot, and the history to make it with.
    pub one_shot: (bool, Option<MessageHistory>),
    /// Whether retrieved context is added to the prompt.
    pub with_context: bool,
}

impl<'a, M: CompletionModel, V: Send + Sync + 'static> PromptBuilder<'a, M, V> {
    /// The prompt as the user wrote it.
    pub open spec fn spec_prompt(&self) -> Seq<char> {
        self.prompt@
    }

    /// The options as they stand.
    pub open spec fn options(&self) -> SendOptions {
        SendOptions {
            execute_tools: self.execute_tools,
            with_tools: self.with_tools,
            append_tool_response: self.append_tool_response,
            with_context: self.with_context,
            one_shot: self.one_shot.0,
        }
    }

    /// The history given for a one-shot call.
    pub open spec fn given_history(&self) -> Option<Seq<MessageView>> {
        match self.one_shot.1 {
            Some(h) => Some(history_view(h@)),
            None => None,
        }
    }

    /// The options that a call starts from: tools are offered and run,
    /// context is added, the tool results are not kept, and the call is not
    /// one-shot.
    pub open spec fn spec_defaults() -> SendOptions {
        SendOptions {
            execute_tools: true,
            with_tools: true,
            append_tool_response: false,
            with_context: true,
            one_shot: false,
        }
    }

    /// A call of `prompt` with the default options.
    fn new(client: &'a mut Client<M, V>, prompt: &str) -> (r: Self)
        ensures
            r.spec_prompt() == prompt@,
            r.options() == Self::spec_defaults(),
            r.given_history() is None,
            *r.client == *old(client),
            *final(r.client) == *final(client),
    {
        Self {
            prompt: String::from_str(prompt),
            client,
            execute_tools: true,
            with_tools: true,
            append_tool_response: false,
            one_shot: (false, None),
            with_context: true,
        }
    }

    /// Whether tool calls in the reply are dispatched; `true` at first.
    #[must_use]
    pub fn execute_tools(self, execute: bool) -> (r: Self)
        ensures
            r.options() == (SendOptions { execute_tools: execute, ..self.options() }),
            r.spec_prompt() == self.spec_prompt(),
            r.given_history() == self.given_history(),
            r.client == self.client,
    {
        let mut this = self;
        this.execute_tools = execute;
        this
    }

    /// Whether the tools are offered to the model; `true` at first.
    #[must_use]
    pub fn with_tools(self, with_tools: bool) -> (r: Self)
        ensures
            r.options() == (SendOptions { with_tools, ..self.options() }),
            r.spec_prompt() == self.spec_prompt(),
            r.given_history() == self.given_history(),
            r.client == self.client,
    {
        let mut this = self;
        this.with_tools = with_tools;
        this
    }

    /// Whether the message with the tool results is kept in the history;
    /// `false` at first.
    #[must_use]
    pub fn append_tool_response(self, append: bool) -> (r: Self)
        ensures
            r.options() == (SendOptions { append_tool_response: append, ..self.options() }),
            r.spec_prompt() == self.spec_prompt(),
            r.given_history() == self.given_history(),
            r.client == self.client,
    {
        let mut this = self;
        this.append_tool_response = append;
        this
    }

    /// Whether retrieved context is added to the prompt; `true` at first.
    #[must_use]
    pub fn with_context(self, append_context: bool) -> (r: Self)
        ensures
            r.options() == (SendOptions { with_context: append_context, ..self.options() }),
            r.spec_prompt() == self.spec_prompt(),
            r.given_history() == self.given_history(),
            r.client == self.client,
    {
        let mut this = self;
        this.with_context = append_context;
        this
    }

    /// Whether the call is one-shot, and the history to make it with. A
    /// one-shot call without a history is made with an empty one.
    #[must_use]
    pub fn one_shot(self, one_shot: bool, history: Option<MessageHistory>) -> (r: Self)
        ensures
            r.options() == (SendOptions { one_shot, ..self.options() }),
            r.spec_prompt() == self.spec_prompt(),
            r.given_history() == match history {
                Some(h) => Some(history_view(h@)),
                None => None,
            },
            r.client == self.client,
    {
        let mut this = self;
        this.one_shot = (one_shot, history);
        this
    }
}


/// How far the embedders were asked: all of them, or up to the first that
/// found nothing.
pub open spec fn answered(embedders: nat, answers: Seq<Seq<EmbeddingView>>) -> bool {
    &&& answers.len() <= embedders
    &&& embedders > 0 ==> answers.len() > 0
    &&& answers.len() < embedders ==> answers.last().len() == 0
}

impl<M: CompletionModel, V: Send + Sync + 'static> Client<M, V> {
    /// The conversation so far.
    pub closed spec fn spec_history(&self) -> Seq<MessageView> {
        history_view(self.history@)
    }

    /// The running token totals.
    pub closed spec fn spec_usage(&self) -> TokenUsage {
        self.token_usage
    }

    /// The registered state, by key.
    pub closed spec fn spec_states(&self) -> Map<TypeId, V> {
        self.states.contents()
    }

    /// The tools on offer.
    pub closed spec fn spec_tools(&self) -> ToolSet<V> {
        self.tools
    }

    /// The embedders, in the order in which they are asked for context.
    pub closed spec fn spec_embedders(&self) -> Seq<Embedder> {
        self.embedders@
    }

    /// The model backend.
    pub closed spec fn spec_model(&self) -> M {
        self.completion_model
    }

    /// The temperature and the reply length of the calls.
    pub closed spec fn spec_settings(&self) -> (Temperature, usize) {
        (self.temperature, self.max_tokens)
    }

    /// A client whose conversation holds the system instruction `preamble`
    /// and nothing else, with no state and no token totals yet.
    pub fn new(
        completion_model: M,
        preamble: &str,
        temperature: Temperature,
        max_tokens: usize,
        embedders: Vec<Embedder>,
        tools: ToolSet<V>,
    ) -> (r: Self)
        ensures
            r.spec_history() == seq![MessageView::Preamble(preamble@)],
            r.spec_usage() == spec_no_usage(),
            r.spec_states() == Map::<TypeId, V>::empty(),
            r.spec_tools() == tools,
            r.spec_embedders() == embedders@,
            r.spec_settings() == (temperature, max_tokens),
            r.spec_model() == completion_model,
    {
        let mut history: Vec<Message> = Vec::new();
        history.push(Message::Preamble(String::from_str(preamble)));
        assert(history_view(history@) =~= seq![MessageView::Preamble(preamble@)]);
        Self {
            completion_model,
            history,
            embedders,
            tools,
            temperature,
            max_tokens,
            token_usage: TokenUsage::default(),
            states: StateStore::new(),
        }
    }

    /// Drops every message but the system instructions.
    pub fn clear_history(&mut self)
        ensures
            final(self).spec_history() == spec_preambles(old(self).spec_history()),
            final(self).spec_usage() == old(self).spec_usage(),
            final(self).spec_states() == old(self).spec_states(),
            final(self).spec_tools() == old(self).spec_tools(),
            final(self).spec_embedders() == old(self).spec_embedders(),
            final(self).spec_settings() == old(self).spec_settings(),
            final(self).spec_model() == old(self).spec_model(),
    {
        let kept = retain_preambles(&self.history);
        self.history = kept;
    }

    /// Replaces the conversation.
    pub fn load_history(&mut self, history: MessageHistory)
        ensures
            final(self).spec_history() == history_view(history@),
            final(self).spec_usage() == old(self).spec_usage(),
            final(self).spec_states() == old(self).spec_states(),
            final(self).spec_tools() == old(self).spec_tools(),
            final(self).spec_embedders() == old(self).spec_embedders(),
            final(self).spec_settings() == old(self).spec_settings(),
            final(self).spec_model() == old(self).spec_model(),
    {
        self.history = history;
    }

    /// The conversation so far.
    #[must_use]
    pub fn export_history(&self) -> (r: &MessageHistory)
        ensures
            history_view(r@) == self.spec_history(),
    {
        &self.history
    }

    /// Adds copies of `messages` at the end of the conversation.
    pub fn append_history(&mut self, messages: &[Message])
        ensures
            final(self).spec_history() == spec_appended(
                old(self).spec_history(),
                history_view(messages@),
            ),
            final(self).spec_usage() == old(self).spec_usage(),
            final(self).spec_states() == old(self).spec_states(),
            final(self).spec_tools() == old(self).spec_tools(),
            final(self).spec_embedders() == old(self).spec_embedders(),
            final(self).spec_settings() == old(self).spec_settings(),
            final(self).spec_model() == old(self).spec_model(),
    {
        extend_history(&mut self.history, messages);
    }

    /// The running token totals.
    pub fn token_usage(&self) -> (r: TokenUsage)
        ensures
            r == self.spec_usage(),
    {
        self.token_usage
    }

    /// Registers `state` under `key`, the identity of its type. Fails with
    /// `AlreadyExists` exactly when the key is taken; the error carries
    /// `label`, and the client is given up with it.
    pub fn with_state(self, key: TypeId, label: &str, state: V) -> (r: Result<
        Self,
        CompletionError,
    >)
        ensures
            match r {
                Ok(client) => {
                    &&& spec_register(self.spec_states(), key, state) == Some(client.spec_states())
                    &&& client.spec_history() == self.spec_history()
                    &&& client.spec_usage() == self.spec_usage()
                    &&& client.spec_tools() == self.spec_tools()
                    &&& client.spec_embedders() == self.spec_embedders()
                    &&& client.spec_settings() == self.spec_settings()
                    &&& client.spec_model() == self.spec_model()
                },
                Err(e) => spec_register(self.spec_states(), key, state) is None && e@
                    == CompletionErrorView::StateError(StateErrorView::AlreadyExists(label@)),
            },
    {
        let Client {
            completion_model,
            history,
            tools,
            embedders,
            token_usage,
            states,
            temperature,
            max_tokens,
        } = self;
        match states.register(key, label, state) {
            Ok(states) => Ok(
                Client {
                    completion_model,
                    history,
                    tools,
                    embedders,
                    token_usage,
                    states,
                    temperature,
                    max_tokens,
                },
            ),
            Err(e) => Err(CompletionError::StateError(e)),
        }
    }

    /// A handle to the state registered under `key`. Fails with `NotFound`
    /// exactly when nothing is registered under the key.
    pub fn get_state(&self, key: TypeId) -> (r: Result<State<V>, StateError>)
        ensures
            match r {
                Ok(state) => spec_fetch(self.spec_states(), key) == Some(*state.0),
                Err(e) => spec_fetch(self.spec_states(), key) is None && e is NotFound,
            },
    {
        self.states.fetch(key)
    }

    /// The calls to dispatch where none are given: those of the last
    /// message. Fails with `EmptyMessageHistory` on an empty conversation
    /// and with `LastMessageNotAToolCall` where the last message is no
    /// assistant message with tool calls.
    pub fn last_calls(&self) -> (r: Result<&Vec<ToolCall>, ToolSetError>)
        ensures
            match r {
                Ok(calls) => spec_last_calls(self.spec_history()) == Some(calls_view(calls@)),
                Err(e) => spec_last_calls(self.spec_history()) is None && e == if self.spec_history().len()
                    == 0 {
                    ToolSetError::EmptyMessageHistory
                } else {
                    ToolSetError::LastMessageNotAToolCall
                },
            },
    {
        if self.history.len() == 0 {
            return Err(ToolSetError::EmptyMessageHistory);
        }
        match &self.history[self.history.len() - 1] {
            Message::Assistant { content: _, tool_calls: Some(calls) } => Ok(calls),
            _ => Err(ToolSetError::LastMessageNotAToolCall),
        }
    }

    /// Runs a batch of tool calls: the given ones, or, where none are
    /// given, those of the last message of the conversation. The calls are
    /// made one after the other and in order, and the result is that of
    /// `spec_collect` on what they came back with.
    pub fn run_tools(&self, calls: Option<&[ToolCall]>) -> (r: Result<
        Vec<ToolResponse>,
        ToolSetError,
    >)
        ensures
            match calls {
                Some(given) => self.ran(calls_view(given@), r),
                None => match spec_last_calls(self.spec_history()) {
                    Some(last) => self.ran(last, r),
                    None => r is Err && r->Err_0 == if self.spec_history().len() == 0 {
                        ToolSetError::EmptyMessageHistory
                    } else {
                        ToolSetError::LastMessageNotAToolCall
                    },
                },
            },
    {
        match calls {
            Some(given) => self.tools.run(given, &self.states),
            None => match self.last_calls() {
                Ok(last) => self.tools.run(last.as_slice(), &self.states),
                Err(e) => Err(e),
            },
        }
    }

    /// `r` is the result of a batch of `calls` on the client's tools.
    pub open spec fn ran(
        &self,
        calls: Seq<ToolCallView>,
        r: Result<Vec<ToolResponse>, ToolSetError>,
    ) -> bool {
        batched(self.spec_tools().0@.len(), self.spec_tools().1, calls, batch_view(r))
    }

    /// The context for a prompt: each embedder is asked for its best match,
    /// in order and up to the first that finds nothing. Without embedders
    /// there is no context and nothing is asked. The result is that of
    /// `spec_context` on the answers; a failure of an embedder is passed on.
    pub fn get_context(&self, prompt: &str) -> (r: Result<Option<String>, Error>)
        ensures
            retrieved(self.spec_embedders().len(), context_view(r)),
    {
        let ghost mut answers: Seq<Seq<EmbeddingView>> = Seq::empty();
        if self.embedders.len() == 0 {
            assert(answered(self.spec_embedders().len(), answers) && text_view(None::<String>)
                == spec_context(answers));
            return Ok(None);
        }
        let mut context: Option<String> = Some(String::new());
        let mut i: usize = 0;
        while i < self.embedders.len() && context.is_some()
            invariant
                i <= self.embedders@.len(),
                answers.len() == i,
                text_view(context) == spec_context_from(Some(Seq::empty()), answers),
                context is None ==> i > 0 && answers.last().len() == 0,
            decreases self.embedders@.len() - i,
        {
            let hits = match self.embedders[i].query(prompt, DEFAULT_TOP_N) {
                Ok(hits) => hits,
                Err(e) => {
                    return Err(e);
                },
            };
            proof {
                let before = answers;
                answers = answers.push(hits_view(hits@));
                assert(answers.drop_last() =~= before);
            }
            context = extend_context(context, &hits);
            i += 1;
        }
        assert(answered(self.spec_embedders().len(), answers) && text_view(context) == spec_context(
            answers,
        ));
        Ok(context)
    }

    /// Brings the history and the totals up to date after a reply.
    pub fn record_reply(&mut self, prompt: &str, reply: &Message, cost: &TokenUsage, one_shot: bool)
        ensures
            final(self).spec_history() == spec_history_after_reply(
                old(self).spec_history(),
                prompt@,
                reply@,
                one_shot,
            ),
            final(self).spec_usage() == spec_accumulate(old(self).spec_usage(), *cost),
            final(self).spec_states() == old(self).spec_states(),
            final(self).spec_tools() == old(self).spec_tools(),
            final(self).spec_embedders() == old(self).spec_embedders(),
            final(self).spec_settings() == old(self).spec_settings(),
            final(self).spec_model() == old(self).spec_model(),
    {
        if !one_shot {
            let ghost before = history_view(self.history@);
            let user = Message::User { content: String::from_str(prompt), tool_responses: None };
            self.history.push(user);
            self.history.push(reply.clone());
            assert(history_view(self.history@) =~= before.push(
                MessageView::User { content: prompt@, tool_responses: None },
            ).push(reply@));
        }
        self.token_usage = self.token_usage.accumulate(cost);
    }

    /// Keeps the message with the results of a batch, if that is asked for
    /// and the call is not one-shot.
    pub fn record_tool_message(&mut self, message: &Message, append: bool, one_shot: bool)
        ensures
            final(self).spec_history() == if append && !one_shot {
                old(self).spec_history().push(message@)
            } else {
                old(self).spec_history()
            },
            final(self).spec_usage() == old(self).spec_usage(),
            final(self).spec_states() == old(self).spec_states(),
            final(self).spec_tools() == old(self).spec_tools(),
            final(self).spec_embedders() == old(self).spec_embedders(),
            final(self).spec_settings() == old(self).spec_settings(),
            final(self).spec_model() == old(self).spec_model(),
    {
        if append && !one_shot {
            let ghost before = history_view(self.history@);
            self.history.push(message.clone());
            assert(history_view(self.history@) =~= before.push(message@));
        }
    }

    /// A call of `prompt`, with the default options.
    pub fn prompt(&mut self, prompt: &str) -> (r: PromptBuilder<'_, M, V>)
        ensures
            r.spec_prompt() == prompt@,
            r.options() == PromptBuilder::<M, V>::spec_defaults(),
            r.given_history() is None,
            *r.client == *old(self),
            *final(r.client) == *final(self),
    {
        PromptBuilder::new(self, prompt)
    }
}


impl<'a, M: CompletionModel, V: Send + Sync + 'static> PromptBuilder<'a, M, V> {
    /// Sends the prompt and returns the final message of the call.
    ///
    /// The context is retrieved and, where asked for, added to the prompt;
    /// the model is called with the history of the call and, where asked
    /// for and there are any, with the tools. A failure up to here ends the
    /// call with nothing changed. Then the prompt as written and the reply
    /// are added to the history, unless the call is one-shot, and the cost
    /// is added to the totals. A reply that asks for tool calls has them
    /// dispatched, if asked for; a failure of the tools ends the call, else
    /// the result is the message with the tool results, which is kept in
    /// the history only if asked for and the call is not one-shot. A
    /// one-shot call leaves the history as it was in every case.
    pub fn send(self) -> (r: Result<Message, Error>)
        ensures
            sent(
                self.options(),
                old(self.client).spec_history(),
                old(self.client).spec_usage(),
                self.spec_prompt(),
                old(self.client).spec_embedders().len(),
                old(self.client).spec_tools().0@.len(),
                old(self.client).spec_tools().1,
                SendOutcome {
                    result: result_view(r),
                    history: final(self.client).spec_history(),
                    usage: final(self.client).spec_usage(),
                },
            ),
            self.options().one_shot ==> final(self.client).spec_history()
                == old(self.client).spec_history(),
            final(self.client).spec_states() == old(self.client).spec_states(),
            final(self.client).spec_tools() == old(self.client).spec_tools(),
            final(self.client).spec_embedders() == old(self.client).spec_embedders(),
            final(self.client).spec_settings() == old(self.client).spec_settings(),
    {
        let ghost options = self.options();
        let ghost history0 = self.client.spec_history();
        let ghost usage0 = self.client.spec_usage();
        let ghost no_reply: Result<(MessageView, TokenUsage), CompletionErrorView> = arbitrary();
        let ghost no_batch: Result<Seq<ToolResponseView>, ToolSetErrorView> = arbitrary();
        let PromptBuilder {
            prompt,
            client,
            execute_tools,
            with_tools,
            append_tool_response,
            one_shot,
            with_context,
        } = self;
        let (is_one_shot, given) = one_shot;
        let retrieved = client.get_context(prompt.as_str());
        let ghost context = context_view(retrieved);
        let found = match retrieved {
            Ok(found) => found,
            Err(e) => {
                proof {
                    assert(spec_send(
                        options,
                        history0,
                        usage0,
                        prompt@,
                        context,
                        no_reply,
                        no_batch,
                    ) == SendOutcome { result: Err(e@), history: history0, usage: usage0 });
                }
                return Err(e);
            },
        };
        let message = outbound_message(prompt.as_str(), &found, with_context);
        let answer = match own_history(is_one_shot, given) {
            Some(history) => client.completion_model.send(
                message,
                &history,
                offered_tools(&client.tools, with_tools),
                client.temperature,
                client.max_tokens,
            ),
            None => client.completion_model.send(
                message,
                &client.history,
                offered_tools(&client.tools, with_tools),
                client.temperature,
                client.max_tokens,
            ),
        };
        let ghost reply = reply_view(answer);
        let (response, cost) = match answer {
            Ok(pair) => pair,
            Err(e) => {
                proof {
                    assert(spec_send(
                        options,
                        history0,
                        usage0,
                        prompt@,
                        context,
                        reply,
                        no_batch,
                    ) == SendOutcome {
                        result: Err(ErrorView::Completion(e@)),
                        history: history0,
                        usage: usage0,
                    });
                }
                return Err(Error::Completion(e));
            },
        };
        client.record_reply(prompt.as_str(), &response, &cost, is_one_shot);
        let ghost recorded = client.spec_history();
        match pending_calls(execute_tools, &response) {
            None => {
                proof {
                    assert(spec_send(
                        options,
                        history0,
                        usage0,
                        prompt@,
                        context,
                        reply,
                        no_batch,
                    ) == SendOutcome {
                        result: Ok(response@),
                        history: recorded,
                        usage: client.spec_usage(),
                    });
                }
                Ok(response)
            },
            Some(calls) => {
                if is_one_shot {
                    client.history.push(response);
                }
                let dispatch = client.tools.run(calls.as_slice(), &client.states);
                if is_one_shot {
                    let ghost pushed = client.history@;
                    client.history.pop();
                    assert(client.history@ =~= pushed.drop_last());
                    assert(history_view(client.history@) =~= recorded);
                }
                let ghost batch = batch_view(dispatch);
                let ghost outcome = spec_send(
                    options,
                    history0,
                    usage0,
                    prompt@,
                    context,
                    reply,
                    batch,
                );
                match dispatch {
                    Err(e) => {
                        proof {
                            assert(outcome == SendOutcome {
                                result: Err(ErrorView::ToolSet(e@)),
                                history: recorded,
                                usage: client.spec_usage(),
                            });
                        }
                        Err(Error::ToolSet(e))
                    },
                    Ok(values) => {
                        let result = tool_message(values);
                        client.record_tool_message(&result, append_tool_response, is_one_shot);
                        proof {
                            assert(outcome == SendOutcome {
                                result: Ok(result@),
                                history: client.spec_history(),
                                usage: client.spec_usage(),
                            });
                        }
                        Ok(result)
                    },
                }
            },
        }
    }

    /// Sends the prompt and turns the reply into a `T`.
    ///
    /// The context is retrieved and, where asked for, added to the prompt,
    /// and the model's extraction is called with the history of the call.
    /// The client is left as it was: an extraction adds nothing to the
    /// history and nothing to the totals.
    pub fn extract<T: Extractor>(self) -> (r: Result<T, Error>)
        ensures
            final(self.client).spec_history() == old(self.client).spec_history(),
            final(self.client).spec_usage() == old(self.client).spec_usage(),
            final(self.client).spec_states() == old(self.client).spec_states(),
            final(self.client).spec_tools() == old(self.client).spec_tools(),
            final(self.client).spec_embedders() == old(self.client).spec_embedders(),
            final(self.client).spec_settings() == old(self.client).spec_settings(),
            r matches Err(e) ==> e is Completion || (old(self.client).spec_embedders().len() > 0 && (
            e is Embedder || e is VectorStore)),
    {
        let PromptBuilder {
            prompt,
            client,
            execute_tools: _,
            with_tools: _,
            append_tool_response: _,
            one_shot,
            with_context,
        } = self;
        let (is_one_shot, given) = one_shot;
        let found = match client.get_context(prompt.as_str()) {
            Ok(found) => found,
            Err(e) => {
                return Err(e);
            },
        };
        let message = outbound_message(prompt.as_str(), &found, with_context);
        let answer = match own_history(is_one_shot, given) {
            Some(history) => client.completion_model.extract::<T>(
                message,
                &history,
                client.temperature,
                client.max_tokens,
            ),
            None => client.completion_model.extract::<T>(
                message,
                &client.history,
                client.temperature,
                client.max_tokens,
            ),
        };
        match answer {
            Ok(value) => Ok(value),
            Err(e) => Err(Error::Completion(e)),
        }
    }
}

} // verus!
