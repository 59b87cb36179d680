//! Messages, tool calls and conversation history.

use vstd::prelude::*;
use crate::json::{Json, JsonView};
use crate::text::{lemma_filter_empty, lemma_filter_push};

verus! {

/// A function invocation requested by the model. `id` is the backend's
/// correlation key and is echoed back unchanged with the result.
#[derive(Debug, PartialEq, Eq)]
pub struct ToolCall {
    pub id: String,
    pub name: String,
    /// The arguments, as JSON text.
    pub arguments: String,
}

/// The result of one tool call, with the `id` and `name` of the call.
#[derive(Debug, PartialEq, Eq)]
pub struct ToolResponse {
    pub id: String,
    pub name: String,
    pub content: Json,
}

/// One entry of a conversation.
#[derive(Debug, PartialEq)]
pub enum Message {
    /// The system instruction.
    Preamble(String),
    /// A message of the user, or the results of tool calls.
    User {
        content: String,
        tool_responses: Option<Vec<ToolResponse>>,
    },
    /// A reply of the model, with the tool calls it asks for.
    Assistant {
        content: String,
        tool_calls: Option<Vec<ToolCall>>,
    },
}

/// A conversation, oldest message first.
pub type MessageHistory = Vec<Message>;

/// The model of a [`ToolCall`].
pub struct ToolCallView {
    pub id: Seq<char>,
    pub name: Seq<char>,
    pub arguments: Seq<char>,
}

/// The model of a [`ToolResponse`].
pub struct ToolResponseView {
    pub id: Seq<char>,
    pub name: Seq<char>,
    pub content: JsonView,
}

/// The model of a [`Message`].
pub enum MessageView {
    Preamble(Seq<char>),
    User { content: Seq<char>, tool_responses: Option<Seq<ToolResponseView>> },
    Assistant { content: Seq<char>, tool_calls: Option<Seq<ToolCallView>> },
}

impl View for ToolCall {
    type V = ToolCallView;

    open spec fn view(&self) -> ToolCallView {
        ToolCallView { id: self.id@, name: self.name@, arguments: self.arguments@ }
    }
}

impl View for ToolResponse {
    type V = ToolResponseView;

    open spec fn view(&self) -> ToolResponseView {
        ToolResponseView { id: self.id@, name: self.name@, content: self.content@ }
    }
}

/// The models of a list of tool calls.
pub open spec fn calls_view(calls: Seq<ToolCall>) -> Seq<ToolCallView> {
    Seq::new(calls.len(), |i: int| calls[i]@)
}

/// The models of a list of tool responses.
pub open spec fn responses_view(responses: Seq<ToolResponse>) -> Seq<ToolResponseView> {
    Seq::new(responses.len(), |i: int| responses[i]@)
}

/// The models of a list of messages.
pub open spec fn history_view(history: Seq<Message>) -> Seq<MessageView> {
    Seq::new(history.len(), |i: int| history[i]@)
}

impl View for Message {
    type V = MessageView;

    open spec fn view(&self) -> MessageView {
        match self {
            Message::Preamble(text) => MessageView::Preamble(text@),
            Message::User { content, tool_responses } => MessageView::User {
                content: content@,
                tool_responses: match tool_responses {
                    Some(responses) => Some(responses_view(responses@)),
                    None => None,
                },
            },
            Message::Assistant { content, tool_calls } => MessageView::Assistant {
                content: content@,
                tool_calls: match tool_calls {
                    Some(calls) => Some(calls_view(calls@)),
                    None => None,
                },
            },
        }
    }
}

impl Clone for ToolCall {
    fn clone(&self) -> (r: Self)
        ensures
            r@ == self@,
    {
        ToolCall {
            id: self.id.clone(),
            name: self.name.clone(),
            arguments: self.arguments.clone(),
        }
    }
}

impl Clone for ToolResponse {
    fn clone(&self) -> (r: Self)
        ensures
            r@ == self@,
    {
        ToolResponse {
            id: self.id.clone(),
            name: self.name.clone(),
            content: self.content.clone(),
        }
    }
}

/// A copy of a list of tool calls.
pub fn clone_calls(calls: &Vec<ToolCall>) -> (r: Vec<ToolCall>)
    ensures
        calls_view(r@) == calls_view(calls@),
{
    let mut out: Vec<ToolCall> = Vec::new();
    let mut i: usize = 0;
    while i < calls.len()
        invariant
            i <= calls.len(),
            out@.len() == i,
            forall|j: int| 0 <= j < i ==> out@[j]@ == calls@[j]@,
        decreases calls.len() - i,
    {
        out.push(calls[i].clone());
        i += 1;
    }
    assert(calls_view(out@) =~= calls_view(calls@));
    out
}

/// A copy of a list of tool responses.
pub fn clone_responses(responses: &Vec<ToolResponse>) -> (r: Vec<ToolResponse>)
    ensures
        responses_view(r@) == responses_view(responses@),
{
    let mut out: Vec<ToolResponse> = Vec::new();
    let mut i: usize = 0;
    while i < responses.len()
        invariant
            i <= responses.len(),
            out@.len() == i,
            forall|j: int| 0 <= j < i ==> out@[j]@ == responses@[j]@,
        decreases responses.len() - i,
    {
        out.push(responses[i].clone());
        i += 1;
    }
    assert(responses_view(out@) =~= responses_view(responses@));
    out
}

impl Clone for Message {
    fn clone(&self) -> (r: Self)
        ensures
            r@ == self@,
    {
        match self {
            Message::Preamble(text) => Message::Preamble(text.clone()),
            Message::User { content, tool_responses } => Message::User {
                content: content.clone(),
                tool_responses: match tool_responses {
                    Some(responses) => Some(clone_responses(responses)),
                    None => None,
                },
            },
            Message::Assistant { content, tool_calls } => Message::Assistant {
                content: content.clone(),
                tool_calls: match tool_calls {
                    Some(calls) => Some(clone_calls(calls)),
                    None => None,
                },
            },
        }
    }
}

/// The system instructions of a conversation, in their order: what clearing
/// a history leaves.
pub open spec fn spec_preambles(history: Seq<MessageView>) -> Seq<MessageView> {
    history.filter(|m: MessageView| m is Preamble)
}

/// The conversation with further messages at its end.
pub open spec fn spec_appended(history: Seq<MessageView>, more: Seq<MessageView>) -> Seq<
    MessageView,
> {
    history + more
}

/// The tool calls that the last message of a conversation asks for.
pub open spec fn spec_last_calls(history: Seq<MessageView>) -> Option<Seq<ToolCallView>> {
    if history.len() == 0 {
        None
    } else {
        match history.last() {
            MessageView::Assistant { content, tool_calls: Some(calls) } => Some(calls),
            _ => None,
        }
    }
}

/// Drops every message but the system instructions.
pub fn retain_preambles(history: &Vec<Message>) -> (r: Vec<Message>)
    ensures
        history_view(r@) == spec_preambles(history_view(history@)),
{
    let ghost all = history_view(history@);
    let mut out: Vec<Message> = Vec::new();
    let mut i: usize = 0;
    assert(all.take(0) =~= Seq::<MessageView>::empty());
    proof {
        lemma_filter_empty(|m: MessageView| m is Preamble);
        assert(history_view(out@) =~= Seq::<MessageView>::empty());
    }
    while i < history.len()
        invariant
            i <= history.len(),
            all == history_view(history@),
            history_view(out@) == spec_preambles(all.take(i as int)),
        decreases history.len() - i,
    {
        let ghost before = history_view(out@);
        proof {
            let prefix = all.take(i as int);
            let keep = |m: MessageView| m is Preamble;
            assert(all.take(i + 1) =~= prefix.push(all[i as int]));
            lemma_filter_push(prefix, keep, all[i as int]);
        }
        match &history[i] {
            Message::Preamble(text) => {
                out.push(Message::Preamble(text.clone()));
                assert(history_view(out@) =~= before.push(all[i as int]));
            },
            _ => {},
        }
        i += 1;
    }
    assert(all.take(history.len() as int) =~= all);
    out
}

/// Appends copies of `more` to a conversation.
pub fn extend_history(history: &mut Vec<Message>, more: &[Message])
    ensures
        history_view(final(history)@) == spec_appended(
            history_view(old(history)@),
            history_view(more@),
        ),
{
    let ghost start = history_view(history@);
    let ghost extra = history_view(more@);
    let mut i: usize = 0;
    assert(history_view(history@) =~= start + extra.take(0));
    while i < more.len()
        invariant
            i <= more.len(),
            extra == history_view(more@),
            history_view(history@) == start + extra.take(i as int),
        decreases more.len() - i,
    {
        let ghost before = history_view(history@);
        history.push(more[i].clone());
        assert(history_view(history@) =~= before.push(extra[i as int]));
        assert(extra.take(i + 1) =~= extra.take(i as int).push(extra[i as int]));
        assert(start + extra.take(i + 1) =~= (start + extra.take(i as int)).push(extra[i as int]));
        i += 1;
    }
    assert(extra.take(more.len() as int) =~= extra);
}

/// A conversation that holds one system instruction, as its first message.
pub open spec fn seeded_with(history: Seq<MessageView>, preamble: Seq<char>) -> bool {
    &&& history.len() >= 1
    &&& history[0] == MessageView::Preamble(preamble)
    &&& forall|i: int| 1 <= i < history.len() ==> !(history[i] is Preamble)
}

/// Clearing a conversation that was seeded with a system instruction, and
/// to which only other messages were added, leaves that instruction alone.
pub proof fn lemma_clear_keeps_seed(history: Seq<MessageView>, preamble: Seq<char>)
    requires
        seeded_with(history, preamble),
    ensures
        spec_preambles(history) == seq![MessageView::Preamble(preamble)],
    decreases history.len(),
{
    let keep = |m: MessageView| m is Preamble;
    if history.len() == 1 {
        assert(history =~= Seq::<MessageView>::empty().push(history[0]));
        lemma_filter_push(Seq::<MessageView>::empty(), keep, history[0]);
        lemma_filter_empty(keep);
        assert(spec_preambles(history) =~= seq![MessageView::Preamble(preamble)]);
    } else {
        let shorter = history.drop_last();
        assert(seeded_with(shorter, preamble));
        lemma_clear_keeps_seed(shorter, preamble);
        assert(history =~= shorter.push(history.last()));
        lemma_filter_push(shorter, keep, history.last());
    }
}

} // verus!
