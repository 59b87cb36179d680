//! The message format of Anthropic.
//!
//! A message is a list of content blocks. Thoughts of the model travel in
//! the text of the library's messages between tags, `<sf_thinking>` and
//! `<sf_r_thinking>`, and become blocks of their own on the wire.

use vstd::prelude::*;
use crate::error::{CompletionError, CompletionErrorView};
use crate::json::{
    child, items_view, lemma_array_view, lemma_object_view, members_view, opt_view, Json,
    JsonView, Number, NumberView,
};
use crate::message::{
    calls_view, responses_view, Message, MessageView, ToolCall, ToolCallView, ToolResponse,
    ToolResponseView,
};
use crate::providers::chat::parsed_view;
use crate::text::{spec_split_at_sub, split_at_sub, str_eq};
use crate::usage::{combine_options, spec_combine, TokenUsage};
use regex::Regex;

verus! {

/// The environment variable that holds the key, unless the configuration
/// names another.
pub const API_KEY_ENV_VAR: &'static str = "SEEDFRAME_ANTHROPIC_API_KEY";

/// The address of the endpoint, unless the configuration gives another.
pub const URL: &'static str = "https://api.anthropic.com/v1/messages ";

/// The reply length that a client starts with.
pub const DEFAULT_TOKENS: usize = 1023;

/// The pattern that cuts a text into tags and the text between them.
pub const TAGS: &'static str = "(</?sf_(r_)?thinking>)|([^<]+)";

/// One block of a message.
#[derive(Debug, PartialEq, Eq)]
pub enum ContentBlock {
    Text { text: String },
    Thinking { thinking: String, signature: String },
    RedactedThinking { data: String },
    ToolUse(ToolCall),
    ToolResult(ToolResponse),
}

/// A message on the wire: the blocks of the user or of the assistant.
#[allow(non_camel_case_types)]
#[derive(Debug, PartialEq, Eq)]
pub enum AnthropicMessage {
    user(Vec<ContentBlock>),
    assistant(Vec<ContentBlock>),
}

/// The model of a [`ContentBlock`].
pub enum ContentBlockView {
    Text { text: Seq<char> },
    Thinking { thinking: Seq<char>, signature: Seq<char> },
    RedactedThinking { data: Seq<char> },
    ToolUse(ToolCallView),
    ToolResult(ToolResponseView),
}

impl View for ContentBlock {
    type V = ContentBlockView;

    open spec fn view(&self) -> ContentBlockView {
        match self {
            ContentBlock::Text { text } => ContentBlockView::Text { text: text@ },
            ContentBlock::Thinking { thinking, signature } => ContentBlockView::Thinking {
                thinking: thinking@,
                signature: signature@,
            },
            ContentBlock::RedactedThinking { data } => ContentBlockView::RedactedThinking {
                data: data@,
            },
            ContentBlock::ToolUse(call) => ContentBlockView::ToolUse(call@),
            ContentBlock::ToolResult(response) => ContentBlockView::ToolResult(response@),
        }
    }
}

/// The models of a list of blocks.
pub open spec fn blocks_view(blocks: Seq<ContentBlock>) -> Seq<ContentBlockView> {
    Seq::new(blocks.len(), |i: int| blocks[i]@)
}

/// The matches of a pattern in a text, in order, each with what its groups
/// matched: the whole match first, then the groups by their number. A
/// pattern that is no valid regular expression has no matches to give.
pub uninterp spec fn regex_captures(pattern: Seq<char>, input: Seq<char>) -> Option<
    Seq<Seq<Option<Seq<char>>>>,
>;

/// The model of the matches of a pattern.
pub open spec fn captures_view(captures: Option<Vec<Vec<Option<String>>>>) -> Option<
    Seq<Seq<Option<Seq<char>>>>,
> {
    match captures {
        Some(all) => Some(
            Seq::new(
                all@.len(),
                |i: int|
                    Seq::new(
                        all@[i]@.len(),
                        |j: int|
                            match all@[i]@[j] {
                                Some(text) => Some(text@),
                                None => None,
                            },
                    ),
            ),
        ),
        None => None,
    }
}

/// The matches of a pattern in a text, from `Regex::new` and
/// `Regex::captures_iter`, each with the texts of its groups from
/// `Captures::iter`. They depend on the pattern and the text alone.
#[verifier::external_body]
fn captures(pattern: &str, input: &str) -> (r: Option<Vec<Vec<Option<String>>>>)
    ensures
        captures_view(r) == regex_captures(pattern@, input@),
{
    let re = Regex::new(pattern).ok()?;
    Some(
        re.captures_iter(input).map(
            |found| found.iter().map(|group| group.map(|m| m.as_str().to_string())).collect(),
        ).collect(),
    )
}

/// What the group `n` of a match matched.
pub open spec fn spec_group(found: Seq<Option<Seq<char>>>, n: int) -> Option<Seq<char>> {
    if 0 <= n < found.len() {
        found[n]
    } else {
        None
    }
}

/// Where the cutting of a text into blocks stands: the blocks that are
/// complete, the text that belongs to no block yet, and the thought that is
/// open, with whether it is a redacted one.
pub struct Cutting {
    pub blocks: Seq<ContentBlockView>,
    pub text: Seq<char>,
    pub thought: Option<(bool, Seq<char>)>,
}

/// The tag that opens a thought.
pub open spec fn spec_open_tag(redacted: bool) -> Seq<char> {
    if redacted {
        "<sf_r_thinking>"@
    } else {
        "<sf_thinking>"@
    }
}

/// The tag that closes a thought.
pub open spec fn spec_close_tag(redacted: bool) -> Seq<char> {
    if redacted {
        "</sf_r_thinking>"@
    } else {
        "</sf_thinking>"@
    }
}

/// The blocks with the text so far as one more block, if there is any.
pub open spec fn spec_flushed(blocks: Seq<ContentBlockView>, text: Seq<char>) -> Seq<
    ContentBlockView,
> {
    if text.len() > 0 {
        blocks.push(ContentBlockView::Text { text })
    } else {
        blocks
    }
}

/// The block of a thought: a redacted one keeps its text as it is; another
/// one is the thought before the first `/sf_sig>` and the signature behind
/// it, up to the next `/sf_sig>` if there is one. A thought without
/// `/sf_sig>` has no signature.
pub open spec fn spec_thought_block(redacted: bool, content: Seq<char>) -> ContentBlockView {
    if redacted {
        ContentBlockView::RedactedThinking { data: content }
    } else {
        match spec_split_at_sub(content, "/sf_sig>"@) {
            None => ContentBlockView::Thinking { thinking: content, signature: Seq::empty() },
            Some((thinking, rest)) => match spec_split_at_sub(rest, "/sf_sig>"@) {
                None => ContentBlockView::Thinking { thinking, signature: rest },
                Some((signature, _)) => ContentBlockView::Thinking { thinking, signature },
            },
        }
    }
}

/// The cutting after one more match. A tag opens a thought, closes the
/// open one if it is its closing tag, and is text in every other place;
/// text between tags joins the open thought, or the text outside.
pub open spec fn spec_cut(state: Cutting, found: Seq<Option<Seq<char>>>) -> Cutting {
    match spec_group(found, 1) {
        Some(tag) => match state.thought {
            Some((redacted, content)) => if tag == spec_close_tag(redacted) {
                Cutting {
                    blocks: state.blocks.push(spec_thought_block(redacted, content)),
                    text: state.text,
                    thought: None,
                }
            } else {
                Cutting {
                    blocks: state.blocks,
                    text: state.text,
                    thought: Some((redacted, content + tag)),
                }
            },
            None => if tag == spec_open_tag(false) {
                Cutting {
                    blocks: spec_flushed(state.blocks, state.text),
                    text: Seq::empty(),
                    thought: Some((false, Seq::empty())),
                }
            } else if tag == spec_open_tag(true) {
                Cutting {
                    blocks: spec_flushed(state.blocks, state.text),
                    text: Seq::empty(),
                    thought: Some((true, Seq::empty())),
                }
            } else {
                Cutting { blocks: state.blocks, text: state.text + tag, thought: None }
            },
        },
        None => match spec_group(found, 3) {
            Some(text) => match state.thought {
                Some((redacted, content)) => Cutting {
                    blocks: state.blocks,
                    text: state.text,
                    thought: Some((redacted, content + text)),
                },
                None => Cutting { blocks: state.blocks, text: state.text + text, thought: None },
            },
            None => state,
        },
    }
}

/// The cutting after all matches.
pub open spec fn spec_cut_all(found: Seq<Seq<Option<Seq<char>>>>) -> Cutting
    decreases found.len(),
{
    if found.len() == 0 {
        Cutting { blocks: Seq::empty(), text: Seq::empty(), thought: None }
    } else {
        spec_cut(spec_cut_all(found.drop_last()), found.last())
    }
}

/// The blocks that the matches give. A thought that is never closed is
/// text, with the tag that opened it.
pub open spec fn spec_blocks(found: Seq<Seq<Option<Seq<char>>>>) -> Seq<ContentBlockView> {
    let state = spec_cut_all(found);
    let text = match state.thought {
        Some((redacted, content)) => state.text + spec_open_tag(redacted) + content,
        None => state.text,
    };
    spec_flushed(state.blocks, text)
}

/// The blocks of a text: those that the matches of `TAGS` give.
pub open spec fn spec_parse_content_blocks(input: Seq<char>) -> Seq<ContentBlockView> {
    match regex_captures(TAGS@, input) {
        Some(found) => spec_blocks(found),
        None => spec_flushed(Seq::empty(), input),
    }
}

/// The block of a thought.
pub fn thought_block(redacted: bool, content: String) -> (r: ContentBlock)
    ensures
        r@ == spec_thought_block(redacted, content@),
{
    if redacted {
        return ContentBlock::RedactedThinking { data: content };
    }
    match split_at_sub(content.as_str(), "/sf_sig>") {
        None => ContentBlock::Thinking { thinking: content, signature: String::new() },
        Some((thinking, rest)) => match split_at_sub(rest.as_str(), "/sf_sig>") {
            None => ContentBlock::Thinking { thinking, signature: rest },
            Some((signature, _)) => ContentBlock::Thinking { thinking, signature },
        },
    }
}

/// The tag that opens a thought.
fn open_tag(redacted: bool) -> (r: &'static str)
    ensures
        r@ == spec_open_tag(redacted),
{
    if redacted {
        "<sf_r_thinking>"
    } else {
        "<sf_thinking>"
    }
}

/// The tag that closes a thought.
fn close_tag(redacted: bool) -> (r: &'static str)
    ensures
        r@ == spec_close_tag(redacted),
{
    if redacted {
        "</sf_r_thinking>"
    } else {
        "</sf_thinking>"
    }
}

/// Adds the text so far to the blocks as one more block, if there is any.
fn flush(blocks: &mut Vec<ContentBlock>, text: String)
    ensures
        blocks_view(final(blocks)@) == spec_flushed(blocks_view(old(blocks)@), text@),
{
    let ghost before = blocks_view(blocks@);
    if text.as_str().unicode_len() > 0 {
        let block = ContentBlock::Text { text };
        blocks.push(block);
        assert(blocks_view(blocks@) =~= before.push(block@));
    }
}

/// The model of what one group matched.
pub open spec fn group_view(found: Seq<Option<String>>) -> Seq<Option<Seq<char>>> {
    Seq::new(
        found.len(),
        |j: int|
            match found[j] {
                Some(text) => Some(text@),
                None => None,
            },
    )
}

/// What the group `n` of a match matched.
fn group(found: &Vec<Option<String>>, n: usize) -> (r: Option<&String>)
    ensures
        match r {
            Some(text) => spec_group(group_view(found@), n as int) == Some(text@),
            None => spec_group(group_view(found@), n as int) is None,
        },
{
    if n < found.len() {
        found[n].as_ref()
    } else {
        None
    }
}

/// The blocks that the matches give.
pub fn assemble_blocks(found: &Vec<Vec<Option<String>>>) -> (r: Vec<ContentBlock>)
    ensures
        blocks_view(r@) == spec_blocks(captures_view(Some(*found))->0),
{
    let ghost all = captures_view(Some(*found))->0;
    let mut blocks: Vec<ContentBlock> = Vec::new();
    let mut text = String::new();
    let mut thought: Option<(bool, String)> = None;
    let mut i: usize = 0;
    proof {
        assert(all.take(0) =~= Seq::empty());
        assert(blocks_view(blocks@) =~= Seq::<ContentBlockView>::empty());
    }
    while i < found.len()
        invariant
            i <= found@.len(),
            all == captures_view(Some(*found))->0,
            all.len() == found@.len(),
            spec_cut_all(all.take(i as int)) == (Cutting {
                blocks: blocks_view(blocks@),
                text: text@,
                thought: match thought {
                    Some((redacted, content)) => Some((redacted, content@)),
                    None => None,
                },
            }),
        decreases found@.len() - i,
    {
        proof {
            assert(all.take(i + 1).drop_last() =~= all.take(i as int));
            assert(all.take(i + 1).last() == all[i as int]);
            assert(all[i as int] =~= group_view(found@[i as int]@));
        }
        let ghost before = blocks_view(blocks@);
        match group(&found[i], 1) {
            Some(tag) => match thought {
                Some((redacted, content)) => {
                    if str_eq(tag.as_str(), close_tag(redacted)) {
                        let block = thought_block(redacted, content);
                        blocks.push(block);
                        assert(blocks_view(blocks@) =~= before.push(block@));
                        thought = None;
                    } else {
                        let mut content = content;
                        content.append(tag.as_str());
                        thought = Some((redacted, content));
                    }
                },
                None => {
                    if str_eq(tag.as_str(), open_tag(false)) {
                        flush(&mut blocks, text);
                        text = String::new();
                        thought = Some((false, String::new()));
                    } else if str_eq(tag.as_str(), open_tag(true)) {
                        flush(&mut blocks, text);
                        text = String::new();
                        thought = Some((true, String::new()));
                    } else {
                        text.append(tag.as_str());
                    }
                },
            },
            None => match group(&found[i], 3) {
                Some(piece) => match thought {
                    Some((redacted, content)) => {
                        let mut content = content;
                        content.append(piece.as_str());
                        thought = Some((redacted, content));
                    },
                    None => {
                        text.append(piece.as_str());
                    },
                },
                None => {},
            },
        }
        i += 1;
    }
    proof {
        assert(all.take(found@.len() as int) =~= all);
    }
    match thought {
        Some((redacted, content)) => {
            text.append(open_tag(redacted));
            text.append(content.as_str());
        },
        None => {},
    }
    flush(&mut blocks, text);
    blocks
}

/// The blocks of a text.
pub fn parse_content_blocks(input: &str) -> (r: Vec<ContentBlock>)
    ensures
        blocks_view(r@) == spec_parse_content_blocks(input@),
{
    match captures(TAGS, input) {
        Some(found) => assemble_blocks(&found),
        None => {
            let mut blocks: Vec<ContentBlock> = Vec::new();
            assert(blocks_view(blocks@) =~= Seq::<ContentBlockView>::empty());
            flush(&mut blocks, String::from_str(input));
            blocks
        },
    }
}

/// The blocks of a message's text: none for a message without text.
pub open spec fn spec_text_blocks(content: Seq<char>) -> Seq<ContentBlockView> {
    if content.len() > 0 {
        spec_parse_content_blocks(content)
    } else {
        Seq::empty()
    }
}

/// The blocks of a message on the wire. A system instruction travels
/// apart from the messages and leaves one empty text here; any other
/// message gives the blocks of its text and then one block for each tool
/// result or tool call that it carries.
pub open spec fn spec_wire_blocks(message: MessageView) -> Seq<ContentBlockView> {
    match message {
        MessageView::Preamble(_) => seq![ContentBlockView::Text { text: Seq::empty() }],
        MessageView::User { content, tool_responses } => spec_text_blocks(content) + match tool_responses {
            Some(responses) => Seq::new(
                responses.len(),
                |i: int| ContentBlockView::ToolResult(responses[i]),
            ),
            None => Seq::empty(),
        },
        MessageView::Assistant { content, tool_calls } => spec_text_blocks(content) + match tool_calls {
            Some(calls) => Seq::new(calls.len(), |i: int| ContentBlockView::ToolUse(calls[i])),
            None => Seq::empty(),
        },
    }
}

/// The blocks of a message's text.
fn text_blocks(content: &str) -> (r: Vec<ContentBlock>)
    ensures
        blocks_view(r@) == spec_text_blocks(content@),
{
    if content.unicode_len() > 0 {
        parse_content_blocks(content)
    } else {
        let blocks: Vec<ContentBlock> = Vec::new();
        assert(blocks_view(blocks@) =~= Seq::<ContentBlockView>::empty());
        blocks
    }
}

/// A message on the wire. Every message is sent as one of the user.
pub fn anthropic_message(value: Message) -> (r: AnthropicMessage)
    ensures
        r matches AnthropicMessage::user(blocks) && blocks_view(blocks@) == spec_wire_blocks(
            value@,
        ),
{
    match value {
        Message::Preamble(_) => {
            let mut out: Vec<ContentBlock> = Vec::new();
            out.push(ContentBlock::Text { text: String::new() });
            assert(blocks_view(out@) =~= seq![ContentBlockView::Text { text: Seq::empty() }]);
            AnthropicMessage::user(out)
        },
        Message::User { content, tool_responses } => {
            let mut out = text_blocks(content.as_str());
            let ghost first = blocks_view(out@);
            match tool_responses {
                Some(responses) => {
                    let ghost all = responses_view(responses@);
                    let mut rest = responses;
                    let ghost mut n: int = 0;
                    proof {
                        assert(first + Seq::new(0nat, |i: int| ContentBlockView::ToolResult(all[i]))
                            =~= first);
                    }
                    while rest.len() > 0
                        invariant
                            0 <= n,
                            n + rest@.len() == all.len(),
                            forall|j: int|
                                0 <= j < rest@.len() ==> (#[trigger] rest@[j])@ == all[n + j],
                            blocks_view(out@) == first + Seq::new(
                                n as nat,
                                |i: int| ContentBlockView::ToolResult(all[i]),
                            ),
                        decreases rest@.len(),
                    {
                        let ghost before = blocks_view(out@);
                        let response = rest.remove(0);
                        out.push(ContentBlock::ToolResult(response));
                        proof {
                            assert(blocks_view(out@) =~= before.push(
                                ContentBlockView::ToolResult(all[n]),
                            ));
                            assert(before.push(ContentBlockView::ToolResult(all[n])) =~= first
                                + Seq::new(
                                (n + 1) as nat,
                                |i: int| ContentBlockView::ToolResult(all[i]),
                            ));
                            n = n + 1;
                        }
                    }
                },
                None => {
                    assert(first + Seq::<ContentBlockView>::empty() =~= first);
                },
            }
            AnthropicMessage::user(out)
        },
        Message::Assistant { content, tool_calls } => {
            let mut out = text_blocks(content.as_str());
            let ghost first = blocks_view(out@);
            match tool_calls {
                Some(calls) => {
                    let ghost all = calls_view(calls@);
                    let mut rest = calls;
                    let ghost mut n: int = 0;
                    proof {
                        assert(first + Seq::new(0nat, |i: int| ContentBlockView::ToolUse(all[i]))
                            =~= first);
                    }
                    while rest.len() > 0
                        invariant
                            0 <= n,
                            n + rest@.len() == all.len(),
                            forall|j: int|
                                0 <= j < rest@.len() ==> (#[trigger] rest@[j])@ == all[n + j],
                            blocks_view(out@) == first + Seq::new(
                                n as nat,
                                |i: int| ContentBlockView::ToolUse(all[i]),
                            ),
                        decreases rest@.len(),
                    {
                        let ghost before = blocks_view(out@);
                        let call = rest.remove(0);
                        out.push(ContentBlock::ToolUse(call));
                        proof {
                            assert(blocks_view(out@) =~= before.push(
                                ContentBlockView::ToolUse(all[n]),
                            ));
                            assert(before.push(ContentBlockView::ToolUse(all[n])) =~= first
                                + Seq::new(
                                (n + 1) as nat,
                                |i: int| ContentBlockView::ToolUse(all[i]),
                            ));
                            n = n + 1;
                        }
                    }
                },
                None => {
                    assert(first + Seq::<ContentBlockView>::empty() =~= first);
                },
            }
            AnthropicMessage::user(out)
        },
    }
}

/// A block as it is written on the wire: an object with its type and its
/// fields.
pub open spec fn spec_wire_block(block: ContentBlockView) -> JsonView {
    match block {
        ContentBlockView::Text { text } => JsonView::Object(
            seq![("type"@, JsonView::Text("text"@)), ("text"@, JsonView::Text(text))],
        ),
        ContentBlockView::Thinking { thinking, signature } => JsonView::Object(
            seq![
                ("type"@, JsonView::Text("thinking"@)),
                ("thinking"@, JsonView::Text(thinking)),
                ("signature"@, JsonView::Text(signature)),
            ],
        ),
        ContentBlockView::RedactedThinking { data } => JsonView::Object(
            seq![("type"@, JsonView::Text("redacted_thinking"@)), ("data"@, JsonView::Text(data))],
        ),
        ContentBlockView::ToolUse(call) => JsonView::Object(
            seq![
                ("type"@, JsonView::Text("ToolUse"@)),
                ("id"@, JsonView::Text(call.id)),
                ("name"@, JsonView::Text(call.name)),
                ("arguments"@, JsonView::Text(call.arguments)),
            ],
        ),
        ContentBlockView::ToolResult(response) => JsonView::Object(
            seq![
                ("type"@, JsonView::Text("ToolResult"@)),
                ("id"@, JsonView::Text(response.id)),
                ("name"@, JsonView::Text(response.name)),
                ("content"@, response.content),
            ],
        ),
    }
}

/// A message as it is written on the wire: its role and its blocks.
pub open spec fn spec_wire_message(role: Seq<char>, blocks: Seq<ContentBlockView>) -> JsonView {
    JsonView::Object(
        seq![
            ("role"@, JsonView::Text(role)),
            ("content"@, JsonView::Array(Seq::new(blocks.len(), |i: int| spec_wire_block(blocks[i])))),
        ],
    )
}

/// A member that holds a text.
fn text_member(key: &str, text: &str) -> (r: (String, Json))
    ensures
        r.0@ == key@,
        r.1@ == JsonView::Text(text@),
{
    (String::from_str(key), Json::Text(String::from_str(text)))
}

/// A block as it is written on the wire.
pub fn wire_block(block: &ContentBlock) -> (r: Json)
    ensures
        r@ == spec_wire_block(block@),
{
    let mut members: Vec<(String, Json)> = Vec::new();
    match block {
        ContentBlock::Text { text } => {
            members.push(text_member("type", "text"));
            members.push(text_member("text", text.as_str()));
            proof {
                lemma_object_view(members);
                assert(members_view(members@) =~= seq![
                    ("type"@, JsonView::Text("text"@)),
                    ("text"@, JsonView::Text(text@)),
                ]);
            }
        },
        ContentBlock::Thinking { thinking, signature } => {
            members.push(text_member("type", "thinking"));
            members.push(text_member("thinking", thinking.as_str()));
            members.push(text_member("signature", signature.as_str()));
            proof {
                lemma_object_view(members);
                assert(members_view(members@) =~= seq![
                    ("type"@, JsonView::Text("thinking"@)),
                    ("thinking"@, JsonView::Text(thinking@)),
                    ("signature"@, JsonView::Text(signature@)),
                ]);
            }
        },
        ContentBlock::RedactedThinking { data } => {
            members.push(text_member("type", "redacted_thinking"));
            members.push(text_member("data", data.as_str()));
            proof {
                lemma_object_view(members);
                assert(members_view(members@) =~= seq![
                    ("type"@, JsonView::Text("redacted_thinking"@)),
                    ("data"@, JsonView::Text(data@)),
                ]);
            }
        },
        ContentBlock::ToolUse(call) => {
            members.push(text_member("type", "ToolUse"));
            members.push(text_member("id", call.id.as_str()));
            members.push(text_member("name", call.name.as_str()));
            members.push(text_member("arguments", call.arguments.as_str()));
            proof {
                lemma_object_view(members);
                assert(members_view(members@) =~= seq![
                    ("type"@, JsonView::Text("ToolUse"@)),
                    ("id"@, JsonView::Text(call@.id)),
                    ("name"@, JsonView::Text(call@.name)),
                    ("arguments"@, JsonView::Text(call@.arguments)),
                ]);
            }
        },
        ContentBlock::ToolResult(response) => {
            members.push(text_member("type", "ToolResult"));
            members.push(text_member("id", response.id.as_str()));
            members.push(text_member("name", response.name.as_str()));
            members.push((String::from_str("content"), response.content.clone()));
            proof {
                lemma_object_view(members);
                assert(members_view(members@) =~= seq![
                    ("type"@, JsonView::Text("ToolResult"@)),
                    ("id"@, JsonView::Text(response@.id)),
                    ("name"@, JsonView::Text(response@.name)),
                    ("content"@, response@.content),
                ]);
            }
        },
    }
    Json::Object(members)
}

/// A message as it is written on the wire.
pub fn wire_message(message: &AnthropicMessage) -> (r: Json)
    ensures
        r@ == match message {
            AnthropicMessage::user(blocks) => spec_wire_message("user"@, blocks_view(blocks@)),
            AnthropicMessage::assistant(blocks) => spec_wire_message(
                "assistant"@,
                blocks_view(blocks@),
            ),
        },
{
    let (role, blocks) = match message {
        AnthropicMessage::user(blocks) => ("user", blocks),
        AnthropicMessage::assistant(blocks) => ("assistant", blocks),
    };
    let mut written: Vec<Json> = Vec::new();
    let mut i: usize = 0;
    while i < blocks.len()
        invariant
            i <= blocks@.len(),
            written@.len() == i,
            forall|j: int| 0 <= j < i ==> (#[trigger] written@[j])@ == spec_wire_block(blocks@[j]@),
        decreases blocks@.len() - i,
    {
        written.push(wire_block(&blocks[i]));
        i += 1;
    }
    proof {
        lemma_array_view(written);
        assert(items_view(written@) =~= Seq::new(
            blocks_view(blocks@).len(),
            |i: int| spec_wire_block(blocks_view(blocks@)[i]),
        ));
    }
    let mut members: Vec<(String, Json)> = Vec::new();
    members.push(text_member("role", role));
    members.push((String::from_str("content"), Json::Array(written)));
    proof {
        lemma_object_view(members);
        assert(members_view(members@) =~= seq![
            ("role"@, JsonView::Text(role@)),
            ("content"@, Json::Array(written)@),
        ]);
    }
    Json::Object(members)
}

/// The system instruction that a history starts with.
pub open spec fn spec_leading_system(history: Seq<MessageView>) -> Option<Seq<char>> {
    if history.len() > 0 {
        match history[0] {
            MessageView::Preamble(text) => Some(text),
            _ => None,
        }
    } else {
        None
    }
}

/// The system instruction that a history starts with. It travels apart
/// from the messages.
pub fn leading_system(history: &Vec<Message>) -> (r: Option<String>)
    ensures
        crate::embeddings::text_view(r) == spec_leading_system(crate::message::history_view(
            history@,
        )),
{
    if history.len() == 0 {
        return None;
    }
    match &history[0] {
        Message::Preamble(text) => Some(text.clone()),
        _ => None,
    }
}

/// Where the reading of a reply's blocks stands: the text so far and the
/// tool calls so far.
pub struct Gathered {
    pub text: Seq<char>,
    pub calls: Seq<ToolCallView>,
}

/// The reading after one more block of a reply, or `None` for a block that
/// lacks what its type needs. A text is taken as it is, a thought between
/// its tags with its signature, a redacted thought between its tags, and a
/// tool call with its `id`, its `name` and its `input`; a block of another
/// type is passed over.
pub open spec fn spec_gather(so_far: Gathered, block: JsonView) -> Option<Gathered> {
    match block.at_key("type"@).as_text() {
        None => Some(so_far),
        Some(kind) => if kind == "text"@ {
            match block.at_key("text"@).as_text() {
                Some(text) => Some(Gathered { text: so_far.text + text, calls: so_far.calls }),
                None => None,
            }
        } else if kind == "thinking"@ {
            match (block.at_key("thinking"@).as_text(), block.at_key("signature"@).as_text()) {
                (Some(thought), Some(signature)) => Some(
                    Gathered {
                        text: so_far.text + "<sf_thinking>"@ + thought + "</sf_sig>"@ + signature
                            + "</sf_thinking>"@,
                        calls: so_far.calls,
                    },
                ),
                _ => None,
            }
        } else if kind == "tool_use"@ {
            match (
                block.at_key("id"@).as_text(),
                block.at_key("name"@).as_text(),
                block.at_key("input"@).as_text(),
            ) {
                (Some(id), Some(name), Some(arguments)) => Some(
                    Gathered {
                        text: so_far.text,
                        calls: so_far.calls.push(ToolCallView { id, name, arguments }),
                    },
                ),
                _ => None,
            }
        } else if kind == "redacted_thinking"@ {
            match block.at_key("data"@).as_text() {
                Some(data) => Some(
                    Gathered {
                        text: so_far.text + "<sf_r_thinking>"@ + data + "</sf_r_thinking>"@,
                        calls: so_far.calls,
                    },
                ),
                None => None,
            }
        } else {
            Some(so_far)
        },
    }
}

/// The reading after all blocks, or `None` if one of them lacks what its
/// type needs.
pub open spec fn spec_gather_all(blocks: Seq<JsonView>) -> Option<Gathered>
    decreases blocks.len(),
{
    if blocks.len() == 0 {
        Some(Gathered { text: Seq::empty(), calls: Seq::empty() })
    } else {
        match spec_gather_all(blocks.drop_last()) {
            Some(so_far) => spec_gather(so_far, blocks.last()),
            None => None,
        }
    }
}

/// The token counts of a reply: what went in and what came out, and their
/// sum.
pub open spec fn spec_anthropic_usage(body: JsonView) -> Option<TokenUsage> {
    let usage = body.at_key("usage"@);
    match (usage.at_key("input_tokens"@).as_u64(), usage.at_key("output_tokens"@).as_u64()) {
        (Some(input), Some(output)) => Some(
            TokenUsage {
                prompt_tokens: Some(input),
                completion_tokens: Some(output),
                total_tokens: spec_combine(Some(input), Some(output)),
            },
        ),
        _ => None,
    }
}

/// What a reply means: the assistant's message, made of the reply's
/// blocks, and the token counts. A reply whose `content` is no list, or
/// holds a block that lacks what its type needs, is refused, and so is one
/// without token counts.
pub open spec fn spec_parse_anthropic_reply(body: JsonView) -> Result<
    (MessageView, TokenUsage),
    CompletionErrorView,
> {
    match body.at_key("content"@) {
        JsonView::Array(blocks) => match spec_gather_all(blocks) {
            None => Err(CompletionErrorView::ParseError("Invalid response body"@)),
            Some(gathered) => match spec_anthropic_usage(body) {
                None => Err(
                    CompletionErrorView::ParseError("Failed to parse usage data from response"@),
                ),
                Some(usage) => Ok(
                    (
                        MessageView::Assistant {
                            content: gathered.text,
                            tool_calls: if gathered.calls.len() > 0 {
                                Some(gathered.calls)
                            } else {
                                None
                            },
                        },
                        usage,
                    ),
                ),
            },
        },
        _ => Err(CompletionErrorView::ParseError("Invalid response body"@)),
    }
}

/// The text of the member `key` of a block.
fn text_at<'a>(block: &'a Json, key: &str) -> (r: Option<&'a str>)
    ensures
        match r {
            Some(text) => block@.at_key(key@).as_text() == Some(text@),
            None => block@.at_key(key@).as_text() is None,
        },
{
    match child(Some(block), key) {
        Some(v) => v.as_str(),
        None => None,
    }
}

/// Takes one more block of a reply into the text and the tool calls so
/// far. Returns whether the block has what its type needs; if not, nothing
/// is taken.
fn gather(text: &mut String, calls: &mut Vec<ToolCall>, block: &Json) -> (r: bool)
    ensures
        match spec_gather(
            Gathered { text: old(text)@, calls: calls_view(old(calls)@) },
            block@,
        ) {
            Some(gathered) => r && gathered.text == final(text)@ && gathered.calls == calls_view(
                final(calls)@,
            ),
            None => !r && final(text)@ == old(text)@ && calls_view(final(calls)@) == calls_view(
                old(calls)@,
            ),
        },
{
    let kind = match text_at(block, "type") {
        Some(kind) => kind,
        None => {
            return true;
        },
    };
    if str_eq(kind, "text") {
        match text_at(block, "text") {
            Some(piece) => {
                text.append(piece);
                true
            },
            None => false,
        }
    } else if str_eq(kind, "thinking") {
        match (text_at(block, "thinking"), text_at(block, "signature")) {
            (Some(thought), Some(signature)) => {
                text.append("<sf_thinking>");
                text.append(thought);
                text.append("</sf_sig>");
                text.append(signature);
                text.append("</sf_thinking>");
                true
            },
            _ => false,
        }
    } else if str_eq(kind, "tool_use") {
        match (text_at(block, "id"), text_at(block, "name"), text_at(block, "input")) {
            (Some(id), Some(name), Some(arguments)) => {
                let ghost before = calls_view(calls@);
                let call = ToolCall {
                    id: String::from_str(id),
                    name: String::from_str(name),
                    arguments: String::from_str(arguments),
                };
                calls.push(call);
                assert(calls_view(calls@) =~= before.push(call@));
                true
            },
            _ => false,
        }
    } else if str_eq(kind, "redacted_thinking") {
        match text_at(block, "data") {
            Some(data) => {
                text.append("<sf_r_thinking>");
                text.append(data);
                text.append("</sf_r_thinking>");
                true
            },
            None => false,
        }
    } else {
        true
    }
}

/// The token counts of a reply.
pub fn anthropic_usage(body: &Json) -> (r: Option<TokenUsage>)
    ensures
        r == spec_anthropic_usage(body@),
{
    let usage = child(Some(body), "usage");
    let input = match child(usage, "input_tokens") {
        Some(v) => v.as_u64(),
        None => None,
    };
    let output = match child(usage, "output_tokens") {
        Some(v) => v.as_u64(),
        None => None,
    };
    match (input, output) {
        (Some(input), Some(output)) => Some(
            TokenUsage {
                prompt_tokens: Some(input),
                completion_tokens: Some(output),
                total_tokens: combine_options(Some(input), Some(output)),
            },
        ),
        _ => None,
    }
}

/// Reads the body of a successful reply.
pub fn parse_anthropic_reply(body: &Json) -> (r: Result<(Message, TokenUsage), CompletionError>)
    ensures
        parsed_view(r) == spec_parse_anthropic_reply(body@),
{
    let blocks = match child(Some(body), "content") {
        Some(v) => match v.as_array() {
            Some(blocks) => blocks,
            None => {
                return Err(
                    CompletionError::ParseError(String::from_str("Invalid response body")),
                );
            },
        },
        None => {
            return Err(CompletionError::ParseError(String::from_str("Invalid response body")));
        },
    };
    let ghost all = items_view(blocks@);
    let mut text = String::new();
    let mut calls: Vec<ToolCall> = Vec::new();
    let mut i: usize = 0;
    proof {
        assert(all.take(0) =~= Seq::<JsonView>::empty());
        assert(calls_view(calls@) =~= Seq::<ToolCallView>::empty());
    }
    while i < blocks.len()
        invariant
            i <= blocks@.len(),
            all == items_view(blocks@),
            body@.at_key("content"@) == JsonView::Array(all),
            spec_gather_all(all.take(i as int)) == Some(
                Gathered { text: text@, calls: calls_view(calls@) },
            ),
        decreases blocks@.len() - i,
    {
        proof {
            assert(all.take(i + 1).drop_last() =~= all.take(i as int));
            assert(all.take(i + 1).last() == blocks@[i as int]@);
        }
        if !gather(&mut text, &mut calls, &blocks[i]) {
            proof {
                lemma_gather_fails(all, i + 1);
            }
            return Err(CompletionError::ParseError(String::from_str("Invalid response body")));
        }
        i += 1;
    }
    proof {
        assert(all.take(blocks@.len() as int) =~= all);
    }
    match anthropic_usage(body) {
        None => Err(
            CompletionError::ParseError(String::from_str("Failed to parse usage data from response")),
        ),
        Some(usage) => {
            let tool_calls = if calls.len() > 0 {
                Some(calls)
            } else {
                None
            };
            Ok((Message::Assistant { content: text, tool_calls }, usage))
        },
    }
}

/// A reading that fails on some of the blocks fails on all of them.
proof fn lemma_gather_fails(blocks: Seq<JsonView>, n: int)
    requires
        0 <= n <= blocks.len(),
        spec_gather_all(blocks.take(n)) is None,
    ensures
        spec_gather_all(blocks) is None,
    decreases blocks.len() - n,
{
    if n < blocks.len() {
        assert(blocks.take(n + 1).drop_last() =~= blocks.take(n));
        lemma_gather_fails(blocks, n + 1);
    } else {
        assert(blocks.take(n) =~= blocks);
    }
}

} // verus!
