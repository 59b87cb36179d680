use seedframe::error::CompletionError;
use seedframe::json::{Json, Number};
use seedframe::message::{Message, ToolCall, ToolResponse};
use seedframe::providers::anthropic::{
    anthropic_message, anthropic_usage, assemble_blocks, leading_system, parse_anthropic_reply,
    parse_content_blocks, thought_block, wire_block, wire_message, AnthropicMessage, ContentBlock,
};
use seedframe::usage::TokenUsage;

fn text_block(text: &str) -> ContentBlock {
    ContentBlock::Text { text: text.to_string() }
}

fn thinking(thinking: &str, signature: &str) -> ContentBlock {
    ContentBlock::Thinking { thinking: thinking.to_string(), signature: signature.to_string() }
}

fn redacted(data: &str) -> ContentBlock {
    ContentBlock::RedactedThinking { data: data.to_string() }
}

fn text(s: &str) -> Json {
    Json::Text(s.to_string())
}

fn object(members: Vec<(&str, Json)>) -> Json {
    Json::Object(members.into_iter().map(|(k, v)| (k.to_string(), v)).collect())
}

fn number(n: u64) -> Json {
    Json::Number(Number::PosInt(n))
}

#[test]
fn test_parse_content_blocks() {
    let input = "hello world <sf_thinking> how are you</sf_sig>uuulala</sf_thinking> blabla<sf_r_thinking>ulalala</sf_r_thinking>";
    let result = parse_content_blocks(input);

    let expected = vec![
        ContentBlock::Text { text: "hello world ".to_string() },
        ContentBlock::Thinking { thinking: " how are you".to_string(), signature: "uuulala".to_string() },
        ContentBlock::Text { text: " blabla".to_string() },
        ContentBlock::RedactedThinking { data: "ulalala".to_string() },
    ];

    assert_eq!(result, expected);
}

#[test]
fn test_no_tags() {
    let input = "just some regular text";
    let result = parse_content_blocks(input);

    let expected = vec![ContentBlock::Text { text: "just some regular text".to_string() }];

    assert_eq!(result, expected);
}

#[test]
fn test_multiple_tags() {
    let input = "start<sf_thinking>think1</sf_sig>sig</sf_thinking>middle<sf_r_thinking>think2</sf_r_thinking>end";
    let result = parse_content_blocks(input);

    let expected = vec![
        ContentBlock::Text { text: "start".to_string() },
        ContentBlock::Thinking { thinking: "think1".to_string(), signature: "sig".to_string() },
        ContentBlock::Text { text: "middle".to_string() },
        ContentBlock::RedactedThinking { data: "think2".to_string() },
        ContentBlock::Text { text: "end".to_string() },
    ];

    assert_eq!(result, expected);
}

#[test]
fn test_unclosed_tag() {
    let input = "text<sf_thinking>unclosed";
    let result = parse_content_blocks(input);

    let expected = vec![
        ContentBlock::Text { text: "text".to_string() },
        ContentBlock::Text { text: "<sf_thinking>unclosed".to_string() },
    ];

    assert_eq!(result, expected);
}

#[test]
fn test_proper_message_conversion() {
    let st = "start<sf_thinking>think1</sf_sig>make</sf_thinking>middle<sf_r_thinking>think2</sf_r_thinking>end";
    let crate_messages = Message::User { content: String::from(st), tool_responses: None };
    let converted = anthropic_message(crate_messages);
    assert_eq!(
        converted,
        AnthropicMessage::user(vec![
            ContentBlock::Text { text: "start".to_string() },
            ContentBlock::Thinking { thinking: "think1".to_string(), signature: "make".to_string() },
            ContentBlock::Text { text: "middle".to_string() },
            ContentBlock::RedactedThinking { data: "think2".to_string() },
            ContentBlock::Text { text: "end".to_string() },
        ])
    );
}

#[test]
fn tags_in_the_wrong_place_are_text() {
    assert_eq!(parse_content_blocks("a</sf_thinking>b"), vec![text_block("a</sf_thinking>b")]);
    assert_eq!(
        parse_content_blocks("<sf_thinking>x<sf_thinking>y</sf_r_thinking>z</sf_thinking>"),
        vec![thinking("x<sf_thinking>y</sf_r_thinking>z", "")]
    );
    assert_eq!(
        parse_content_blocks("<sf_r_thinking>a</sf_thinking>b"),
        vec![text_block("<sf_r_thinking>a</sf_thinking>b")]
    );
    assert_eq!(parse_content_blocks(""), Vec::<ContentBlock>::new());
    assert_eq!(parse_content_blocks("<"), Vec::<ContentBlock>::new());
    assert_eq!(parse_content_blocks("a<b"), vec![text_block("ab")]);
}

#[test]
fn a_thought_is_cut_at_its_signature() {
    assert_eq!(thought_block(false, "t/sf_sig>s".to_string()), thinking("t", "s"));
    assert_eq!(thought_block(false, "t/sf_sig>s/sf_sig>more".to_string()), thinking("t", "s"));
    assert_eq!(thought_block(false, "/sf_sig>".to_string()), thinking("", ""));
    assert_eq!(thought_block(false, "no signature".to_string()), thinking("no signature", ""));
    assert_eq!(thought_block(true, "t/sf_sig>s".to_string()), redacted("t/sf_sig>s"));
}

#[test]
fn blocks_follow_the_groups_of_the_matches() {
    let tag = |t: &str| vec![Some(t.to_string()), Some(t.to_string()), None, None];
    let piece = |t: &str| vec![Some(t.to_string()), None, None, Some(t.to_string())];
    assert_eq!(
        assemble_blocks(&vec![piece("a"), tag("<sf_r_thinking>"), piece("b"), tag("</sf_r_thinking>"), vec![], piece("c")]),
        vec![text_block("a"), redacted("b"), text_block("c")]
    );
    assert_eq!(assemble_blocks(&vec![]), Vec::<ContentBlock>::new());
}

#[test]
fn every_message_is_sent_as_one_of_the_user() {
    assert_eq!(anthropic_message(Message::Preamble("p".to_string())), AnthropicMessage::user(vec![text_block("")]));
    let response = ToolResponse { id: "1".to_string(), name: "add".to_string(), content: number(15) };
    assert_eq!(
        anthropic_message(Message::User { content: String::new(), tool_responses: Some(vec![response.clone()]) }),
        AnthropicMessage::user(vec![ContentBlock::ToolResult(response)])
    );
    let calls = vec![
        ToolCall { id: "1".to_string(), name: "add".to_string(), arguments: "{}".to_string() },
        ToolCall { id: "2".to_string(), name: "sub".to_string(), arguments: "{}".to_string() },
    ];
    assert_eq!(
        anthropic_message(Message::Assistant { content: "ok".to_string(), tool_calls: Some(calls.clone()) }),
        AnthropicMessage::user(vec![
            text_block("ok"),
            ContentBlock::ToolUse(calls[0].clone()),
            ContentBlock::ToolUse(calls[1].clone()),
        ])
    );
}

fn reply(blocks: Vec<Json>) -> Json {
    object(vec![
        ("content", Json::Array(blocks)),
        ("usage", object(vec![("input_tokens", number(3)), ("output_tokens", number(4))])),
    ])
}

#[test]
fn a_reply_is_read_block_by_block() {
    let body = reply(vec![
        object(vec![("type", text("thinking")), ("thinking", text("hm")), ("signature", text("sig"))]),
        object(vec![("type", text("text")), ("text", text("fifteen"))]),
        object(vec![("type", text("image"))]),
        object(vec![("no type", Json::Null)]),
        object(vec![("type", text("redacted_thinking")), ("data", text("xx"))]),
        object(vec![("type", text("tool_use")), ("id", text("1")), ("name", text("add")), ("input", text("{\"a\":7}"))]),
    ]);
    assert_eq!(
        parse_anthropic_reply(&body),
        Ok((
            Message::Assistant {
                content: "<sf_thinking>hm</sf_sig>sig</sf_thinking>fifteen<sf_r_thinking>xx</sf_r_thinking>".to_string(),
                tool_calls: Some(vec![ToolCall { id: "1".to_string(), name: "add".to_string(), arguments: "{\"a\":7}".to_string() }]),
            },
            TokenUsage { prompt_tokens: Some(3), completion_tokens: Some(4), total_tokens: Some(7) }
        ))
    );
    assert_eq!(
        parse_anthropic_reply(&reply(vec![])),
        Ok((
            Message::Assistant { content: String::new(), tool_calls: None },
            TokenUsage { prompt_tokens: Some(3), completion_tokens: Some(4), total_tokens: Some(7) }
        ))
    );
}

#[test]
fn a_thought_that_was_read_is_cut_into_the_same_block() {
    let body = reply(vec![
        object(vec![("type", text("text")), ("text", text("a"))]),
        object(vec![("type", text("thinking")), ("thinking", text("hm")), ("signature", text("sig"))]),
    ]);
    let (message, _) = parse_anthropic_reply(&body).unwrap();
    match message {
        Message::Assistant { content, .. } => {
            assert_eq!(parse_content_blocks(&content), vec![text_block("a"), thinking("hm", "sig")])
        }
        other => panic!("{other:?}"),
    }
}

#[test]
fn a_malformed_reply_is_refused() {
    let invalid = Err(CompletionError::ParseError("Invalid response body".to_string()));
    assert_eq!(parse_anthropic_reply(&Json::Null), invalid);
    assert_eq!(parse_anthropic_reply(&object(vec![("content", text("x"))])), invalid);
    assert_eq!(parse_anthropic_reply(&reply(vec![object(vec![("type", text("text"))])])), invalid);
    assert_eq!(
        parse_anthropic_reply(&reply(vec![object(vec![("type", text("tool_use")), ("id", text("1")), ("name", text("f")), ("input", object(vec![]))])])),
        invalid
    );
    assert_eq!(
        parse_anthropic_reply(&object(vec![("content", Json::Array(vec![]))])),
        Err(CompletionError::ParseError("Failed to parse usage data from response".to_string()))
    );
}

#[test]
fn the_total_is_the_sum_of_what_went_in_and_what_came_out() {
    let usage = |i: u64, o: u64| {
        anthropic_usage(&object(vec![("usage", object(vec![("input_tokens", number(i)), ("output_tokens", number(o))]))]))
    };
    assert_eq!(usage(1, 2).unwrap().total_tokens, Some(3));
    assert_eq!(usage(u64::MAX, 1).unwrap().total_tokens, None);
    assert_eq!(usage(u64::MAX, 0).unwrap().total_tokens, Some(u64::MAX));
    assert_eq!(anthropic_usage(&Json::Null), None);
}

#[test]
fn blocks_are_written_with_their_type() {
    assert_eq!(wire_block(&text_block("hi")).render(), r#"{"text":"hi","type":"text"}"#);
    assert_eq!(
        wire_block(&thinking("hm", "sig")).render(),
        r#"{"signature":"sig","thinking":"hm","type":"thinking"}"#
    );
    assert_eq!(wire_block(&redacted("xx")).render(), r#"{"data":"xx","type":"redacted_thinking"}"#);
    let call = ToolCall { id: "1".to_string(), name: "add".to_string(), arguments: "{}".to_string() };
    assert_eq!(
        wire_block(&ContentBlock::ToolUse(call)).render(),
        r#"{"arguments":"{}","id":"1","name":"add","type":"ToolUse"}"#
    );
    let response = ToolResponse { id: "1".to_string(), name: "add".to_string(), content: number(15) };
    assert_eq!(
        wire_block(&ContentBlock::ToolResult(response)),
        object(vec![("type", text("ToolResult")), ("id", text("1")), ("name", text("add")), ("content", number(15))])
    );
}

#[test]
fn messages_are_written_with_their_role() {
    assert_eq!(
        wire_message(&AnthropicMessage::user(vec![text_block("a"), redacted("b")])).render(),
        r#"{"content":[{"text":"a","type":"text"},{"data":"b","type":"redacted_thinking"}],"role":"user"}"#
    );
    assert_eq!(
        wire_message(&AnthropicMessage::assistant(vec![])),
        object(vec![("role", text("assistant")), ("content", Json::Array(vec![]))])
    );
}

#[test]
fn the_system_instruction_leads_the_history() {
    let user = Message::User { content: "q".to_string(), tool_responses: None };
    assert_eq!(leading_system(&vec![Message::Preamble("p".to_string()), user.clone()]), Some("p".to_string()));
    assert_eq!(leading_system(&vec![user, Message::Preamble("p".to_string())]), None);
    assert_eq!(leading_system(&vec![]), None);
}
