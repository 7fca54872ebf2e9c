use anthropic_sdk::content::{ContentBlock, ImageSource, Role};
use anthropic_sdk::error::{DecodeError, MessageError};
use anthropic_sdk::json::{Json, Number};
use anthropic_sdk::message::{Message, MessageContent};
use anthropic_sdk::params::{
    CreateMessageParams, Metadata, RequiredMessageParams, Tool, ToolChoice,
};
use anthropic_sdk::response::{
    CountMessageTokensParams, CountMessageTokensResponse, CreateMessageResponse, StopReason, Usage,
};

fn s(x: &str) -> String {
    x.to_string()
}

fn obj(members: Vec<(&str, Json)>) -> Json {
    Json::Object(members.into_iter().map(|(k, v)| (s(k), v)).collect())
}

fn text(x: &str) -> Json {
    Json::String(s(x))
}

fn to_value(j: Json) -> serde_json::Value {
    match j {
        Json::Null => serde_json::Value::Null,
        Json::Bool(b) => serde_json::Value::Bool(b),
        Json::Number(Number::PosInt(n)) => serde_json::Value::from(n),
        Json::Number(Number::NegInt(n)) => serde_json::Value::from(n),
        Json::Number(Number::Single(b)) => serde_json::Value::from(f32::from_bits(b) as f64),
        Json::Number(Number::Double(b)) => serde_json::Value::from(f64::from_bits(b)),
        Json::String(x) => serde_json::Value::String(x),
        Json::Array(items) => serde_json::Value::Array(items.into_iter().map(to_value).collect()),
        Json::Object(fs) => {
            serde_json::Value::Object(fs.into_iter().map(|(k, v)| (k, to_value(v))).collect())
        }
    }
}

fn nested_input() -> Json {
    obj(vec![
        ("city", text("Paris")),
        ("days", Json::Number(Number::PosInt(3))),
        (
            "opts",
            Json::Array(vec![Json::Null, Json::Bool(true), obj(vec![("deep", Json::Number(Number::NegInt(-7)))])]),
        ),
    ])
}

fn all_blocks() -> Vec<ContentBlock> {
    vec![
        ContentBlock::text(s("hi")),
        ContentBlock::image(s("base64"), s("image/png"), s("aGVsbG8=")),
        ContentBlock::ToolUse { id: s("tu_1"), name: s("weather"), input: nested_input() },
        ContentBlock::ToolResult { tool_use_id: s("tu_1"), content: s("sunny") },
    ]
}

#[test]
fn text_message_round_trips() {
    let m = Message::new_text(Role::User, s("hello"));
    let back = Message::from_json(m.to_json()).unwrap();
    assert_eq!(back.role, Role::User);
    assert!(matches!(back.content, MessageContent::Text { ref content } if content == "hello"));
}

#[test]
fn empty_text_and_empty_blocks_stay_apart() {
    let t = Message::from_json(Message::new_text(Role::User, s("")).to_json()).unwrap();
    assert!(matches!(t.content, MessageContent::Text { ref content } if content.is_empty()));
    let b = Message::from_json(Message::new_blocks(Role::Assistant, vec![]).to_json()).unwrap();
    assert_eq!(b.role, Role::Assistant);
    assert!(matches!(b.content, MessageContent::Blocks { ref content } if content.is_empty()));
}

#[test]
fn blocks_message_round_trips_every_variant() {
    let m = Message::new_blocks(Role::Assistant, all_blocks());
    let wire = to_value(Message::new_blocks(Role::Assistant, all_blocks()).to_json());
    let back = Message::from_json(m.to_json()).unwrap();
    assert_eq!(back.role, Role::Assistant);
    let blocks = match back.content {
        MessageContent::Blocks { content } => content,
        _ => panic!("expected blocks"),
    };
    assert_eq!(blocks.len(), 4);
    assert!(matches!(&blocks[0], ContentBlock::Text { text } if text == "hi"));
    match &blocks[1] {
        ContentBlock::Image { source } => assert_eq!(
            source,
            &ImageSource { type_: s("base64"), media_type: s("image/png"), data: s("aGVsbG8=") }
        ),
        _ => panic!("expected an image"),
    }
    match &blocks[2] {
        ContentBlock::ToolUse { id, name, input } => {
            assert_eq!(id, "tu_1");
            assert_eq!(name, "weather");
            assert_eq!(format!("{:?}", input), format!("{:?}", nested_input()));
        }
        _ => panic!("expected a tool use"),
    }
    assert!(matches!(&blocks[3], ContentBlock::ToolResult { tool_use_id, content }
        if tool_use_id == "tu_1" && content == "sunny"));
    let expected: serde_json::Value = serde_json::from_str(
        r#"{"role":"assistant","content":[
            {"type":"text","text":"hi"},
            {"type":"image","source":{"type":"base64","media_type":"image/png","data":"aGVsbG8="}},
            {"type":"tool_use","id":"tu_1","name":"weather",
             "input":{"city":"Paris","days":3,"opts":[null,true,{"deep":-7}]}},
            {"type":"tool_result","tool_use_id":"tu_1","content":"sunny"}]}"#,
    )
    .unwrap();
    assert_eq!(wire, expected);
}

#[test]
fn string_content_decodes_as_text() {
    let c = MessageContent::from_json(text("hello")).unwrap();
    assert!(matches!(c, MessageContent::Text { ref content } if content == "hello"));
}

#[test]
fn array_content_decodes_as_blocks() {
    let j = Json::Array(vec![obj(vec![("type", text("text")), ("text", text("hi"))])]);
    let c = MessageContent::from_json(j).unwrap();
    match c {
        MessageContent::Blocks { content } => {
            assert_eq!(content.len(), 1);
            assert!(matches!(&content[0], ContentBlock::Text { text } if text == "hi"));
        }
        _ => panic!("expected blocks"),
    }
}

#[test]
fn number_content_is_refused() {
    let r = MessageContent::from_json(Json::Number(Number::PosInt(42)));
    assert_eq!(r.unwrap_err(), DecodeError::InvalidType(s("content")));
}

#[test]
fn object_and_null_content_are_refused() {
    assert!(MessageContent::from_json(obj(vec![])).is_err());
    assert!(MessageContent::from_json(Json::Null).is_err());
}

#[test]
fn tool_result_tag_dispatches() {
    let j = obj(vec![("type", text("tool_result")), ("tool_use_id", text("abc")), ("content", text("ok"))]);
    let b = ContentBlock::from_json(j).unwrap();
    assert!(matches!(b, ContentBlock::ToolResult { ref tool_use_id, ref content }
        if tool_use_id == "abc" && content == "ok"));
}

#[test]
fn unknown_tag_is_named() {
    let r = ContentBlock::from_json(obj(vec![("type", text("bogus"))]));
    assert_eq!(r.unwrap_err(), DecodeError::UnknownTag(s("bogus")));
}

#[test]
fn missing_and_mistyped_members_are_named() {
    let r = ContentBlock::from_json(obj(vec![("type", text("text"))]));
    assert_eq!(r.unwrap_err(), DecodeError::MissingField(s("text")));
    let r = ContentBlock::from_json(obj(vec![("type", text("text")), ("text", Json::Bool(false))]));
    assert_eq!(r.unwrap_err(), DecodeError::InvalidType(s("text")));
    let r = ContentBlock::from_json(obj(vec![("text", text("x"))]));
    assert_eq!(r.unwrap_err(), DecodeError::MissingField(s("type")));
    assert_eq!(ContentBlock::from_json(text("x")).unwrap_err(), DecodeError::NotAnObject);
    let r = ContentBlock::from_json(obj(vec![("type", text("tool_use")), ("id", text("a")), ("name", text("n"))]));
    assert_eq!(r.unwrap_err(), DecodeError::MissingField(s("input")));
}

#[test]
fn first_bad_block_is_reported() {
    let j = Json::Array(vec![
        obj(vec![("type", text("text")), ("text", text("ok"))]),
        obj(vec![("type", text("first"))]),
        obj(vec![("type", text("second"))]),
    ]);
    assert_eq!(MessageContent::from_json(j).unwrap_err(), DecodeError::UnknownTag(s("first")));
}

#[test]
fn unknown_role_is_refused() {
    let j = obj(vec![("role", text("system")), ("content", text("x"))]);
    assert_eq!(Message::from_json(j).unwrap_err(), DecodeError::UnknownTag(s("system")));
    let j = obj(vec![("content", text("x"))]);
    assert_eq!(Message::from_json(j).unwrap_err(), DecodeError::MissingField(s("role")));
}

#[test]
fn roles_have_lowercase_names() {
    assert_eq!(to_value(Role::User.to_json()), serde_json::Value::String(s("user")));
    assert_eq!(to_value(Role::Assistant.to_json()), serde_json::Value::String(s("assistant")));
}

fn required_hi() -> RequiredMessageParams {
    RequiredMessageParams {
        model: s("large-model"),
        messages: vec![Message::new_text(Role::User, s("hi"))],
        max_tokens: 10,
    }
}

#[test]
fn bare_request_has_only_required_members() {
    let v = to_value(CreateMessageParams::new(required_hi()).to_json());
    let keys: Vec<&String> = v.as_object().unwrap().keys().collect();
    assert_eq!(keys.len(), 3);
    for k in ["model", "messages", "max_tokens"] {
        assert!(v.get(k).is_some());
    }
}

#[test]
fn end_to_end_request_matches_wire() {
    let p: CreateMessageParams = required_hi().into();
    let expected: serde_json::Value = serde_json::from_str(
        r#"{"model":"large-model","messages":[{"role":"user","content":"hi"}],"max_tokens":10}"#,
    )
    .unwrap();
    assert_eq!(to_value(p.to_json()), expected);
}

#[test]
fn metadata_is_written_under_its_member() {
    let md = Metadata { fields: vec![(s("trace"), s("42"))] };
    let v = to_value(CreateMessageParams::new(required_hi()).with_metadata(md).to_json());
    assert_eq!(v["metadata"]["trace"], serde_json::Value::String(s("42")));
    assert!(v.get("trace").is_none());
    assert!(v["metadata"].get("fields").is_none());
}

#[test]
fn second_temperature_replaces_first() {
    let p = CreateMessageParams::new(required_hi())
        .with_temperature(0.5f32.to_bits())
        .with_temperature(0.9f32.to_bits());
    assert_eq!(p.temperature, Some(0.9f32.to_bits()));
    let v = to_value(p.to_json());
    assert_eq!(v["temperature"].as_f64().unwrap() as f32, 0.9f32);
}

#[test]
fn every_setter_writes_its_member() {
    let p = CreateMessageParams::new(required_hi())
        .with_system(s("be brief"))
        .with_stop_sequences(vec![s("END")])
        .with_stream(true)
        .with_top_k(5)
        .with_top_p(0.25f32.to_bits())
        .with_tools(vec![
            Tool { name: s("calc"), description: None, input_schema: obj(vec![("type", text("object"))]) },
            Tool { name: s("web"), description: Some(s("search")), input_schema: obj(vec![]) },
        ])
        .with_tool_choice(ToolChoice::Tool { name: s("calc") });
    let v = to_value(p.to_json());
    assert_eq!(v.as_object().unwrap().len(), 10);
    assert_eq!(v["system"], serde_json::Value::String(s("be brief")));
    assert_eq!(v["stop_sequences"][0], serde_json::Value::String(s("END")));
    assert_eq!(v["stream"], serde_json::Value::Bool(true));
    assert_eq!(v["top_k"].as_u64(), Some(5));
    assert_eq!(v["top_p"].as_f64(), Some(0.25));
    assert!(v["tools"][0].get("description").is_none());
    assert_eq!(v["tools"][1]["description"], serde_json::Value::String(s("search")));
    assert_eq!(v["tool_choice"]["type"], serde_json::Value::String(s("tool")));
    assert_eq!(v["tool_choice"]["name"], serde_json::Value::String(s("calc")));
}

#[test]
fn tool_choice_round_trips() {
    for c in [ToolChoice::Auto, ToolChoice::Any, ToolChoice::Tool { name: s("t") }] {
        let back = ToolChoice::from_json(c.clone().to_json()).unwrap();
        assert_eq!(back, c);
    }
    let r = ToolChoice::from_json(obj(vec![("type", text("none"))]));
    assert_eq!(r.unwrap_err(), DecodeError::UnknownTag(s("none")));
}

fn response_json(stop_reason: Json) -> Json {
    obj(vec![
        ("content", Json::Array(vec![obj(vec![("type", text("text")), ("text", text("Hello"))])])),
        ("id", text("msg_1")),
        ("model", text("large-model")),
        ("role", text("assistant")),
        ("stop_reason", stop_reason),
        ("stop_sequence", Json::Null),
        ("type", text("message")),
        (
            "usage",
            obj(vec![
                ("input_tokens", Json::Number(Number::PosInt(12))),
                ("output_tokens", Json::Number(Number::PosInt(34))),
            ]),
        ),
    ])
}

#[test]
fn response_decodes() {
    let r = CreateMessageResponse::from_json(response_json(text("end_turn"))).unwrap();
    assert_eq!(r.id, "msg_1");
    assert_eq!(r.model, "large-model");
    assert_eq!(r.role, Role::Assistant);
    assert_eq!(r.stop_reason, Some(StopReason::EndTurn));
    assert_eq!(r.stop_sequence, None);
    assert_eq!(r.type_, "message");
    assert_eq!(r.usage, Usage { input_tokens: 12, output_tokens: 34 });
    assert_eq!(r.content.len(), 1);
}

#[test]
fn stop_reasons_decode_by_snake_case_name() {
    let cases = [
        ("end_turn", StopReason::EndTurn),
        ("max_tokens", StopReason::MaxTokens),
        ("stop_sequence", StopReason::StopSequence),
        ("tool_use", StopReason::ToolUse),
    ];
    for (name, want) in cases {
        let r = CreateMessageResponse::from_json(response_json(text(name))).unwrap();
        assert_eq!(r.stop_reason, Some(want));
    }
    let r = CreateMessageResponse::from_json(response_json(Json::Null)).unwrap();
    assert_eq!(r.stop_reason, None);
    let r = CreateMessageResponse::from_json(response_json(text("paused")));
    assert_eq!(r.unwrap_err(), DecodeError::UnknownTag(s("paused")));
}

#[test]
fn usage_counter_out_of_range_is_refused() {
    let j = obj(vec![
        ("input_tokens", Json::Number(Number::PosInt(1 << 40))),
        ("output_tokens", Json::Number(Number::PosInt(1))),
    ]);
    assert_eq!(Usage::from_json(j).unwrap_err(), DecodeError::InvalidType(s("input_tokens")));
}

#[test]
fn token_count_request_and_reply() {
    let p = CountMessageTokensParams {
        model: s("large-model"),
        messages: vec![Message::new_text(Role::User, s("hi"))],
    };
    let expected: serde_json::Value = serde_json::from_str(
        r#"{"model":"large-model","messages":[{"role":"user","content":"hi"}]}"#,
    )
    .unwrap();
    assert_eq!(to_value(p.to_json()), expected);
    let r = CountMessageTokensResponse::from_json(obj(vec![("input_tokens", Json::Number(Number::PosInt(7)))]));
    assert_eq!(r.unwrap(), CountMessageTokensResponse { input_tokens: 7 });
}

#[test]
fn string_errors_become_api_errors() {
    let e: MessageError = s("boom").into();
    assert_eq!(e, MessageError::ApiError(s("boom")));
    assert_eq!(e.describe(), "API error: boom");
    assert_eq!(MessageError::RequestFailed(s("down")).describe(), "API request failed: down");
}

#[test]
fn metadata_insert_replaces_an_existing_key() {
    let mut md = Metadata::new();
    md.insert(s("trace"), s("1"));
    md.insert(s("user"), s("u"));
    md.insert(s("trace"), s("42"));
    assert_eq!(md.fields, vec![(s("trace"), s("42")), (s("user"), s("u"))]);
}
