use openai_rst::chat_completion::{
    properties_json, schema_json, serialize_tool_choice, ChatCompletionMessage,
    ChatCompletionResponse, Content, ContentType, FinishReason, Function, FunctionParameters,
    ImageUrl, ImageUrlType, JSONSchemaDefine, JSONSchemaType, Tool, ToolChoiceType, ToolType,
};
use openai_rst::common::MessageRole;
use openai_rst::error::APIError;
use openai_rst::json::Json;
use openai_rst::resource::{Decode, Encode};
use openai_rst::transport::HttpResponse;

fn s(text: &str) -> String {
    text.to_string()
}

fn tool() -> Tool {
    Tool {
        tool_type: ToolType::Function,
        function: Function {
            name: s("get_price"),
            description: Some(s("price of a coin")),
            parameters: FunctionParameters {
                schema_type: JSONSchemaType::Object,
                properties: Some(vec![(
                    s("coin"),
                    JSONSchemaDefine {
                        schema_type: Some(JSONSchemaType::String),
                        description: Some(s("the coin")),
                        ..Default::default()
                    },
                )]),
                required: Some(vec![s("coin")]),
            },
        },
    }
}

#[test]
fn a_text_becomes_text_content() {
    assert_eq!(Content::from("hello"), Content::Text(s("hello")));
    assert_eq!(Content::from("hello").to_json(), Json::Text(s("hello")));
    assert_eq!(Content::from(""), Content::Text(String::new()));
}

#[test]
fn addresses_become_image_parts() {
    let content = Content::from(vec!["https://a/1.png", "https://a/2.png"]);
    let expected = |url: &str| ImageUrl {
        content_type: ContentType::image_url,
        text: None,
        image_url: Some(ImageUrlType { url: s(url) }),
    };
    assert_eq!(
        content,
        Content::ImageUrl(vec![expected("https://a/1.png"), expected("https://a/2.png")])
    );
    assert_eq!(
        content.to_json(),
        Json::List(vec![
            Json::Object(vec![
                (s("type"), Json::Text(s("image_url"))),
                (s("image_url"), Json::Object(vec![(s("url"), Json::Text(s("https://a/1.png")))])),
            ]),
            Json::Object(vec![
                (s("type"), Json::Text(s("image_url"))),
                (s("image_url"), Json::Object(vec![(s("url"), Json::Text(s("https://a/2.png")))])),
            ]),
        ])
    );
    assert_eq!(Content::from(Vec::<&str>::new()), Content::ImageUrl(vec![]));
}

#[test]
fn an_image_part_is_read_back() {
    let part = ImageUrl {
        content_type: ContentType::text,
        text: Some(s("look")),
        image_url: None,
    };
    assert_eq!(ImageUrl::from_json(&part.to_json()), Ok(part));
}

#[test]
fn a_text_becomes_a_message_of_the_user() {
    let message = ChatCompletionMessage::from("2 + 2?");
    assert_eq!(message.role, MessageRole::User);
    assert_eq!(message.content, Content::Text(s("2 + 2?")));
    assert_eq!(message.name, None);
    assert_eq!(
        message.to_json(),
        Json::Object(vec![
            (s("role"), Json::Text(s("user"))),
            (s("content"), Json::Text(s("2 + 2?"))),
        ])
    );
}

#[test]
fn the_choice_of_tool_on_the_wire() {
    assert_eq!(serialize_tool_choice(&None), Json::Null);
    assert_eq!(serialize_tool_choice(&Some(ToolChoiceType::NoTool)), Json::Text(s("none")));
    assert_eq!(serialize_tool_choice(&Some(ToolChoiceType::Auto)), Json::Text(s("auto")));
    let chosen = serialize_tool_choice(&Some(ToolChoiceType::ToolChoice { tool: tool() }));
    assert_eq!(chosen.get("type"), Some(&Json::Text(s("function"))));
    let function = chosen.get("function").unwrap();
    assert_eq!(function.get("name"), Some(&Json::Text(s("get_price"))));
    match &chosen {
        Json::Object(members) => assert_eq!(members.len(), 2),
        other => panic!("{:?}", other),
    }
}

#[test]
fn a_function_writes_its_parameters_as_a_schema() {
    assert_eq!(
        tool().function.to_json(),
        Json::Object(vec![
            (s("name"), Json::Text(s("get_price"))),
            (s("description"), Json::Text(s("price of a coin"))),
            (
                s("parameters"),
                Json::Object(vec![
                    (s("type"), Json::Text(s("object"))),
                    (
                        s("properties"),
                        Json::Object(vec![(
                            s("coin"),
                            Json::Object(vec![
                                (s("type"), Json::Text(s("string"))),
                                (s("description"), Json::Text(s("the coin"))),
                            ])
                        )])
                    ),
                    (s("required"), Json::List(vec![Json::Text(s("coin"))])),
                ])
            ),
        ])
    );
}

#[test]
fn a_schema_nests() {
    let schema = JSONSchemaDefine {
        schema_type: Some(JSONSchemaType::Array),
        items: Some(Box::new(JSONSchemaDefine {
            schema_type: Some(JSONSchemaType::Object),
            properties: Some(vec![
                (s("a"), JSONSchemaDefine { schema_type: Some(JSONSchemaType::Number), ..Default::default() }),
                (s("b"), JSONSchemaDefine { enum_values: Some(vec![s("x"), s("y")]), ..Default::default() }),
            ]),
            ..Default::default()
        })),
        ..Default::default()
    };
    assert_eq!(
        schema_json(&schema),
        Json::Object(vec![
            (s("type"), Json::Text(s("array"))),
            (
                s("items"),
                Json::Object(vec![
                    (s("type"), Json::Text(s("object"))),
                    (
                        s("properties"),
                        Json::Object(vec![
                            (s("a"), Json::Object(vec![(s("type"), Json::Text(s("number")))])),
                            (
                                s("b"),
                                Json::Object(vec![(
                                    s("enum_values"),
                                    Json::List(vec![Json::Text(s("x")), Json::Text(s("y"))])
                                )])
                            ),
                        ])
                    ),
                ])
            ),
        ])
    );
    assert_eq!(schema.to_json(), schema_json(&schema));
    assert_eq!(schema_json(&JSONSchemaDefine::default()), Json::Object(vec![]));
    assert_eq!(properties_json(&vec![]), Json::Object(vec![]));
}

#[test]
fn the_names_of_the_small_enumerations() {
    assert_eq!(ToolType::Function.as_str(), "function");
    assert_eq!(JSONSchemaType::Object.as_str(), "object");
    assert_eq!(JSONSchemaType::Number.as_str(), "number");
    assert_eq!(JSONSchemaType::String.as_str(), "string");
    assert_eq!(JSONSchemaType::Array.as_str(), "array");
    assert_eq!(JSONSchemaType::Null.as_str(), "null");
    assert_eq!(JSONSchemaType::Boolean.as_str(), "boolean");
    assert_eq!(FinishReason::stop.as_str(), "stop");
    assert_eq!(FinishReason::content_filter.as_str(), "content_filter");
    assert_eq!(FinishReason::from_str("tool_calls"), Some(FinishReason::tool_calls));
    assert_eq!(FinishReason::from_str("done"), None);
    assert_eq!(ContentType::from_str("image_url"), Some(ContentType::image_url));
    assert_eq!(ContentType::text.to_string(), "text");
}

fn chat_body(content: &str) -> String {
    format!(
        "{{\"id\":\"chatcmpl-1\",\"object\":\"chat.completion\",\"created\":1700000000,\
         \"model\":\"gpt-4o\",\"choices\":[{{\"index\":0,\"message\":{{\"role\":\"assistant\",\
         \"content\":{}}},\"finish_reason\":\"stop\"}}],\
         \"usage\":{{\"prompt_tokens\":9,\"completion_tokens\":12,\"total_tokens\":21}}}}",
        content
    )
}

#[test]
fn the_first_choice_of_an_answer() {
    let answer = HttpResponse {
        status: 200,
        headers: vec![(s("x-request-id"), s("abc"))],
        body: chat_body("\"Four.\""),
    };
    let chat: ChatCompletionResponse = answer.decode().unwrap();
    assert_eq!(chat.get_choice(), "Four.");
    assert_eq!(chat.choices.len(), 1);
    assert_eq!(chat.choices[0].index, 0);
    assert_eq!(chat.choices[0].message.role, MessageRole::Assistant);
    assert_eq!(chat.choices[0].finish_reason, Some(FinishReason::stop));
    assert!(chat.choices[0].finish_details.is_none());
    assert_eq!(chat.usage.prompt_tokens, 9);
    assert_eq!(chat.usage.completion_tokens, 12);
    assert_eq!(chat.usage.total_tokens, 21);
    assert_eq!(chat.system_fingerprint, None);
    assert_eq!(chat.headers.unwrap().get("x-request-id"), Some(&s("abc")));
}

#[test]
fn a_choice_without_content_gives_the_empty_text() {
    let answer = HttpResponse { status: 200, headers: vec![], body: chat_body("null") };
    let chat: ChatCompletionResponse = answer.decode().unwrap();
    assert_eq!(chat.get_choice(), "");
}

#[test]
fn an_answer_with_tool_calls() {
    let body = chat_body("null").replace(
        "\"content\":null",
        "\"content\":null,\"tool_calls\":[{\"id\":\"call_1\",\"type\":\"function\",\
         \"function\":{\"name\":\"get_price\",\"arguments\":\"{}\"}}]",
    );
    let chat: ChatCompletionResponse =
        HttpResponse { status: 200, headers: vec![], body }.decode().unwrap();
    let calls = chat.choices[0].message.tool_calls.as_ref().unwrap();
    assert_eq!(calls.len(), 1);
    assert_eq!(calls[0].id, "call_1");
    assert_eq!(calls[0].call_type, "function");
    assert_eq!(calls[0].function.name, Some(s("get_price")));
    assert_eq!(calls[0].function.arguments, Some(s("{}")));
}

#[test]
fn an_answer_with_an_unknown_finish_reason_is_refused() {
    let body = chat_body("\"x\"").replace("\"stop\"", "\"bored\"");
    match (HttpResponse { status: 200, headers: vec![], body }).decode::<ChatCompletionResponse>() {
        Err(APIError::DecodeError(_)) => {}
        other => panic!("{:?}", other.map(|c| c.id)),
    }
}

#[test]
fn a_copy_of_a_schema_is_equal_to_it() {
    let first = tool();
    let copy = first.clone();
    assert_eq!(copy, first);
    assert_eq!(copy.to_json(), first.to_json());
    let schema = JSONSchemaDefine {
        items: Some(Box::new(JSONSchemaDefine {
            required: Some(vec![s("a")]),
            ..Default::default()
        })),
        ..Default::default()
    };
    assert_eq!(schema.duplicate(), schema);
}
