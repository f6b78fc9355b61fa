use llamaedge::chat::build_chat_request_body;
use llamaedge::chat::ChatCompletionRequestMessage;
use llamaedge::chat::ContentPart;
use llamaedge::chat::Image;
use llamaedge::chat::UserMessageContent;
use llamaedge::error::LlamaEdgeError;
use llamaedge::params::ChatParams;
use llamaedge::params::ChatResponseFormat;
use llamaedge::params::Tool;
use llamaedge::params::ToolChoice;
use llamaedge::params::ToolFunction;
use llamaedge::Client;

fn system_message(text: &str) -> ChatCompletionRequestMessage {
    ChatCompletionRequestMessage::System { content: text.to_string(), name: None }
}

fn user_message(text: &str) -> ChatCompletionRequestMessage {
    ChatCompletionRequestMessage::User {
        content: UserMessageContent::Text(text.to_string()),
        name: None,
    }
}

#[test]
fn chat_with_empty_history_fails() {
    let client = Client::new("http://localhost:8080").unwrap();
    let result = client.chat_request(&Vec::new(), &ChatParams::default());
    match result {
        Err(LlamaEdgeError::InvalidArgument(m)) => {
            assert_eq!(m, "chat_history cannot be empty");
        },
        _ => panic!("an empty history must be rejected with InvalidArgument"),
    }
    let result = client.chat_stream_request(&Vec::new(), &ChatParams::default());
    assert!(matches!(result, Err(LlamaEdgeError::InvalidArgument(_))));
}

#[test]
fn default_chat_body_exact() {
    let messages = vec![
        system_message(
            "You are a helpful assistant. Answer questions as concisely and accurately as possible.",
        ),
        user_message("What is the capital of France?"),
    ];
    let body = build_chat_request_body(&messages, &ChatParams::default(), false);
    assert_eq!(
        body,
        "{\"messages\":[{\"role\":\"system\",\"content\":\"You are a helpful assistant. Answer questions as concisely and accurately as possible.\"},{\"role\":\"user\",\"content\":\"What is the capital of France?\"}],\"temperature\":1.0,\"top_p\":1.0,\"n\":1,\"stream\":false,\"max_tokens\":1024,\"presence_penalty\":0.0,\"frequency_penalty\":0.0}"
    );
}

#[test]
fn streaming_body_sets_flag_and_usage() {
    let messages = vec![user_message("hi")];
    let body = build_chat_request_body(&messages, &ChatParams::default(), true);
    assert_eq!(
        body,
        "{\"messages\":[{\"role\":\"user\",\"content\":\"hi\"}],\"temperature\":1.0,\"top_p\":1.0,\"n\":1,\"stream\":true,\"stream_options\":{\"include_usage\":true},\"max_tokens\":1024,\"presence_penalty\":0.0,\"frequency_penalty\":0.0}"
    );
}

#[test]
fn body_building_is_idempotent() {
    let messages = vec![system_message("s"), user_message("u")];
    let params = ChatParams::default();
    let first = build_chat_request_body(&messages, &params, false);
    let second = build_chat_request_body(&messages, &params, false);
    assert_eq!(first, second);
}

#[test]
fn optional_fields_are_omitted() {
    let messages = vec![user_message("hi")];
    let params = ChatParams {
        model: None,
        temperature: None,
        top_p: None,
        n_choice: None,
        stop: None,
        max_tokens: None,
        max_completion_tokens: None,
        presence_penalty: None,
        frequency_penalty: None,
        user: None,
        response_format: None,
        tools: None,
        tool_choice: None,
    };
    let body = build_chat_request_body(&messages, &params, false);
    assert_eq!(
        body,
        "{\"messages\":[{\"role\":\"user\",\"content\":\"hi\"}],\"stream\":false}"
    );
}

#[test]
fn model_stop_user_and_format_fields() {
    let messages = vec![user_message("hi")];
    let params = ChatParams {
        model: Some("m1".to_string()),
        stop: Some(vec!["a".to_string(), "b".to_string()]),
        user: Some("u1".to_string()),
        response_format: Some(ChatResponseFormat { ty: "json_object".to_string() }),
        ..ChatParams::default()
    };
    let body = build_chat_request_body(&messages, &params, false);
    assert_eq!(
        body,
        "{\"model\":\"m1\",\"messages\":[{\"role\":\"user\",\"content\":\"hi\"}],\"temperature\":1.0,\"top_p\":1.0,\"n\":1,\"stream\":false,\"stop\":[\"a\",\"b\"],\"max_tokens\":1024,\"presence_penalty\":0.0,\"frequency_penalty\":0.0,\"user\":\"u1\",\"response_format\":{\"type\":\"json_object\"}}"
    );
}

#[test]
fn tools_and_tool_choice_fields() {
    let messages = vec![user_message("hi")];
    let params = ChatParams {
        tools: Some(vec![Tool {
            ty: "function".to_string(),
            function: ToolFunction {
                name: "f".to_string(),
                description: Some("does f".to_string()),
                parameters: Some("{\"type\":\"object\"}".to_string()),
            },
        }]),
        tool_choice: Some(ToolChoice::Auto),
        ..ChatParams::default()
    };
    let body = build_chat_request_body(&messages, &params, false);
    assert_eq!(
        body,
        "{\"messages\":[{\"role\":\"user\",\"content\":\"hi\"}],\"temperature\":1.0,\"top_p\":1.0,\"n\":1,\"stream\":false,\"max_tokens\":1024,\"presence_penalty\":0.0,\"frequency_penalty\":0.0,\"tools\":[{\"type\":\"function\",\"function\":{\"name\":\"f\",\"description\":\"does f\",\"parameters\":{\"type\":\"object\"}}}],\"tool_choice\":\"auto\"}"
    );
}

#[test]
fn string_content_is_json_escaped() {
    let messages = vec![user_message("say \"hi\"\nplease\t\\now")];
    let body = build_chat_request_body(&messages, &ChatParams::default(), false);
    assert!(body.contains("say \\\"hi\\\"\\nplease\\t\\\\now"));
}

#[test]
fn control_characters_use_unicode_escapes() {
    let messages = vec![user_message("a\u{1}b")];
    let body = build_chat_request_body(&messages, &ChatParams::default(), false);
    assert!(body.contains("a\\u0001b"));
}

#[test]
fn multimodal_user_message_parts() {
    let messages = vec![ChatCompletionRequestMessage::User {
        content: UserMessageContent::Parts(vec![
            ContentPart::Text("what is in the picture?".to_string()),
            ContentPart::Image(Image {
                url: "https://example.com/image.png".to_string(),
                detail: None,
            }),
        ]),
        name: None,
    }];
    let body = build_chat_request_body(&messages, &ChatParams::default(), false);
    assert!(body.contains("\"content\":[{\"type\":\"text\",\"text\":\"what is in the picture?\"},{\"type\":\"image_url\",\"image_url\":{\"url\":\"https://example.com/image.png\"}}]"));
}

#[test]
fn assistant_and_tool_messages() {
    let messages = vec![
        ChatCompletionRequestMessage::Assistant {
            content: Some("Hello".to_string()),
            name: None,
            tool_calls: None,
        },
        ChatCompletionRequestMessage::Tool {
            content: "result".to_string(),
            tool_call_id: Some("call-1".to_string()),
        },
    ];
    let body = build_chat_request_body(&messages, &ChatParams::default(), false);
    assert!(body.contains("{\"role\":\"assistant\",\"content\":\"Hello\"}"));
    assert!(body.contains(
        "{\"role\":\"tool\",\"content\":\"result\",\"tool_call_id\":\"call-1\"}"
    ));
}

#[test]
fn largest_max_tokens_formats_exactly() {
    let messages = vec![user_message("hi")];
    let params = ChatParams { max_tokens: Some(u64::MAX), ..ChatParams::default() };
    let body = build_chat_request_body(&messages, &params, false);
    assert!(body.contains("\"max_tokens\":18446744073709551615"));
}

#[test]
fn empty_stop_list_is_an_empty_array() {
    let messages = vec![user_message("hi")];
    let params = ChatParams { stop: Some(Vec::new()), ..ChatParams::default() };
    let body = build_chat_request_body(&messages, &params, false);
    assert!(body.contains("\"stop\":[]"));
}

#[test]
fn participant_names_are_sent() {
    let messages = vec![ChatCompletionRequestMessage::User {
        content: UserMessageContent::Text("hi".to_string()),
        name: Some("alice".to_string()),
    }];
    let body = build_chat_request_body(&messages, &ChatParams::default(), false);
    assert!(body.contains("{\"role\":\"user\",\"content\":\"hi\",\"name\":\"alice\"}"));
}
