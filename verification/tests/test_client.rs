use llamaedge::chat::ChatCompletionRequestMessage;
use llamaedge::chat::UserMessageContent;
use llamaedge::error::LlamaEdgeError;
use llamaedge::params::ChatParams;
use llamaedge::Client;

fn system_message(text: &str) -> ChatCompletionRequestMessage {
    ChatCompletionRequestMessage::System { content: text.to_string(), name: None }
}

fn user_message(text: &str) -> ChatCompletionRequestMessage {
    ChatCompletionRequestMessage::User {
        content: UserMessageContent::Text(text.to_string()),
        name: None,
    }
}

#[test]
fn base_url_trailing_slash_normalized() {
    let with_slash = Client::new("http://host:8080/").unwrap();
    let without_slash = Client::new("http://host:8080").unwrap();
    assert_eq!(with_slash.server_base_url(), without_slash.server_base_url());
    assert_eq!(with_slash.server_base_url().as_str(), "http://host:8080");
}

#[test]
fn base_url_many_trailing_slashes() {
    let client = Client::new("http://host:8080///").unwrap();
    assert_eq!(client.server_base_url().as_str(), "http://host:8080");
}

#[test]
fn base_url_joined_paths_identical() {
    let with_slash = Client::new("http://host:8080/").unwrap();
    let without_slash = Client::new("http://host:8080").unwrap();
    let messages = vec![user_message("What is the capital of France?")];
    let a = with_slash
        .chat_request(&messages, &ChatParams::default())
        .unwrap();
    let b = without_slash
        .chat_request(&messages, &ChatParams::default())
        .unwrap();
    assert_eq!(a.url, b.url);
    assert_eq!(a.url, "http://host:8080/v1/chat/completions");
}

#[test]
fn invalid_base_url_rejected() {
    let result = Client::new("not a url");
    assert!(matches!(result, Err(LlamaEdgeError::UrlParse(_))));
}

#[test]
fn models_request_url() {
    let client = Client::new("http://localhost:8080").unwrap();
    assert_eq!(client.models_request().unwrap(), "http://localhost:8080/v1/models");
}

#[test]
fn operation_urls_are_fixed_paths() {
    let client = Client::new("http://localhost:10086").unwrap();
    let messages = vec![
        system_message("You are a helpful assistant."),
        user_message("What is the capital of France?"),
    ];
    let chat = client.chat_request(&messages, &ChatParams::default()).unwrap();
    assert_eq!(chat.url, "http://localhost:10086/v1/chat/completions");
    let stream = client
        .chat_stream_request(&messages, &ChatParams::default())
        .unwrap();
    assert_eq!(stream.url, "http://localhost:10086/v1/chat/completions");
}

#[test]
fn error_message_accessor() {
    let e = LlamaEdgeError::InvalidArgument("chat_history cannot be empty".to_string());
    assert_eq!(e.message(), "chat_history cannot be empty");
}
