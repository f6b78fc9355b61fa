use llamaedge::chat::ChatCompletionRequestMessage;
use llamaedge::chat::UserMessageContent;
use llamaedge::embeddings::build_embeddings_request_body;
use llamaedge::embeddings::InputText;
use llamaedge::images::build_image_create_request_body;
use llamaedge::multipart::LocalFile;
use llamaedge::params::ChatParams;
use llamaedge::params::EmbeddingsParams;
use llamaedge::params::ImageCreateParams;
use llamaedge::params::ImageEditParams;
use llamaedge::params::ImageResponseFormat;
use llamaedge::params::RagChatParams;
use llamaedge::params::SamplingMethod;
use llamaedge::params::Scheduler;
use llamaedge::params::TimestampGranularity;
use llamaedge::params::TranscriptionParams;
use llamaedge::params::TranslationParams;
use llamaedge::Client;

#[test]
fn chat_params_defaults() {
    let p = ChatParams::default();
    assert!(p.model.is_none());
    assert_eq!(p.temperature.as_deref(), Some("1.0"));
    assert_eq!(p.top_p.as_deref(), Some("1.0"));
    assert_eq!(p.n_choice, Some(1));
    assert!(p.stop.is_none());
    assert_eq!(p.max_tokens, Some(1024));
    assert_eq!(p.max_completion_tokens, Some(-1));
    assert_eq!(p.presence_penalty.as_deref(), Some("0.0"));
    assert_eq!(p.frequency_penalty.as_deref(), Some("0.0"));
    assert!(p.user.is_none());
    assert!(p.response_format.is_none());
    assert!(p.tools.is_none());
    assert!(p.tool_choice.is_none());
}

#[test]
fn rag_chat_params_defaults() {
    let p = RagChatParams::default();
    assert_eq!(p.temperature, "0.8");
    assert_eq!(p.top_p, "0.9");
    assert_eq!(p.n_choice, 1);
    assert_eq!(p.max_tokens, 1024);
    assert_eq!(p.max_completion_tokens, -1);
    assert_eq!(p.context_window, 1);
    assert!(p.vdb_config.is_none());
}

#[test]
fn transcription_params_defaults() {
    let p = TranscriptionParams::default();
    assert_eq!(p.response_format, "json");
    assert_eq!(p.temperature, "0");
    assert_eq!(
        p.timestamp_granularities,
        Some(vec![TimestampGranularity::Segment])
    );
    assert!(!p.detect_language);
    assert_eq!(p.offset_time, 0);
    assert_eq!(p.duration, 0);
    assert_eq!(p.max_context, -1);
    assert_eq!(p.max_len, 0);
    assert!(!p.split_on_word);
    assert!(!p.use_new_context);
}

#[test]
fn translation_params_defaults() {
    let p = TranslationParams::default();
    assert_eq!(p.response_format, "json");
    assert_eq!(p.temperature, "0");
    assert_eq!(p.max_context, -1);
}

#[test]
fn embeddings_params_defaults() {
    let p = EmbeddingsParams::default();
    assert!(p.model.is_none());
    assert_eq!(p.encoding_format, "float");
    assert!(p.user.is_none());
    assert!(p.vdb_server_url.is_none());
    assert!(p.vdb_collection_name.is_none());
    assert!(p.vdb_api_key.is_none());
}

#[test]
fn image_params_defaults() {
    let p = ImageCreateParams::default();
    assert_eq!(p.n, 1);
    assert_eq!(p.response_format, ImageResponseFormat::Url);
    assert_eq!(p.cfg_scale, "7.0");
    assert_eq!(p.sample_method, SamplingMethod::EulerA);
    assert_eq!(p.steps, 20);
    assert_eq!(p.height, 512);
    assert_eq!(p.width, 512);
    assert_eq!(p.control_strength, "0.9");
    assert_eq!(p.seed, 42);
    assert_eq!(p.strength, "0.75");
    assert_eq!(p.scheduler, Scheduler::Discrete);
    assert!(!p.apply_canny_preprocessor);
    assert_eq!(p.style_ratio, "0.2");
    let q = ImageEditParams::default();
    assert_eq!(q.cfg_scale, "7");
    assert!(q.mask.is_none());
    assert!(q.control_image.is_none());
}

#[test]
fn default_bundles_are_accepted_by_every_builder() {
    let client = Client::new("http://localhost:8080").unwrap();
    let messages = vec![ChatCompletionRequestMessage::User {
        content: UserMessageContent::Text("hi".to_string()),
        name: None,
    }];
    assert!(client.chat_request(&messages, &ChatParams::default()).is_ok());
    assert!(client.chat_stream_request(&messages, &ChatParams::default()).is_ok());
    let input = InputText::Text("Hello, world!".to_string());
    assert!(client.embeddings_request(&input, &EmbeddingsParams::default()).is_ok());
    assert!(client.create_image_request("A lovely dog", &ImageCreateParams::default()).is_ok());
    let wav = LocalFile::from_path("tests/assets/test.wav", vec![0]).unwrap();
    assert!(client
        .transcription_request(wav.clone(), "en", &TranscriptionParams::default())
        .is_ok());
    assert!(client
        .translation_request(wav.clone(), "zh", &TranslationParams::default())
        .is_ok());
    assert!(client.upload_file_request(wav.clone()).is_ok());
    assert!(client
        .edit_image_request(
            LocalFile::from_path("img/dog.png", vec![0]).unwrap(),
            "edit",
            &ImageEditParams::default(),
            None,
            None,
        )
        .is_ok());
}

#[test]
fn embeddings_body_for_text_array() {
    let input = InputText::TextArray(vec![
        "Hello, world!".to_string(),
        "This is a test.".to_string(),
    ]);
    let body = build_embeddings_request_body(&input, &EmbeddingsParams::default());
    assert_eq!(
        body,
        "{\"input\":[\"Hello, world!\",\"This is a test.\"],\"encoding_format\":\"float\"}"
    );
    let again = build_embeddings_request_body(&input, &EmbeddingsParams::default());
    assert_eq!(body, again);
}

#[test]
fn embeddings_body_with_model_and_vdb_fields() {
    let input = InputText::Text("Hello, world!".to_string());
    let params = EmbeddingsParams {
        model: Some("nomic".to_string()),
        user: Some("u".to_string()),
        vdb_server_url: Some("http://vdb:6333".to_string()),
        vdb_collection_name: Some("docs".to_string()),
        vdb_api_key: Some("SECRET-REDACTED".to_string()),
        ..EmbeddingsParams::default()
    };
    let body = build_embeddings_request_body(&input, &params);
    assert_eq!(
        body,
        "{\"model\":\"nomic\",\"input\":\"Hello, world!\",\"encoding_format\":\"float\",\"user\":\"u\",\"vdb_server_url\":\"http://vdb:6333\",\"vdb_collection_name\":\"docs\",\"vdb_api_key\":\"SECRET-REDACTED\"}"
    );
}

#[test]
fn embeddings_body_for_tokens() {
    let input = InputText::Tokens(vec![1, -2, 30]);
    let body = build_embeddings_request_body(&input, &EmbeddingsParams::default());
    assert_eq!(body, "{\"input\":[1,-2,30],\"encoding_format\":\"float\"}");
}

#[test]
fn image_create_body_exact() {
    let body = build_image_create_request_body("A lovely dog", &ImageCreateParams::default());
    assert_eq!(
        body,
        "{\"prompt\":\"A lovely dog\",\"negative_prompt\":\"\",\"model\":\"\",\"n\":1,\"quality\":\"standard\",\"response_format\":\"url\",\"style\":\"natural\",\"cfg_scale\":7.0,\"sample_method\":\"euler_a\",\"steps\":20,\"height\":512,\"width\":512,\"control_strength\":0.9,\"seed\":42,\"strength\":0.75,\"scheduler\":\"discrete\",\"apply_canny_preprocessor\":false,\"style_ratio\":0.2}"
    );
    let again = build_image_create_request_body("A lovely dog", &ImageCreateParams::default());
    assert_eq!(body, again);
}

#[test]
fn extreme_integer_values_format_exactly() {
    let input = InputText::Tokens(vec![i64::MIN, i64::MAX, 0]);
    let body = build_embeddings_request_body(&input, &EmbeddingsParams::default());
    assert_eq!(
        body,
        "{\"input\":[-9223372036854775808,9223372036854775807,0],\"encoding_format\":\"float\"}"
    );
}
