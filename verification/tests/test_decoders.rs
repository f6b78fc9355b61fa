use llamaedge::error::LlamaEdgeError;
use llamaedge::response::decode_chat_response;
use llamaedge::response::decode_embeddings_response;
use llamaedge::response::decode_file_response;
use llamaedge::response::decode_images_response;
use llamaedge::response::decode_models_response;
use llamaedge::response::decode_transcription_response;
use llamaedge::response::decode_translation_response;

#[test]
fn chat_response_first_choice_content() {
    let body = "{\"id\":\"chatcmpl-1\",\"object\":\"chat.completion\",\"created\":1,\"model\":\"m\",\"choices\":[{\"index\":0,\"message\":{\"content\":\"Paris\",\"role\":\"assistant\"},\"finish_reason\":\"stop\"}],\"usage\":{\"prompt_tokens\":1,\"completion_tokens\":1,\"total_tokens\":2}}";
    assert_eq!(decode_chat_response(body).unwrap(), "Paris");
}

#[test]
fn chat_response_missing_content_is_empty_string() {
    let body = "{\"choices\":[{\"message\":{\"role\":\"assistant\",\"content\":null}}]}";
    assert_eq!(decode_chat_response(body).unwrap(), "");
}

#[test]
fn chat_response_without_choices_array_is_operation_error() {
    let result = decode_chat_response("not json");
    match result {
        Err(LlamaEdgeError::Operation(m)) => {
            assert!(m.starts_with("failed to decode the chat completion response: "));
        },
        _ => panic!("a body that is not JSON must be an Operation error"),
    }
    let result = decode_chat_response("{\"object\":\"chat.completion\"}");
    match result {
        Err(LlamaEdgeError::Operation(m)) => {
            assert!(m.contains("missing field `choices`"));
        },
        _ => panic!("a body without choices must be an Operation error"),
    }
}

#[test]
fn chat_response_with_zero_choices_is_empty_string() {
    assert_eq!(decode_chat_response("{\"choices\":[]}").unwrap(), "");
}

#[test]
fn model_list_decodes() {
    let body = "{\"object\":\"list\",\"data\":[{\"id\":\"model-a\",\"created\":7,\"object\":\"model\",\"owned_by\":\"org\"}]}";
    let models = decode_models_response(body).unwrap();
    assert_eq!(models.len(), 1);
    assert_eq!(models[0].id, "model-a");
    assert_eq!(models[0].created, 7);
    assert_eq!(models[0].owned_by, "org");
}

#[test]
fn model_list_garbage_is_operation_error() {
    match decode_models_response("[1,2]") {
        Err(LlamaEdgeError::Operation(m)) => {
            assert!(m.starts_with("failed to decode the model list response: "));
            assert!(m.len() > "failed to decode the model list response: ".len());
        },
        _ => panic!("a body that is not a model list must be an Operation error"),
    }
}

#[test]
fn transcription_and_translation_decode() {
    let t = decode_transcription_response("{\"text\":\"this is a test record\"}").unwrap();
    assert_eq!(t.text, "this is a test record");
    let t = decode_translation_response("{\"text\":\"this is a chinese broadcast.\"}").unwrap();
    assert_eq!(t.text, "this is a chinese broadcast.");
    assert!(matches!(
        decode_transcription_response("{}"),
        Err(LlamaEdgeError::Operation(_))
    ));
}

#[test]
fn file_object_decodes() {
    let body = "{\"id\":\"file-1\",\"bytes\":42,\"created_at\":100,\"filename\":\"test.wav\",\"object\":\"file\",\"purpose\":\"assistants\"}";
    let f = decode_file_response(body).unwrap();
    assert_eq!(f.id, "file-1");
    assert_eq!(f.bytes, 42);
    assert_eq!(f.filename, "test.wav");
}

#[test]
fn embeddings_decode_preserves_vector_length() {
    let body = "{\"object\":\"list\",\"data\":[{\"index\":0,\"object\":\"embedding\",\"embedding\":[0.5,-1.25,3.0]}],\"model\":\"m\",\"usage\":{\"prompt_tokens\":2,\"completion_tokens\":0,\"total_tokens\":2}}";
    let e = decode_embeddings_response(body).unwrap();
    assert_eq!(e.data.len(), 1);
    assert_eq!(e.data[0].embedding.len(), 3);
    assert_eq!(e.data[0].embedding[0], "0.5");
    assert_eq!(e.data[0].embedding[1], "-1.25");
    assert_eq!(e.usage.total_tokens, 2);
}

#[test]
fn image_list_decodes() {
    let body = "{\"created\":9,\"data\":[{\"url\":\"http://host/img.png\"},{\"b64_json\":\"QUJD\"}]}";
    let images = decode_images_response(body).unwrap();
    assert_eq!(images.len(), 2);
    assert_eq!(images[0].url.as_deref(), Some("http://host/img.png"));
    assert_eq!(images[1].b64_json.as_deref(), Some("QUJD"));
}
