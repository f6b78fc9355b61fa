use llamaedge::stream::decode_stream_text;
use llamaedge::stream::StreamDecoder;

fn chunks(items: &[&str]) -> Vec<String> {
    items.iter().map(|s| s.to_string()).collect()
}

#[test]
fn stream_concatenation_yields_paris() {
    let stream = chunks(&[
        "data: {\"choices\":[{\"delta\":{\"content\":\"Par\"}}]}",
        "data: {\"choices\":[{\"delta\":{\"content\":\"is\"}}]}",
        "data: [DONE]",
    ]);
    let (fragments, text) = decode_stream_text(&stream);
    assert_eq!(fragments, vec!["Par".to_string(), "is".to_string()]);
    assert_eq!(text, "Paris");
}

#[test]
fn malformed_payload_is_skipped() {
    let stream = chunks(&[
        "data: {\"choices\":[{\"delta\":{\"content\":\"Par\"}}]}",
        "data: {not json at all",
        "data: {\"choices\":[{\"delta\":{\"content\":\"is\"}}]}",
        "data: [DONE]",
    ]);
    let (fragments, text) = decode_stream_text(&stream);
    assert_eq!(fragments, vec!["Par".to_string(), "is".to_string()]);
    assert_eq!(text, "Paris");
}

#[test]
fn several_events_in_one_chunk() {
    let stream = chunks(&["data: {\"choices\":[{\"delta\":{\"content\":\"Par\"}}]}\n\ndata: {\"choices\":[{\"delta\":{\"content\":\"is\"}}]}\n\ndata: [DONE]\n\n"]);
    let (_, text) = decode_stream_text(&stream);
    assert_eq!(text, "Paris");
}

#[test]
fn done_discards_rest_of_its_chunk() {
    let stream = chunks(&["data: {\"choices\":[{\"delta\":{\"content\":\"Par\"}}]}\n\ndata: [DONE]\n\ndata: {\"choices\":[{\"delta\":{\"content\":\"is\"}}]}\n\n"]);
    let (_, text) = decode_stream_text(&stream);
    assert_eq!(text, "Par");
}

#[test]
fn nothing_emitted_after_done() {
    let mut decoder = StreamDecoder::new();
    assert!(!decoder.is_done());
    let first = decoder.feed("data: [DONE]");
    assert!(first.is_empty());
    assert!(decoder.is_done());
    let late = decoder.feed("data: {\"choices\":[{\"delta\":{\"content\":\"x\"}}]}");
    assert!(late.is_empty());
    assert!(decoder.is_done());
}

#[test]
fn fragments_are_trimmed_and_empty_content_dropped() {
    let stream = chunks(&[
        "data: {\"choices\":[{\"delta\":{\"content\":\"  Par \"}}]}",
        "data: {\"choices\":[{\"delta\":{\"content\":\"   \"}}]}",
        "data: {\"choices\":[{\"delta\":{\"content\":\"is\"}}]}",
    ]);
    let (fragments, text) = decode_stream_text(&stream);
    assert_eq!(fragments, vec!["Par".to_string(), "is".to_string()]);
    assert_eq!(text, "Paris");
}

#[test]
fn payload_without_choices_is_skipped() {
    let stream = chunks(&[
        "data: {\"choices\":[]}",
        "data: {\"object\":\"chat.completion.chunk\"}",
        "data: {\"choices\":[{\"delta\":{\"content\":\"ok\"}}]}",
    ]);
    let (_, text) = decode_stream_text(&stream);
    assert_eq!(text, "ok");
}

#[test]
fn chunk_without_events_emits_nothing() {
    let mut decoder = StreamDecoder::new();
    let out = decoder.feed("   \n");
    assert!(out.is_empty());
    assert!(!decoder.is_done());
}

#[test]
fn fragments_are_trimmed_of_unicode_whitespace() {
    let stream = chunks(&["data: {\"choices\":[{\"delta\":{\"content\":\"\u{a0}Par\u{2009}\"}}]}"]);
    let (fragments, text) = decode_stream_text(&stream);
    assert_eq!(fragments, vec!["Par".to_string()]);
    assert_eq!(text, "Par");
}
