//! Typed response objects and the response decoders.
//!
//! Each decoder takes the response body as text and either produces the
//! typed result or reports an `Operation` error carrying a description
//! of the underlying parse failure, exactly when the body does not hold
//! the expected shape. What a JSON body parses to is a function of the
//! body alone; each parse result is given a name, and the decoding
//! rules of the library are verified against those names.
use vstd::prelude::*;

use crate::error::LlamaEdgeError;

verus! {

/// Describes a model offering of the server.
#[derive(Debug, Clone)]
pub struct Model {
    /// The model identifier.
    pub id: String,
    /// The Unix timestamp (in seconds) of when the model was created.
    pub created: u64,
    /// The object type, which is always `model`.
    pub object: String,
    /// The organization that owns the model.
    pub owned_by: String,
}

/// Metadata of a file held by the server.
#[derive(Debug, Clone)]
pub struct FileObject {
    /// The file identifier.
    pub id: String,
    /// The size of the file, in bytes.
    pub bytes: u64,
    /// The Unix timestamp (in seconds) for when the file was created.
    pub created_at: u64,
    /// The name of the file.
    pub filename: String,
    /// The object type, which is always `file`.
    pub object: String,
    /// The intended purpose of the file.
    pub purpose: String,
}

/// The result of a transcription request.
#[derive(Debug, Clone)]
pub struct TranscriptionObject {
    /// The transcribed text.
    pub text: String,
}

/// The result of a translation request.
#[derive(Debug, Clone)]
pub struct TranslationObject {
    /// The translated text.
    pub text: String,
}

/// Token accounting of a request.
#[derive(Debug, Clone)]
pub struct Usage {
    /// Number of tokens in the prompt.
    pub prompt_tokens: u64,
    /// Number of tokens in the generated completion.
    pub completion_tokens: u64,
    /// Total number of tokens used in the request.
    pub total_tokens: u64,
}

/// One embedding vector returned by the embeddings endpoint.
#[derive(Debug, Clone)]
pub struct EmbeddingObject {
    /// The index of the embedding in the list of embeddings.
    pub index: u64,
    /// The object type, which is always `embedding`.
    pub object: String,
    /// The components of the embedding vector, each as the decimal text
    /// of the parsed number.
    pub embedding: Vec<String>,
}

/// The result of an embeddings request.
#[derive(Debug, Clone)]
pub struct EmbeddingsResponse {
    /// The object type, which is always `list`.
    pub object: String,
    /// The embedding vectors.
    pub data: Vec<EmbeddingObject>,
    /// The model used.
    pub model: String,
    /// Token accounting of the request.
    pub usage: Usage,
}

/// The URL or the content of one generated image.
#[derive(Debug, Clone)]
pub struct ImageObject {
    /// The base64-encoded JSON of the generated image, if the response
    /// format is `b64_json`.
    pub b64_json: Option<String>,
    /// The URL of the generated image, if the response format is `url`.
    pub url: Option<String>,
    /// The prompt that was used to generate the image, if there was any
    /// revision to the prompt.
    pub prompt: Option<String>,
}

/// What a chat completion response body decodes to: `Ok(Some(c))`
/// when the first choice carries the textual content `c`, `Ok(None)`
/// when the completion parses but carries no first choice with textual
/// content, and `Err(m)` with a description when the body is not a
/// chat completion object.
pub uninterp spec fn chat_reply_of(body: Seq<char>) -> Result<Option<Seq<char>>, Seq<char>>;

/// Relies on `serde_json::from_str` and `serde_json::Value`: parses
/// `body`, requires a `choices` array, and reads
/// `choices[0].message.content`; the error text is the parser's own
/// description, or names the missing `choices` field. The result is a
/// function of the body alone.
#[verifier::external_body]
fn parse_chat_reply(body: &str) -> (r: Result<Option<String>, String>)
    ensures
        match r {
            Ok(Some(c)) => chat_reply_of(body@) == Ok::<Option<Seq<char>>, Seq<char>>(Some(c@)),
            Ok(None) => chat_reply_of(body@) == Ok::<Option<Seq<char>>, Seq<char>>(
                None::<Seq<char>>,
            ),
            Err(m) => chat_reply_of(body@) == Err::<Option<Seq<char>>, Seq<char>>(m@),
        },
{
    let v = match serde_json::from_str::<serde_json::Value>(body) {
        Ok(v) => v,
        Err(e) => return Err(e.to_string()),
    };
    if v.get("choices").and_then(|c| c.as_array()).is_none() {
        return Err("missing field `choices`".to_string());
    }
    Ok(v.get("choices")
        .and_then(|c| c.get(0))
        .and_then(|c| c.get("message"))
        .and_then(|m| m.get("content"))
        .and_then(|c| c.as_str())
        .map(|s| s.to_string()))
}

/// Decodes a chat completion response body: the first choice's message
/// content, or an empty string when the model produced no content
/// (among others, when the completion carries no choice at all).
pub fn decode_chat_response(body: &str) -> (r: Result<String, LlamaEdgeError>)
    ensures
        match chat_reply_of(body@) {
            Ok(Some(c)) => r matches Ok(s) && s@ == c,
            Ok(None) => r matches Ok(s) && s@ == Seq::<char>::empty(),
            Err(m) => r matches Err(e) && e matches LlamaEdgeError::Operation(msg) && msg@
                == "failed to decode the chat completion response: "@ + m,
        },
{
    match parse_chat_reply(body) {
        Ok(Some(c)) => Ok(c),
        Ok(None) => Ok(String::new()),
        Err(m) => {
            let mut msg = String::from_str("failed to decode the chat completion response: ");
            msg.append(m.as_str());
            Err(LlamaEdgeError::Operation(msg))
        },
    }
}

/// What a model list response body decodes to, or the description of
/// why it does not.
pub uninterp spec fn models_of(body: Seq<char>) -> Result<Seq<Model>, Seq<char>>;

/// Relies on `serde_json::from_str` with the model list type of the
/// `endpoints` crate; the error text is the parser's own description.
/// The result is a function of the body alone.
#[verifier::external_body]
fn parse_models(body: &str) -> (r: Result<Vec<Model>, String>)
    ensures
        match r {
            Ok(v) => models_of(body@) == Ok::<Seq<Model>, Seq<char>>(v@),
            Err(m) => models_of(body@) == Err::<Seq<Model>, Seq<char>>(m@),
        },
{
    match serde_json::from_str::<endpoints::models::ListModelsResponse>(body) {
        Err(e) => Err(e.to_string()),
        Ok(resp) => Ok(
            resp.data
                .into_iter()
                .map(|m| Model { id: m.id, created: m.created, object: m.object, owned_by: m.owned_by })
                .collect(),
        ),
    }
}

/// Decodes a model list response body into the list of models.
pub fn decode_models_response(body: &str) -> (r: Result<Vec<Model>, LlamaEdgeError>)
    ensures
        match models_of(body@) {
            Ok(v) => r matches Ok(d) && d@ == v,
            Err(m) => r matches Err(e) && e matches LlamaEdgeError::Operation(msg) && msg@
                == "failed to decode the model list response: "@ + m,
        },
{
    match parse_models(body) {
        Ok(v) => Ok(v),
        Err(m) => {
            let mut msg = String::from_str("failed to decode the model list response: ");
            msg.append(m.as_str());
            Err(LlamaEdgeError::Operation(msg))
        },
    }
}

/// What a transcription response body decodes to: the transcribed
/// text, or the description of why it does not.
pub uninterp spec fn transcription_of(body: Seq<char>) -> Result<Seq<char>, Seq<char>>;

/// Relies on `serde_json::from_str` with the transcription type of the
/// `endpoints` crate; the error text is the parser's own description.
/// The result is a function of the body alone.
#[verifier::external_body]
fn parse_transcription(body: &str) -> (r: Result<String, String>)
    ensures
        match r {
            Ok(t) => transcription_of(body@) == Ok::<Seq<char>, Seq<char>>(t@),
            Err(m) => transcription_of(body@) == Err::<Seq<char>, Seq<char>>(m@),
        },
{
    match serde_json::from_str::<endpoints::audio::transcription::TranscriptionObject>(body) {
        Err(e) => Err(e.to_string()),
        Ok(obj) => Ok(obj.text),
    }
}

/// Decodes a transcription response body.
pub fn decode_transcription_response(body: &str) -> (r: Result<
    TranscriptionObject,
    LlamaEdgeError,
>)
    ensures
        match transcription_of(body@) {
            Ok(t) => r matches Ok(o) && o.text@ == t,
            Err(m) => r matches Err(e) && e matches LlamaEdgeError::Operation(msg) && msg@
                == "failed to decode the transcription response: "@ + m,
        },
{
    match parse_transcription(body) {
        Ok(t) => Ok(TranscriptionObject { text: t }),
        Err(m) => {
            let mut msg = String::from_str("failed to decode the transcription response: ");
            msg.append(m.as_str());
            Err(LlamaEdgeError::Operation(msg))
        },
    }
}

/// What a translation response body decodes to: the translated text,
/// or the description of why it does not.
pub uninterp spec fn translation_of(body: Seq<char>) -> Result<Seq<char>, Seq<char>>;

/// Relies on `serde_json::from_str` with the translation type of the
/// `endpoints` crate; the error text is the parser's own description.
/// The result is a function of the body alone.
#[verifier::external_body]
fn parse_translation(body: &str) -> (r: Result<String, String>)
    ensures
        match r {
            Ok(t) => translation_of(body@) == Ok::<Seq<char>, Seq<char>>(t@),
            Err(m) => translation_of(body@) == Err::<Seq<char>, Seq<char>>(m@),
        },
{
    match serde_json::from_str::<endpoints::audio::translation::TranslationObject>(body) {
        Err(e) => Err(e.to_string()),
        Ok(obj) => Ok(obj.text),
    }
}

/// Decodes a translation response body.
pub fn decode_translation_response(body: &str) -> (r: Result<TranslationObject, LlamaEdgeError>)
    ensures
        match translation_of(body@) {
            Ok(t) => r matches Ok(o) && o.text@ == t,
            Err(m) => r matches Err(e) && e matches LlamaEdgeError::Operation(msg) && msg@
                == "failed to decode the translation response: "@ + m,
        },
{
    match parse_translation(body) {
        Ok(t) => Ok(TranslationObject { text: t }),
        Err(m) => {
            let mut msg = String::from_str("failed to decode the translation response: ");
            msg.append(m.as_str());
            Err(LlamaEdgeError::Operation(msg))
        },
    }
}

/// What a file upload response body decodes to, or the description of
/// why it does not.
pub uninterp spec fn file_object_of(body: Seq<char>) -> Result<FileObject, Seq<char>>;

/// Relies on `serde_json::from_str` with the file type of the
/// `endpoints` crate; the error text is the parser's own description.
/// The result is a function of the body alone.
#[verifier::external_body]
fn parse_file_object(body: &str) -> (r: Result<FileObject, String>)
    ensures
        match r {
            Ok(f) => file_object_of(body@) == Ok::<FileObject, Seq<char>>(f),
            Err(m) => file_object_of(body@) == Err::<FileObject, Seq<char>>(m@),
        },
{
    match serde_json::from_str::<endpoints::files::FileObject>(body) {
        Err(e) => Err(e.to_string()),
        Ok(f) => Ok(FileObject {
            id: f.id,
            bytes: f.bytes,
            created_at: f.created_at,
            filename: f.filename,
            object: f.object,
            purpose: f.purpose,
        }),
    }
}

/// Decodes a file upload response body.
pub fn decode_file_response(body: &str) -> (r: Result<FileObject, LlamaEdgeError>)
    ensures
        match file_object_of(body@) {
            Ok(f) => r matches Ok(o) && o == f,
            Err(m) => r matches Err(e) && e matches LlamaEdgeError::Operation(msg) && msg@
                == "failed to decode the file response: "@ + m,
        },
{
    match parse_file_object(body) {
        Ok(f) => Ok(f),
        Err(m) => {
            let mut msg = String::from_str("failed to decode the file response: ");
            msg.append(m.as_str());
            Err(LlamaEdgeError::Operation(msg))
        },
    }
}

/// What an embeddings response body decodes to, or the description of
/// why it does not.
pub uninterp spec fn embeddings_of(body: Seq<char>) -> Result<EmbeddingsResponse, Seq<char>>;

/// Relies on `serde_json::from_str` with the embeddings type of the
/// `endpoints` crate; each vector component is carried over as the
/// decimal text of the parsed number, and the error text is the
/// parser's own description. The result is a function of the body
/// alone.
#[verifier::external_body]
fn parse_embeddings(body: &str) -> (r: Result<EmbeddingsResponse, String>)
    ensures
        match r {
            Ok(e) => embeddings_of(body@) == Ok::<EmbeddingsResponse, Seq<char>>(e),
            Err(m) => embeddings_of(body@) == Err::<EmbeddingsResponse, Seq<char>>(m@),
        },
{
    let resp = match serde_json::from_str::<endpoints::embeddings::EmbeddingsResponse>(body) {
        Err(e) => return Err(e.to_string()),
        Ok(resp) => resp,
    };
    let data = resp.data.into_iter().map(|d| EmbeddingObject {
        index: d.index,
        object: d.object,
        embedding: d.embedding.into_iter().map(|x| x.to_string()).collect(),
    }).collect();
    let u = resp.usage;
    let usage = Usage {
        prompt_tokens: u.prompt_tokens, completion_tokens: u.completion_tokens, total_tokens: u.total_tokens,
    };
    Ok(EmbeddingsResponse { object: resp.object, data, model: resp.model, usage })
}

/// Decodes an embeddings response body.
pub fn decode_embeddings_response(body: &str) -> (r: Result<EmbeddingsResponse, LlamaEdgeError>)
    ensures
        match embeddings_of(body@) {
            Ok(v) => r matches Ok(o) && o == v,
            Err(m) => r matches Err(e) && e matches LlamaEdgeError::Operation(msg) && msg@
                == "failed to decode the embeddings response: "@ + m,
        },
{
    match parse_embeddings(body) {
        Ok(v) => Ok(v),
        Err(m) => {
            let mut msg = String::from_str("failed to decode the embeddings response: ");
            msg.append(m.as_str());
            Err(LlamaEdgeError::Operation(msg))
        },
    }
}

/// What an image list response body decodes to, or the description of
/// why it does not.
pub uninterp spec fn images_of(body: Seq<char>) -> Result<Seq<ImageObject>, Seq<char>>;

/// Relies on `serde_json::from_str` with the image list type of the
/// `endpoints` crate; the error text is the parser's own description.
/// The result is a function of the body alone.
#[verifier::external_body]
fn parse_images(body: &str) -> (r: Result<Vec<ImageObject>, String>)
    ensures
        match r {
            Ok(v) => images_of(body@) == Ok::<Seq<ImageObject>, Seq<char>>(v@),
            Err(m) => images_of(body@) == Err::<Seq<ImageObject>, Seq<char>>(m@),
        },
{
    match serde_json::from_str::<endpoints::images::ListImagesResponse>(body) {
        Err(e) => Err(e.to_string()),
        Ok(resp) => Ok(
            resp.data
                .into_iter()
                .map(|o| ImageObject { b64_json: o.b64_json, url: o.url, prompt: o.prompt })
                .collect(),
        ),
    }
}

/// Decodes an image list response body into the list of images.
pub fn decode_images_response(body: &str) -> (r: Result<Vec<ImageObject>, LlamaEdgeError>)
    ensures
        match images_of(body@) {
            Ok(v) => r matches Ok(d) && d@ == v,
            Err(m) => r matches Err(e) && e matches LlamaEdgeError::Operation(msg) && msg@
                == "failed to decode the image list response: "@ + m,
        },
{
    match parse_images(body) {
        Ok(v) => Ok(v),
        Err(m) => {
            let mut msg = String::from_str("failed to decode the image list response: ");
            msg.append(m.as_str());
            Err(LlamaEdgeError::Operation(msg))
        },
    }
}

} // verus!
