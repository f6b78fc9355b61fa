//! A typed client library for an OpenAI-compatible inference server.
//!
//! The library validates and normalizes the server base address, builds
//! the JSON and multipart request bodies for every operation, and decodes
//! the responses, including the streaming chat decode state machine.
//! The surrounding transport (HTTP, file reads) is left to the embedding
//! application, which hands plain values in and out.
pub mod chat;
pub mod embeddings;
pub mod error;
pub mod images;
pub mod json;
pub mod multipart;
pub mod params;
pub mod response;
pub mod stream;
pub mod text;

use vstd::prelude::*;

use crate::error::LlamaEdgeError;
use crate::text::trim_end_slashes;
use crate::text::trim_trailing_slashes;

verus! {

/// The normalized serialization of the URL that `url::Url::parse` yields
/// on `s`, or `None` when `s` is not a valid absolute URL.
pub uninterp spec fn url_parse_of(s: Seq<char>) -> Option<Seq<char>>;

/// The serialization of the URL obtained by resolving `path` against the
/// absolute URL `base`, or `None` when `base` does not parse as an
/// absolute URL or the join result is not a valid URL.
pub uninterp spec fn url_join_of(base: Seq<char>, path: Seq<char>) -> Option<Seq<char>>;

/// Relies on `url::Url::parse`: the parse result is a function of the
/// input string alone.
#[verifier::external_body]
fn parse_absolute_url(s: &str) -> (r: Option<String>)
    ensures
        match r {
            Some(u) => url_parse_of(s@) == Some(u@),
            None => url_parse_of(s@) is None,
        },
{
    match url::Url::parse(s) {
        Ok(u) => Some(String::from(u)),
        Err(_) => None,
    }
}

/// Relies on `url::Url::parse` and `url::Url::join`: both are functions
/// of their string arguments alone, so the serialization of
/// `parse(base).join(path)` is a function of `base` and `path`.
#[verifier::external_body]
fn join_absolute_url(base: &str, path: &str) -> (r: Option<String>)
    ensures
        match r {
            Some(u) => url_join_of(base@, path@) == Some(u@),
            None => url_join_of(base@, path@) is None,
        },
{
    match url::Url::parse(base) {
        Ok(u) => match u.join(path) {
            Ok(joined) => Some(String::from(joined)),
            Err(_) => None,
        },
        Err(_) => None,
    }
}

/// Client for the inference-server REST API.
///
/// It holds the server base address, normalized by removing every
/// trailing `/`; every per-operation path is resolved against it.
pub struct Client {
    server_base_url: String,
}

impl Client {
    /// The stored base address: the input trimmed of trailing slashes,
    /// which parses as an absolute URL.
    pub closed spec fn wf(&self) -> bool {
        &&& url_parse_of(self.server_base_url@) is Some
        &&& trim_end_slashes(self.server_base_url@) == self.server_base_url@
    }

    /// The base address held by the client.
    pub closed spec fn spec_base(&self) -> Seq<char> {
        self.server_base_url@
    }

    /// Create a new client from the server base address.
    ///
    /// Trailing `/` characters are removed; the remainder must parse as
    /// an absolute URL, otherwise the call fails with `UrlParse`.
    pub fn new(server_base_url: &str) -> (r: Result<Self, LlamaEdgeError>)
        ensures
            match r {
                Ok(c) => {
                    &&& c.wf()
                    &&& c.spec_base() == trim_end_slashes(server_base_url@)
                    &&& url_parse_of(trim_end_slashes(server_base_url@)) is Some
                },
                Err(e) => {
                    &&& e is UrlParse
                    &&& url_parse_of(trim_end_slashes(server_base_url@)) is None
                },
            },
    {
        let url_str = trim_trailing_slashes(server_base_url);
        match parse_absolute_url(url_str.as_str()) {
            Some(_) => {
                proof {
                    text::lemma_trim_end_slashes_idempotent(server_base_url@);
                }
                Ok(Client { server_base_url: url_str })
            },
            None => Err(LlamaEdgeError::UrlParse(String::from_str(
                "the server base url is not a valid absolute url",
            ))),
        }
    }

    /// Get the server base URL.
    pub fn server_base_url(&self) -> (r: &String)
        ensures
            r@ == self.spec_base(),
    {
        &self.server_base_url
    }

    /// Resolve a per-operation path against the base address.
    fn join_path(&self, path: &str) -> (r: Result<String, LlamaEdgeError>)
        ensures
            match r {
                Ok(u) => url_join_of(self.spec_base(), path@) == Some(u@),
                Err(e) => {
                    &&& e is UrlParse
                    &&& url_join_of(self.spec_base(), path@) is None
                },
            },
    {
        match join_absolute_url(self.server_base_url.as_str(), path) {
            Some(u) => Ok(u),
            None => Err(LlamaEdgeError::UrlParse(String::from_str(
                "cannot resolve the operation path against the base url",
            ))),
        }
    }
}

/// A JSON request ready for the transport: the resolved URL and the
/// body text.
#[derive(Debug, Clone)]
pub struct JsonRequest {
    /// The resolved URL of the operation.
    pub url: String,
    /// The JSON body.
    pub body: String,
}

/// A multipart request ready for the transport: the resolved URL and
/// the form parts.
#[derive(Debug, Clone)]
pub struct FormRequest {
    /// The resolved URL of the operation.
    pub url: String,
    /// The multipart form.
    pub form: multipart::MultipartForm,
}

impl Client {
    /// Plans a chat completion request: fails with `InvalidArgument`
    /// on an empty message history, otherwise resolves the chat path
    /// and builds the JSON body.
    pub fn chat_request(
        &self,
        chat_history: &Vec<chat::ChatCompletionRequestMessage>,
        params: &params::ChatParams,
    ) -> (r: Result<JsonRequest, LlamaEdgeError>)
        ensures
            match r {
                Ok(req) => {
                    &&& chat_history@.len() > 0
                    &&& url_join_of(self.spec_base(), "/v1/chat/completions"@) == Some(req.url@)
                    &&& req.body@ == chat::chat_request_body(chat_history@, *params, false)
                },
                Err(e) => match e {
                    LlamaEdgeError::InvalidArgument(m) => chat_history@.len() == 0 && m@
                        == "chat_history cannot be empty"@,
                    LlamaEdgeError::UrlParse(_) => chat_history@.len() > 0 && url_join_of(
                        self.spec_base(),
                        "/v1/chat/completions"@,
                    ) is None,
                    LlamaEdgeError::Operation(_) => false,
                },
            },
    {
        if chat_history.len() == 0 {
            return Err(LlamaEdgeError::InvalidArgument(String::from_str(
                "chat_history cannot be empty",
            )));
        }
        let url = self.join_path("/v1/chat/completions")?;
        let body = chat::build_chat_request_body(chat_history, params, false);
        Ok(JsonRequest { url, body })
    }

    /// Plans a streaming chat completion request: as `chat_request`,
    /// with the streaming flag set and usage accounting requested.
    pub fn chat_stream_request(
        &self,
        chat_history: &Vec<chat::ChatCompletionRequestMessage>,
        params: &params::ChatParams,
    ) -> (r: Result<JsonRequest, LlamaEdgeError>)
        ensures
            match r {
                Ok(req) => {
                    &&& chat_history@.len() > 0
                    &&& url_join_of(self.spec_base(), "/v1/chat/completions"@) == Some(req.url@)
                    &&& req.body@ == chat::chat_request_body(chat_history@, *params, true)
                },
                Err(e) => match e {
                    LlamaEdgeError::InvalidArgument(m) => chat_history@.len() == 0 && m@
                        == "chat_history cannot be empty"@,
                    LlamaEdgeError::UrlParse(_) => chat_history@.len() > 0 && url_join_of(
                        self.spec_base(),
                        "/v1/chat/completions"@,
                    ) is None,
                    LlamaEdgeError::Operation(_) => false,
                },
            },
    {
        if chat_history.len() == 0 {
            return Err(LlamaEdgeError::InvalidArgument(String::from_str(
                "chat_history cannot be empty",
            )));
        }
        let url = self.join_path("/v1/chat/completions")?;
        let body = chat::build_chat_request_body(chat_history, params, true);
        Ok(JsonRequest { url, body })
    }

    /// Plans an embeddings request.
    pub fn embeddings_request(
        &self,
        input: &embeddings::InputText,
        params: &params::EmbeddingsParams,
    ) -> (r: Result<JsonRequest, LlamaEdgeError>)
        ensures
            match r {
                Ok(req) => {
                    &&& url_join_of(self.spec_base(), "/v1/embeddings"@) == Some(req.url@)
                    &&& req.body@ == embeddings::embeddings_request_body(*input, *params)
                },
                Err(e) => e is UrlParse && url_join_of(self.spec_base(), "/v1/embeddings"@)
                    is None,
            },
    {
        let url = self.join_path("/v1/embeddings")?;
        let body = embeddings::build_embeddings_request_body(input, params);
        Ok(JsonRequest { url, body })
    }

    /// Plans an image generation request.
    pub fn create_image_request(
        &self,
        prompt: &str,
        params: &params::ImageCreateParams,
    ) -> (r: Result<JsonRequest, LlamaEdgeError>)
        ensures
            match r {
                Ok(req) => {
                    &&& url_join_of(self.spec_base(), "/v1/images/generations"@) == Some(req.url@)
                    &&& req.body@ == images::image_create_request_body(prompt@, *params)
                },
                Err(e) => e is UrlParse && url_join_of(
                    self.spec_base(),
                    "/v1/images/generations"@,
                ) is None,
            },
    {
        let url = self.join_path("/v1/images/generations")?;
        let body = images::build_image_create_request_body(prompt, params);
        Ok(JsonRequest { url, body })
    }

    /// Resolves the URL of the model list operation.
    pub fn models_request(&self) -> (r: Result<String, LlamaEdgeError>)
        ensures
            match r {
                Ok(u) => url_join_of(self.spec_base(), "/v1/models"@) == Some(u@),
                Err(e) => e is UrlParse && url_join_of(self.spec_base(), "/v1/models"@) is None,
            },
    {
        self.join_path("/v1/models")
    }

    /// Plans a file upload request from a local file already read by
    /// the application.
    pub fn upload_file_request(&self, file: multipart::LocalFile) -> (r: Result<
        FormRequest,
        LlamaEdgeError,
    >)
        ensures
            match r {
                Ok(req) => {
                    &&& url_join_of(self.spec_base(), "/v1/files"@) == Some(req.url@)
                    &&& req.form@ == multipart::upload_form_parts(file)
                },
                Err(e) => e is UrlParse && url_join_of(self.spec_base(), "/v1/files"@) is None,
            },
    {
        let url = self.join_path("/v1/files")?;
        let form = multipart::build_upload_form(file);
        Ok(FormRequest { url, form })
    }

    /// Plans a transcription request from a local audio file already
    /// read by the application.
    pub fn transcription_request(
        &self,
        audio_file: multipart::LocalFile,
        spoken_language: &str,
        params: &params::TranscriptionParams,
    ) -> (r: Result<FormRequest, LlamaEdgeError>)
        ensures
            match r {
                Ok(req) => {
                    &&& url_join_of(self.spec_base(), "/v1/audio/transcriptions"@) == Some(
                        req.url@,
                    )
                    &&& req.form@ == multipart::transcription_form_parts(
                        audio_file,
                        spoken_language@,
                        *params,
                    )
                },
                Err(e) => e is UrlParse && url_join_of(
                    self.spec_base(),
                    "/v1/audio/transcriptions"@,
                ) is None,
            },
    {
        let url = self.join_path("/v1/audio/transcriptions")?;
        let form = multipart::build_transcription_form(audio_file, spoken_language, params);
        Ok(FormRequest { url, form })
    }

    /// Plans a translation request from a local audio file already
    /// read by the application.
    pub fn translation_request(
        &self,
        audio_file: multipart::LocalFile,
        spoken_language: &str,
        params: &params::TranslationParams,
    ) -> (r: Result<FormRequest, LlamaEdgeError>)
        ensures
            match r {
                Ok(req) => {
                    &&& url_join_of(self.spec_base(), "/v1/audio/translations"@) == Some(req.url@)
                    &&& req.form@ == multipart::translation_form_parts(
                        audio_file,
                        spoken_language@,
                        *params,
                    )
                },
                Err(e) => e is UrlParse && url_join_of(
                    self.spec_base(),
                    "/v1/audio/translations"@,
                ) is None,
            },
    {
        let url = self.join_path("/v1/audio/translations")?;
        let form = multipart::build_translation_form(audio_file, spoken_language, params);
        Ok(FormRequest { url, form })
    }

    /// Plans an image edit request from the image, the optional mask
    /// and the optional control image, each already read by the
    /// application.
    pub fn edit_image_request(
        &self,
        image: multipart::LocalFile,
        prompt: &str,
        params: &params::ImageEditParams,
        mask: Option<multipart::LocalFile>,
        control_image: Option<multipart::LocalFile>,
    ) -> (r: Result<FormRequest, LlamaEdgeError>)
        ensures
            match r {
                Ok(req) => {
                    &&& url_join_of(self.spec_base(), "/v1/images/edits"@) == Some(req.url@)
                    &&& req.form@ == multipart::edit_image_form_parts(
                        image,
                        prompt@,
                        *params,
                        mask,
                        control_image,
                    )
                },
                Err(e) => e is UrlParse && url_join_of(self.spec_base(), "/v1/images/edits"@)
                    is None,
            },
    {
        let url = self.join_path("/v1/images/edits")?;
        let form = multipart::build_edit_image_form(image, prompt, params, mask, control_image);
        Ok(FormRequest { url, form })
    }
}

/// Two clients that hold the same base address resolve every path to the
/// same URL.
pub proof fn lemma_same_base_same_urls(c1: Client, c2: Client, path: Seq<char>)
    requires
        c1.spec_base() == c2.spec_base(),
    ensures
        url_join_of(c1.spec_base(), path) == url_join_of(c2.spec_base(), path),
{
}

/// Base addresses that differ only in trailing slashes normalize to the
/// same stored base.
pub proof fn lemma_trailing_slash_same_base(s: Seq<char>)
    ensures
        trim_end_slashes(s.push('/')) == trim_end_slashes(s),
{
    text::lemma_trim_end_slashes_push(s);
}

} // verus!
