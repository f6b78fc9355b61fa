//! Parameter bundles: one defaulted configuration structure per remote
//! operation.
//!
//! The client never interprets numeric sampling options; it forwards
//! them verbatim. Options that the wire carries as decimal numbers
//! (temperatures, penalties, scales) are therefore held as their decimal
//! text, which is spliced into the request body exactly as given.
use vstd::prelude::*;

use crate::response::FileObject;

verus! {

/// Format that the chat model must output; the wire carries it as
/// `{"type": ...}` with `text` or `json_object`.
#[derive(Debug, Clone)]
pub struct ChatResponseFormat {
    /// Must be one of `text` or `json_object`. Defaults to `text`.
    pub ty: String,
}

impl Default for ChatResponseFormat {
    fn default() -> (r: Self)
        ensures
            r.ty@ == "text"@,
    {
        ChatResponseFormat { ty: String::from_str("text") }
    }
}

/// A tool the model may generate JSON inputs for.
#[derive(Debug, Clone)]
pub struct Tool {
    /// The type of the tool. Currently, only `function` is supported.
    pub ty: String,
    /// Function the model may generate JSON inputs for.
    pub function: ToolFunction,
}

/// A function made available to the model.
#[derive(Debug, Clone)]
pub struct ToolFunction {
    /// The name of the function.
    pub name: String,
    /// A description of what the function does.
    pub description: Option<String>,
    /// The parameter schema of the function, as a raw JSON text that is
    /// spliced into the request body verbatim.
    pub parameters: Option<String>,
}

/// A specific tool the model is forced to call.
#[derive(Debug, Clone)]
pub struct ToolChoiceTool {
    /// The type of the tool. Currently, only `function` is supported.
    pub ty: String,
    /// The function the model calls.
    pub function: ToolChoiceToolFunction,
}

/// The function named by a forced tool choice.
#[derive(Debug, Clone)]
pub struct ToolChoiceToolFunction {
    /// The name of the function to call.
    pub name: String,
}

/// Controls which (if any) function is called by the model; the wire
/// carries `"none"`, `"auto"`, `"required"`, or the named tool.
#[derive(Debug, Clone)]
pub enum ToolChoice {
    /// The model will not call a function.
    NoTool,
    /// The model picks between a message and a function call.
    Auto,
    /// The model must call one or more tools.
    Required,
    /// The model must call the given tool.
    Tool(ToolChoiceTool),
}

/// Parameters for the chat completion API.
#[derive(Debug, Clone)]
pub struct ChatParams {
    /// The model to use for generating completions.
    pub model: Option<String>,
    /// Randomness of the generated text, between 0.0 and 2.0, as decimal
    /// text. Defaults to `1.0`.
    pub temperature: Option<String>,
    /// Nucleus sampling threshold, between 0.0 and 1.0, as decimal text.
    /// Defaults to `1.0`.
    pub top_p: Option<String>,
    /// How many chat completion choices to generate for each input
    /// message. Defaults to 1.
    pub n_choice: Option<u64>,
    /// A list of tokens at which to stop generation. Defaults to `None`.
    pub stop: Option<Vec<String>>,
    /// The maximum number of tokens to generate. Defaults to 1024.
    pub max_tokens: Option<u64>,
    /// An upper bound for the number of generated tokens. Defaults to
    /// -1, which means no upper bound.
    pub max_completion_tokens: Option<i32>,
    /// Presence penalty, between -2.0 and 2.0, as decimal text.
    /// Defaults to `0.0`.
    pub presence_penalty: Option<String>,
    /// Frequency penalty, between -2.0 and 2.0, as decimal text.
    /// Defaults to `0.0`.
    pub frequency_penalty: Option<String>,
    /// A unique identifier representing the end-user.
    pub user: Option<String>,
    /// Format that the model must output.
    pub response_format: Option<ChatResponseFormat>,
    /// A list of tools the model may call.
    pub tools: Option<Vec<Tool>>,
    /// Controls which (if any) function is called by the model.
    pub tool_choice: Option<ToolChoice>,
}

/// The documented default chat parameters.
pub open spec fn chat_params_default(p: ChatParams) -> bool {
    &&& p.model is None
    &&& p.temperature matches Some(t) && t@ == "1.0"@
    &&& p.top_p matches Some(t) && t@ == "1.0"@
    &&& p.n_choice == Some(1u64)
    &&& p.stop is None
    &&& p.max_tokens == Some(1024u64)
    &&& p.max_completion_tokens == Some(-1i32)
    &&& p.presence_penalty matches Some(t) && t@ == "0.0"@
    &&& p.frequency_penalty matches Some(t) && t@ == "0.0"@
    &&& p.user is None
    &&& p.response_format is None
    &&& p.tools is None
    &&& p.tool_choice is None
}

impl Default for ChatParams {
    fn default() -> (r: Self)
        ensures
            chat_params_default(r),
    {
        ChatParams {
            model: None,
            temperature: Some(String::from_str("1.0")),
            top_p: Some(String::from_str("1.0")),
            n_choice: Some(1),
            stop: None,
            max_tokens: Some(1024),
            max_completion_tokens: Some(-1),
            presence_penalty: Some(String::from_str("0.0")),
            frequency_penalty: Some(String::from_str("0.0")),
            user: None,
            response_format: None,
            tools: None,
            tool_choice: None,
        }
    }
}

/// The configuration for the VectorDB server.
#[derive(Debug, Clone)]
pub struct RagVdbConfig {
    /// The URL of the VectorDB server.
    pub server_url: String,
    /// The names of the collections in VectorDB.
    pub collection_name: Vec<String>,
    /// Max number of retrieved results, one value per collection.
    pub limit: Vec<u64>,
    /// The score threshold for the retrieved results, one decimal text
    /// value per collection.
    pub score_threshold: Vec<String>,
    /// The API key for the VectorDB server.
    pub api_key: Option<String>,
}

/// Parameters for the RAG chat completion API.
#[derive(Debug, Clone)]
pub struct RagChatParams {
    /// The model to use for generating completions.
    pub model: Option<String>,
    /// Randomness of the generated text, as decimal text. Defaults to
    /// `0.8`.
    pub temperature: String,
    /// Nucleus sampling threshold, as decimal text. Defaults to `0.9`.
    pub top_p: String,
    /// How many chat completion choices to generate for each input
    /// message. Defaults to 1.
    pub n_choice: u64,
    /// A list of tokens at which to stop generation. Defaults to `None`.
    pub stop: Option<Vec<String>>,
    /// The maximum number of tokens to generate. Defaults to 1024.
    pub max_tokens: u64,
    /// An upper bound for the number of generated tokens. Defaults to
    /// -1, which means no upper bound.
    pub max_completion_tokens: i32,
    /// Presence penalty, as decimal text. Defaults to `0.0`.
    pub presence_penalty: String,
    /// Frequency penalty, as decimal text. Defaults to `0.0`.
    pub frequency_penalty: String,
    /// A unique identifier representing the end-user.
    pub user: Option<String>,
    /// Format that the model must output.
    pub response_format: Option<ChatResponseFormat>,
    /// A list of tools the model may call.
    pub tools: Option<Vec<Tool>>,
    /// Controls which (if any) function is called by the model.
    pub tool_choice: Option<ToolChoice>,
    /// Number of user messages to use for context retrieval. Defaults
    /// to 1.
    pub context_window: u64,
    /// The configuration for the VectorDB server.
    pub vdb_config: Option<RagVdbConfig>,
}

/// The documented default RAG chat parameters.
pub open spec fn rag_chat_params_default(p: RagChatParams) -> bool {
    &&& p.model is None
    &&& p.temperature@ == "0.8"@
    &&& p.top_p@ == "0.9"@
    &&& p.n_choice == 1u64
    &&& p.stop is None
    &&& p.max_tokens == 1024u64
    &&& p.max_completion_tokens == -1i32
    &&& p.presence_penalty@ == "0.0"@
    &&& p.frequency_penalty@ == "0.0"@
    &&& p.user is None
    &&& p.response_format is None
    &&& p.tools is None
    &&& p.tool_choice is None
    &&& p.context_window == 1u64
    &&& p.vdb_config is None
}

impl Default for RagChatParams {
    fn default() -> (r: Self)
        ensures
            rag_chat_params_default(r),
    {
        RagChatParams {
            model: None,
            temperature: String::from_str("0.8"),
            top_p: String::from_str("0.9"),
            n_choice: 1,
            stop: None,
            max_tokens: 1024,
            max_completion_tokens: -1,
            presence_penalty: String::from_str("0.0"),
            frequency_penalty: String::from_str("0.0"),
            user: None,
            response_format: None,
            tools: None,
            tool_choice: None,
            context_window: 1,
            vdb_config: None,
        }
    }
}

/// The timestamp granularities of a transcription.
#[derive(Debug, Clone, Copy, PartialEq, Eq, Structural)]
pub enum TimestampGranularity {
    /// Word-level timestamps.
    Word,
    /// Segment-level timestamps.
    Segment,
}

/// Parameters for the transcription API.
#[derive(Debug, Clone)]
pub struct TranscriptionParams {
    /// ID of the model to use.
    pub model: Option<String>,
    /// An optional text to guide the model's style or continue a
    /// previous audio segment.
    pub prompt: Option<String>,
    /// The format of the transcript output: `json`, `text`, `srt`,
    /// `verbose_json`, or `vtt`. Defaults to `json`.
    pub response_format: String,
    /// The sampling temperature, between 0 and 1, as decimal text.
    /// Defaults to `0`.
    pub temperature: String,
    /// The timestamp granularities to populate for this transcription.
    pub timestamp_granularities: Option<Vec<TimestampGranularity>>,
    /// Automatically detect the spoken language in the provided audio
    /// input. Defaults to false.
    pub detect_language: bool,
    /// Time offset in milliseconds. Defaults to 0.
    pub offset_time: u64,
    /// Length of audio (in seconds) to be processed starting from the
    /// offset. Defaults to 0.
    pub duration: u64,
    /// Maximum amount of text context (in tokens) used when processing
    /// long audio inputs incrementally. Defaults to -1.
    pub max_context: i32,
    /// Maximum number of tokens per transcription segment. Defaults
    /// to 0.
    pub max_len: u64,
    /// Split audio chunks on word rather than on token. Defaults to
    /// false.
    pub split_on_word: bool,
    /// Use the new computation context. Defaults to false.
    pub use_new_context: bool,
}

/// The documented default transcription parameters.
pub open spec fn transcription_params_default(p: TranscriptionParams) -> bool {
    &&& p.model is None
    &&& p.prompt is None
    &&& p.response_format@ == "json"@
    &&& p.temperature@ == "0"@
    &&& p.timestamp_granularities matches Some(g) && g@ == seq![TimestampGranularity::Segment]
    &&& p.detect_language == false
    &&& p.offset_time == 0u64
    &&& p.duration == 0u64
    &&& p.max_context == -1i32
    &&& p.max_len == 0u64
    &&& p.split_on_word == false
    &&& p.use_new_context == false
}

impl Default for TranscriptionParams {
    fn default() -> (r: Self)
        ensures
            transcription_params_default(r),
    {
        let mut granularities: Vec<TimestampGranularity> = Vec::new();
        granularities.push(TimestampGranularity::Segment);
        proof {
            assert(granularities@ =~= seq![TimestampGranularity::Segment]);
        }
        TranscriptionParams {
            model: None,
            prompt: None,
            response_format: String::from_str("json"),
            temperature: String::from_str("0"),
            timestamp_granularities: Some(granularities),
            detect_language: false,
            offset_time: 0,
            duration: 0,
            max_context: -1,
            max_len: 0,
            split_on_word: false,
            use_new_context: false,
        }
    }
}

/// Parameters for the translation API.
#[derive(Debug, Clone)]
pub struct TranslationParams {
    /// ID of the model to use.
    pub model: Option<String>,
    /// An optional text to guide the model's style; it should be in
    /// English.
    pub prompt: Option<String>,
    /// The format of the transcript output: `json`, `text`, `srt`,
    /// `verbose_json`, or `vtt`. Defaults to `json`.
    pub response_format: String,
    /// The sampling temperature, between 0 and 1, as decimal text.
    /// Defaults to `0`.
    pub temperature: String,
    /// Automatically detect the spoken language in the provided audio
    /// input. Defaults to false.
    pub detect_language: bool,
    /// Time offset in milliseconds. Defaults to 0.
    pub offset_time: u64,
    /// Length of audio (in seconds) to be processed starting from the
    /// offset. Defaults to 0.
    pub duration: u64,
    /// Maximum amount of text context (in tokens) used when processing
    /// long audio inputs incrementally. Defaults to -1.
    pub max_context: i32,
    /// Maximum number of tokens per transcription segment. Defaults
    /// to 0.
    pub max_len: u64,
    /// Split audio chunks on word rather than on token. Defaults to
    /// false.
    pub split_on_word: bool,
    /// Use the new computation context. Defaults to false.
    pub use_new_context: bool,
}

/// The documented default translation parameters.
pub open spec fn translation_params_default(p: TranslationParams) -> bool {
    &&& p.model is None
    &&& p.prompt is None
    &&& p.response_format@ == "json"@
    &&& p.temperature@ == "0"@
    &&& p.detect_language == false
    &&& p.offset_time == 0u64
    &&& p.duration == 0u64
    &&& p.max_context == -1i32
    &&& p.max_len == 0u64
    &&& p.split_on_word == false
    &&& p.use_new_context == false
}

impl Default for TranslationParams {
    fn default() -> (r: Self)
        ensures
            translation_params_default(r),
    {
        TranslationParams {
            model: None,
            prompt: None,
            response_format: String::from_str("json"),
            temperature: String::from_str("0"),
            detect_language: false,
            offset_time: 0,
            duration: 0,
            max_context: -1,
            max_len: 0,
            split_on_word: false,
            use_new_context: false,
        }
    }
}

/// Parameters for the embeddings API.
#[derive(Debug, Clone)]
pub struct EmbeddingsParams {
    /// ID of the model to use.
    pub model: Option<String>,
    /// The format to return the embeddings in: `float` or `base64`.
    /// Defaults to `float`.
    pub encoding_format: String,
    /// A unique identifier representing the end-user.
    pub user: Option<String>,
    /// The URL of the VectorDB server, forwarded without
    /// interpretation.
    pub vdb_server_url: Option<String>,
    /// The name of the collection in VectorDB, forwarded without
    /// interpretation.
    pub vdb_collection_name: Option<String>,
    /// The API key for the VectorDB server, forwarded without
    /// interpretation.
    pub vdb_api_key: Option<String>,
}

/// The documented default embeddings parameters.
pub open spec fn embeddings_params_default(p: EmbeddingsParams) -> bool {
    &&& p.model is None
    &&& p.encoding_format@ == "float"@
    &&& p.user is None
    &&& p.vdb_server_url is None
    &&& p.vdb_collection_name is None
    &&& p.vdb_api_key is None
}

impl Default for EmbeddingsParams {
    fn default() -> (r: Self)
        ensures
            embeddings_params_default(r),
    {
        EmbeddingsParams {
            model: None,
            encoding_format: String::from_str("float"),
            user: None,
            vdb_server_url: None,
            vdb_collection_name: None,
            vdb_api_key: None,
        }
    }
}

/// Sampling method of the image generation endpoint.
#[derive(Debug, Clone, Copy, PartialEq, Eq, Structural)]
pub enum SamplingMethod {
    Euler,
    EulerA,
    Heun,
    Dpm2,
    DpmPlusPlus2sA,
    DpmPlusPlus2m,
    DpmPlusPlus2mv2,
    Ipndm,
    IpndmV,
    Lcm,
}

/// The wire name of a sampling method.
pub open spec fn sampling_method_text(m: SamplingMethod) -> Seq<char> {
    match m {
        SamplingMethod::Euler => "euler"@,
        SamplingMethod::EulerA => "euler_a"@,
        SamplingMethod::Heun => "heun"@,
        SamplingMethod::Dpm2 => "dpm2"@,
        SamplingMethod::DpmPlusPlus2sA => "dpm++2s_a"@,
        SamplingMethod::DpmPlusPlus2m => "dpm++2m"@,
        SamplingMethod::DpmPlusPlus2mv2 => "dpm++2mv2"@,
        SamplingMethod::Ipndm => "ipndm"@,
        SamplingMethod::IpndmV => "ipndm_v"@,
        SamplingMethod::Lcm => "lcm"@,
    }
}

impl SamplingMethod {
    /// The wire name of the sampling method.
    pub fn as_text(&self) -> (r: &'static str)
        ensures
            r@ == sampling_method_text(*self),
    {
        match self {
            SamplingMethod::Euler => "euler",
            SamplingMethod::EulerA => "euler_a",
            SamplingMethod::Heun => "heun",
            SamplingMethod::Dpm2 => "dpm2",
            SamplingMethod::DpmPlusPlus2sA => "dpm++2s_a",
            SamplingMethod::DpmPlusPlus2m => "dpm++2m",
            SamplingMethod::DpmPlusPlus2mv2 => "dpm++2mv2",
            SamplingMethod::Ipndm => "ipndm",
            SamplingMethod::IpndmV => "ipndm_v",
            SamplingMethod::Lcm => "lcm",
        }
    }
}

/// Denoiser sigma scheduler of the image generation endpoint.
#[derive(Debug, Clone, Copy, PartialEq, Eq, Structural)]
pub enum Scheduler {
    Discrete,
    Karras,
    Exponential,
    Ays,
    Gits,
}

/// The wire name of a scheduler.
pub open spec fn scheduler_text(s: Scheduler) -> Seq<char> {
    match s {
        Scheduler::Discrete => "discrete"@,
        Scheduler::Karras => "karras"@,
        Scheduler::Exponential => "exponential"@,
        Scheduler::Ays => "ays"@,
        Scheduler::Gits => "gits"@,
    }
}

impl Scheduler {
    /// The wire name of the scheduler.
    pub fn as_text(&self) -> (r: &'static str)
        ensures
            r@ == scheduler_text(*self),
    {
        match self {
            Scheduler::Discrete => "discrete",
            Scheduler::Karras => "karras",
            Scheduler::Exponential => "exponential",
            Scheduler::Ays => "ays",
            Scheduler::Gits => "gits",
        }
    }
}

/// The format in which generated images are returned.
#[derive(Debug, Clone, Copy, PartialEq, Eq, Structural)]
pub enum ImageResponseFormat {
    /// The image is returned as a URL.
    Url,
    /// The image is returned as base64-encoded JSON.
    B64Json,
}

/// The wire name of an image response format.
pub open spec fn image_response_format_text(f: ImageResponseFormat) -> Seq<char> {
    match f {
        ImageResponseFormat::Url => "url"@,
        ImageResponseFormat::B64Json => "b64_json"@,
    }
}

impl ImageResponseFormat {
    /// The wire name of the image response format.
    pub fn as_text(&self) -> (r: &'static str)
        ensures
            r@ == image_response_format_text(*self),
    {
        match self {
            ImageResponseFormat::Url => "url",
            ImageResponseFormat::B64Json => "b64_json",
        }
    }
}

/// Parameters for the image generation API.
#[derive(Debug, Clone)]
pub struct ImageCreateParams {
    /// Negative prompt for the image generation.
    pub negative_prompt: Option<String>,
    /// Name of the model to use for image generation.
    pub model: String,
    /// Number of images to generate. Defaults to 1.
    pub n: u64,
    /// The format in which the generated images are returned. Defaults
    /// to `Url`.
    pub response_format: ImageResponseFormat,
    /// A unique identifier representing the end-user.
    pub user: Option<String>,
    /// Unconditional guidance scale, as decimal text. Defaults to `7.0`.
    pub cfg_scale: String,
    /// Sampling method. Defaults to `euler_a`.
    pub sample_method: SamplingMethod,
    /// Number of sample steps. Defaults to 20.
    pub steps: usize,
    /// Image height, in pixel space. Defaults to 512.
    pub height: usize,
    /// Image width, in pixel space. Defaults to 512.
    pub width: usize,
    /// Strength to apply Control Net, as decimal text. Defaults to
    /// `0.9`.
    pub control_strength: String,
    /// The image to control the generation: a file previously uploaded
    /// to the server.
    pub control_image: Option<FileObject>,
    /// RNG seed. Negative value means to use random seed. Defaults
    /// to 42.
    pub seed: i32,
    /// Strength for noising/unnoising, as decimal text. Defaults to
    /// `0.75`.
    pub strength: String,
    /// Denoiser sigma scheduler. Defaults to `discrete`.
    pub scheduler: Scheduler,
    /// Apply canny preprocessor. Defaults to false.
    pub apply_canny_preprocessor: bool,
    /// Strength for keeping input identity, as decimal text. Defaults
    /// to `0.2`.
    pub style_ratio: String,
}

/// The documented default image generation parameters.
pub open spec fn image_create_params_default(p: ImageCreateParams) -> bool {
    &&& p.negative_prompt is None
    &&& p.model@ == Seq::<char>::empty()
    &&& p.n == 1u64
    &&& p.response_format == ImageResponseFormat::Url
    &&& p.user is None
    &&& p.cfg_scale@ == "7.0"@
    &&& p.sample_method == SamplingMethod::EulerA
    &&& p.steps == 20usize
    &&& p.height == 512usize
    &&& p.width == 512usize
    &&& p.control_strength@ == "0.9"@
    &&& p.control_image is None
    &&& p.seed == 42i32
    &&& p.strength@ == "0.75"@
    &&& p.scheduler == Scheduler::Discrete
    &&& p.apply_canny_preprocessor == false
    &&& p.style_ratio@ == "0.2"@
}

impl Default for ImageCreateParams {
    fn default() -> (r: Self)
        ensures
            image_create_params_default(r),
    {
        ImageCreateParams {
            negative_prompt: None,
            model: String::new(),
            n: 1,
            response_format: ImageResponseFormat::Url,
            user: None,
            cfg_scale: String::from_str("7.0"),
            sample_method: SamplingMethod::EulerA,
            steps: 20,
            height: 512,
            width: 512,
            control_strength: String::from_str("0.9"),
            control_image: None,
            seed: 42,
            strength: String::from_str("0.75"),
            scheduler: Scheduler::Discrete,
            apply_canny_preprocessor: false,
            style_ratio: String::from_str("0.2"),
        }
    }
}

/// Parameters for the image edit API.
#[derive(Debug, Clone)]
pub struct ImageEditParams {
    /// Negative prompt for the image generation.
    pub negative_prompt: Option<String>,
    /// The path of an additional image whose fully transparent areas
    /// indicate where the input image should be edited.
    pub mask: Option<String>,
    /// The model to use for image generation.
    pub model: String,
    /// The number of images to generate. Defaults to 1.
    pub n: u64,
    /// The format in which the generated images are returned. Defaults
    /// to `Url`.
    pub response_format: ImageResponseFormat,
    /// A unique identifier representing the end-user.
    pub user: Option<String>,
    /// Unconditional guidance scale, as decimal text. Defaults to `7`.
    pub cfg_scale: String,
    /// Sampling method. Defaults to `euler_a`.
    pub sample_method: SamplingMethod,
    /// Number of sample steps. Defaults to 20.
    pub steps: usize,
    /// Image height, in pixel space. Defaults to 512.
    pub height: usize,
    /// Image width, in pixel space. Defaults to 512.
    pub width: usize,
    /// Strength to apply Control Net, as decimal text. Defaults to
    /// `0.9`.
    pub control_strength: String,
    /// The path of the image to control the generation.
    pub control_image: Option<String>,
    /// RNG seed. Negative value means to use random seed. Defaults
    /// to 42.
    pub seed: i32,
    /// Strength for noising/unnoising, as decimal text. Defaults to
    /// `0.75`.
    pub strength: String,
    /// Denoiser sigma scheduler. Defaults to `discrete`.
    pub scheduler: Scheduler,
    /// Apply canny preprocessor. Defaults to false.
    pub apply_canny_preprocessor: bool,
    /// Strength for keeping input identity, as decimal text. Defaults
    /// to `0.2`.
    pub style_ratio: String,
}

/// The documented default image edit parameters.
pub open spec fn image_edit_params_default(p: ImageEditParams) -> bool {
    &&& p.negative_prompt is None
    &&& p.mask is None
    &&& p.model@ == Seq::<char>::empty()
    &&& p.n == 1u64
    &&& p.response_format == ImageResponseFormat::Url
    &&& p.user is None
    &&& p.cfg_scale@ == "7"@
    &&& p.sample_method == SamplingMethod::EulerA
    &&& p.steps == 20usize
    &&& p.height == 512usize
    &&& p.width == 512usize
    &&& p.control_strength@ == "0.9"@
    &&& p.control_image is None
    &&& p.seed == 42i32
    &&& p.strength@ == "0.75"@
    &&& p.scheduler == Scheduler::Discrete
    &&& p.apply_canny_preprocessor == false
    &&& p.style_ratio@ == "0.2"@
}

impl Default for ImageEditParams {
    fn default() -> (r: Self)
        ensures
            image_edit_params_default(r),
    {
        ImageEditParams {
            negative_prompt: None,
            mask: None,
            model: String::new(),
            n: 1,
            response_format: ImageResponseFormat::Url,
            user: None,
            cfg_scale: String::from_str("7"),
            sample_method: SamplingMethod::EulerA,
            steps: 20,
            height: 512,
            width: 512,
            control_strength: String::from_str("0.9"),
            control_image: None,
            seed: 42,
            strength: String::from_str("0.75"),
            scheduler: Scheduler::Discrete,
            apply_canny_preprocessor: false,
            style_ratio: String::from_str("0.2"),
        }
    }
}

} // verus!
