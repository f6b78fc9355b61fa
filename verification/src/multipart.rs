//! The multipart request bodies: named text and binary parts for the
//! file-bearing operations (audio transcription and translation, file
//! upload, image edit).
use vstd::prelude::*;

use crate::error::LlamaEdgeError;
use crate::params::image_response_format_text;
use crate::params::sampling_method_text;
use crate::params::scheduler_text;
use crate::params::ImageEditParams;
use crate::params::TranscriptionParams;
use crate::params::TranslationParams;
use crate::text::bool_string;
use crate::text::bool_text;
use crate::text::find_last;
use crate::text::find_last_char;
use crate::text::i64_dec;
use crate::text::i64_string;
use crate::text::u64_dec;
use crate::text::u64_string;

verus! {

/// A local file handed to the library by the embedding application:
/// the file name, its extension, and the bytes read from disk. The
/// library itself never touches the filesystem.
#[derive(Debug, Clone)]
pub struct LocalFile {
    /// The file name, without directories.
    pub filename: String,
    /// The extension: what follows the last `.` of the file name.
    pub extension: String,
    /// The content of the file.
    pub bytes: Vec<u8>,
}

/// The name component after the last `/` of a path.
pub open spec fn file_name_of(path: Seq<char>) -> Seq<char> {
    match find_last(path, '/') {
        Some(i) => path.skip(i + 1),
        None => path,
    }
}

/// The file name and extension that a path yields: `None` when the
/// path has no final name component or that component has no
/// extension.
pub open spec fn local_file_parts(path: Seq<char>) -> Option<(Seq<char>, Seq<char>)> {
    let name = file_name_of(path);
    if name.len() == 0 || name == "."@ || name == ".."@ {
        None
    } else {
        match find_last(name, '.') {
            Some(j) => if j > 0 {
                Some((name, name.skip(j + 1)))
            } else {
                None
            },
            None => None,
        }
    }
}

impl LocalFile {
    /// Derives the file name and extension from a path (with `/` as
    /// the separator) and attaches the bytes read from the file;
    /// `None` when the path has no name or no extension.
    pub fn from_path(path: &str, bytes: Vec<u8>) -> (r: Option<LocalFile>)
        ensures
            match r {
                Some(f) => {
                    &&& local_file_parts(path@) matches Some(p)
                    &&& f.filename@ == p.0
                    &&& f.extension@ == p.1
                    &&& f.bytes@ == bytes@
                },
                None => local_file_parts(path@) is None,
            },
    {
        let n = path.unicode_len();
        let name = match find_last_char(path, '/') {
            Some(i) => {
                let sub = path.substring_char(i + 1, n);
                proof {
                    assert(sub@ =~= file_name_of(path@));
                }
                String::from_str(sub)
            },
            None => {
                let sub = path.substring_char(0, n);
                proof {
                    assert(sub@ =~= path@);
                }
                String::from_str(sub)
            },
        };
        if name.as_str().is_empty() || crate::text::str_eq(name.as_str(), ".") || crate::text::str_eq(
            name.as_str(),
            "..",
        ) {
            return None;
        }
        match find_last_char(name.as_str(), '.') {
            Some(j) => {
                if j == 0 {
                    None
                } else {
                    let m = name.as_str().unicode_len();
                    let ext = name.as_str().substring_char(j + 1, m);
                    proof {
                        assert(ext@ =~= name@.skip(j + 1));
                    }
                    let ext_string = String::from_str(ext);
                    Some(LocalFile { filename: name, extension: ext_string, bytes })
                }
            },
            None => None,
        }
    }
}

/// What a file stands for in its operation; each operation reports a
/// missing file in its own words.
#[derive(Debug, Clone, Copy, PartialEq, Eq, Structural)]
pub enum LocalFileKind {
    /// The audio file of a transcription or translation.
    Audio,
    /// The image of an image edit.
    Image,
    /// The mask image of an image edit.
    MaskImage,
    /// The control image of an image edit.
    ControlImage,
    /// A file of an upload, reported without its path.
    Generic,
}

/// The report for a missing file of the given kind at `path`.
pub open spec fn missing_file_message(kind: LocalFileKind, path: Seq<char>) -> Seq<char> {
    match kind {
        LocalFileKind::Audio => "The audio file does not exist: "@ + path,
        LocalFileKind::Image => "The image file does not exist: "@ + path,
        LocalFileKind::MaskImage => "The mask image file does not exist: "@ + path,
        LocalFileKind::ControlImage => "The control image file does not exist: "@ + path,
        LocalFileKind::Generic => "The file does not exist"@,
    }
}

/// Checks that a local file exists before any request is built; the
/// application reports the result of the filesystem check, and a
/// missing file is an `InvalidArgument` error worded for its kind.
pub fn validate_local_file(path: &str, exists: bool, kind: LocalFileKind) -> (r: Result<
    (),
    LlamaEdgeError,
>)
    ensures
        exists <==> r is Ok,
        !exists ==> (r matches Err(e) && e matches LlamaEdgeError::InvalidArgument(m) && m@
            == missing_file_message(kind, path@)),
{
    if exists {
        return Ok(());
    }
    let mut m = match kind {
        LocalFileKind::Audio => String::from_str("The audio file does not exist: "),
        LocalFileKind::Image => String::from_str("The image file does not exist: "),
        LocalFileKind::MaskImage => String::from_str("The mask image file does not exist: "),
        LocalFileKind::ControlImage => String::from_str(
            "The control image file does not exist: ",
        ),
        LocalFileKind::Generic => {
            return Err(LlamaEdgeError::InvalidArgument(String::from_str(
                "The file does not exist",
            )));
        },
    };
    m.append(path);
    Err(LlamaEdgeError::InvalidArgument(m))
}

/// The value of a form part: text, or a file with a name and a MIME
/// type.
pub enum PartDataView {
    /// A text part.
    Text(Seq<char>),
    /// A binary file part.
    File { filename: Seq<char>, mime: Seq<char>, bytes: Seq<u8> },
}

/// One named part of a multipart form.
pub struct FormPartView {
    /// The part name.
    pub name: Seq<char>,
    /// The part value.
    pub data: PartDataView,
}

/// The value of a form part.
#[derive(Debug, Clone)]
pub enum PartData {
    /// A text part.
    Text(String),
    /// A binary file part, with its file name and MIME type.
    File(FilePart),
}

/// A binary file part.
#[derive(Debug, Clone)]
pub struct FilePart {
    /// The file name sent with the part.
    pub filename: String,
    /// The MIME type sent with the part.
    pub mime: String,
    /// The raw content.
    pub bytes: Vec<u8>,
}

/// One named part of a multipart form.
#[derive(Debug, Clone)]
pub struct FormPart {
    /// The part name.
    pub name: String,
    /// The part value.
    pub data: PartData,
}

impl View for FormPart {
    type V = FormPartView;

    open spec fn view(&self) -> FormPartView {
        FormPartView {
            name: self.name@,
            data: match self.data {
                PartData::Text(s) => PartDataView::Text(s@),
                PartData::File(f) => PartDataView::File {
                    filename: f.filename@,
                    mime: f.mime@,
                    bytes: f.bytes@,
                },
            },
        }
    }
}

/// A multipart form: an ordered sequence of named parts.
#[derive(Debug, Clone)]
pub struct MultipartForm {
    /// The parts, in the order they are sent.
    pub parts: Vec<FormPart>,
}

impl View for MultipartForm {
    type V = Seq<FormPartView>;

    open spec fn view(&self) -> Seq<FormPartView> {
        self.parts@.map_values(|p: FormPart| p@)
    }
}

/// A text part.
pub open spec fn text_part(name: Seq<char>, value: Seq<char>) -> FormPartView {
    FormPartView { name, data: PartDataView::Text(value) }
}

/// A file part whose MIME type is `prefix` followed by the file's
/// extension.
pub open spec fn file_part(name: Seq<char>, prefix: Seq<char>, f: LocalFile) -> FormPartView {
    FormPartView {
        name,
        data: PartDataView::File {
            filename: f.filename@,
            mime: prefix + f.extension@,
            bytes: f.bytes@,
        },
    }
}

/// An optional text part: absent values produce no part.
pub open spec fn opt_text_part(name: Seq<char>, v: Option<String>) -> Seq<FormPartView> {
    match v {
        Some(x) => seq![text_part(name, x@)],
        None => Seq::empty(),
    }
}

/// The language sent with an audio request: `en` when the caller gave
/// an empty language code.
pub open spec fn lang_or_default(language: Seq<char>) -> Seq<char> {
    if language.len() == 0 {
        "en"@
    } else {
        language
    }
}

fn mk_text_part(name: &str, value: String) -> (r: FormPart)
    ensures
        r@ == text_part(name@, value@),
{
    FormPart { name: String::from_str(name), data: PartData::Text(value) }
}

fn mk_file_part(name: &str, prefix: &str, f: LocalFile) -> (r: FormPart)
    ensures
        r@ == file_part(name@, prefix@, f),
{
    let mut mime = String::from_str(prefix);
    mime.append(f.extension.as_str());
    FormPart {
        name: String::from_str(name),
        data: PartData::File(FilePart { filename: f.filename, mime, bytes: f.bytes }),
    }
}

fn push_opt_text_part(parts: &mut Vec<FormPart>, name: &str, v: &Option<String>)
    ensures
        final(parts)@.map_values(|p: FormPart| p@) == old(parts)@.map_values(|p: FormPart| p@)
            + opt_text_part(name@, *v),
{
    match v {
        Some(x) => {
            let part = mk_text_part(name, x.clone());
            parts.push(part);
            proof {
                assert(final(parts)@.map_values(|p: FormPart| p@) =~= old(parts)@.map_values(
                    |p: FormPart| p@,
                ) + opt_text_part(name@, *v));
            }
        },
        None => {
            proof {
                assert(final(parts)@.map_values(|p: FormPart| p@) =~= old(parts)@.map_values(
                    |p: FormPart| p@,
                ) + opt_text_part(name@, *v));
            }
        },
    }
}

/// The parts of a transcription form, in order: the audio file, the
/// language, every always-sent option in its textual form, and the
/// optional model and prompt.
pub open spec fn transcription_form_parts(
    file: LocalFile,
    language: Seq<char>,
    p: TranscriptionParams,
) -> Seq<FormPartView> {
    seq![
        file_part("file"@, "audio/"@, file),
        text_part("language"@, lang_or_default(language)),
        text_part("response_format"@, p.response_format@),
        text_part("temperature"@, p.temperature@),
        text_part("detect_language"@, bool_text(p.detect_language)),
        text_part("offset_time"@, u64_dec(p.offset_time as int)),
        text_part("duration"@, u64_dec(p.duration as int)),
        text_part("max_context"@, i64_dec(p.max_context as int)),
        text_part("max_len"@, u64_dec(p.max_len as int)),
        text_part("split_on_word"@, bool_text(p.split_on_word)),
        text_part("use_new_context"@, bool_text(p.use_new_context)),
    ] + opt_text_part("model"@, p.model) + opt_text_part("prompt"@, p.prompt)
}

/// The parts of a translation form: as for transcription, with the
/// response format ahead of the language.
pub open spec fn translation_form_parts(
    file: LocalFile,
    language: Seq<char>,
    p: TranslationParams,
) -> Seq<FormPartView> {
    seq![
        file_part("file"@, "audio/"@, file),
        text_part("response_format"@, p.response_format@),
        text_part("language"@, lang_or_default(language)),
        text_part("temperature"@, p.temperature@),
        text_part("detect_language"@, bool_text(p.detect_language)),
        text_part("offset_time"@, u64_dec(p.offset_time as int)),
        text_part("duration"@, u64_dec(p.duration as int)),
        text_part("max_context"@, i64_dec(p.max_context as int)),
        text_part("max_len"@, u64_dec(p.max_len as int)),
        text_part("split_on_word"@, bool_text(p.split_on_word)),
        text_part("use_new_context"@, bool_text(p.use_new_context)),
    ] + opt_text_part("model"@, p.model) + opt_text_part("prompt"@, p.prompt)
}

/// The single part of an upload form: the file itself.
pub open spec fn upload_form_parts(file: LocalFile) -> Seq<FormPartView> {
    seq![file_part("file"@, "audio/"@, file)]
}

/// The parts of an image edit form, in order: the image, the prompt,
/// every always-sent option in its textual form, and the optional
/// user, negative prompt, mask file and control image file.
pub open spec fn edit_image_form_parts(
    image: LocalFile,
    prompt: Seq<char>,
    p: ImageEditParams,
    mask: Option<LocalFile>,
    control_image: Option<LocalFile>,
) -> Seq<FormPartView> {
    seq![
        file_part("file"@, "image/"@, image),
        text_part("prompt"@, prompt),
        text_part("model"@, p.model@),
        text_part("n"@, u64_dec(p.n as int)),
        text_part("response_format"@, image_response_format_text(p.response_format)),
        text_part("cfg_scale"@, p.cfg_scale@),
        text_part("sample_method"@, sampling_method_text(p.sample_method)),
        text_part("steps"@, u64_dec(p.steps as int)),
        text_part("height"@, u64_dec(p.height as int)),
        text_part("width"@, u64_dec(p.width as int)),
        text_part("control_strength"@, p.control_strength@),
        text_part("seed"@, i64_dec(p.seed as int)),
        text_part("strength"@, p.strength@),
        text_part("scheduler"@, scheduler_text(p.scheduler)),
        text_part("apply_canny_preprocessor"@, bool_text(p.apply_canny_preprocessor)),
        text_part("style_ratio"@, p.style_ratio@),
    ] + opt_text_part("user"@, p.user) + opt_text_part("negative_prompt"@, p.negative_prompt)
        + (match mask {
        Some(f) => seq![file_part("mask"@, "image/"@, f)],
        None => Seq::empty(),
    }) + (match control_image {
        Some(f) => seq![file_part("control_image"@, "image/"@, f)],
        None => Seq::empty(),
    })
}

/// Builds the transcription form.
pub fn build_transcription_form(
    file: LocalFile,
    spoken_language: &str,
    params: &TranscriptionParams,
) -> (r: MultipartForm)
    ensures
        r@ == transcription_form_parts(file, spoken_language@, *params),
{
    let mut parts: Vec<FormPart> = Vec::new();
    parts.push(mk_file_part("file", "audio/", file));
    let language = if spoken_language.is_empty() {
        String::from_str("en")
    } else {
        String::from_str(spoken_language)
    };
    parts.push(mk_text_part("language", language));
    parts.push(mk_text_part("response_format", params.response_format.clone()));
    parts.push(mk_text_part("temperature", params.temperature.clone()));
    parts.push(mk_text_part("detect_language", bool_string(params.detect_language)));
    parts.push(mk_text_part("offset_time", u64_string(params.offset_time)));
    parts.push(mk_text_part("duration", u64_string(params.duration)));
    parts.push(mk_text_part("max_context", i64_string(params.max_context as i64)));
    parts.push(mk_text_part("max_len", u64_string(params.max_len)));
    parts.push(mk_text_part("split_on_word", bool_string(params.split_on_word)));
    parts.push(mk_text_part("use_new_context", bool_string(params.use_new_context)));
    push_opt_text_part(&mut parts, "model", &params.model);
    push_opt_text_part(&mut parts, "prompt", &params.prompt);
    let form = MultipartForm { parts };
    proof {
        assert(form@ =~= transcription_form_parts(file, spoken_language@, *params));
    }
    form
}

/// Builds the translation form.
pub fn build_translation_form(
    file: LocalFile,
    spoken_language: &str,
    params: &TranslationParams,
) -> (r: MultipartForm)
    ensures
        r@ == translation_form_parts(file, spoken_language@, *params),
{
    let mut parts: Vec<FormPart> = Vec::new();
    parts.push(mk_file_part("file", "audio/", file));
    parts.push(mk_text_part("response_format", params.response_format.clone()));
    let language = if spoken_language.is_empty() {
        String::from_str("en")
    } else {
        String::from_str(spoken_language)
    };
    parts.push(mk_text_part("language", language));
    parts.push(mk_text_part("temperature", params.temperature.clone()));
    parts.push(mk_text_part("detect_language", bool_string(params.detect_language)));
    parts.push(mk_text_part("offset_time", u64_string(params.offset_time)));
    parts.push(mk_text_part("duration", u64_string(params.duration)));
    parts.push(mk_text_part("max_context", i64_string(params.max_context as i64)));
    parts.push(mk_text_part("max_len", u64_string(params.max_len)));
    parts.push(mk_text_part("split_on_word", bool_string(params.split_on_word)));
    parts.push(mk_text_part("use_new_context", bool_string(params.use_new_context)));
    push_opt_text_part(&mut parts, "model", &params.model);
    push_opt_text_part(&mut parts, "prompt", &params.prompt);
    let form = MultipartForm { parts };
    proof {
        assert(form@ =~= translation_form_parts(file, spoken_language@, *params));
    }
    form
}

/// Builds the upload form.
pub fn build_upload_form(file: LocalFile) -> (r: MultipartForm)
    ensures
        r@ == upload_form_parts(file),
{
    let mut parts: Vec<FormPart> = Vec::new();
    parts.push(mk_file_part("file", "audio/", file));
    let form = MultipartForm { parts };
    proof {
        assert(form@ =~= upload_form_parts(file));
    }
    form
}

/// Builds the image edit form.
#[verifier::rlimit(100)]
pub fn build_edit_image_form(
    image: LocalFile,
    prompt: &str,
    params: &ImageEditParams,
    mask: Option<LocalFile>,
    control_image: Option<LocalFile>,
) -> (r: MultipartForm)
    ensures
        r@ == edit_image_form_parts(image, prompt@, *params, mask, control_image),
{
    let mut parts: Vec<FormPart> = Vec::new();
    parts.push(mk_file_part("file", "image/", image));
    parts.push(mk_text_part("prompt", String::from_str(prompt)));
    parts.push(mk_text_part("model", params.model.clone()));
    parts.push(mk_text_part("n", u64_string(params.n)));
    parts.push(
        mk_text_part("response_format", String::from_str(params.response_format.as_text())),
    );
    parts.push(mk_text_part("cfg_scale", params.cfg_scale.clone()));
    parts.push(mk_text_part("sample_method", String::from_str(params.sample_method.as_text())));
    parts.push(mk_text_part("steps", u64_string(params.steps as u64)));
    parts.push(mk_text_part("height", u64_string(params.height as u64)));
    parts.push(mk_text_part("width", u64_string(params.width as u64)));
    parts.push(mk_text_part("control_strength", params.control_strength.clone()));
    parts.push(mk_text_part("seed", i64_string(params.seed as i64)));
    parts.push(mk_text_part("strength", params.strength.clone()));
    parts.push(mk_text_part("scheduler", String::from_str(params.scheduler.as_text())));
    parts.push(
        mk_text_part("apply_canny_preprocessor", bool_string(params.apply_canny_preprocessor)),
    );
    parts.push(mk_text_part("style_ratio", params.style_ratio.clone()));
    push_opt_text_part(&mut parts, "user", &params.user);
    push_opt_text_part(&mut parts, "negative_prompt", &params.negative_prompt);
    match mask {
        Some(f) => {
            let ghost before = parts@.map_values(|p: FormPart| p@);
            parts.push(mk_file_part("mask", "image/", f));
            proof {
                assert(parts@.map_values(|p: FormPart| p@) =~= before + seq![
                    file_part("mask"@, "image/"@, f),
                ]);
            }
        },
        None => {},
    }
    match control_image {
        Some(f) => {
            let ghost before = parts@.map_values(|p: FormPart| p@);
            parts.push(mk_file_part("control_image", "image/", f));
            proof {
                assert(parts@.map_values(|p: FormPart| p@) =~= before + seq![
                    file_part("control_image"@, "image/"@, f),
                ]);
            }
        },
        None => {},
    }
    let form = MultipartForm { parts };
    proof {
        assert(form@ =~= edit_image_form_parts(image, prompt@, *params, mask, control_image));
    }
    form
}

/// Multipart forms are a function of their arguments alone: two forms
/// built from the same file, language and bundle hold identical parts.
/// The same holds of the translation, upload and image edit forms by
/// the contracts of their builders.
pub proof fn lemma_transcription_form_deterministic(
    f1: Seq<FormPartView>,
    f2: Seq<FormPartView>,
    file: LocalFile,
    language: Seq<char>,
    p: TranscriptionParams,
)
    requires
        f1 == transcription_form_parts(file, language, p),
        f2 == transcription_form_parts(file, language, p),
    ensures
        f1 == f2,
{
}

} // verus!
