//! The image generation request body.
use vstd::prelude::*;

use crate::json::json_str;
use crate::json::push_json_string;
use crate::params::image_response_format_text;
use crate::params::sampling_method_text;
use crate::params::scheduler_text;
use crate::params::ImageCreateParams;
use crate::response::FileObject;
use crate::text::bool_text;
use crate::text::i64_dec;
use crate::text::push_bool;
use crate::text::push_i64_dec;
use crate::text::push_u64_dec;
use crate::text::u64_dec;

verus! {

/// The wire form of a file object attached to a request.
pub open spec fn file_object_json(f: FileObject) -> Seq<char> {
    "{\"id\":"@ + json_str(f.id@) + ",\"bytes\":"@ + u64_dec(f.bytes as int)
        + ",\"created_at\":"@ + u64_dec(f.created_at as int) + ",\"filename\":"@ + json_str(
        f.filename@,
    ) + ",\"object\":"@ + json_str(f.object@) + ",\"purpose\":"@ + json_str(f.purpose@) + "}"@
}

/// The head of the image generation body: prompt, negative prompt
/// (empty when absent), model, count, quality and formats.
pub open spec fn image_create_head(prompt: Seq<char>, p: ImageCreateParams) -> Seq<char> {
    "{\"prompt\":"@ + json_str(prompt) + ",\"negative_prompt\":"@ + json_str(
        match p.negative_prompt {
            Some(s) => s@,
            None => Seq::<char>::empty(),
        },
    ) + ",\"model\":"@ + json_str(p.model@) + ",\"n\":"@ + u64_dec(p.n as int)
        + ",\"quality\":\"standard\",\"response_format\":"@ + json_str(
        image_response_format_text(p.response_format),
    ) + ",\"style\":\"natural\""@
}

/// The sampling section of the image generation body.
pub open spec fn image_create_sampling(p: ImageCreateParams) -> Seq<char> {
    crate::chat::user_field(p.user) + ",\"cfg_scale\":"@ + p.cfg_scale@ + ",\"sample_method\":"@
        + json_str(sampling_method_text(p.sample_method)) + ",\"steps\":"@ + u64_dec(
        p.steps as int,
    ) + ",\"height\":"@ + u64_dec(p.height as int) + ",\"width\":"@ + u64_dec(p.width as int)
        + ",\"control_strength\":"@ + p.control_strength@
}

/// The tail of the image generation body: control image, seed,
/// strength, scheduler, preprocessing and style ratio.
pub open spec fn image_create_tail(p: ImageCreateParams) -> Seq<char> {
    (match p.control_image {
        Some(f) => ",\"control_image\":"@ + file_object_json(f),
        None => Seq::<char>::empty(),
    }) + ",\"seed\":"@ + i64_dec(p.seed as int) + ",\"strength\":"@ + p.strength@
        + ",\"scheduler\":"@ + json_str(scheduler_text(p.scheduler))
        + ",\"apply_canny_preprocessor\":"@ + bool_text(p.apply_canny_preprocessor)
        + ",\"style_ratio\":"@ + p.style_ratio@ + "}"@
}

/// The image generation request body for `prompt` and the bundle `p`.
pub open spec fn image_create_request_body(prompt: Seq<char>, p: ImageCreateParams) -> Seq<char> {
    image_create_head(prompt, p) + image_create_sampling(p) + image_create_tail(p)
}

fn push_file_object(out: &mut String, f: &FileObject)
    ensures
        final(out)@ == old(out)@ + file_object_json(*f),
{
    out.append("{\"id\":");
    push_json_string(out, f.id.as_str());
    out.append(",\"bytes\":");
    push_u64_dec(out, f.bytes);
    out.append(",\"created_at\":");
    push_u64_dec(out, f.created_at);
    out.append(",\"filename\":");
    push_json_string(out, f.filename.as_str());
    out.append(",\"object\":");
    push_json_string(out, f.object.as_str());
    out.append(",\"purpose\":");
    push_json_string(out, f.purpose.as_str());
    out.append("}");
    proof {
        assert(final(out)@ =~= old(out)@ + file_object_json(*f));
    }
}

fn push_image_create_head(out: &mut String, prompt: &str, p: &ImageCreateParams)
    ensures
        final(out)@ == old(out)@ + image_create_head(prompt@, *p),
{
    out.append("{\"prompt\":");
    push_json_string(out, prompt);
    out.append(",\"negative_prompt\":");
    match &p.negative_prompt {
        Some(s) => {
            push_json_string(out, s.as_str());
        },
        None => {
            push_json_string(out, "");
            proof {
                reveal_strlit("");
                assert(""@ =~= Seq::<char>::empty());
            }
        },
    }
    out.append(",\"model\":");
    push_json_string(out, p.model.as_str());
    out.append(",\"n\":");
    push_u64_dec(out, p.n);
    out.append(",\"quality\":\"standard\",\"response_format\":");
    push_json_string(out, p.response_format.as_text());
    out.append(",\"style\":\"natural\"");
    proof {
        assert(final(out)@ =~= old(out)@ + image_create_head(prompt@, *p));
    }
}

fn push_image_create_sampling(out: &mut String, p: &ImageCreateParams)
    ensures
        final(out)@ == old(out)@ + image_create_sampling(*p),
{
    crate::chat::push_user_field(out, &p.user);
    out.append(",\"cfg_scale\":");
    out.append(p.cfg_scale.as_str());
    out.append(",\"sample_method\":");
    push_json_string(out, p.sample_method.as_text());
    out.append(",\"steps\":");
    push_u64_dec(out, p.steps as u64);
    out.append(",\"height\":");
    push_u64_dec(out, p.height as u64);
    out.append(",\"width\":");
    push_u64_dec(out, p.width as u64);
    out.append(",\"control_strength\":");
    out.append(p.control_strength.as_str());
    proof {
        assert(final(out)@ =~= old(out)@ + image_create_sampling(*p));
    }
}

fn push_image_create_tail(out: &mut String, p: &ImageCreateParams)
    ensures
        final(out)@ == old(out)@ + image_create_tail(*p),
{
    match &p.control_image {
        Some(f) => {
            out.append(",\"control_image\":");
            push_file_object(out, f);
        },
        None => {},
    }
    out.append(",\"seed\":");
    push_i64_dec(out, p.seed as i64);
    out.append(",\"strength\":");
    out.append(p.strength.as_str());
    out.append(",\"scheduler\":");
    push_json_string(out, p.scheduler.as_text());
    out.append(",\"apply_canny_preprocessor\":");
    push_bool(out, p.apply_canny_preprocessor);
    out.append(",\"style_ratio\":");
    out.append(p.style_ratio.as_str());
    out.append("}");
    proof {
        assert(final(out)@ =~= old(out)@ + image_create_tail(*p));
    }
}

/// Builds the image generation request body for `prompt` and `params`.
pub fn build_image_create_request_body(prompt: &str, params: &ImageCreateParams) -> (r: String)
    ensures
        r@ == image_create_request_body(prompt@, *params),
{
    let mut out = String::new();
    proof {
        assert(out@ =~= Seq::<char>::empty());
    }
    push_image_create_head(&mut out, prompt, params);
    proof {
        assert(out@ =~= image_create_head(prompt@, *params));
    }
    push_image_create_sampling(&mut out, params);
    push_image_create_tail(&mut out, params);
    out
}

/// Image generation bodies are a function of the prompt and the bundle
/// alone: two bodies built from the same arguments are identical.
pub proof fn lemma_image_create_body_deterministic(
    b1: Seq<char>,
    b2: Seq<char>,
    prompt: Seq<char>,
    p: ImageCreateParams,
)
    requires
        b1 == image_create_request_body(prompt, p),
        b2 == image_create_request_body(prompt, p),
    ensures
        b1 == b2,
{
}

} // verus!
