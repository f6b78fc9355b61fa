//! The embeddings request body.
use vstd::prelude::*;

use crate::chat::join_comma;
use crate::chat::model_field;
use crate::chat::opt_string_field;
use crate::chat::push_model_field;
use crate::chat::push_opt_string_field;
use crate::chat::push_string_array;
use crate::chat::push_user_field;
use crate::chat::string_array_json;
use crate::chat::user_field;
use crate::json::json_str;
use crate::json::push_json_string;
use crate::params::EmbeddingsParams;
use crate::text::i64_dec;
use crate::text::push_i64_dec;

verus! {

/// Input text to embed: a string, an array of strings, or one or many
/// arrays of tokens.
#[derive(Debug, Clone)]
pub enum InputText {
    /// The string that will be turned into an embedding.
    Text(String),
    /// The array of strings that will be turned into an embedding.
    TextArray(Vec<String>),
    /// The array of tokens that will be turned into an embedding.
    Tokens(Vec<i64>),
    /// The arrays of tokens that will be turned into embeddings.
    TokenArrays(Vec<Vec<i64>>),
}

/// The wire form of an array of integers.
pub open spec fn i64_array_json(ts: Seq<i64>) -> Seq<char> {
    "["@ + join_comma(ts.map_values(|t: i64| i64_dec(t as int))) + "]"@
}

/// The wire form of an embeddings input.
pub open spec fn input_text_json(input: InputText) -> Seq<char> {
    match input {
        InputText::Text(s) => json_str(s@),
        InputText::TextArray(v) => string_array_json(v@),
        InputText::Tokens(v) => i64_array_json(v@),
        InputText::TokenArrays(v) => "["@ + join_comma(
            v@.map_values(|x: Vec<i64>| i64_array_json(x@)),
        ) + "]"@,
    }
}

/// The embeddings request body: the input merged with every parameter
/// whose value is present, in the wire field order; the encoding
/// format is always sent.
pub open spec fn embeddings_request_body(input: InputText, p: EmbeddingsParams) -> Seq<char> {
    "{"@ + model_field(p.model) + "\"input\":"@ + input_text_json(input)
        + ",\"encoding_format\":"@ + json_str(p.encoding_format@) + user_field(p.user)
        + opt_string_field(",\"vdb_server_url\":"@, p.vdb_server_url) + opt_string_field(
        ",\"vdb_collection_name\":"@,
        p.vdb_collection_name,
    ) + opt_string_field(",\"vdb_api_key\":"@, p.vdb_api_key) + "}"@
}

fn push_i64_array(out: &mut String, items: &Vec<i64>)
    ensures
        final(out)@ == old(out)@ + i64_array_json(items@),
{
    let ghost gitems = items@.map_values(|t: i64| i64_dec(t as int));
    out.append("[");
    let mut i: usize = 0;
    while i < items.len()
        invariant
            i <= items.len(),
            gitems == items@.map_values(|t: i64| i64_dec(t as int)),
            gitems.len() == items@.len(),
            out@ == old(out)@ + "["@ + join_comma(gitems.take(i as int)),
        decreases items.len() - i,
    {
        if i > 0 {
            out.append(",");
        }
        push_i64_dec(out, items[i]);
        proof {
            assert(gitems.take(i + 1).drop_last() =~= gitems.take(i as int));
            assert(gitems.take(i + 1).last() == i64_dec(items@[i as int] as int));
            assert(out@ =~= old(out)@ + "["@ + join_comma(gitems.take(i + 1)));
        }
        i = i + 1;
    }
    out.append("]");
    proof {
        assert(gitems.take(items@.len() as int) =~= gitems);
        assert(final(out)@ =~= old(out)@ + i64_array_json(items@));
    }
}

fn push_input_text(out: &mut String, input: &InputText)
    ensures
        final(out)@ == old(out)@ + input_text_json(*input),
{
    match input {
        InputText::Text(s) => {
            push_json_string(out, s.as_str());
        },
        InputText::TextArray(v) => {
            push_string_array(out, v);
        },
        InputText::Tokens(v) => {
            push_i64_array(out, v);
        },
        InputText::TokenArrays(v) => {
            let ghost gitems = v@.map_values(|x: Vec<i64>| i64_array_json(x@));
            out.append("[");
            let mut i: usize = 0;
            while i < v.len()
                invariant
                    i <= v.len(),
                    gitems == v@.map_values(|x: Vec<i64>| i64_array_json(x@)),
                    gitems.len() == v@.len(),
                    out@ == old(out)@ + "["@ + join_comma(gitems.take(i as int)),
                decreases v.len() - i,
            {
                if i > 0 {
                    out.append(",");
                }
                push_i64_array(out, &v[i]);
                proof {
                    assert(gitems.take(i + 1).drop_last() =~= gitems.take(i as int));
                    assert(gitems.take(i + 1).last() == i64_array_json(v@[i as int]@));
                    assert(out@ =~= old(out)@ + "["@ + join_comma(gitems.take(i + 1)));
                }
                i = i + 1;
            }
            out.append("]");
            proof {
                assert(gitems.take(v@.len() as int) =~= gitems);
                assert(final(out)@ =~= old(out)@ + input_text_json(*input));
            }
        },
    }
}

/// Builds the embeddings request body for `input` and `params`.
pub fn build_embeddings_request_body(input: &InputText, params: &EmbeddingsParams) -> (r: String)
    ensures
        r@ == embeddings_request_body(*input, *params),
{
    let mut out = String::new();
    out.append("{");
    proof {
        assert(out@ =~= "{"@);
    }
    push_model_field(&mut out, &params.model);
    out.append("\"input\":");
    push_input_text(&mut out, input);
    out.append(",\"encoding_format\":");
    push_json_string(&mut out, params.encoding_format.as_str());
    push_user_field(&mut out, &params.user);
    push_opt_string_field(&mut out, ",\"vdb_server_url\":", &params.vdb_server_url);
    push_opt_string_field(&mut out, ",\"vdb_collection_name\":", &params.vdb_collection_name);
    push_opt_string_field(&mut out, ",\"vdb_api_key\":", &params.vdb_api_key);
    out.append("}");
    proof {
        assert(out@ =~= embeddings_request_body(*input, *params));
    }
    out
}

/// Embeddings bodies are a function of the input and the bundle alone:
/// two bodies built from the same arguments are identical.
pub proof fn lemma_embeddings_body_deterministic(
    b1: Seq<char>,
    b2: Seq<char>,
    input: InputText,
    p: EmbeddingsParams,
)
    requires
        b1 == embeddings_request_body(input, p),
        b2 == embeddings_request_body(input, p),
    ensures
        b1 == b2,
{
}

} // verus!
