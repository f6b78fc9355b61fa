//! Chat messages and the chat completion request body.
//!
//! The request body is built character by character in verified code;
//! its exact content is given by `chat_request_body`, which mirrors the
//! wire format of the server: one JSON object holding the message list
//! and every parameter whose value is present, in a fixed field order.
use vstd::prelude::*;

use crate::json::json_str;
use crate::json::push_json_string;
use crate::params::ChatParams;
use crate::params::ChatResponseFormat;
use crate::params::Tool;
use crate::params::ToolChoice;
use crate::text::bool_text;
use crate::text::push_bool;
use crate::text::push_u64_dec;
use crate::text::u64_dec;

verus! {

/// The image carried by an image content part: either a URL or
/// base64-encoded image data.
#[derive(Debug, Clone)]
pub struct Image {
    /// Either a URL of the image or the base64 encoded image data.
    pub url: String,
    /// Specifies the detail level of the image.
    pub detail: Option<String>,
}

/// One part of a multimodal user message.
#[derive(Debug, Clone)]
pub enum ContentPart {
    /// A text part.
    Text(String),
    /// An image part.
    Image(Image),
}

/// The content of a user message: plain text, or content parts when
/// passing in images.
#[derive(Debug, Clone)]
pub enum UserMessageContent {
    /// The text contents of the message.
    Text(String),
    /// An array of content parts of type `text` or `image_url`.
    Parts(Vec<ContentPart>),
}

/// A call of a tool reported back to the model.
#[derive(Debug, Clone)]
pub struct ToolCall {
    /// The ID of the tool call.
    pub id: String,
    /// The type of the tool. Currently, only `function` is supported.
    pub ty: String,
    /// The function that the model called.
    pub function: ToolCallFunction,
}

/// The function named by a tool call.
#[derive(Debug, Clone)]
pub struct ToolCallFunction {
    /// The name of the function.
    pub name: String,
    /// The arguments of the call, as the raw JSON text the model
    /// generated.
    pub arguments: String,
}

/// One turn of a conversation, tagged by role; each variant carries
/// only the fields valid for its role.
#[derive(Debug, Clone)]
pub enum ChatCompletionRequestMessage {
    /// A system message.
    System {
        /// The contents of the system message.
        content: String,
        /// An optional name for the participant.
        name: Option<String>,
    },
    /// A user message.
    User {
        /// The contents of the user message.
        content: UserMessageContent,
        /// An optional name for the participant.
        name: Option<String>,
    },
    /// An assistant message.
    Assistant {
        /// The contents of the assistant message. Required unless
        /// `tool_calls` is given.
        content: Option<String>,
        /// An optional name for the participant.
        name: Option<String>,
        /// The tool calls generated by the model.
        tool_calls: Option<Vec<ToolCall>>,
    },
    /// A tool message.
    Tool {
        /// The contents of the tool message.
        content: String,
        /// Tool call that this message is responding to.
        tool_call_id: Option<String>,
    },
}

/// The items of `items` joined with a comma.
pub open spec fn join_comma(items: Seq<Seq<char>>) -> Seq<char>
    decreases items.len(),
{
    if items.len() == 0 {
        Seq::empty()
    } else if items.len() == 1 {
        items[0]
    } else {
        join_comma(items.drop_last()) + ","@ + items.last()
    }
}

/// The optional `name` field of a message.
pub open spec fn opt_name_json(name: Option<String>) -> Seq<char> {
    match name {
        Some(n) => ",\"name\":"@ + json_str(n@),
        None => Seq::empty(),
    }
}

/// The wire form of one content part.
pub open spec fn content_part_json(p: ContentPart) -> Seq<char> {
    match p {
        ContentPart::Text(t) => "{\"type\":\"text\",\"text\":"@ + json_str(t@) + "}"@,
        ContentPart::Image(i) => "{\"type\":\"image_url\",\"image_url\":{\"url\":"@ + json_str(
            i.url@,
        ) + (match i.detail {
            Some(d) => ",\"detail\":"@ + json_str(d@),
            None => Seq::empty(),
        }) + "}}"@,
    }
}

/// The wire form of a user message content.
pub open spec fn user_content_json(c: UserMessageContent) -> Seq<char> {
    match c {
        UserMessageContent::Text(t) => json_str(t@),
        UserMessageContent::Parts(ps) => "["@ + join_comma(
            ps@.map_values(|p: ContentPart| content_part_json(p)),
        ) + "]"@,
    }
}

/// The wire form of one tool call.
pub open spec fn tool_call_json(t: ToolCall) -> Seq<char> {
    "{\"id\":"@ + json_str(t.id@) + ",\"type\":"@ + json_str(t.ty@) + ",\"function\":{\"name\":"@
        + json_str(t.function.name@) + ",\"arguments\":"@ + json_str(t.function.arguments@)
        + "}}"@
}

/// The wire form of one message, tagged by its role.
pub open spec fn message_json(m: ChatCompletionRequestMessage) -> Seq<char> {
    match m {
        ChatCompletionRequestMessage::System { content, name } => "{\"role\":\"system\",\"content\":"@
            + json_str(content@) + opt_name_json(name) + "}"@,
        ChatCompletionRequestMessage::User { content, name } => "{\"role\":\"user\",\"content\":"@
            + user_content_json(content) + opt_name_json(name) + "}"@,
        ChatCompletionRequestMessage::Assistant { content, name, tool_calls } => "{\"role\":\"assistant\""@
            + (match content {
            Some(c) => ",\"content\":"@ + json_str(c@),
            None => Seq::empty(),
        }) + opt_name_json(name) + (match tool_calls {
            Some(ts) => ",\"tool_calls\":["@ + join_comma(
                ts@.map_values(|t: ToolCall| tool_call_json(t)),
            ) + "]"@,
            None => Seq::empty(),
        }) + "}"@,
        ChatCompletionRequestMessage::Tool { content, tool_call_id } => "{\"role\":\"tool\",\"content\":"@
            + json_str(content@) + (match tool_call_id {
            Some(id) => ",\"tool_call_id\":"@ + json_str(id@),
            None => Seq::empty(),
        }) + "}"@,
    }
}

/// The wire form of the message list.
pub open spec fn messages_json(msgs: Seq<ChatCompletionRequestMessage>) -> Seq<char> {
    "["@ + join_comma(msgs.map_values(|m: ChatCompletionRequestMessage| message_json(m))) + "]"@
}

/// The wire form of an array of JSON strings.
pub open spec fn string_array_json(items: Seq<String>) -> Seq<char> {
    "["@ + join_comma(items.map_values(|s: String| json_str(s@))) + "]"@
}

/// The wire form of one tool.
pub open spec fn tool_json(t: Tool) -> Seq<char> {
    "{\"type\":"@ + json_str(t.ty@) + ",\"function\":{\"name\":"@ + json_str(t.function.name@)
        + (match t.function.description {
        Some(d) => ",\"description\":"@ + json_str(d@),
        None => Seq::empty(),
    }) + (match t.function.parameters {
        Some(p) => ",\"parameters\":"@ + p@,
        None => Seq::empty(),
    }) + "}}"@
}

/// The wire form of a tool choice.
pub open spec fn tool_choice_json(tc: ToolChoice) -> Seq<char> {
    match tc {
        ToolChoice::NoTool => "\"none\""@,
        ToolChoice::Auto => "\"auto\""@,
        ToolChoice::Required => "\"required\""@,
        ToolChoice::Tool(t) => "{\"type\":"@ + json_str(t.ty@) + ",\"function\":{\"name\":"@
            + json_str(t.function.name@) + "}}"@,
    }
}

/// The chat completion request body: the message list merged with every
/// parameter whose value is present, in the wire field order; the
/// streaming variant additionally sets the streaming flag and requests
/// usage accounting in the final chunk.
pub open spec fn chat_request_body(
    msgs: Seq<ChatCompletionRequestMessage>,
    p: ChatParams,
    stream: bool,
) -> Seq<char> {
    "{"@ + model_field(p.model) + "\"messages\":"@ + messages_json(msgs) + opt_raw_field(
        ",\"temperature\":"@,
        p.temperature,
    ) + opt_raw_field(",\"top_p\":"@, p.top_p) + opt_u64_field(",\"n\":"@, p.n_choice)
        + stream_fields(stream) + stop_field(p.stop) + opt_u64_field(
        ",\"max_tokens\":"@,
        p.max_tokens,
    ) + opt_raw_field(",\"presence_penalty\":"@, p.presence_penalty) + opt_raw_field(
        ",\"frequency_penalty\":"@,
        p.frequency_penalty,
    ) + user_field(p.user) + response_format_field(p.response_format) + tools_field(p.tools)
        + tool_choice_field(p.tool_choice) + "}"@
}

/// The leading `model` field, when present.
pub open spec fn model_field(model: Option<String>) -> Seq<char> {
    match model {
        Some(m) => "\"model\":"@ + json_str(m@) + ","@,
        None => Seq::empty(),
    }
}

/// An optional field whose value is spliced in verbatim.
pub open spec fn opt_raw_field(label: Seq<char>, v: Option<String>) -> Seq<char> {
    match v {
        Some(t) => label + t@,
        None => Seq::empty(),
    }
}

/// An optional field holding a decimal integer.
pub open spec fn opt_u64_field(label: Seq<char>, v: Option<u64>) -> Seq<char> {
    match v {
        Some(n) => label + u64_dec(n as int),
        None => Seq::empty(),
    }
}

/// The streaming flag, and the request for usage accounting when
/// streaming.
pub open spec fn stream_fields(stream: bool) -> Seq<char> {
    ",\"stream\":"@ + bool_text(stream) + (if stream {
        ",\"stream_options\":{\"include_usage\":true}"@
    } else {
        Seq::<char>::empty()
    })
}

/// The optional `stop` field.
pub open spec fn stop_field(v: Option<Vec<String>>) -> Seq<char> {
    match v {
        Some(ss) => ",\"stop\":"@ + string_array_json(ss@),
        None => Seq::empty(),
    }
}

/// The optional `user` field.
pub open spec fn user_field(v: Option<String>) -> Seq<char> {
    match v {
        Some(u) => ",\"user\":"@ + json_str(u@),
        None => Seq::empty(),
    }
}

/// The optional `response_format` field.
pub open spec fn response_format_field(v: Option<ChatResponseFormat>) -> Seq<char> {
    match v {
        Some(f) => ",\"response_format\":{\"type\":"@ + json_str(f.ty@) + "}"@,
        None => Seq::empty(),
    }
}

/// The optional `tools` field.
pub open spec fn tools_field(v: Option<Vec<Tool>>) -> Seq<char> {
    match v {
        Some(ts) => ",\"tools\":["@ + join_comma(ts@.map_values(|t: Tool| tool_json(t))) + "]"@,
        None => Seq::empty(),
    }
}

/// An optional field holding a JSON string.
pub open spec fn opt_string_field(label: Seq<char>, v: Option<String>) -> Seq<char> {
    match v {
        Some(x) => label + json_str(x@),
        None => Seq::empty(),
    }
}

/// The optional `tool_choice` field.
pub open spec fn tool_choice_field(v: Option<ToolChoice>) -> Seq<char> {
    match v {
        Some(tc) => ",\"tool_choice\":"@ + tool_choice_json(tc),
        None => Seq::empty(),
    }
}

fn push_opt_name(out: &mut String, name: &Option<String>)
    ensures
        final(out)@ == old(out)@ + opt_name_json(*name),
{
    match name {
        Some(n) => {
            out.append(",\"name\":");
            push_json_string(out, n.as_str());
            proof {
                assert(final(out)@ =~= old(out)@ + opt_name_json(*name));
            }
        },
        None => {
            proof {
                assert(final(out)@ =~= old(out)@ + opt_name_json(*name));
            }
        },
    }
}

fn push_content_part(out: &mut String, p: &ContentPart)
    ensures
        final(out)@ == old(out)@ + content_part_json(*p),
{
    match p {
        ContentPart::Text(t) => {
            out.append("{\"type\":\"text\",\"text\":");
            push_json_string(out, t.as_str());
            out.append("}");
            proof {
                assert(final(out)@ =~= old(out)@ + content_part_json(*p));
            }
        },
        ContentPart::Image(i) => {
            out.append("{\"type\":\"image_url\",\"image_url\":{\"url\":");
            push_json_string(out, i.url.as_str());
            match &i.detail {
                Some(d) => {
                    out.append(",\"detail\":");
                    push_json_string(out, d.as_str());
                },
                None => {},
            }
            out.append("}}");
            proof {
                assert(final(out)@ =~= old(out)@ + content_part_json(*p));
            }
        },
    }
}

fn push_user_content(out: &mut String, c: &UserMessageContent)
    ensures
        final(out)@ == old(out)@ + user_content_json(*c),
{
    match c {
        UserMessageContent::Text(t) => {
            push_json_string(out, t.as_str());
        },
        UserMessageContent::Parts(ps) => {
            let ghost items = ps@.map_values(|p: ContentPart| content_part_json(p));
            out.append("[");
            let mut i: usize = 0;
            while i < ps.len()
                invariant
                    i <= ps.len(),
                    items == ps@.map_values(|p: ContentPart| content_part_json(p)),
                    items.len() == ps@.len(),
                    out@ == old(out)@ + "["@ + join_comma(items.take(i as int)),
                decreases ps.len() - i,
            {
                if i > 0 {
                    out.append(",");
                }
                push_content_part(out, &ps[i]);
                proof {
                    assert(items.take(i + 1).drop_last() =~= items.take(i as int));
                    assert(items.take(i + 1).last() == content_part_json(ps@[i as int]));
                    assert(out@ =~= old(out)@ + "["@ + join_comma(items.take(i + 1)));
                }
                i = i + 1;
            }
            out.append("]");
            proof {
                assert(items.take(ps@.len() as int) =~= items);
                assert(final(out)@ =~= old(out)@ + user_content_json(*c));
            }
        },
    }
}

fn push_tool_call(out: &mut String, t: &ToolCall)
    ensures
        final(out)@ == old(out)@ + tool_call_json(*t),
{
    out.append("{\"id\":");
    push_json_string(out, t.id.as_str());
    out.append(",\"type\":");
    push_json_string(out, t.ty.as_str());
    out.append(",\"function\":{\"name\":");
    push_json_string(out, t.function.name.as_str());
    out.append(",\"arguments\":");
    push_json_string(out, t.function.arguments.as_str());
    out.append("}}");
    proof {
        assert(final(out)@ =~= old(out)@ + tool_call_json(*t));
    }
}

#[verifier::rlimit(100)]
fn push_message(out: &mut String, m: &ChatCompletionRequestMessage)
    ensures
        final(out)@ == old(out)@ + message_json(*m),
{
    match m {
        ChatCompletionRequestMessage::System { content, name } => {
            out.append("{\"role\":\"system\",\"content\":");
            push_json_string(out, content.as_str());
            push_opt_name(out, name);
            out.append("}");
            proof {
                assert(final(out)@ =~= old(out)@ + message_json(*m));
            }
        },
        ChatCompletionRequestMessage::User { content, name } => {
            out.append("{\"role\":\"user\",\"content\":");
            push_user_content(out, content);
            push_opt_name(out, name);
            out.append("}");
            proof {
                assert(final(out)@ =~= old(out)@ + message_json(*m));
            }
        },
        ChatCompletionRequestMessage::Assistant { content, name, tool_calls } => {
            out.append("{\"role\":\"assistant\"");
            match content {
                Some(c) => {
                    out.append(",\"content\":");
                    push_json_string(out, c.as_str());
                },
                None => {},
            }
            push_opt_name(out, name);
            match tool_calls {
                Some(ts) => {
                    let ghost items = ts@.map_values(|t: ToolCall| tool_call_json(t));
                    out.append(",\"tool_calls\":[");
                    let ghost mid = out@;
                    let mut i: usize = 0;
                    while i < ts.len()
                        invariant
                            i <= ts.len(),
                            items == ts@.map_values(|t: ToolCall| tool_call_json(t)),
                            items.len() == ts@.len(),
                            out@ == mid + join_comma(items.take(i as int)),
                        decreases ts.len() - i,
                    {
                        if i > 0 {
                            out.append(",");
                        }
                        push_tool_call(out, &ts[i]);
                        proof {
                            assert(items.take(i + 1).drop_last() =~= items.take(i as int));
                            assert(items.take(i + 1).last() == tool_call_json(ts@[i as int]));
                            assert(out@ =~= mid + join_comma(items.take(i + 1)));
                        }
                        i = i + 1;
                    }
                    out.append("]");
                    proof {
                        assert(items.take(ts@.len() as int) =~= items);
                    }
                },
                None => {},
            }
            out.append("}");
            proof {
                assert(final(out)@ =~= old(out)@ + message_json(*m));
            }
        },
        ChatCompletionRequestMessage::Tool { content, tool_call_id } => {
            out.append("{\"role\":\"tool\",\"content\":");
            push_json_string(out, content.as_str());
            match tool_call_id {
                Some(id) => {
                    out.append(",\"tool_call_id\":");
                    push_json_string(out, id.as_str());
                },
                None => {},
            }
            out.append("}");
            proof {
                assert(final(out)@ =~= old(out)@ + message_json(*m));
            }
        },
    }
}

fn push_messages(out: &mut String, msgs: &Vec<ChatCompletionRequestMessage>)
    ensures
        final(out)@ == old(out)@ + messages_json(msgs@),
{
    let ghost items = msgs@.map_values(|m: ChatCompletionRequestMessage| message_json(m));
    out.append("[");
    let mut i: usize = 0;
    while i < msgs.len()
        invariant
            i <= msgs.len(),
            items == msgs@.map_values(|m: ChatCompletionRequestMessage| message_json(m)),
            items.len() == msgs@.len(),
            out@ == old(out)@ + "["@ + join_comma(items.take(i as int)),
        decreases msgs.len() - i,
    {
        if i > 0 {
            out.append(",");
        }
        push_message(out, &msgs[i]);
        proof {
            assert(items.take(i + 1).drop_last() =~= items.take(i as int));
            assert(items.take(i + 1).last() == message_json(msgs@[i as int]));
            assert(out@ =~= old(out)@ + "["@ + join_comma(items.take(i + 1)));
        }
        i = i + 1;
    }
    out.append("]");
    proof {
        assert(items.take(msgs@.len() as int) =~= items);
        assert(final(out)@ =~= old(out)@ + messages_json(msgs@));
    }
}

pub(crate) fn push_string_array(out: &mut String, items: &Vec<String>)
    ensures
        final(out)@ == old(out)@ + string_array_json(items@),
{
    let ghost gitems = items@.map_values(|s: String| json_str(s@));
    out.append("[");
    let mut i: usize = 0;
    while i < items.len()
        invariant
            i <= items.len(),
            gitems == items@.map_values(|s: String| json_str(s@)),
            gitems.len() == items@.len(),
            out@ == old(out)@ + "["@ + join_comma(gitems.take(i as int)),
        decreases items.len() - i,
    {
        if i > 0 {
            out.append(",");
        }
        push_json_string(out, items[i].as_str());
        proof {
            assert(gitems.take(i + 1).drop_last() =~= gitems.take(i as int));
            assert(gitems.take(i + 1).last() == json_str(items@[i as int]@));
            assert(out@ =~= old(out)@ + "["@ + join_comma(gitems.take(i + 1)));
        }
        i = i + 1;
    }
    out.append("]");
    proof {
        assert(gitems.take(items@.len() as int) =~= gitems);
        assert(final(out)@ =~= old(out)@ + string_array_json(items@));
    }
}

fn push_tool(out: &mut String, t: &Tool)
    ensures
        final(out)@ == old(out)@ + tool_json(*t),
{
    out.append("{\"type\":");
    push_json_string(out, t.ty.as_str());
    out.append(",\"function\":{\"name\":");
    push_json_string(out, t.function.name.as_str());
    match &t.function.description {
        Some(d) => {
            out.append(",\"description\":");
            push_json_string(out, d.as_str());
        },
        None => {},
    }
    match &t.function.parameters {
        Some(p) => {
            out.append(",\"parameters\":");
            out.append(p.as_str());
        },
        None => {},
    }
    out.append("}}");
    proof {
        assert(final(out)@ =~= old(out)@ + tool_json(*t));
    }
}

fn push_tool_choice(out: &mut String, tc: &ToolChoice)
    ensures
        final(out)@ == old(out)@ + tool_choice_json(*tc),
{
    match tc {
        ToolChoice::NoTool => {
            out.append("\"none\"");
        },
        ToolChoice::Auto => {
            out.append("\"auto\"");
        },
        ToolChoice::Required => {
            out.append("\"required\"");
        },
        ToolChoice::Tool(t) => {
            out.append("{\"type\":");
            push_json_string(out, t.ty.as_str());
            out.append(",\"function\":{\"name\":");
            push_json_string(out, t.function.name.as_str());
            out.append("}}");
            proof {
                assert(final(out)@ =~= old(out)@ + tool_choice_json(*tc));
            }
        },
    }
}

/// Builds the chat completion request body for `msgs` and `params`;
/// `stream` selects the streaming variant.
pub(crate) fn push_opt_string_field(out: &mut String, label: &str, v: &Option<String>)
    ensures
        final(out)@ == old(out)@ + opt_string_field(label@, *v),
{
    match v {
        Some(x) => {
            out.append(label);
            push_json_string(out, x.as_str());
            proof {
                assert(final(out)@ =~= old(out)@ + opt_string_field(label@, *v));
            }
        },
        None => {
            proof {
                assert(final(out)@ =~= old(out)@ + opt_string_field(label@, *v));
            }
        },
    }
}

pub(crate) fn push_model_field(out: &mut String, model: &Option<String>)
    ensures
        final(out)@ == old(out)@ + model_field(*model),
{
    match model {
        Some(m) => {
            out.append("\"model\":");
            push_json_string(out, m.as_str());
            out.append(",");
            proof {
                assert(final(out)@ =~= old(out)@ + model_field(*model));
            }
        },
        None => {
            proof {
                assert(final(out)@ =~= old(out)@ + model_field(*model));
            }
        },
    }
}

fn push_opt_raw_field(out: &mut String, label: &str, v: &Option<String>)
    ensures
        final(out)@ == old(out)@ + opt_raw_field(label@, *v),
{
    match v {
        Some(t) => {
            out.append(label);
            out.append(t.as_str());
            proof {
                assert(final(out)@ =~= old(out)@ + opt_raw_field(label@, *v));
            }
        },
        None => {
            proof {
                assert(final(out)@ =~= old(out)@ + opt_raw_field(label@, *v));
            }
        },
    }
}

fn push_opt_u64_field(out: &mut String, label: &str, v: &Option<u64>)
    ensures
        final(out)@ == old(out)@ + opt_u64_field(label@, *v),
{
    match v {
        Some(n) => {
            out.append(label);
            push_u64_dec(out, *n);
            proof {
                assert(final(out)@ =~= old(out)@ + opt_u64_field(label@, *v));
            }
        },
        None => {
            proof {
                assert(final(out)@ =~= old(out)@ + opt_u64_field(label@, *v));
            }
        },
    }
}

fn push_stream_fields(out: &mut String, stream: bool)
    ensures
        final(out)@ == old(out)@ + stream_fields(stream),
{
    out.append(",\"stream\":");
    push_bool(out, stream);
    if stream {
        out.append(",\"stream_options\":{\"include_usage\":true}");
    }
    proof {
        assert(final(out)@ =~= old(out)@ + stream_fields(stream));
    }
}

fn push_stop_field(out: &mut String, v: &Option<Vec<String>>)
    ensures
        final(out)@ == old(out)@ + stop_field(*v),
{
    match v {
        Some(ss) => {
            out.append(",\"stop\":");
            push_string_array(out, ss);
            proof {
                assert(final(out)@ =~= old(out)@ + stop_field(*v));
            }
        },
        None => {
            proof {
                assert(final(out)@ =~= old(out)@ + stop_field(*v));
            }
        },
    }
}

pub(crate) fn push_user_field(out: &mut String, v: &Option<String>)
    ensures
        final(out)@ == old(out)@ + user_field(*v),
{
    match v {
        Some(u) => {
            out.append(",\"user\":");
            push_json_string(out, u.as_str());
            proof {
                assert(final(out)@ =~= old(out)@ + user_field(*v));
            }
        },
        None => {
            proof {
                assert(final(out)@ =~= old(out)@ + user_field(*v));
            }
        },
    }
}

fn push_response_format_field(out: &mut String, v: &Option<ChatResponseFormat>)
    ensures
        final(out)@ == old(out)@ + response_format_field(*v),
{
    match v {
        Some(f) => {
            out.append(",\"response_format\":{\"type\":");
            push_json_string(out, f.ty.as_str());
            out.append("}");
            proof {
                assert(final(out)@ =~= old(out)@ + response_format_field(*v));
            }
        },
        None => {
            proof {
                assert(final(out)@ =~= old(out)@ + response_format_field(*v));
            }
        },
    }
}

fn push_tools_field(out: &mut String, v: &Option<Vec<Tool>>)
    ensures
        final(out)@ == old(out)@ + tools_field(*v),
{
    match v {
        Some(ts) => {
            let ghost items = ts@.map_values(|t: Tool| tool_json(t));
            out.append(",\"tools\":[");
            let ghost mid = out@;
            let mut i: usize = 0;
            while i < ts.len()
                invariant
                    i <= ts.len(),
                    items == ts@.map_values(|t: Tool| tool_json(t)),
                    items.len() == ts@.len(),
                    out@ == mid + join_comma(items.take(i as int)),
                decreases ts.len() - i,
            {
                if i > 0 {
                    out.append(",");
                }
                push_tool(out, &ts[i]);
                proof {
                    assert(items.take(i + 1).drop_last() =~= items.take(i as int));
                    assert(items.take(i + 1).last() == tool_json(ts@[i as int]));
                    assert(out@ =~= mid + join_comma(items.take(i + 1)));
                }
                i = i + 1;
            }
            out.append("]");
            proof {
                assert(items.take(ts@.len() as int) =~= items);
                assert(final(out)@ =~= old(out)@ + tools_field(*v));
            }
        },
        None => {
            proof {
                assert(final(out)@ =~= old(out)@ + tools_field(*v));
            }
        },
    }
}

fn push_tool_choice_field(out: &mut String, v: &Option<ToolChoice>)
    ensures
        final(out)@ == old(out)@ + tool_choice_field(*v),
{
    match v {
        Some(tc) => {
            out.append(",\"tool_choice\":");
            push_tool_choice(out, tc);
            proof {
                assert(final(out)@ =~= old(out)@ + tool_choice_field(*v));
            }
        },
        None => {
            proof {
                assert(final(out)@ =~= old(out)@ + tool_choice_field(*v));
            }
        },
    }
}

/// Builds the chat completion request body for `msgs` and `params`;
/// `stream` selects the streaming variant.
pub fn build_chat_request_body(
    msgs: &Vec<ChatCompletionRequestMessage>,
    params: &ChatParams,
    stream: bool,
) -> (r: String)
    ensures
        r@ == chat_request_body(msgs@, *params, stream),
{
    let mut out = String::new();
    out.append("{");
    proof {
        assert(out@ =~= "{"@);
    }
    push_model_field(&mut out, &params.model);
    out.append("\"messages\":");
    push_messages(&mut out, msgs);
    push_opt_raw_field(&mut out, ",\"temperature\":", &params.temperature);
    push_opt_raw_field(&mut out, ",\"top_p\":", &params.top_p);
    push_opt_u64_field(&mut out, ",\"n\":", &params.n_choice);
    push_stream_fields(&mut out, stream);
    push_stop_field(&mut out, &params.stop);
    push_opt_u64_field(&mut out, ",\"max_tokens\":", &params.max_tokens);
    push_opt_raw_field(&mut out, ",\"presence_penalty\":", &params.presence_penalty);
    push_opt_raw_field(&mut out, ",\"frequency_penalty\":", &params.frequency_penalty);
    push_user_field(&mut out, &params.user);
    push_response_format_field(&mut out, &params.response_format);
    push_tools_field(&mut out, &params.tools);
    push_tool_choice_field(&mut out, &params.tool_choice);
    out.append("}");
    proof {
        assert(out@ =~= chat_request_body(msgs@, *params, stream));
    }
    out
}

/// Request bodies are a function of the message list, the parameter
/// bundle and the streaming flag alone: two bodies built from the same
/// arguments are identical.
pub proof fn lemma_chat_body_deterministic(
    b1: Seq<char>,
    b2: Seq<char>,
    msgs: Seq<ChatCompletionRequestMessage>,
    p: ChatParams,
    stream: bool,
)
    requires
        b1 == chat_request_body(msgs, p, stream),
        b2 == chat_request_body(msgs, p, stream),
    ensures
        b1 == b2,
{
}

} // verus!
