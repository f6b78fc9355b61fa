//! The streaming chat decode state machine.
//!
//! The transport hands over byte chunks as text; each chunk is split on
//! the `data: ` event prefix, every payload is trimmed, empty payloads
//! are discarded, the `[DONE]` sentinel ends the stream and discards
//! the rest of its chunk, a payload that does not parse as a delta
//! chunk is skipped, and every non-empty delta content is emitted as
//! one fragment. The full streamed answer is the concatenation of the
//! emitted fragments.
use vstd::prelude::*;

use crate::text::split_on;
use crate::text::split_on_str;
use crate::text::str_eq;
use crate::text::trim_whitespace;
use crate::text::trim_ws;

verus! {

/// What a streamed event payload parses to: the delta content of the
/// first choice of the chat completion chunk, or `None` when the
/// payload is not such a chunk or carries no textual content.
pub uninterp spec fn delta_content_of(payload: Seq<char>) -> Option<Seq<char>>;

/// Relies on `serde_json::from_str` and `serde_json::Value`: parses the
/// payload and reads `choices[0].delta.content`; the result is a
/// function of the payload alone.
#[verifier::external_body]
fn parse_delta_content(payload: &str) -> (r: Option<String>)
    ensures
        match r {
            Some(c) => delta_content_of(payload@) == Some(c@),
            None => delta_content_of(payload@) is None,
        },
{
    match serde_json::from_str::<serde_json::Value>(payload) {
        Err(_) => None,
        Ok(v) => v
            .get("choices")
            .and_then(|c| c.get(0))
            .and_then(|c| c.get("delta"))
            .and_then(|d| d.get("content"))
            .and_then(|c| c.as_str())
            .map(|s| s.to_string()),
    }
}

/// Processes the trimmed payloads of one chunk in order: the emitted
/// fragments, and whether the `[DONE]` sentinel was reached. Payloads
/// after the sentinel are not processed.
pub open spec fn process_payloads(ps: Seq<Seq<char>>) -> (Seq<Seq<char>>, bool)
    decreases ps.len(),
{
    if ps.len() == 0 {
        (Seq::<Seq<char>>::empty(), false)
    } else {
        let t = trim_ws(ps[0]);
        if t.len() == 0 {
            process_payloads(ps.drop_first())
        } else if t == "[DONE]"@ {
            (Seq::<Seq<char>>::empty(), true)
        } else {
            let rest = process_payloads(ps.drop_first());
            match delta_content_of(t) {
                Some(c) => if trim_ws(c).len() > 0 {
                    (seq![trim_ws(c)] + rest.0, rest.1)
                } else {
                    rest
                },
                None => rest,
            }
        }
    }
}

/// The fragments emitted for one chunk, and whether it ended the
/// stream.
pub open spec fn decode_chunk(chunk: Seq<char>) -> (Seq<Seq<char>>, bool) {
    process_payloads(split_on(chunk, "data: "@))
}

/// A payload that does not parse as a delta chunk is skipped without
/// terminating the stream: the payloads after it decode exactly as if
/// it were not there.
pub proof fn lemma_malformed_payload_skipped(ps: Seq<Seq<char>>)
    requires
        ps.len() > 0,
        trim_ws(ps[0]).len() > 0,
        trim_ws(ps[0]) != "[DONE]"@,
        delta_content_of(trim_ws(ps[0])) is None,
    ensures
        process_payloads(ps) == process_payloads(ps.drop_first()),
{
}

/// The `[DONE]` sentinel ends the stream and the remaining payloads of
/// its chunk are not processed, whatever they hold.
pub proof fn lemma_done_truncates_chunk(ps: Seq<Seq<char>>)
    requires
        ps.len() > 0,
        trim_ws(ps[0]) == "[DONE]"@,
    ensures
        process_payloads(ps).0 == Seq::<Seq<char>>::empty(),
        process_payloads(ps).1,
{
    reveal_strlit("[DONE]");
}

fn process_from(parts: &Vec<String>, i: usize, out: &mut Vec<String>) -> (done: bool)
    requires
        i <= parts@.len(),
    ensures
        ({
            let r = process_payloads(parts@.map_values(|p: String| p@).skip(i as int));
            &&& final(out)@.map_values(|s: String| s@) == old(out)@.map_values(|s: String| s@)
                + r.0
            &&& done == r.1
        }),
    decreases parts@.len() - i,
{
    let ghost items = parts@.map_values(|p: String| p@);
    if i == parts.len() {
        proof {
            assert(items.skip(i as int) =~= Seq::<Seq<char>>::empty());
            assert(final(out)@.map_values(|s: String| s@) =~= old(out)@.map_values(
                |s: String| s@,
            ) + process_payloads(items.skip(i as int)).0);
        }
        return false;
    }
    proof {
        assert(items.skip(i as int)[0] == items[i as int]);
        assert(items.skip(i as int).drop_first() =~= items.skip(i + 1));
    }
    let t = trim_whitespace(parts[i].as_str());
    if t.as_str().is_empty() {
        return process_from(parts, i + 1, out);
    }
    if str_eq(t.as_str(), "[DONE]") {
        proof {
            assert(final(out)@.map_values(|s: String| s@) =~= old(out)@.map_values(
                |s: String| s@,
            ) + process_payloads(items.skip(i as int)).0);
        }
        return true;
    }
    match parse_delta_content(t.as_str()) {
        Some(c) => {
            let f = trim_whitespace(c.as_str());
            if !f.as_str().is_empty() {
                let ghost before = out@.map_values(|s: String| s@);
                out.push(f);
                proof {
                    assert(out@.map_values(|s: String| s@) =~= before.push(trim_ws(c@)));
                }
                let done = process_from(parts, i + 1, out);
                proof {
                    let rest = process_payloads(items.skip(i + 1));
                    assert(final(out)@.map_values(|s: String| s@) =~= before + (seq![
                        trim_ws(c@),
                    ] + rest.0));
                }
                done
            } else {
                process_from(parts, i + 1, out)
            }
        },
        None => process_from(parts, i + 1, out),
    }
}

/// The streaming chat decoder.
///
/// Feed it each received chunk in order; it emits the text fragments
/// of the reply and reports when the stream has ended. After the end,
/// nothing more is emitted.
pub struct StreamDecoder {
    done: bool,
}

impl StreamDecoder {
    /// Whether the `[DONE]` sentinel has been reached.
    pub closed spec fn spec_done(&self) -> bool {
        self.done
    }

    /// A decoder awaiting the first chunk.
    pub fn new() -> (r: StreamDecoder)
        ensures
            !r.spec_done(),
    {
        StreamDecoder { done: false }
    }

    /// Whether the stream has ended.
    pub fn is_done(&self) -> (r: bool)
        ensures
            r == self.spec_done(),
    {
        self.done
    }

    /// A transport-level error on a chunk ends the stream: the decoder
    /// moves to its terminal state, so nothing more is emitted. The
    /// error itself is surfaced by the caller as the terminal element.
    pub fn feed_error(&mut self)
        ensures
            final(self).spec_done(),
    {
        self.done = true;
    }

    /// Decodes one received chunk and returns the fragments it emits,
    /// in order. After the `[DONE]` sentinel, nothing is emitted.
    pub fn feed(&mut self, chunk: &str) -> (out: Vec<String>)
        ensures
            old(self).spec_done() ==> final(self).spec_done() && out@.len() == 0,
            !old(self).spec_done() ==> ({
                let r = decode_chunk(chunk@);
                &&& out@.map_values(|s: String| s@) == r.0
                &&& final(self).spec_done() == r.1
            }),
    {
        if self.done {
            return Vec::new();
        }
        proof {
            reveal_strlit("data: ");
        }
        let parts = split_on_str(chunk, "data: ");
        let mut out: Vec<String> = Vec::new();
        let done = process_from(&parts, 0, &mut out);
        self.done = done;
        proof {
            let items = parts@.map_values(|p: String| p@);
            assert(items.skip(0) =~= items);
            assert(out@.map_values(|s: String| s@) =~= Seq::<Seq<char>>::empty() + out@.map_values(
                |s: String| s@,
            ));
        }
        out
    }
}

/// The fragments emitted for a whole sequence of chunks, fed in order
/// to a fresh decoder.
pub open spec fn stream_fragments(chunks: Seq<Seq<char>>) -> Seq<Seq<char>>
    decreases chunks.len(),
{
    if chunks.len() == 0 {
        Seq::<Seq<char>>::empty()
    } else {
        let r = decode_chunk(chunks[0]);
        if r.1 {
            r.0
        } else {
            r.0 + stream_fragments(chunks.drop_first())
        }
    }
}

/// The full streamed answer of a chunk sequence: the concatenation of
/// every emitted fragment.
pub open spec fn stream_text(chunks: Seq<Seq<char>>) -> Seq<char> {
    stream_fragments(chunks).flatten()
}

/// Decodes a whole simulated stream: returns the emitted fragments and
/// their concatenation, which is the full streamed answer.
pub fn decode_stream_text(chunks: &Vec<String>) -> (r: (Vec<String>, String))
    ensures
        r.0@.map_values(|s: String| s@) == stream_fragments(chunks@.map_values(|c: String| c@)),
        r.1@ == stream_text(chunks@.map_values(|c: String| c@)),
{
    let ghost cs = chunks@.map_values(|c: String| c@);
    let mut decoder = StreamDecoder::new();
    let mut frags: Vec<String> = Vec::new();
    let mut text = String::new();
    let mut i: usize = 0;
    proof {
        assert(cs.skip(0) =~= cs);
        assert(frags@.map_values(|s: String| s@) =~= Seq::<Seq<char>>::empty());
        assert(Seq::<Seq<char>>::empty() + stream_fragments(cs) =~= stream_fragments(cs));
        assert(Seq::<Seq<char>>::empty().flatten() =~= Seq::<char>::empty());
    }
    loop
        invariant
            i <= chunks@.len(),
            cs == chunks@.map_values(|c: String| c@),
            text@ == frags@.map_values(|s: String| s@).flatten(),
            if decoder.spec_done() {
                stream_fragments(cs) == frags@.map_values(|s: String| s@)
            } else {
                stream_fragments(cs) == frags@.map_values(|s: String| s@) + stream_fragments(
                    cs.skip(i as int),
                )
            },
        ensures
            stream_fragments(cs) == frags@.map_values(|s: String| s@),
            text@ == frags@.map_values(|s: String| s@).flatten(),
        decreases chunks@.len() - i,
    {
        if i == chunks.len() {
            proof {
                if !decoder.spec_done() {
                    assert(cs.skip(i as int) =~= Seq::<Seq<char>>::empty());
                    assert(frags@.map_values(|s: String| s@) + Seq::<Seq<char>>::empty()
                        =~= frags@.map_values(|s: String| s@));
                }
            }
            break;
        }
        if decoder.is_done() {
            break;
        }
        let ghost before = frags@.map_values(|s: String| s@);
        let out = decoder.feed(chunks[i].as_str());
        let ghost emitted = out@.map_values(|s: String| s@);
        let mut j: usize = 0;
        while j < out.len()
            invariant
                j <= out@.len(),
                emitted == out@.map_values(|s: String| s@),
                frags@.map_values(|s: String| s@) == before + emitted.take(j as int),
                text@ == frags@.map_values(|s: String| s@).flatten(),
            decreases out@.len() - j,
        {
            let f = String::from_str(out[j].as_str());
            let ghost cur = frags@.map_values(|s: String| s@);
            frags.push(f);
            text.append(out[j].as_str());
            proof {
                assert(frags@.map_values(|s: String| s@) =~= cur.push(emitted[j as int]));
                cur.lemma_flatten_push(emitted[j as int]);
                assert(emitted.take(j + 1) =~= emitted.take(j as int).push(emitted[j as int]));
                assert(before + emitted.take(j + 1) =~= (before + emitted.take(j as int)).push(
                    emitted[j as int],
                ));
            }
            j = j + 1;
        }
        proof {
            assert(emitted.take(out@.len() as int) =~= emitted);
            let r = decode_chunk(cs[i as int]);
            assert(cs.skip(i as int)[0] == cs[i as int]);
            assert(cs.skip(i as int).drop_first() =~= cs.skip(i + 1));
            assert(stream_fragments(cs.skip(i as int)) == (if r.1 {
                r.0
            } else {
                r.0 + stream_fragments(cs.skip(i + 1))
            }));
            if decoder.spec_done() {
                assert(stream_fragments(cs) =~= frags@.map_values(|s: String| s@));
            } else {
                assert(stream_fragments(cs) =~= frags@.map_values(|s: String| s@)
                    + stream_fragments(cs.skip(i + 1)));
            }
        }
        i = i + 1;
    }
    (frags, text)
}

} // verus!
