//! Properties of the streaming client that hold for every input, stated over
//! the mathematical models of the session and proved.
use vstd::prelude::*;
use crate::frame::{
    concat_all, is_plain_frame, join_frames, lemma_buffer_has_no_separator, lemma_split_append,
    lemma_split_joined, split_frames,
};
use crate::json::json_text_at;
use crate::protocol::{EventModel, FrameData, decode_spec, payload_of};
use crate::session::{
    Phase, SessionModel, accepts_bytes, bytes_step, cancel_step, data_step, event_seq, feed_session, feed_session_bytes,
    frame_step, is_running, run_data, run_frames, session_ok, text_step,
};
use crate::tool::{ToolState, code_tool_name, tool_input_event};
use vstd::utf8::{decode_utf8, encode_utf8, encode_utf8_decode_utf8, encode_utf8_valid_utf8, decode_utf8_encode_utf8, valid_utf8};

verus! {

/// The text that a sequence of events carries in its `Text` events, in order.
pub open spec fn streamed_text(evs: Seq<EventModel>) -> Seq<char>
    decreases evs.len(),
{
    if evs.len() == 0 {
        Seq::empty()
    } else {
        (match evs[0] {
            EventModel::Text(t) => t,
            _ => Seq::empty(),
        }) + streamed_text(evs.drop_first())
    }
}

/// One `Text` event for each text.
pub open spec fn text_events(ts: Seq<Seq<char>>) -> Seq<EventModel> {
    ts.map_values(|t: Seq<char>| EventModel::Text(t))
}

/// The payloads of one code-execution block: its start, one input fragment
/// per delta, and its end.
pub open spec fn tool_block(id: Seq<char>, fragments: Seq<Seq<char>>) -> Seq<FrameData> {
    seq![FrameData::ToolUse { id, name: code_tool_name() }]
        + fragments.map_values(|f: Seq<char>| FrameData::JsonDelta { partial_json: f })
        + seq![FrameData::BlockStop]
}

/// Running frames one list after another is running their concatenation.
pub proof fn lemma_run_frames_append(st: ToolState, a: Seq<Seq<char>>, b: Seq<Seq<char>>)
    ensures
        run_frames(st, a + b) == (run_frames(run_frames(st, a).0, b).0,
            run_frames(st, a).1 + run_frames(run_frames(st, a).0, b).1),
    decreases b.len(),
{
    if b.len() == 0 {
        assert(a + b == a);
        assert(run_frames(st, a).1 + Seq::<EventModel>::empty() == run_frames(st, a).1);
    } else {
        lemma_run_frames_append(st, a, b.drop_last());
        assert((a + b).drop_last() == a + b.drop_last());
        assert((a + b).last() == b.last());
        let mid = run_frames(run_frames(st, a).0, b.drop_last());
        let last = frame_step(mid.0, b.last());
        assert(run_frames(st, a).1 + mid.1 + last.1 == run_frames(st, a).1 + (mid.1 + last.1));
    }
}

/// Running decoded payloads one list after another is running their
/// concatenation.
pub proof fn lemma_run_data_append(st: ToolState, a: Seq<FrameData>, b: Seq<FrameData>)
    ensures
        run_data(st, a + b) == (run_data(run_data(st, a).0, b).0,
            run_data(st, a).1 + run_data(run_data(st, a).0, b).1),
    decreases b.len(),
{
    if b.len() == 0 {
        assert(a + b == a);
        assert(run_data(st, a).1 + Seq::<EventModel>::empty() == run_data(st, a).1);
    } else {
        lemma_run_data_append(st, a, b.drop_last());
        assert((a + b).drop_last() == a + b.drop_last());
        assert((a + b).last() == b.last());
        let mid = run_data(run_data(st, a).0, b.drop_last());
        let last = data_step(mid.0, b.last());
        assert(run_data(st, a).1 + mid.1 + last.1 == run_data(st, a).1 + (mid.1 + last.1));
    }
}

/// Frames act exactly as the payloads they decode to.
pub proof fn lemma_frames_as_data(st: ToolState, fs: Seq<Seq<char>>, ds: Seq<FrameData>)
    requires
        fs.len() == ds.len(),
        forall|k: int| 0 <= k < fs.len() ==> decode_spec(#[trigger] fs[k]) == Some(ds[k]),
    ensures
        run_frames(st, fs) == run_data(st, ds),
    decreases fs.len(),
{
    if fs.len() > 0 {
        lemma_frames_as_data(st, fs.drop_last(), ds.drop_last());
        assert(decode_spec(fs[fs.len() - 1]) == Some(ds[ds.len() - 1]));
    }
}

/// How response text is cut into chunks does not matter: a running session
/// fed the chunks one by one ends in the state, and emits the events, that
/// one feed of their concatenation would give.
pub proof fn lemma_chunking_does_not_matter(m: SessionModel, chunks: Seq<Seq<char>>)
    requires
        accepts_bytes(m.phase),
        session_ok(m),
        chunks.len() > 0,
    ensures
        feed_session(m, chunks) == text_step(m, concat_all(chunks)),
    decreases chunks.len(),
{
    let c0 = chunks[0];
    let rest = chunks.drop_first();
    let first = text_step(m, c0);
    assert(concat_all(chunks) == c0 + concat_all(rest));
    if chunks.len() == 1 {
        assert(rest.len() == 0);
        assert(concat_all(rest) == Seq::<char>::empty());
        assert(c0 + Seq::<char>::empty() == c0);
        assert(feed_session(first.0, rest) == (first.0, Seq::<EventModel>::empty()));
        assert(first.1 + Seq::<EventModel>::empty() == first.1);
    } else {
        let x = m.buffer + c0;
        let cr = concat_all(rest);
        lemma_buffer_has_no_separator(x);
        lemma_chunking_does_not_matter(first.0, rest);
        lemma_split_append(x, cr);
        assert(x + cr == m.buffer + concat_all(chunks));
        let f1 = split_frames(x).0;
        let r1 = split_frames(x).1;
        let f2 = split_frames(r1 + cr).0;
        lemma_run_frames_append(m.tool, f1, f2);
        let t1 = run_frames(m.tool, f1);
        assert(first.0 == SessionModel { phase: Phase::Streaming, buffer: r1, tool: t1.0, ..m });
        assert(first.1 == t1.1);
        let later = text_step(first.0, cr);
        assert(later.1 == run_frames(t1.0, f2).1);
        assert(feed_session(m, chunks) == (later.0, first.1 + later.1));
        assert(split_frames(m.buffer + concat_all(chunks)) == (f1 + f2, split_frames(r1 + cr).1));
    }
}

/// The concatenation of a sequence of byte chunks.
pub open spec fn concat_bytes(cs: Seq<Seq<u8>>) -> Seq<u8>
    decreases cs.len(),
{
    if cs.len() == 0 {
        Seq::empty()
    } else {
        cs[0] + concat_bytes(cs.drop_first())
    }
}

/// The text of each byte chunk.
pub open spec fn decoded_chunks(cs: Seq<Seq<u8>>) -> Seq<Seq<char>> {
    cs.map_values(|c: Seq<u8>| decode_utf8(c))
}

/// Encoding a concatenation encodes each part.
proof fn lemma_encode_concat(a: Seq<char>, b: Seq<char>)
    ensures
        encode_utf8(a + b) == encode_utf8(a) + encode_utf8(b),
    decreases a.len(),
{
    if a.len() == 0 {
        assert(a + b == b);
        assert(encode_utf8(a) == Seq::<u8>::empty());
        assert(Seq::<u8>::empty() + encode_utf8(b) == encode_utf8(b));
    } else {
        lemma_encode_concat(a.drop_first(), b);
        assert((a + b).drop_first() == a.drop_first() + b);
        assert((a + b)[0] == a[0]);
        let e0 = vstd::utf8::encode_scalar(a[0] as u32);
        assert(e0 + (encode_utf8(a.drop_first()) + encode_utf8(b))
            == (e0 + encode_utf8(a.drop_first())) + encode_utf8(b));
    }
}

/// Valid byte chunks concatenate to valid bytes whose text is their texts
/// concatenated.
proof fn lemma_decode_chunks(cs: Seq<Seq<u8>>)
    requires
        forall|k: int| 0 <= k < cs.len() ==> valid_utf8(#[trigger] cs[k]),
    ensures
        valid_utf8(concat_bytes(cs)),
        decode_utf8(concat_bytes(cs)) == concat_all(decoded_chunks(cs)),
    decreases cs.len(),
{
    let ds = decoded_chunks(cs);
    if cs.len() == 0 {
        assert(concat_bytes(cs) == encode_utf8(Seq::<char>::empty()));
        encode_utf8_valid_utf8(Seq::<char>::empty());
        encode_utf8_decode_utf8(Seq::<char>::empty());
    } else {
        let rest = cs.drop_first();
        lemma_decode_chunks(rest);
        assert(valid_utf8(cs[0]));
        decode_utf8_encode_utf8(cs[0]);
        decode_utf8_encode_utf8(concat_bytes(rest));
        assert(decoded_chunks(rest) == ds.drop_first());
        let whole = decode_utf8(cs[0]) + concat_all(decoded_chunks(rest));
        lemma_encode_concat(decode_utf8(cs[0]), concat_all(decoded_chunks(rest)));
        assert(encode_utf8(whole) == concat_bytes(cs));
        encode_utf8_valid_utf8(whole);
        encode_utf8_decode_utf8(whole);
    }
}

/// Byte chunks that each hold whole characters act exactly as the text
/// they encode, fed chunk by chunk.
pub proof fn lemma_whole_character_chunks(m: SessionModel, chunks: Seq<Seq<u8>>)
    requires
        forall|k: int| 0 <= k < chunks.len() ==> valid_utf8(#[trigger] chunks[k]),
    ensures
        feed_session_bytes(m, chunks) == feed_session(m, decoded_chunks(chunks)),
        valid_utf8(concat_bytes(chunks)),
        decode_utf8(concat_bytes(chunks)) == concat_all(decoded_chunks(chunks)),
    decreases chunks.len(),
{
    lemma_decode_chunks(chunks);
    if chunks.len() > 0 {
        assert(valid_utf8(chunks[0]));
        let first = bytes_step(m, chunks[0]);
        lemma_whole_character_chunks(first.0, chunks.drop_first());
        assert(decoded_chunks(chunks.drop_first()) == decoded_chunks(chunks).drop_first());
    }
}

/// Text frames come out as they went in, also from raw bytes: for frames
/// that each carry one text delta, encoded as UTF-8 and cut into chunks
/// anywhere between characters, a running session with an empty buffer
/// emits one `Text` event per frame, in order, whose texts concatenate to
/// the texts sent.
pub proof fn lemma_text_deltas_from_bytes(
    m: SessionModel,
    fs: Seq<Seq<char>>,
    ts: Seq<Seq<char>>,
    chunks: Seq<Seq<u8>>,
)
    requires
        accepts_bytes(m.phase),
        m.buffer.len() == 0,
        fs.len() == ts.len(),
        forall|k: int| 0 <= k < fs.len() ==> is_plain_frame(#[trigger] fs[k]),
        forall|k: int| 0 <= k < fs.len() ==> decode_spec(#[trigger] fs[k]) == Some(FrameData::TextDelta { text: ts[k] }),
        forall|k: int| 0 <= k < chunks.len() ==> valid_utf8(#[trigger] chunks[k]),
        concat_bytes(chunks) == encode_utf8(join_frames(fs)),
    ensures
        feed_session_bytes(m, chunks).1 == text_events(ts),
        streamed_text(feed_session_bytes(m, chunks).1) == concat_all(ts),
{
    lemma_whole_character_chunks(m, chunks);
    encode_utf8_decode_utf8(join_frames(fs));
    lemma_text_deltas_concatenate(m, fs, ts, decoded_chunks(chunks));
}

/// Text frames come out as they went in: for frames that each carry one
/// text delta, written out with their separators and cut into chunks in any
/// way, a running session with an empty buffer emits one `Text` event per
/// frame, in order, and the texts concatenate to the texts sent.
pub proof fn lemma_text_deltas_concatenate(
    m: SessionModel,
    fs: Seq<Seq<char>>,
    ts: Seq<Seq<char>>,
    chunks: Seq<Seq<char>>,
)
    requires
        accepts_bytes(m.phase),
        m.buffer.len() == 0,
        fs.len() == ts.len(),
        forall|k: int| 0 <= k < fs.len() ==> is_plain_frame(#[trigger] fs[k]),
        forall|k: int| 0 <= k < fs.len() ==> decode_spec(#[trigger] fs[k]) == Some(FrameData::TextDelta { text: ts[k] }),
        concat_all(chunks) == join_frames(fs),
    ensures
        feed_session(m, chunks).1 == text_events(ts),
        streamed_text(feed_session(m, chunks).1) == concat_all(ts),
{
    lemma_texts_stream(ts);
    if chunks.len() == 0 {
        if fs.len() > 0 {
            assert(join_frames(fs).len() >= 2);
        }
        assert(ts.len() == 0);
        assert(text_events(ts) == Seq::<EventModel>::empty());
    } else {
        assert(session_ok(m)) by {
            assert(!crate::frame::has_separator(m.buffer));
        }
        lemma_chunking_does_not_matter(m, chunks);
        assert(m.buffer + join_frames(fs) == join_frames(fs));
        lemma_split_joined(fs);
        lemma_run_text_frames(m.tool, fs, ts);
    }
}

/// Text-delta frames leave the accumulator alone and emit their texts.
proof fn lemma_run_text_frames(st: ToolState, fs: Seq<Seq<char>>, ts: Seq<Seq<char>>)
    requires
        fs.len() == ts.len(),
        forall|k: int| 0 <= k < fs.len() ==> decode_spec(#[trigger] fs[k]) == Some(FrameData::TextDelta { text: ts[k] }),
    ensures
        run_frames(st, fs) == (st, text_events(ts)),
    decreases fs.len(),
{
    if fs.len() == 0 {
        assert(text_events(ts) == Seq::<EventModel>::empty());
    } else {
        lemma_run_text_frames(st, fs.drop_last(), ts.drop_last());
        assert(decode_spec(fs[fs.len() - 1]) == Some(FrameData::TextDelta { text: ts[ts.len() - 1] }));
        assert(text_events(ts) == text_events(ts.drop_last()).push(EventModel::Text(ts.last())));
    }
}

/// The text of one `Text` event per text is the texts concatenated.
proof fn lemma_texts_stream(ts: Seq<Seq<char>>)
    ensures
        streamed_text(text_events(ts)) == concat_all(ts),
    decreases ts.len(),
{
    if ts.len() > 0 {
        lemma_texts_stream(ts.drop_first());
        assert(text_events(ts).drop_first() == text_events(ts.drop_first()));
    }
}

/// Concatenating one more text at the end.
proof fn lemma_concat_push(ts: Seq<Seq<char>>, t: Seq<char>)
    ensures
        concat_all(ts.push(t)) == concat_all(ts) + t,
    decreases ts.len(),
{
    if ts.len() == 0 {
        assert(ts.push(t).drop_first() == Seq::<Seq<char>>::empty());
        assert(ts.push(t)[0] == t);
        assert(concat_all(ts.push(t)) == t + concat_all(ts.push(t).drop_first()));
        assert(t + Seq::<char>::empty() == t);
        assert(concat_all(ts) == Seq::<char>::empty());
        assert(Seq::<char>::empty() + t == t);
    } else {
        lemma_concat_push(ts.drop_first(), t);
        assert(ts.push(t)[0] == ts[0]);
        assert(ts.push(t).drop_first() == ts.drop_first().push(t));
        assert(ts[0] + (concat_all(ts.drop_first()) + t) == (ts[0] + concat_all(ts.drop_first())) + t);
    }
}

/// Input fragments arriving while a block is open are gathered in order and
/// emit nothing.
proof fn lemma_fragments_gathered(pre: Seq<char>, fragments: Seq<Seq<char>>)
    ensures
        run_data(
            ToolState { open: true, input: pre },
            fragments.map_values(|f: Seq<char>| FrameData::JsonDelta { partial_json: f }),
        ) == (ToolState { open: true, input: pre + concat_all(fragments) }, Seq::<EventModel>::empty()),
    decreases fragments.len(),
{
    let ds = fragments.map_values(|f: Seq<char>| FrameData::JsonDelta { partial_json: f });
    if fragments.len() == 0 {
        assert(pre + concat_all(fragments) == pre);
    } else {
        let init = fragments.drop_last();
        lemma_fragments_gathered(pre, init);
        assert(ds.drop_last() == init.map_values(|f: Seq<char>| FrameData::JsonDelta { partial_json: f }));
        lemma_concat_push(init, fragments.last());
        assert(init.push(fragments.last()) == fragments);
        assert(pre + concat_all(init) + fragments.last() == pre + (concat_all(init) + fragments.last()));
    }
}

/// Tool input split into fragments at arbitrary offsets is reassembled:
/// a code-execution block whose start is followed by input deltas and then
/// its end emits exactly the event that its whole input gives, however the
/// input was split, and closes the accumulator.
pub proof fn lemma_tool_input_reassembled(st: ToolState, id: Seq<char>, fragments: Seq<Seq<char>>)
    requires
        concat_all(fragments).len() > 0,
    ensures
        run_data(st, tool_block(id, fragments)) == (
            ToolState { open: false, input: Seq::empty() },
            event_seq(tool_input_event(concat_all(fragments))),
        ),
        run_data(st, tool_block(id, fragments)) == run_data(st, tool_block(id, seq![concat_all(fragments)])),
{
    lemma_block_run(st, id, fragments);
    let whole = seq![concat_all(fragments)];
    assert(whole.drop_first() == Seq::<Seq<char>>::empty());
    assert(whole[0] == concat_all(fragments));
    assert(concat_all(whole) == concat_all(fragments) + concat_all(whole.drop_first()));
    assert(concat_all(whole.drop_first()) == Seq::<char>::empty());
    assert(concat_all(fragments) + Seq::<char>::empty() == concat_all(fragments));
    lemma_block_run(st, id, whole);
}

/// Tool input reassembly as it arrives on the wire: frames that decode to
/// the start of a code-execution block, its input deltas and its end emit
/// exactly the event that the whole input gives.
pub proof fn lemma_tool_frames_reassembled(
    st: ToolState,
    id: Seq<char>,
    fragments: Seq<Seq<char>>,
    fs: Seq<Seq<char>>,
)
    requires
        concat_all(fragments).len() > 0,
        fs.len() == tool_block(id, fragments).len(),
        forall|k: int| 0 <= k < fs.len() ==> decode_spec(#[trigger] fs[k]) == Some(tool_block(id, fragments)[k]),
    ensures
        run_frames(st, fs) == (
            ToolState { open: false, input: Seq::empty() },
            event_seq(tool_input_event(concat_all(fragments))),
        ),
{
    lemma_frames_as_data(st, fs, tool_block(id, fragments));
    lemma_tool_input_reassembled(st, id, fragments);
}

/// The run of one code-execution block with a non-empty input.
proof fn lemma_block_run(st: ToolState, id: Seq<char>, fragments: Seq<Seq<char>>)
    requires
        concat_all(fragments).len() > 0,
    ensures
        run_data(st, tool_block(id, fragments)) == (
            ToolState { open: false, input: Seq::empty() },
            event_seq(tool_input_event(concat_all(fragments))),
        ),
{
    let start = seq![FrameData::ToolUse { id, name: code_tool_name() }];
    let deltas = fragments.map_values(|f: Seq<char>| FrameData::JsonDelta { partial_json: f });
    let stop = seq![FrameData::BlockStop];
    assert(tool_block(id, fragments) == (start + deltas) + stop);
    lemma_run_data_append(st, start + deltas, stop);
    lemma_run_data_append(st, start, deltas);
    assert(start.drop_last() == Seq::<FrameData>::empty());
    let opened = ToolState { open: true, input: Seq::empty() };
    assert(start.last() == FrameData::ToolUse { id, name: code_tool_name() });
    assert(data_step(st, start.last()) == (opened, Seq::<EventModel>::empty()));
    assert(run_data(st, start.drop_last()) == (st, Seq::<EventModel>::empty()));
    assert(run_data(st, start) == (opened, Seq::<EventModel>::empty()));
    lemma_fragments_gathered(Seq::empty(), fragments);
    assert(Seq::<char>::empty() + concat_all(fragments) == concat_all(fragments));
    assert(stop.drop_last() == Seq::<FrameData>::empty());
    assert(Seq::<EventModel>::empty() + Seq::<EventModel>::empty() == Seq::<EventModel>::empty());
    let gathered = ToolState { open: true, input: concat_all(fragments) };
    assert(run_data(gathered, stop) == data_step(gathered, FrameData::BlockStop)) by {
        assert(run_data(gathered, stop.drop_last()) == (gathered, Seq::<EventModel>::empty()));
        assert(Seq::<EventModel>::empty() + data_step(gathered, FrameData::BlockStop).1
            == data_step(gathered, FrameData::BlockStop).1);
    }
}

/// Frames that carry no payload marker, or whose payload yields no type
/// (as when it does not parse), emit nothing and leave the session running
/// with its accumulator as it was.
pub proof fn lemma_unreadable_frame_is_silent(m: SessionModel, f: Seq<char>)
    requires
        accepts_bytes(m.phase),
        m.buffer.len() == 0,
        is_plain_frame(f),
        payload_of(f) is None || json_text_at(payload_of(f)->0, "/type"@) is None,
    ensures
        text_step(m, f + seq!['\n', '\n']) == (
            SessionModel { phase: Phase::Streaming, buffer: Seq::empty(), ..m },
            Seq::<EventModel>::empty(),
        ),
{
    let fs = seq![f];
    assert(fs.drop_first() == Seq::<Seq<char>>::empty());
    assert(fs[0] == f);
    assert(join_frames(fs.drop_first()) == Seq::<char>::empty());
    assert(join_frames(fs) == f + seq!['\n', '\n'] + Seq::<char>::empty());
    assert(f + seq!['\n', '\n'] + Seq::<char>::empty() == f + seq!['\n', '\n']);
    assert(m.buffer + (f + seq!['\n', '\n']) == f + seq!['\n', '\n']);
    lemma_split_joined(fs);
    assert(decode_spec(f) is None);
    assert(fs.drop_last() == Seq::<Seq<char>>::empty());
    assert(fs.last() == f);
    assert(frame_step(m.tool, f) == (m.tool, Seq::<EventModel>::empty()));
    assert(run_frames(m.tool, fs.drop_last()) == (m.tool, Seq::<EventModel>::empty()));
    assert(Seq::<EventModel>::empty() + Seq::<EventModel>::empty() == Seq::<EventModel>::empty());
    assert(run_frames(m.tool, fs) == (m.tool, Seq::<EventModel>::empty()));
}

/// Cancellation is final: once a session has been cancelled, whatever text
/// still arrives emits nothing, and a session that was running stays
/// cancelled.
pub proof fn lemma_cancelled_session_is_silent(m: SessionModel, chunks: Seq<Seq<char>>)
    ensures
        feed_session(cancel_step(m), chunks).1 == Seq::<EventModel>::empty(),
        feed_session(cancel_step(m), chunks).0 == cancel_step(m),
        is_running(m.phase) ==> cancel_step(m).phase == Phase::Cancelled,
    decreases chunks.len(),
{
    let c = cancel_step(m);
    assert(!accepts_bytes(c.phase));
    if chunks.len() > 0 {
        lemma_cancelled_session_is_silent(m, chunks.drop_first());
        assert(text_step(c, chunks[0]) == (c, Seq::<EventModel>::empty()));
        assert(Seq::<EventModel>::empty() + Seq::<EventModel>::empty() == Seq::<EventModel>::empty());
    }
}

} // verus!
