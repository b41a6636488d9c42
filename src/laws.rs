use crate::decoder::{frame_result, HEADER_BYTES};
use crate::frame::FrameInfo;
use crate::stream::StreamView;
use vstd::prelude::*;

verus! {

/// The state of a stream just made over `data`.
pub open spec fn start(data: Seq<u8>) -> StreamView {
    StreamView { data, pos: 0, memo: None }
}

/// The state after one `next` for each report of `infos`, in order.
pub open spec fn next_run(s: StreamView, infos: Seq<FrameInfo>) -> StreamView
    decreases infos.len(),
{
    if infos.len() == 0 {
        s
    } else {
        next_run(s.next_step(infos[0]).0, infos.drop_first())
    }
}

/// The bytes that one `next` consumes: those of the frame it finds, and
/// none where it finds no frame.
pub open spec fn next_consumed(s: StreamView, info: FrameInfo) -> nat {
    match frame_result(s.window(), true, info) {
        Some((_, n)) => n,
        None => 0,
    }
}

/// The bytes consumed by one `next` for each report of `infos`, added up.
pub open spec fn consumed_run(s: StreamView, infos: Seq<FrameInfo>) -> nat
    decreases infos.len(),
{
    if infos.len() == 0 {
        0
    } else {
        next_consumed(s, infos[0]) + consumed_run(s.next_step(infos[0]).0, infos.drop_first())
    }
}

/// A window shorter than a frame header holds no frame: `next` and `peek`
/// report none there, whatever the engine says, and the position stays.
pub proof fn lemma_short_window_has_no_frame(s: StreamView, info: FrameInfo)
    requires
        s.wf(),
        s.window().len() < HEADER_BYTES,
    ensures
        s.next_step(info).1 is None,
        s.next_step(info).0.pos == s.pos,
        s.peek_step(info).1 is None,
        s.peek_step(info).0.pos == s.pos,
{
}

/// Peeking twice in a row, the engine reporting the same of the same
/// window, gives the same frame and state as peeking once, and neither
/// peek moves the position.
pub proof fn lemma_peek_twice(s: StreamView, info: FrameInfo)
    requires
        s.wf(),
    ensures
        s.peek_step(info).0.peek_step(info) == s.peek_step(info),
        s.peek_step(info).0.pos == s.pos,
{
}

/// After a peek that found a frame, `skip` moves forward by the bytes that
/// the frame reaches, leading garbage included: the frame's source ends
/// exactly at the new position. The remembered length is used, so the
/// skip's own report is not read, and the skip lands where a skip without
/// the peek, from a state with nothing remembered, would have.
pub proof fn lemma_peek_then_skip(s: StreamView, info: FrameInfo, later: FrameInfo)
    requires
        s.wf(),
        info.wf_for(s.window().len()),
        s.peek_step(info).1 is Some,
    ensures
        ({
            let f = s.peek_step(info).1.unwrap();
            let (t, n) = s.peek_step(info).0.skip_step(later);
            &&& n == Some(info.frame_bytes as nat)
            &&& t.pos == s.pos + info.frame_bytes
            &&& t.memo is None
            &&& info.frame_bytes == info.frame_offset + f.source().len()
            &&& f.source() == s.data.subrange(t.pos - f.source().len(), t.pos as int)
            &&& (t, n) == s.at(s.pos, None).skip_step(info)
        }),
{
    let w = s.window();
    let lo = info.frame_offset as int;
    let hi = info.frame_bytes as int;
    assert(w.subrange(lo, hi) =~= s.data.subrange(s.pos + lo, s.pos + hi));
}

/// Moving the position never goes backwards: `next` and `skip` move
/// forward by what they consume and stay inside the buffer, and `peek`
/// keeps the position. A call that finds a frame moves strictly forward,
/// so a run of calls always ends.
pub proof fn lemma_position_moves_forward(s: StreamView, info: FrameInfo)
    requires
        s.wf(),
        info.wf_for(s.window().len()),
    ensures
        s.next_step(info).0.wf(),
        s.next_step(info).0.pos == s.pos + next_consumed(s, info),
        s.skip_step(info).0.wf(),
        s.skip_step(info).0.pos >= s.pos,
        s.next_step(info).1 is Some ==> s.next_step(info).0.pos > s.pos,
        s.skip_step(info).1 is Some ==> s.skip_step(info).0.pos > s.pos,
        s.peek_step(info).0.wf(),
        s.peek_step(info).0.pos == s.pos,
{
}

/// Calling `next` over and over, each step moves the position by exactly
/// the bytes it consumed: the position reached is where the run started
/// plus all that the steps consumed.
pub proof fn lemma_next_run_position(s: StreamView, infos: Seq<FrameInfo>)
    ensures
        next_run(s, infos).pos == s.pos + consumed_run(s, infos),
        next_run(s, infos).data == s.data,
    decreases infos.len(),
{
    if infos.len() > 0 {
        lemma_next_run_position(s.next_step(infos[0]).0, infos.drop_first());
    }
}

/// Decoding a whole buffer from its start with `next` until the position
/// reaches its end: the bytes consumed by all the steps add up to the
/// buffer's length.
pub proof fn lemma_next_run_covers_buffer(data: Seq<u8>, infos: Seq<FrameInfo>)
    requires
        next_run(start(data), infos).pos == data.len(),
    ensures
        consumed_run(start(data), infos) == data.len(),
{
    lemma_next_run_position(start(data), infos);
}

/// Moving beyond the end of the buffer lands at its end, where `next`
/// reports no frame and stays.
pub proof fn lemma_seek_past_end(s: StreamView, offset: nat, info: FrameInfo)
    requires
        s.wf(),
        offset > s.data.len(),
    ensures
        s.seek_step(offset).pos == s.data.len(),
        s.seek_step(offset).next_step(info).1 is None,
        s.seek_step(offset).next_step(info).0.pos == s.data.len(),
{
    lemma_short_window_has_no_frame(s.seek_step(offset), info);
}

/// After moving to `offset` inside the buffer, `peek` looks for a frame
/// from `offset` on: the frame it finds lies in the buffer at `offset`
/// plus the engine's offsets, whatever the position was before.
pub proof fn lemma_seek_then_peek(s: StreamView, offset: nat, info: FrameInfo)
    requires
        s.wf(),
        offset <= s.data.len(),
        info.wf_for((s.data.len() - offset) as nat),
    ensures
        s.seek_step(offset).window() == s.data.subrange(offset as int, s.data.len() as int),
        s.seek_step(offset).peek_step(info).0.pos == offset,
        s.seek_step(offset).peek_step(info).1 matches Some(f) ==> f.source() == s.data.subrange(
            offset + info.frame_offset,
            offset + info.frame_bytes,
        ),
{
    let t = s.seek_step(offset);
    let lo = info.frame_offset as int;
    let hi = info.frame_bytes as int;
    assert(t.window().subrange(lo, hi) =~= s.data.subrange(offset + lo, offset + hi));
}

} // verus!
