use crate::frame::{Frame, FrameInfo};
use crate::stream::{opt_nat, opt_view, DecoderStream, StreamView};
use vstd::prelude::*;

verus! {

/// A stream that owns its buffer.
///
/// It keeps the buffer and the cursor's position and memo side by side,
/// and borrows a cursor over the buffer afresh for each call, so the
/// frames it returns borrow from the stream itself. It is driven as
/// [`DecoderStream`] is.
pub struct OwnedDecoderStream {
    data: Vec<u8>,
    pos: usize,
    cache: Option<usize>,
}

impl View for OwnedDecoderStream {
    type V = StreamView;

    closed spec fn view(&self) -> StreamView {
        StreamView { data: self.data@, pos: self.pos as nat, memo: opt_nat(self.cache) }
    }
}

impl OwnedDecoderStream {
    /// Takes `data` and starts a stream at its beginning.
    pub fn new(data: Vec<u8>) -> (r: Self)
        ensures
            r@ == (StreamView { data: data@, pos: 0, memo: None }),
            r@.wf(),
    {
        OwnedDecoderStream { data, pos: 0, cache: None }
    }

    /// The bytes from the current position to the end of the buffer.
    pub fn window(&self) -> (r: &[u8])
        requires
            self@.wf(),
        ensures
            r@ == self@.window(),
    {
        vstd::slice::slice_subrange(self.data.as_slice(), self.pos, self.data.len())
    }

    /// The length remembered from the last peek.
    pub fn cached_skip(&self) -> (r: Option<usize>)
        ensures
            opt_nat(r) == self@.memo,
    {
        self.cache
    }

    /// Decodes the next frame, as [`DecoderStream::next`] does.
    pub fn next(&mut self, info: &FrameInfo) -> (r: Option<Frame<'_>>)
        requires
            old(self)@.wf(),
            info.wf_for(old(self)@.window().len()),
        ensures
            final(self)@.wf(),
            (final(self)@, opt_view(r)) == old(self)@.next_step(*info),
    {
        let mut cursor = DecoderStream::resume(self.data.as_slice(), self.pos, self.cache);
        let r = cursor.next(info);
        self.pos = cursor.offset();
        self.cache = cursor.cached_skip();
        r
    }

    /// Parses the next frame without decoding or moving, as
    /// [`DecoderStream::peek`] does.
    pub fn peek(&mut self, info: &FrameInfo) -> (r: Option<Frame<'_>>)
        requires
            old(self)@.wf(),
            info.wf_for(old(self)@.window().len()),
        ensures
            final(self)@.wf(),
            (final(self)@, opt_view(r)) == old(self)@.peek_step(*info),
    {
        let mut cursor = DecoderStream::resume(self.data.as_slice(), self.pos, self.cache);
        let r = cursor.peek(info);
        self.pos = cursor.offset();
        self.cache = cursor.cached_skip();
        r
    }

    /// Skips the current frame, as [`DecoderStream::skip`] does.
    pub fn skip(&mut self, info: &FrameInfo) -> (r: Option<usize>)
        requires
            old(self)@.wf(),
            info.wf_for(old(self)@.window().len()),
        ensures
            final(self)@.wf(),
            (final(self)@, opt_nat(r)) == old(self)@.skip_step(*info),
    {
        let mut cursor = DecoderStream::resume(self.data.as_slice(), self.pos, self.cache);
        let r = cursor.skip(info);
        self.pos = cursor.offset();
        self.cache = cursor.cached_skip();
        r
    }

    /// Returns the offset of the current position from the start.
    pub fn offset(&self) -> (r: usize)
        ensures
            r == self@.pos,
    {
        self.pos
    }

    /// Moves to `offset`, as [`DecoderStream::set_offset`] does.
    pub fn set_offset(&mut self, offset: usize) -> (r: Result<(), usize>)
        requires
            old(self)@.wf(),
        ensures
            final(self)@.wf(),
            final(self)@ == old(self)@.seek_step(offset as nat),
            r is Ok <==> offset <= old(self)@.data.len(),
            r matches Err(end) ==> end == old(self)@.data.len(),
    {
        self.cache = None;
        if offset <= self.data.len() {
            self.pos = offset;
            Ok(())
        } else {
            self.pos = self.data.len();
            Err(self.data.len())
        }
    }
}

} // verus!
