use crate::decoder::{frame_result, Decoder, HEADER_BYTES};
use crate::frame::{Frame, FrameInfo, FrameView};
use vstd::prelude::*;

verus! {

/// The state of a stream: the whole buffer, where the current view starts,
/// and the length remembered from the last peek, if any.
pub struct StreamView {
    pub data: Seq<u8>,
    pub pos: nat,
    pub memo: Option<nat>,
}

impl StreamView {
    /// The view starts inside the buffer, and a remembered length is a
    /// non-empty span of the view.
    pub open spec fn wf(self) -> bool {
        &&& self.pos <= self.data.len()
        &&& self.memo matches Some(n) ==> 0 < n && self.pos + n <= self.data.len()
    }

    /// The bytes from the current position to the end of the buffer.
    pub open spec fn window(self) -> Seq<u8> {
        self.data.subrange(self.pos as int, self.data.len() as int)
    }

    /// The same buffer and memo at another position.
    pub open spec fn at(self, pos: nat, memo: Option<nat>) -> StreamView {
        StreamView { data: self.data, pos, memo }
    }

    /// Looks at the frame at the current position without decoding or
    /// moving, and remembers how far it reaches.
    pub open spec fn peek_step(self, info: FrameInfo) -> (StreamView, Option<FrameView>) {
        match frame_result(self.window(), false, info) {
            Some((f, n)) => (self.at(self.pos, Some(n)), Some(f)),
            None => (self.at(self.pos, None), None),
        }
    }

    /// Decodes the frame at the current position and moves past it.
    pub open spec fn next_step(self, info: FrameInfo) -> (StreamView, Option<FrameView>) {
        match frame_result(self.window(), true, info) {
            Some((f, n)) => (self.at(self.pos + n, None), Some(f)),
            None => (self.at(self.pos, None), None),
        }
    }

    /// Moves past the frame at the current position without decoding it,
    /// by the remembered length where there is one.
    pub open spec fn skip_step(self, info: FrameInfo) -> (StreamView, Option<nat>) {
        match self.memo {
            Some(n) => (self.at(self.pos + n, None), Some(n)),
            None => match frame_result(self.window(), false, info) {
                Some((_, n)) => (self.at(self.pos + n, None), Some(n)),
                None => (self.at(self.pos, None), None),
            },
        }
    }

    /// Moves to `offset`, or to the end of the buffer where `offset` lies
    /// beyond it, and forgets the remembered length.
    pub open spec fn seek_step(self, offset: nat) -> StreamView {
        if offset <= self.data.len() {
            self.at(offset, None)
        } else {
            self.at(self.data.len(), None)
        }
    }
}

/// High-level streaming cursor over a byte buffer held in memory.
///
/// The cursor decides; the frame engine looks. Before `peek`, `next` or
/// `skip`, the caller runs the engine on [`window`](Self::window) (with the
/// output buffer for `next`, without it otherwise) where
/// [`Decoder::wants_engine`] says so and, for `skip`, where no length is
/// remembered; it then hands the engine's report to the call. Where the
/// engine was not run, [`FrameInfo::empty`] stands for its report.
pub struct DecoderStream<'src> {
    decoder: Decoder,
    base: &'src [u8],
    pos: usize,
    cache: Option<usize>,
}

impl<'src> View for DecoderStream<'src> {
    type V = StreamView;

    closed spec fn view(&self) -> StreamView {
        StreamView {
            data: self.base@,
            pos: self.pos as nat,
            memo: match self.cache {
                Some(n) => Some(n as nat),
                None => None,
            },
        }
    }
}

impl<'src> DecoderStream<'src> {
    /// Initialises a new stream at the start of `src`.
    pub fn new(src: &'src [u8]) -> (r: Self)
        ensures
            r@ == (StreamView { data: src@, pos: 0, memo: None }),
            r@.wf(),
    {
        DecoderStream { decoder: Decoder::new(), base: src, pos: 0, cache: None }
    }

    /// Resumes a stream over `src` at `pos`, remembering `cache`.
    pub(crate) fn resume(src: &'src [u8], pos: usize, cache: Option<usize>) -> (r: Self)
        ensures
            r@.data == src@,
            r@.pos == pos,
            r@.memo == opt_nat(cache),
    {
        DecoderStream { decoder: Decoder::new(), base: src, pos, cache }
    }

    /// The bytes from the current position to the end of the buffer: the
    /// window the engine is to be run on.
    pub fn window(&self) -> (r: &'src [u8])
        requires
            self@.wf(),
        ensures
            r@ == self@.window(),
    {
        vstd::slice::slice_subrange(self.base, self.pos, self.base.len())
    }

    /// The length remembered from the last peek, which a following `skip`
    /// uses without a report.
    pub fn cached_skip(&self) -> (r: Option<usize>)
        ensures
            opt_nat(r) == self@.memo,
    {
        self.cache
    }

    /// Decodes the next frame, skipping over garbage before it. `info` is
    /// the engine's report on the window, run with the output buffer.
    pub fn next(&mut self, info: &FrameInfo) -> (r: Option<Frame<'src>>)
        requires
            old(self)@.wf(),
            info.wf_for(old(self)@.window().len()),
        ensures
            final(self)@.wf(),
            (final(self)@, opt_view(r)) == old(self)@.next_step(*info),
    {
        self.cache = None;
        let window = self.window();
        match self.decoder.decode(window, true, info) {
            Some((frame, bytes_read)) => {
                assert(window@.len() == self.base.len() - self.pos);
                self.pos = self.pos + bytes_read;
                Some(frame)
            },
            None => None,
        }
    }

    /// Parses the next frame without decoding any samples or moving
    /// forward. `info` is the engine's report on the window, run without the
    /// output buffer.
    pub fn peek(&mut self, info: &FrameInfo) -> (r: Option<Frame<'src>>)
        requires
            old(self)@.wf(),
            info.wf_for(old(self)@.window().len()),
        ensures
            final(self)@.wf(),
            (final(self)@, opt_view(r)) == old(self)@.peek_step(*info),
    {
        let window = self.window();
        match self.decoder.decode(window, false, info) {
            Some((frame, bytes_read)) => {
                self.cache = Some(bytes_read);
                Some(frame)
            },
            None => {
                self.cache = None;
                None
            },
        }
    }

    /// Skips the current frame, moving on to the next, and returns how many
    /// bytes it moved forward. After a peek the remembered length is used
    /// and `info` is not read; otherwise `info` is the engine's report on
    /// the window, run without the output buffer.
    pub fn skip(&mut self, info: &FrameInfo) -> (r: Option<usize>)
        requires
            old(self)@.wf(),
            info.wf_for(old(self)@.window().len()),
        ensures
            final(self)@.wf(),
            (final(self)@, opt_nat(r)) == old(self)@.skip_step(*info),
    {
        let bytes_to_skip = match self.cache {
            Some(amount) => amount,
            None => {
                let window = self.window();
                match self.decoder.decode(window, false, info) {
                    Some((_, bytes_read)) => {
                        assert(window@.len() == self.base.len() - self.pos);
                        bytes_read
                    },
                    None => {
                        return None;
                    },
                }
            },
        };
        assert(self.base@.len() == self.base.len());
        self.cache = None;
        self.pos = self.pos + bytes_to_skip;
        Some(bytes_to_skip)
    }

    /// Returns the offset of the current position from the start of the
    /// buffer.
    pub fn offset(&self) -> (r: usize)
        ensures
            r == self@.pos,
    {
        self.pos
    }

    /// Moves to `offset` from the start of the buffer and forgets the
    /// length remembered from a peek. An offset beyond the buffer moves to
    /// its end, which is then returned as the error: the move is made
    /// either way.
    pub fn set_offset(&mut self, offset: usize) -> (r: Result<(), usize>)
        requires
            old(self)@.wf(),
        ensures
            final(self)@.wf(),
            final(self)@ == old(self)@.seek_step(offset as nat),
            r is Ok <==> offset <= old(self)@.data.len(),
            r matches Err(end) ==> end == old(self)@.data.len(),
    {
        self.cache = None;
        if offset <= self.base.len() {
            self.pos = offset;
            Ok(())
        } else {
            self.pos = self.base.len();
            Err(self.base.len())
        }
    }
}

/// The view of a frame that may be absent.
pub open spec fn opt_view(r: Option<Frame>) -> Option<FrameView> {
    match r {
        Some(f) => Some(f@),
        None => None,
    }
}

/// A length that may be absent, as a natural number.
pub open spec fn opt_nat(r: Option<usize>) -> Option<nat> {
    match r {
        Some(n) => Some(n as nat),
        None => None,
    }
}

} // verus!
