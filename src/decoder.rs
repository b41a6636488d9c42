use crate::frame::{audio_of, Audio, Frame, FrameInfo, FrameView};
use chlorine::c_int;
use vstd::prelude::*;

verus! {

/// The length of a frame header, the shortest span that can hold a frame
/// sync: a shorter window never holds a frame.
pub const HEADER_BYTES: usize = 4;

/// What the adapter makes of the engine's report `info` on `window`: the
/// frame and the number of bytes consumed, or `None` when there is no
/// frame to be had.
pub open spec fn frame_result(window: Seq<u8>, decoded: bool, info: FrameInfo) -> Option<(FrameView, nat)> {
    if window.len() < HEADER_BYTES {
        None
    } else if info.samples > 0 {
        Some((FrameView::Audio(audio_of(window, decoded, info)), info.frame_bytes as nat))
    } else if info.frame_bytes > 0 {
        Some((
            FrameView::Other(window.subrange(info.frame_offset as int, info.frame_bytes as int)),
            info.frame_bytes as nat,
        ))
    } else {
        None
    }
}

/// The length handed to the engine for a window of `len` bytes: the engine
/// counts in `c_int`, so longer windows are cut to its largest value.
pub open spec fn engine_len_spec(len: nat) -> int {
    if len <= c_int::MAX as nat { len as int } else { c_int::MAX as int }
}

/// The frame engine adapter: it tells whether a window needs the engine,
/// clamps the length the engine is given, and turns the engine's report
/// into a frame and a count of consumed bytes.
///
/// The adapter keeps no state of its own. The engine's state, which carries
/// history from one frame to the next, stays with whoever runs the engine,
/// one state per session.
pub struct Decoder {}

impl Decoder {
    /// Initialises a new [`Decoder`].
    pub fn new() -> (r: Self) {
        Decoder {}
    }

    /// Whether the engine has to look at `src`: a window shorter than a
    /// frame header holds no frame, whatever the engine would say of it.
    pub fn wants_engine(src: &[u8]) -> (r: bool)
        ensures
            r == (src@.len() >= HEADER_BYTES),
    {
        src.len() >= HEADER_BYTES
    }

    /// Turns the engine's report `info` on the window `src` into a frame and
    /// the number of bytes it consumed, garbage before the frame included.
    ///
    /// `decoded` says whether the engine was given the output buffer, so
    /// that audio frames carry decoded samples. The report of a window that
    /// the engine did not look at is not read: an empty report stands for it.
    pub fn decode<'src>(&mut self, src: &'src [u8], decoded: bool, info: &FrameInfo) -> (r: Option<(Frame<'src>, usize)>)
        requires
            info.wf_for(src@.len()),
        ensures
            *final(self) == *old(self),
            r is None <==> frame_result(src@, decoded, *info) is None,
            r matches Some((f, n)) ==> frame_result(src@, decoded, *info) == Some((f@, n as nat)),
            r matches Some((f, n)) ==> 0 < n <= src@.len(),
    {
        if !Self::wants_engine(src) {
            None
        } else if info.samples > 0 {
            let audio = Audio::from_info(src, decoded, info);
            Some((Frame::Audio(audio), info.frame_bytes as usize))
        } else if info.frame_bytes > 0 {
            let other = vstd::slice::slice_subrange(src, info.frame_offset as usize, info.frame_bytes as usize);
            Some((Frame::Other(other), info.frame_bytes as usize))
        } else {
            None
        }
    }

    /// The window length to pass to the engine for `src`.
    pub fn engine_len(src: &[u8]) -> (r: c_int)
        ensures
            r as int == engine_len_spec(src@.len()),
    {
        if src.len() <= c_int::MAX as usize {
            src.len() as c_int
        } else {
            c_int::MAX
        }
    }
}

} // verus!
