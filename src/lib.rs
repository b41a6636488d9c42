//! A streaming session layer in front of an MPEG-audio frame engine.
mod decoder;
mod frame;
mod laws;
mod owned;
mod stream;

pub use decoder::{frame_result, Decoder, HEADER_BYTES};
pub use frame::{Audio, AudioView, Frame, FrameInfo, FrameView, MAX_SAMPLES};
pub use owned::OwnedDecoderStream;
pub use stream::{opt_nat, opt_view, DecoderStream, StreamView};
pub use laws::{
    consumed_run, lemma_next_run_covers_buffer, lemma_next_run_position, lemma_peek_then_skip, lemma_peek_twice,
    lemma_position_moves_forward, lemma_seek_past_end, lemma_seek_then_peek, lemma_short_window_has_no_frame,
    next_consumed, next_run, start,
};
