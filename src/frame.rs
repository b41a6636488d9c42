use chlorine::c_int;
use vstd::prelude::*;

verus! {

/// Maximum number of interleaved samples that one frame can decode to.
pub const MAX_SAMPLES: usize = 2304;

/// What one call of the frame engine reported about the start of a window.
///
/// `samples` is the engine's return value: the number of samples per channel
/// it found (zero when no audio was found). The other fields are the engine's
/// frame record: `frame_bytes` is the number of bytes consumed, garbage before
/// the frame included, and `frame_offset` is where the frame itself starts.
#[derive(Clone, Copy, Debug)]
pub struct FrameInfo {
    pub samples: c_int,
    pub frame_bytes: c_int,
    pub frame_offset: c_int,
    pub channels: c_int,
    pub hz: c_int,
    pub layer: c_int,
    pub bitrate_kbps: c_int,
}

impl FrameInfo {
    /// The report of an engine that found nothing: no samples, no bytes.
    pub fn empty() -> (r: Self)
        ensures
            r.samples == 0,
            r.frame_bytes == 0,
            r.frame_offset == 0,
            r.channels == 0,
            r.hz == 0,
            r.layer == 0,
            r.bitrate_kbps == 0,
    {
        FrameInfo { samples: 0, frame_bytes: 0, frame_offset: 0, channels: 0, hz: 0, layer: 0, bitrate_kbps: 0 }
    }

    /// A report that the engine can give for a window of `len` bytes: the
    /// frame lies inside the window, and decoded audio has at least one
    /// channel and fits the sample buffer.
    pub open spec fn wf_for(self, len: nat) -> bool {
        &&& 0 <= self.frame_offset <= self.frame_bytes
        &&& self.frame_bytes <= len
        &&& 0 <= self.samples
        &&& self.samples > 0 ==> {
            &&& self.frame_bytes > 0
            &&& 1 <= self.channels <= u8::MAX
            &&& self.samples * self.channels <= MAX_SAMPLES
        }
    }

    /// Whether this report is one the engine can give for a window of
    /// `len` bytes.
    pub fn is_valid_for(&self, len: usize) -> (r: bool)
        ensures
            r == self.wf_for(len as nat),
    {
        if self.frame_offset < 0 || self.frame_offset > self.frame_bytes || self.frame_bytes as usize > len {
            return false;
        }
        if self.samples < 0 {
            return false;
        }
        if self.samples > 0 {
            if self.frame_bytes == 0 || self.channels < 1 || self.channels > 255 {
                return false;
            }
            let samples = self.samples as i64;
            let channels = self.channels as i64;
            assert(0 < samples * channels <= 255 * 0x7fff_ffff) by (nonlinear_arith)
                requires
                    0 < samples <= 0x7fff_ffff,
                    1 <= channels <= 255,
            ;
            if samples * channels > MAX_SAMPLES as i64 {
                return false;
            }
        }
        true
    }
}

/// What a decoded or parsed audio frame says of itself.
pub struct AudioView {
    pub bitrate: u16,
    pub channels: u8,
    pub mpeg_layer: u8,
    pub sample_count: u16,
    pub sample_rate: u16,
    /// The bytes of the frame, header and payload, without leading garbage.
    pub source: Seq<u8>,
    /// Whether samples were written to the output buffer.
    pub decoded: bool,
}

/// What a frame is: audio, or data that the engine skips without decoding.
pub enum FrameView {
    Audio(AudioView),
    Other(Seq<u8>),
}

impl FrameView {
    /// The bytes of the frame in the buffer, leading garbage excluded.
    pub open spec fn source(self) -> Seq<u8> {
        match self {
            FrameView::Audio(a) => a.source,
            FrameView::Other(s) => s,
        }
    }
}

/// Describes audio samples in a frame.
#[derive(Clone, Copy)]
pub struct Audio<'src> {
    bitrate: u16,
    channels: u8,
    mpeg_layer: u8,
    sample_count: u16,
    sample_rate: u16,
    src: &'src [u8],
    decoded: bool,
}

/// Describes a frame that contains audio or other (unknown) data.
#[derive(Clone, Copy)]
pub enum Frame<'src> {
    /// A frame containing audio.
    Audio(Audio<'src>),
    /// A span of miscellaneous data.
    Other(&'src [u8]),
}

impl<'src> View for Audio<'src> {
    type V = AudioView;

    closed spec fn view(&self) -> AudioView {
        AudioView {
            bitrate: self.bitrate,
            channels: self.channels,
            mpeg_layer: self.mpeg_layer,
            sample_count: self.sample_count,
            sample_rate: self.sample_rate,
            source: self.src@,
            decoded: self.decoded,
        }
    }
}

impl<'src> View for Frame<'src> {
    type V = FrameView;

    open spec fn view(&self) -> FrameView {
        match self {
            Frame::Audio(a) => FrameView::Audio(a@),
            Frame::Other(s) => FrameView::Other(s@),
        }
    }
}

/// The audio that a report with samples describes, its frame cut from `window`.
pub open spec fn audio_of(window: Seq<u8>, decoded: bool, info: FrameInfo) -> AudioView {
    AudioView {
        bitrate: info.bitrate_kbps as u16,
        channels: info.channels as u8,
        mpeg_layer: info.layer as u8,
        sample_count: info.samples as u16,
        sample_rate: info.hz as u16,
        source: window.subrange(info.frame_offset as int, info.frame_bytes as int),
        decoded,
    }
}

impl<'src> Audio<'src> {
    /// Builds the audio descriptor of a report with samples.
    pub(crate) fn from_info(window: &'src [u8], decoded: bool, info: &FrameInfo) -> (r: Self)
        requires
            info.wf_for(window@.len()),
            info.samples > 0,
        ensures
            r@ == audio_of(window@, decoded, *info),
    {
        Audio {
            bitrate: #[verifier::truncate] (info.bitrate_kbps as u16),
            channels: info.channels as u8,
            mpeg_layer: #[verifier::truncate] (info.layer as u8),
            sample_count: info.samples as u16,
            sample_rate: #[verifier::truncate] (info.hz as u16),
            src: vstd::slice::slice_subrange(window, info.frame_offset as usize, info.frame_bytes as usize),
            decoded,
        }
    }

    /// Gets the bitrate of this frame in kb/s (zero for free format).
    pub fn bitrate(&self) -> (r: u16)
        ensures
            r == self@.bitrate,
    {
        self.bitrate
    }

    /// Gets how many channels are in this frame.
    pub fn channels(&self) -> (r: u8)
        ensures
            r == self@.channels,
    {
        self.channels
    }

    /// Gets the MPEG layer of this frame.
    pub fn mpeg_layer(&self) -> (r: u8)
        ensures
            r == self@.mpeg_layer,
    {
        self.mpeg_layer
    }

    /// Gets the number of samples in this frame per channel.
    pub fn sample_count(&self) -> (r: u16)
        ensures
            r == self@.sample_count,
    {
        self.sample_count
    }

    /// Gets the sample rate of this frame in Hz.
    pub fn sample_rate(&self) -> (r: u16)
        ensures
            r == self@.sample_rate,
    {
        self.sample_rate
    }

    /// Gets the slice of the source which contains the entire frame.
    /// Leading garbage is omitted from the slice.
    pub fn source(&self) -> (r: &'src [u8])
        ensures
            r@ == self@.source,
    {
        self.src
    }

    /// Gets how many interleaved samples were decoded into the output
    /// buffer: the sample count times the channels, or zero when the
    /// samples were not decoded.
    pub fn sample_len(&self) -> (r: usize)
        ensures
            r == (if self@.decoded { self@.sample_count * self@.channels } else { 0 }),
    {
        if self.decoded {
            let count = self.sample_count as usize;
            let channels = self.channels as usize;
            assert(count * channels <= 0xffff * 0xff) by (nonlinear_arith)
                requires
                    count <= 0xffff,
                    channels <= 0xff,
            ;
            count * channels
        } else {
            0
        }
    }

    /// Whether the samples of this frame were decoded into the output buffer.
    pub fn is_decoded(&self) -> (r: bool)
        ensures
            r == self@.decoded,
    {
        self.decoded
    }
}

} // verus!
