use vstd::prelude::*;

verus! {

/// Width of the captured raster, in pixels, as the device sends it.
pub const VIDEO_WIDTH: usize = 240;

/// Height of the captured raster, in pixels, as the device sends it.
pub const VIDEO_HEIGHT: usize = 720;

/// Bytes per captured pixel (red, green, blue).
pub const RGB_COLOR_SIZE: usize = 3;

/// Bytes of PCM audio that follow the video segment.
pub const AUDIO_BUFFER_SIZE: usize = 2188;

/// Bytes of unexplained trailing data after the audio segment.
pub const UNKNOWN_BUFFER_SIZE: usize = 1920;

/// Audio sample rate of the device, in hertz.
pub const AUDIO_SAMPLE_HZ: u32 = 32728;

/// Interleaved audio channels.
pub const AUDIO_CHANNELS: u16 = 2;

/// How the audio segment is encoded; fixed per device revision.
#[derive(Debug, Clone, Copy, PartialEq, Eq, Structural)]
pub enum AudioMode {
    /// Signed 16-bit little-endian interleaved samples.
    Pcm16,
    /// Legacy unsigned 8-bit samples biased at 128.
    Biased8,
}

/// The layout of one capture cycle's bulk transfer: a video segment of
/// `width * height` RGB24 pixels, then an audio segment, then padding.
#[derive(Debug, Clone, Copy, PartialEq, Eq, Structural)]
pub struct ProtocolGeometry {
    pub width: usize,
    pub height: usize,
    pub video_len: usize,
    pub audio_len: usize,
    pub padding_len: usize,
    pub total_len: usize,
    pub sample_rate: u32,
    pub channels: u16,
    pub audio_mode: AudioMode,
}

impl ProtocolGeometry {
    /// The segments add up to the whole transfer, and the video segment holds
    /// exactly one RGB24 raster.
    pub open spec fn wf(&self) -> bool {
        &&& self.video_len == self.width * self.height * 3
        &&& self.total_len == self.video_len + self.audio_len + self.padding_len
    }

    /// A layout from its raster size, audio and padding lengths; `None` where
    /// the total size does not fit in a `usize`.
    pub fn new(
        width: usize,
        height: usize,
        audio_len: usize,
        padding_len: usize,
        sample_rate: u32,
        channels: u16,
        audio_mode: AudioMode,
    ) -> (r: Option<ProtocolGeometry>)
        ensures
            r is Some <==> width * height * 3 + audio_len + padding_len <= usize::MAX,
            r matches Some(g) ==> {
                &&& g.wf()
                &&& g.width == width
                &&& g.height == height
                &&& g.audio_len == audio_len
                &&& g.padding_len == padding_len
                &&& g.sample_rate == sample_rate
                &&& g.channels == channels
                &&& g.audio_mode == audio_mode
            },
    {
        let area = match width.checked_mul(height) {
            Some(a) => a,
            None => {
                proof {
                    assert(width * height * 3 > usize::MAX) by (nonlinear_arith)
                        requires width * height > usize::MAX;
                }
                return None;
            },
        };
        let video_len = match area.checked_mul(3) {
            Some(v) => v,
            None => return None,
        };
        let with_audio = match video_len.checked_add(audio_len) {
            Some(v) => v,
            None => return None,
        };
        let total_len = match with_audio.checked_add(padding_len) {
            Some(v) => v,
            None => return None,
        };
        Some(ProtocolGeometry {
            width,
            height,
            video_len,
            audio_len,
            padding_len,
            total_len,
            sample_rate,
            channels,
            audio_mode,
        })
    }

    /// The layout of the known device revision: a 240 x 720 raster, signed
    /// 16-bit stereo audio at 32728 Hz, and trailing padding.
    pub fn standard() -> (r: ProtocolGeometry)
        ensures
            r.wf(),
            r.width == VIDEO_WIDTH,
            r.height == VIDEO_HEIGHT,
            r.audio_len == AUDIO_BUFFER_SIZE,
            r.padding_len == UNKNOWN_BUFFER_SIZE,
            r.sample_rate == AUDIO_SAMPLE_HZ,
            r.channels == AUDIO_CHANNELS,
            r.audio_mode == AudioMode::Pcm16,
    {
        let video_len: usize = VIDEO_WIDTH * VIDEO_HEIGHT * RGB_COLOR_SIZE;
        ProtocolGeometry {
            width: VIDEO_WIDTH,
            height: VIDEO_HEIGHT,
            video_len,
            audio_len: AUDIO_BUFFER_SIZE,
            padding_len: UNKNOWN_BUFFER_SIZE,
            total_len: video_len + AUDIO_BUFFER_SIZE + UNKNOWN_BUFFER_SIZE,
            sample_rate: AUDIO_SAMPLE_HZ,
            channels: AUDIO_CHANNELS,
            audio_mode: AudioMode::Pcm16,
        }
    }
}

} // verus!
