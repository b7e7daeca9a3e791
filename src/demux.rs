use vstd::prelude::*;

use crate::error::CaptureError;
use crate::geometry::ProtocolGeometry;

verus! {

/// The video bytes of a capture buffer.
pub open spec fn video_segment(raw: Seq<u8>, g: ProtocolGeometry) -> Seq<u8> {
    raw.subrange(0, g.video_len as int)
}

/// The audio bytes of a capture buffer, right after the video.
pub open spec fn audio_segment(raw: Seq<u8>, g: ProtocolGeometry) -> Seq<u8> {
    raw.subrange(g.video_len as int, g.video_len + g.audio_len)
}

/// The trailing padding of a capture buffer, up to the declared total size.
pub open spec fn padding_segment(raw: Seq<u8>, g: ProtocolGeometry) -> Seq<u8> {
    raw.subrange(g.video_len + g.audio_len, g.total_len as int)
}

/// One capture buffer split into its three segments.
#[derive(Debug, PartialEq, Eq)]
pub struct Segments {
    pub video: Vec<u8>,
    pub audio: Vec<u8>,
    pub padding: Vec<u8>,
}

/// A copy of `raw[start..end]`.
fn copy_range(raw: &[u8], start: usize, end: usize) -> (r: Vec<u8>)
    requires
        start <= end <= raw@.len(),
    ensures
        r@ == raw@.subrange(start as int, end as int),
{
    let mut out: Vec<u8> = Vec::with_capacity(end - start);
    let mut i: usize = start;
    while i < end
        invariant
            start <= i <= end <= raw@.len(),
            out@ =~= raw@.subrange(start as int, i as int),
        decreases end - i,
    {
        out.push(raw[i]);
        i = i + 1;
    }
    out
}

/// Splits one capture buffer at the layout's fixed offsets. Bytes past the
/// declared total size are ignored; a shorter buffer is a truncated frame.
pub fn demux(raw: &[u8], geometry: &ProtocolGeometry) -> (r: Result<Segments, CaptureError>)
    requires
        geometry.wf(),
    ensures
        r is Ok <==> raw@.len() >= geometry.total_len,
        r matches Ok(s) ==> {
            &&& s.video@ == video_segment(raw@, *geometry)
            &&& s.audio@ == audio_segment(raw@, *geometry)
            &&& s.padding@ == padding_segment(raw@, *geometry)
        },
        r matches Err(e) ==> e == CaptureError::TruncatedFrame,
{
    if raw.len() < geometry.total_len {
        return Err(CaptureError::TruncatedFrame);
    }
    let audio_start = geometry.video_len;
    let padding_start = geometry.video_len + geometry.audio_len;
    Ok(Segments {
        video: copy_range(raw, 0, audio_start),
        audio: copy_range(raw, audio_start, padding_start),
        padding: copy_range(raw, padding_start, geometry.total_len),
    })
}

/// For a buffer of the declared total size, the video segment holds one
/// RGB24 raster, the audio segment has the declared length, and video, audio
/// and padding put back together give the buffer.
pub proof fn demux_reassembles(raw: Seq<u8>, geometry: ProtocolGeometry)
    requires
        geometry.wf(),
        raw.len() == geometry.total_len,
    ensures
        video_segment(raw, geometry).len() == geometry.width * geometry.height * 3,
        audio_segment(raw, geometry).len() == geometry.audio_len,
        video_segment(raw, geometry) + audio_segment(raw, geometry) + padding_segment(
            raw,
            geometry,
        ) == raw,
{
    assert(video_segment(raw, geometry) + audio_segment(raw, geometry) + padding_segment(
        raw,
        geometry,
    ) =~= raw);
}

} // verus!
