use vstd::prelude::*;

use crate::time::{Span, NANOS_PER_MILLI};

verus! {

/// A frame rate as the fraction `nominator / denominator` frames per second.
#[derive(Clone, Copy, Debug, PartialEq, Eq, Structural)]
pub struct Framerate {
    pub nominator: u32,
    pub denominator: u32,
}

/// A width and a height.
#[derive(Clone, Copy, Debug)]
pub struct Dimensions<T> {
    pub width: T,
    pub height: T,
}

/// `x` with its least significant bit cleared: the even number at or just below it.
pub open spec fn even_floor(x: u32) -> u32 {
    (x - x % 2) as u32
}

impl Dimensions<u32> {
    /// Both sides rounded down to an even number of pixels, as video encoders need.
    pub fn as_even_dimensions(self) -> (d: Dimensions<u32>)
        ensures
            d.width == even_floor(self.width),
            d.height == even_floor(self.height),
    {
        let w = self.width;
        let h = self.height;
        assert(w & !1u32 == (w - w % 2) as u32) by (bit_vector);
        assert(h & !1u32 == (h - h % 2) as u32) by (bit_vector);
        Dimensions { width: w & !1u32, height: h & !1u32 }
    }

    /// Whether two sizes are equal.
    pub fn same_as(&self, other: &Dimensions<u32>) -> (b: bool)
        ensures
            b == (self.width == other.width && self.height == other.height),
    {
        self.width == other.width && self.height == other.height
    }
}

/// The size turned a quarter: width and height exchanged.
pub open spec fn swapped<T>(d: Dimensions<T>) -> Dimensions<T> {
    Dimensions { width: d.height, height: d.width }
}

impl<T: Copy> Dimensions<T> {
    /// The same size turned a quarter: width and height exchanged.
    pub fn swap(&self) -> (d: Dimensions<T>)
        ensures
            d == swapped(*self),
    {
        Dimensions { width: self.height, height: self.width }
    }
}

/// Exchanging width and height twice gives back the size.
pub proof fn law_swap_twice<T>(d: Dimensions<T>)
    ensures
        swapped(swapped(d)) == d,
{
}

/// Evening a size and turning it commute.
pub proof fn law_even_then_swap(d: Dimensions<u32>)
    ensures
        ({
            let e = Dimensions { width: even_floor(d.width), height: even_floor(d.height) };
            let s = swapped(d);
            swapped(e) == Dimensions { width: even_floor(s.width), height: even_floor(s.height) }
        }),
{
}

/// Evening a size twice is the same as evening it once, and never grows it.
pub proof fn law_even_floor_idempotent(x: u32)
    ensures
        even_floor(even_floor(x)) == even_floor(x),
        even_floor(x) <= x,
        even_floor(x) % 2 == 0,
        x - even_floor(x) <= 1,
{
}

/// What media discovery reports of a file's first video stream.
#[derive(Clone, Copy, Debug)]
pub struct VideoStreamInfo {
    pub width: u32,
    pub height: u32,
    pub framerate_numer: i32,
    pub framerate_denom: i32,
}

/// What media discovery reports of a file, as plain values.
#[derive(Clone, Debug)]
pub struct DiscoveredMedia {
    pub video_streams: Vec<VideoStreamInfo>,
    /// The length in whole milliseconds, when known.
    pub duration_millis: Option<u64>,
    pub audio_stream_count: usize,
}

/// The properties of a loaded video that the editor works with.
#[derive(Clone, Copy, Debug)]
pub struct MediaInfo {
    pub dimensions: Dimensions<u32>,
    /// `None` for sources without a meaningful constant rate (e.g. still images),
    /// in which case callers fall back to a default.
    pub framerate: Option<Framerate>,
    pub duration: Span,
    pub has_audio: bool,
}

/// The frame rate that a stream's reported fraction stands for: none unless both
/// parts are positive.
pub open spec fn stream_framerate(v: VideoStreamInfo) -> Option<Framerate> {
    if v.framerate_numer > 0 && v.framerate_denom > 0 {
        Some(Framerate { nominator: v.framerate_numer as u32, denominator: v.framerate_denom as u32 })
    } else {
        None
    }
}

/// Whether `m` holds what `info` says of its first video stream, its length (zero
/// when unknown) and whether it has audio.
pub open spec fn describes(m: MediaInfo, info: DiscoveredMedia) -> bool {
    let v = info.video_streams@[0];
    &&& m.dimensions.width == v.width
    &&& m.dimensions.height == v.height
    &&& m.framerate == stream_framerate(v)
    &&& m.duration@ == match info.duration_millis {
        Some(ms) => ms * NANOS_PER_MILLI,
        None => 0,
    }
    &&& m.has_audio == (info.audio_stream_count > 0)
}

/// Extracts dimensions, framerate, duration, and audio presence from an
/// already-discovered media file.
///
/// Returns `None` if the file has no video stream.
pub fn media_info(info: &DiscoveredMedia) -> (r: Option<MediaInfo>)
    ensures
        r is Some <==> info.video_streams@.len() > 0,
        r matches Some(m) ==> describes(m, *info),
{
    if info.video_streams.len() == 0 {
        return None;
    }
    let video = info.video_streams[0];
    let framerate = if video.framerate_numer > 0 && video.framerate_denom > 0 {
        Some(
            Framerate {
                nominator: video.framerate_numer as u32,
                denominator: video.framerate_denom as u32,
            },
        )
    } else {
        None
    };
    let duration = match info.duration_millis {
        Some(ms) => Span::from_millis(ms),
        None => Span::zero(),
    };
    Some(
        MediaInfo {
            dimensions: Dimensions { width: video.width, height: video.height },
            framerate,
            duration,
            has_audio: info.audio_stream_count > 0,
        },
    )
}

} // verus!
