use vstd::prelude::*;

use crate::info::{describes, law_swap_twice, media_info, swapped, DiscoveredMedia, Dimensions, MediaInfo};
use crate::crop::{spec_transformed, Selection};
use crate::orientation::{law_orientation_transforms, VideoOrientation, VideoOrientationTransformation};
use crate::time::Span;
use crate::timeline::TimeRange;
use crate::uri::{file_uri, file_uri_of, is_absolute_path};

verus! {

/// Why a video could not be loaded.
#[derive(Clone, Debug, PartialEq, Eq)]
pub enum VideoPreviewError {
    /// Media discovery failed; the message of the error it reported.
    Glib(String),
    InvalidPath,
    NoInfo,
}

/// The state that only exists while a video is loaded and being previewed.
#[derive(Clone, Debug)]
pub struct LoadedVideo {
    pub uri: String,
    pub original_dimensions: Dimensions<u32>,
    pub current_dimensions: Dimensions<u32>,
    pub orientation: VideoOrientation,
    pub inpoint: Span,
    pub outpoint: Span,
    pub mute: bool,
    pub ended: bool,
}

/// What the preview asks of its pipeline when playback is switched.
#[derive(Clone, Copy, Debug)]
pub struct PlayCommand {
    /// Where to seek before playing, when playback had reached the end.
    pub seek_to: Option<Span>,
    pub playing: bool,
}

/// The part of a render job that comes from the preview: the video's URI,
/// orientation, crop box and mute state, and where the rendered clip starts in the
/// source and how long it is, in nanoseconds.
#[derive(Clone, Debug)]
pub struct RenderInput<T> {
    pub uri: String,
    pub orientation: VideoOrientation,
    pub crop: Selection<T>,
    pub mute: bool,
    pub inpoint_nanos: u64,
    pub duration_nanos: u64,
}

/// What follows an orientation change of a loaded video: the crop box remapped so
/// that it keeps covering the same pixels, and whether width and height were
/// exchanged.
#[derive(Clone, Copy, Debug)]
pub struct OrientationChange<T> {
    pub crop: Selection<T>,
    pub flipped: bool,
}

/// A span in nanoseconds as a GStreamer clock time; the span must fit in 64 bits.
pub fn duration_to_clocktime(duration: Span) -> (nanos: u64)
    requires
        duration@ <= u64::MAX,
    ensures
        nanos == duration@,
{
    duration.as_nanos() as u64
}

/// The loaded video after seeking to `position`: reaching the trim end counts as
/// having played to the end.
pub open spec fn after_seek(v: LoadedVideo, position: Span) -> LoadedVideo {
    LoadedVideo { ended: v.ended || position@ == v.outpoint@, ..v }
}

/// The loaded video after switching playback on or off, and where to seek first:
/// starting playback after the end was reached goes back to the trim start.
pub open spec fn after_play_switch(v: LoadedVideo, playing: bool) -> (LoadedVideo, Option<Span>) {
    let restart = playing && v.ended;
    (LoadedVideo { ended: v.ended && !restart, ..v }, if restart {
        Some(v.inpoint)
    } else {
        None
    })
}

/// Seeking to the trim end and then pressing play starts over from the trim
/// start; pressing play once more does not seek again, and pausing never seeks.
pub proof fn law_play_after_end_restarts(v: LoadedVideo)
    ensures
        after_play_switch(after_seek(v, v.outpoint), true).1 == Some(v.inpoint),
        after_play_switch(after_play_switch(after_seek(v, v.outpoint), true).0, true).1 is None,
        after_play_switch(v, false).1 is None,
        after_play_switch(v, false).0 == v,
{
}

/// Whether `range` differs from the trim points of `loaded`; with nothing loaded,
/// both trim points count as zero.
pub open spec fn spec_range_differs(loaded: Option<LoadedVideo>, range: TimeRange) -> bool {
    match loaded {
        Some(v) => v.inpoint@ != range.start@ || v.outpoint@ != range.end@,
        None => range.start@ != 0 || range.end@ != 0,
    }
}

/// The loaded video with its trim points set to `range`; nothing stays nothing.
pub open spec fn with_range(loaded: Option<LoadedVideo>, range: TimeRange) -> Option<LoadedVideo> {
    match loaded {
        Some(v) => Some(LoadedVideo { inpoint: range.start, outpoint: range.end, ..v }),
        None => None,
    }
}

/// Once a range has been taken by a loaded video, that same range no longer
/// differs from its trim points, so reporting it again changes nothing; setting
/// it a second time leaves the video as it was.
pub proof fn law_range_taken_is_not_different(v: LoadedVideo, range: TimeRange)
    ensures
        !spec_range_differs(with_range(Some(v), range), range),
        with_range(with_range(Some(v), range), range) == with_range(Some(v), range),
{
}

/// Whether the current size of `v` is its source size as its orientation shows
/// it: width and height exchanged exactly when the orientation exchanges them.
pub open spec fn size_follows_orientation(v: LoadedVideo) -> bool {
    v.current_dimensions == if v.orientation.spec_is_width_height_swapped() {
        swapped(v.original_dimensions)
    } else {
        v.original_dimensions
    }
}

/// The current size always follows the orientation: a fresh load at the identity
/// orientation has it, and applying a transformation keeps it.
pub proof fn law_size_follows_orientation(v: LoadedVideo, t: VideoOrientationTransformation)
    ensures
        size_follows_orientation(
            LoadedVideo {
                orientation: VideoOrientation::Identity,
                current_dimensions: v.original_dimensions,
                ..v
            },
        ),
        size_follows_orientation(v) ==> {
            let swaps = t == VideoOrientationTransformation::RotateRight || t
                == VideoOrientationTransformation::RotateLeft;
            size_follows_orientation(
                LoadedVideo {
                    orientation: v.orientation.spec_transformed(t),
                    current_dimensions: if swaps {
                        swapped(v.current_dimensions)
                    } else {
                        v.current_dimensions
                    },
                    ..v
                },
            )
        },
{
    law_orientation_transforms(v.orientation, t);
    law_swap_twice(v.original_dimensions);
}

/// The preview's state: the loaded video, if any.
#[derive(Clone, Debug)]
pub struct VideoPreview {
    pub loaded: Option<LoadedVideo>,
}

impl VideoPreview {
    /// A preview with nothing loaded.
    pub fn new() -> (p: VideoPreview)
        ensures
            p.loaded is None,
    {
        VideoPreview { loaded: None }
    }

    /// The trim start, or zero when nothing is loaded.
    pub fn inpoint(&self) -> (t: Span)
        ensures
            t@ == match self.loaded {
                Some(v) => v.inpoint@,
                None => 0,
            },
    {
        match &self.loaded {
            Some(v) => v.inpoint,
            None => Span::zero(),
        }
    }

    /// The trim end, or zero when nothing is loaded.
    pub fn outpoint(&self) -> (t: Span)
        ensures
            t@ == match self.loaded {
                Some(v) => v.outpoint@,
                None => 0,
            },
    {
        match &self.loaded {
            Some(v) => v.outpoint,
            None => Span::zero(),
        }
    }

    /// Whether the timeline's range differs from the loaded trim points; when it
    /// does not, the preview needs no update. With nothing loaded, both trim points
    /// count as zero.
    pub fn range_differs(&self, range: &TimeRange) -> (b: bool)
        ensures
            b == spec_range_differs(self.loaded, *range),
    {
        !self.inpoint().equals(&range.start) || !self.outpoint().equals(&range.end)
    }

    /// Forgets the loaded video.
    pub fn reset(&mut self)
        ensures
            final(self).loaded is None,
    {
        self.loaded = None;
    }

    /// The `file:` URI of the video at `path`; only absolute paths have one.
    pub fn uri_for_path(path: &str) -> (r: Result<String, VideoPreviewError>)
        ensures
            r is Ok <==> is_absolute_path(path@),
            r matches Ok(u) ==> u@ == file_uri_of(path@),
            r matches Err(e) ==> e == VideoPreviewError::InvalidPath,
    {
        match file_uri(path) {
            Some(u) => Ok(u),
            None => Err(VideoPreviewError::InvalidPath),
        }
    }

    /// The properties of a video from the result of discovering it: a discovery
    /// error is passed on, and a file without a video stream has none.
    pub fn media_from_discovery(discovery: Result<DiscoveredMedia, String>) -> (r: Result<
        MediaInfo,
        VideoPreviewError,
    >)
        ensures
            match discovery {
                Err(msg) => r == Err::<MediaInfo, VideoPreviewError>(VideoPreviewError::Glib(msg)),
                Ok(info) => if info.video_streams@.len() == 0 {
                    r == Err::<MediaInfo, VideoPreviewError>(VideoPreviewError::NoInfo)
                } else {
                    r matches Ok(m) && describes(m, info)
                },
            },
    {
        match discovery {
            Err(msg) => Err(VideoPreviewError::Glib(msg)),
            Ok(info) => match media_info(&info) {
                Some(m) => Ok(m),
                None => Err(VideoPreviewError::NoInfo),
            },
        }
    }

    /// Starts previewing a video: the whole clip selected, at the identity
    /// orientation, muted when asked to, playback not at its end.
    pub fn load(&mut self, uri: String, dimensions: Dimensions<u32>, duration: Span, mute: bool)
        ensures
            final(self).loaded matches Some(v) && v == (LoadedVideo {
                uri,
                original_dimensions: dimensions,
                current_dimensions: dimensions,
                orientation: VideoOrientation::Identity,
                inpoint: v.inpoint,
                outpoint: duration,
                mute,
                ended: false,
            }) && v.inpoint@ == 0,
    {
        self.loaded = Some(
            LoadedVideo {
                uri,
                original_dimensions: dimensions,
                current_dimensions: dimensions,
                orientation: VideoOrientation::Identity,
                inpoint: Span::zero(),
                outpoint: duration,
                mute,
                ended: false,
            },
        );
    }

    /// Loads the video at `uri` from what discovering it gave: on success the
    /// preview shows the whole clip, muted when it has no audio, and the video's
    /// properties come back; on failure nothing changes.
    pub fn load_path(&mut self, uri: String, discovery: Result<DiscoveredMedia, String>) -> (r:
        Result<MediaInfo, VideoPreviewError>)
        ensures
            match discovery {
                Err(msg) => r == Err::<MediaInfo, VideoPreviewError>(VideoPreviewError::Glib(msg)),
                Ok(info) => if info.video_streams@.len() == 0 {
                    r == Err::<MediaInfo, VideoPreviewError>(VideoPreviewError::NoInfo)
                } else {
                    r matches Ok(m) && describes(m, info)
                },
            },
            r is Err ==> final(self).loaded == old(self).loaded,
            r matches Ok(m) ==> final(self).loaded matches Some(v) && v == (LoadedVideo {
                uri,
                original_dimensions: m.dimensions,
                current_dimensions: m.dimensions,
                orientation: VideoOrientation::Identity,
                inpoint: v.inpoint,
                outpoint: m.duration,
                mute: !m.has_audio,
                ended: false,
            }) && v.inpoint@ == 0,
    {
        let media = Self::media_from_discovery(discovery);
        match media {
            Ok(m) => {
                self.load(uri, m.dimensions, m.duration, !m.has_audio);
                Ok(m)
            },
            Err(e) => Err(e),
        }
    }

    /// Rebuilds the preview of the loaded video, keeping its selection, mute state
    /// and orientation, with the current size following the orientation and
    /// playback not at its end. Gives back the video that the pipeline is to be
    /// rebuilt for, with the clip's end as its length.
    pub fn refresh_ui(&mut self) -> (r: Option<LoadedVideo>)
        ensures
            old(self).loaded is None ==> r is None && final(self).loaded is None,
            old(self).loaded matches Some(v) ==> {
                &&& r == Some(v)
                &&& final(self).loaded == Some(
                    LoadedVideo {
                        current_dimensions: if v.orientation.spec_is_width_height_swapped() {
                            swapped(v.original_dimensions)
                        } else {
                            v.original_dimensions
                        },
                        ended: false,
                        ..v
                    },
                )
            },
    {
        match &self.loaded {
            None => None,
            Some(v) => {
                let dims = v.original_dimensions;
                let current = if v.orientation.is_width_height_swapped() {
                    dims.swap()
                } else {
                    dims
                };
                let previous = LoadedVideo {
                    uri: v.uri.clone(),
                    original_dimensions: v.original_dimensions,
                    current_dimensions: v.current_dimensions,
                    orientation: v.orientation,
                    inpoint: v.inpoint,
                    outpoint: v.outpoint,
                    mute: v.mute,
                    ended: v.ended,
                };
                self.loaded = Some(
                    LoadedVideo {
                        uri: v.uri.clone(),
                        original_dimensions: dims,
                        current_dimensions: current,
                        orientation: v.orientation,
                        inpoint: v.inpoint,
                        outpoint: v.outpoint,
                        mute: v.mute,
                        ended: false,
                    },
                );
                Some(previous)
            },
        }
    }

    /// Seeks without pausing: seeking to the trim end counts as having played to
    /// the end. Gives back where to seek, when a video is loaded.
    pub fn quiet_seek(&mut self, position: Span) -> (r: Option<Span>)
        ensures
            old(self).loaded is None ==> r is None && final(self).loaded is None,
            old(self).loaded matches Some(v) ==> r == Some(position) && final(self).loaded == Some(
                after_seek(v, position),
            ),
    {
        match &mut self.loaded {
            None => None,
            Some(v) => {
                if position.equals(&v.outpoint) {
                    v.ended = true;
                }
                Some(position)
            },
        }
    }

    /// Pauses and seeks to `position`: gives back the pause command and where to
    /// seek, when a video is loaded.
    pub fn seek(&mut self, position: Span) -> (r: Option<(PlayCommand, Span)>)
        ensures
            old(self).loaded is None ==> r is None && final(self).loaded is None,
            old(self).loaded matches Some(v) ==> {
                &&& r matches Some((c, target)) && !c.playing && c.seek_to is None && target
                    == position
                &&& final(self).loaded == Some(after_seek(after_play_switch(v, false).0, position))
            },
    {
        match self.set_playing(false) {
            None => None,
            Some(pause) => match self.quiet_seek(position) {
                Some(target) => Some((pause, target)),
                None => None,
            },
        }
    }

    /// Switches playback on or off. Starting playback after the end was reached
    /// first seeks back to the trim start. Gives back the command for the pipeline,
    /// or `None` (and no mode change) when nothing is loaded.
    pub fn set_playing(&mut self, playing: bool) -> (r: Option<PlayCommand>)
        ensures
            old(self).loaded is None ==> r is None && final(self).loaded is None,
            old(self).loaded matches Some(v) ==> {
                &&& r matches Some(c) && c.playing == playing && c.seek_to == after_play_switch(
                    v,
                    playing,
                ).1
                &&& final(self).loaded == Some(after_play_switch(v, playing).0)
            },
    {
        match &mut self.loaded {
            None => None,
            Some(v) => {
                let mut seek_to = None;
                if playing && v.ended {
                    v.ended = false;
                    seek_to = Some(v.inpoint);
                }
                Some(PlayCommand { seek_to, playing })
            },
        }
    }

    /// Playback reached the end of the stream.
    pub fn mark_ended(&mut self)
        ensures
            old(self).loaded is None ==> final(self).loaded is None,
            old(self).loaded matches Some(v) ==> final(self).loaded == Some(
                LoadedVideo { ended: true, ..v },
            ),
    {
        if let Some(v) = &mut self.loaded {
            v.ended = true;
        }
    }

    /// Takes the trim range chosen on the timeline.
    pub fn set_range(&mut self, range: TimeRange)
        ensures
            final(self).loaded == with_range(old(self).loaded, range),
    {
        if let Some(v) = &mut self.loaded {
            v.inpoint = range.start;
            v.outpoint = range.end;
        }
    }

    /// Applies a quarter turn or mirroring to the loaded video: its orientation
    /// takes the transformation on, and quarter turns exchange its current width
    /// and height. Gives back the crop box `crop` remapped for the change and
    /// whether width and height were exchanged; with nothing loaded, nothing
    /// changes and nothing comes back.
    pub fn transform_orientation<T: Copy>(
        &mut self,
        transformation: VideoOrientationTransformation,
        crop: Selection<T>,
    ) -> (r: Option<OrientationChange<T>>)
        ensures
            old(self).loaded is None ==> r is None && final(self).loaded is None,
            old(self).loaded matches Some(v) ==> {
                let swaps = transformation == VideoOrientationTransformation::RotateRight
                    || transformation == VideoOrientationTransformation::RotateLeft;
                &&& r matches Some(c) && c.crop == spec_transformed(crop, transformation)
                    && c.flipped == swaps
                &&& final(self).loaded == Some(
                    LoadedVideo {
                        orientation: v.orientation.spec_transformed(transformation),
                        current_dimensions: if swaps {
                            swapped(v.current_dimensions)
                        } else {
                            v.current_dimensions
                        },
                        ..v
                    },
                )
            },
    {
        let swaps = transformation.swaps_width_height();
        match &mut self.loaded {
            None => None,
            Some(v) => {
                v.orientation = v.orientation.transformed(transformation);
                if swaps {
                    v.current_dimensions = v.current_dimensions.swap();
                }
                Some(OrientationChange { crop: crop.transformed(transformation), flipped: swaps })
            },
        }
    }

    /// Mutes or unmutes the loaded video. Gives back whether a video is loaded.
    pub fn set_mute(&mut self, mute: bool) -> (b: bool)
        ensures
            b == old(self).loaded is Some,
            old(self).loaded is None ==> final(self).loaded is None,
            old(self).loaded matches Some(v) ==> final(self).loaded == Some(
                LoadedVideo { mute, ..v },
            ),
    {
        match &mut self.loaded {
            None => false,
            Some(v) => {
                v.mute = mute;
                true
            },
        }
    }

    /// What saving renders of the loaded video with the crop box `crop`: its URI,
    /// orientation and mute state, the crop, and where the clip starts and how long
    /// it is; `None` when nothing is loaded. The trim end must not come before the
    /// trim start, and the start and the length must fit a GStreamer clock time.
    pub fn save<T: Copy>(&self, crop: Selection<T>) -> (r: Option<RenderInput<T>>)
        requires
            self.loaded matches Some(v) ==> v.inpoint@ <= v.outpoint@ && v.inpoint@ <= u64::MAX
                && v.outpoint@ - v.inpoint@ <= u64::MAX,
        ensures
            self.loaded is None ==> r is None,
            self.loaded matches Some(v) ==> r matches Some(job) && job.uri@ == v.uri@
                && job.orientation == v.orientation && job.crop == crop && job.mute == v.mute
                && job.inpoint_nanos == v.inpoint@ && job.duration_nanos == v.outpoint@
                - v.inpoint@,
    {
        match &self.loaded {
            None => None,
            Some(v) => {
                let duration = v.outpoint.checked_sub(&v.inpoint).unwrap();
                Some(
                    RenderInput {
                        uri: v.uri.clone(),
                        orientation: v.orientation,
                        crop,
                        mute: v.mute,
                        inpoint_nanos: duration_to_clocktime(v.inpoint),
                        duration_nanos: duration_to_clocktime(duration),
                    },
                )
            },
        }
    }
}

/// What the preview reports for a frame that reached its video sink.
#[derive(Clone, Copy, Debug, PartialEq, Eq, Structural)]
pub struct FrameReport {
    /// The first frame signals that the preview is ready.
    pub ready: bool,
    /// While playing, each frame moves the timeline's position (milliseconds).
    pub position: Option<u64>,
}

/// Tracks whether the preview has announced that it is ready.
#[derive(Clone, Copy, Debug)]
pub struct ReadyTracker {
    pub sent_ready: bool,
}

impl ReadyTracker {
    pub fn new() -> (t: ReadyTracker)
        ensures
            !t.sent_ready,
    {
        ReadyTracker { sent_ready: false }
    }

    /// A frame at `position_millis` reached the sink: the first frame announces
    /// readiness, and frames shown while playing report their position.
    pub fn on_frame(&mut self, position_millis: u64, playing: bool) -> (r: FrameReport)
        ensures
            r.ready == !old(self).sent_ready,
            final(self).sent_ready,
            r.position == (if playing {
                Some(position_millis)
            } else {
                None
            }),
    {
        let ready = !self.sent_ready;
        self.sent_ready = true;
        FrameReport { ready, position: if playing { Some(position_millis) } else { None } }
    }
}

/// A timeline range differs from a loaded video's trim points unless both its
/// start and its end equal them: moving either handle alone makes it differ.
/// With nothing loaded, only the empty range at zero does not differ.
pub proof fn law_range_differs_unless_both_match(v: LoadedVideo, range: TimeRange)
    ensures
        !spec_range_differs(Some(v), range) <==> (v.inpoint@ == range.start@ && v.outpoint@
            == range.end@),
        v.inpoint@ == range.start@ && v.outpoint@ != range.end@ ==> spec_range_differs(
            Some(v),
            range,
        ),
        v.inpoint@ != range.start@ && v.outpoint@ == range.end@ ==> spec_range_differs(
            Some(v),
            range,
        ),
        !spec_range_differs(None, range) <==> (range.start@ == 0 && range.end@ == 0),
{
}

} // verus!
