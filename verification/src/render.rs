use vstd::prelude::*;

use crate::orientation::VideoOrientation;
use crate::uri::{file_path_of, same_path, same_path_of, uri_to_file_path};
use crate::info::{media_info, stream_framerate, DiscoveredMedia, Dimensions, Framerate};
use crate::profiles::{AudioEncoding, ContainerFormat, ContainerSelection, OutputFormat, VideoEncoding};
use crate::text::{same_text, starts_with};
use vstd::string::*;

verus! {

/// Render progress reported back to the UI, in milliseconds. A message where
/// `position == total` signals completion.
#[derive(Clone, Copy, Debug, PartialEq, Eq, Structural)]
pub struct Progress {
    pub position: u64,
    pub total: u64,
}

/// Whether the output keeps the source's container, which needs the source to
/// be discovered first: to mirror its codecs and to decide on a passthrough.
pub fn needs_discovery(selection: ContainerSelection) -> (b: bool)
    ensures
        b == (selection == ContainerSelection::Same),
{
    match selection {
        ContainerSelection::Same => true,
        ContainerSelection::Format(_) => false,
    }
}

/// Whether `a / b == c / d`, compared without rounding as `a * d == c * b`.
pub open spec fn same_rate(a: Framerate, b: Framerate) -> bool {
    a.nominator * b.denominator == b.nominator * a.denominator
}

/// Whether a render asking for `orientation`, a crop (`cropping`), the size
/// `scaled_dimension` and the rate `framerate` leaves the source described by
/// `info` as it is: no orientation change, no crop, the source's size, and a rate
/// equal to the source's as a fraction.
pub open spec fn spec_passthrough_eligible(
    orientation: VideoOrientation,
    cropping: bool,
    scaled_dimension: Dimensions<u32>,
    framerate: Framerate,
    info: DiscoveredMedia,
) -> bool {
    &&& orientation == VideoOrientation::Identity
    &&& !cropping
    &&& info.video_streams@.len() > 0
    &&& scaled_dimension.width == info.video_streams@[0].width
    &&& scaled_dimension.height == info.video_streams@[0].height
    &&& stream_framerate(info.video_streams@[0]) matches Some(source)
    &&& same_rate(source, framerate)
}

/// Whether the requested output has the same shape as the source (no orientation
/// change, no crop, no scaling and no frame rate change), so that its streams can
/// be copied instead of re-encoded. `info` is what discovery found of the source.
pub fn is_passthrough_eligible(
    orientation: VideoOrientation,
    cropping: bool,
    scaled_dimension: Dimensions<u32>,
    framerate: Framerate,
    info: &DiscoveredMedia,
) -> (b: bool)
    ensures
        b == spec_passthrough_eligible(orientation, cropping, scaled_dimension, framerate, *info),
{
    if orientation != VideoOrientation::Identity {
        return false;
    }
    if cropping {
        return false;
    }
    let source = match media_info(info) {
        Some(s) => s,
        None => return false,
    };
    if !scaled_dimension.same_as(&source.dimensions) {
        return false;
    }
    let source_framerate = match source.framerate {
        Some(f) => f,
        None => return false,
    };
    let a = source_framerate.nominator as i64;
    let b = framerate.denominator as i64;
    let c = framerate.nominator as i64;
    let d = source_framerate.denominator as i64;
    // The source's terms come from positive `i32`s, the requested ones are `u32`s,
    // so neither product leaves `i64`.
    assert(a * b <= i64::MAX) by (nonlinear_arith)
        requires
            0 <= a <= i32::MAX,
            0 <= b <= u32::MAX,
    ;
    assert(c * d <= i64::MAX) by (nonlinear_arith)
        requires
            0 <= c <= u32::MAX,
            0 <= d <= i32::MAX,
    ;
    assert(0 <= a * b && 0 <= c * d) by (nonlinear_arith)
        requires
            0 <= a,
            0 <= b,
            0 <= c,
            0 <= d,
    ;
    a * b == c * d
}

/// Whether a render copies the source's streams instead of re-encoding them:
/// only when keeping the source's container, and only when the source, which is
/// discovered exactly then (`source`), is eligible.
pub fn passthrough(
    selection: ContainerSelection,
    orientation: VideoOrientation,
    cropping: bool,
    scaled_dimension: Dimensions<u32>,
    framerate: Framerate,
    source: &Option<DiscoveredMedia>,
) -> (p: bool)
    ensures
        p == match *source {
            Some(info) => selection == ContainerSelection::Same && spec_passthrough_eligible(
                orientation,
                cropping,
                scaled_dimension,
                framerate,
                info,
            ),
            None => false,
        },
{
    match selection {
        ContainerSelection::Format(_) => false,
        ContainerSelection::Same => match source {
            Some(info) => is_passthrough_eligible(
                orientation,
                cropping,
                scaled_dimension,
                framerate,
                info,
            ),
            None => false,
        },
    }
}

/// Frame rates that are equal as fractions count as the same rate, whatever
/// their terms.
pub proof fn law_same_rate_scales(f: Framerate, k: u32)
    requires
        k > 0,
        f.nominator * k <= u32::MAX,
        f.denominator * k <= u32::MAX,
    ensures
        same_rate(f, Framerate { nominator: (f.nominator * k) as u32, denominator: (f.denominator * k) as u32 }),
{
    assert(f.nominator * (f.denominator * k) == (f.nominator * k) * f.denominator) by (nonlinear_arith);
}

/// How a render is run by the pipeline.
#[derive(Clone, Copy, Debug, PartialEq, Eq, Structural)]
pub enum RenderMode {
    /// Streams are copied without re-encoding.
    SmartRender,
    Render,
}

pub fn render_mode(passthrough: bool) -> (m: RenderMode)
    ensures
        m == (if passthrough { RenderMode::SmartRender } else { RenderMode::Render }),
{
    if passthrough {
        RenderMode::SmartRender
    } else {
        RenderMode::Render
    }
}

/// The encoding profile that a render uses.
#[derive(Clone, Copy, Debug, PartialEq, Eq, Structural)]
pub enum ProfilePlan {
    /// The source's own container and codecs; audio only when not muted.
    SameContainer { include_audio: bool },
    /// A bare video profile, for containers that are the codec itself (GIF).
    VideoOnly(VideoEncoding),
    /// An explicit container with a video codec and, unless muted, an audio codec.
    Container { container: ContainerFormat, video: VideoEncoding, audio: Option<AudioEncoding> },
}

/// The profile chosen for an output format; a chosen format needs a video codec,
/// and, when it is not GIF and audio is kept, an audio codec.
pub fn profile_plan(output: &OutputFormat, mute: bool) -> (p: ProfilePlan)
    requires
        output.container_selection matches ContainerSelection::Format(c) ==> {
            &&& output.video_encoding is Some
            &&& (c != ContainerFormat::GifContainer && !mute) ==> output.audio_encoding is Some
        },
    ensures
        p == match output.container_selection {
            ContainerSelection::Same => ProfilePlan::SameContainer { include_audio: !mute },
            ContainerSelection::Format(ContainerFormat::GifContainer) => ProfilePlan::VideoOnly(
                output.video_encoding.unwrap(),
            ),
            ContainerSelection::Format(c) => ProfilePlan::Container {
                container: c,
                video: output.video_encoding.unwrap(),
                audio: if mute {
                    None
                } else {
                    Some(output.audio_encoding.unwrap())
                },
            },
        },
{
    match output.container_selection {
        ContainerSelection::Same => ProfilePlan::SameContainer { include_audio: !mute },
        ContainerSelection::Format(ContainerFormat::GifContainer) => ProfilePlan::VideoOnly(
            output.video_encoding.unwrap(),
        ),
        ContainerSelection::Format(c) => ProfilePlan::Container {
            container: c,
            video: output.video_encoding.unwrap(),
            audio: if mute {
                None
            } else {
                Some(output.audio_encoding.unwrap())
            },
        },
    }
}

/// A stream format that discovery found in the source: its media type and the
/// names of the fields it carries.
#[derive(Clone, Debug)]
pub struct CapsSummary {
    pub name: String,
    pub field_names: Vec<String>,
}

/// How to mirror the source's codecs: the discovered format to take the video
/// profile from, with the fields kept in it, and the one to take the audio from.
#[derive(Clone, Debug)]
pub struct SameContainerPlan {
    pub video: Option<(usize, Vec<usize>)>,
    pub audio: Option<usize>,
}

/// Whether a media type names a video format.
pub open spec fn is_video_name(name: Seq<char>) -> bool {
    "video"@.len() <= name.len() && name.subrange(0, "video"@.len() as int) == "video"@
}

/// Whether a field fixes the picture geometry or rate, which a re-encode may change.
pub open spec fn is_geometry_field(name: Seq<char>) -> bool {
    name == "width"@ || name == "height"@ || name == "framerate"@
}

/// The first position in `formats` for which `video` is whether it is a video format.
pub open spec fn first_of_kind(formats: Seq<CapsSummary>, video: bool) -> Option<usize> {
    if exists|i: int| 0 <= i < formats.len() && is_video_name(formats[i].name@) == video {
        Some(
            (choose|i: int|
                0 <= i < formats.len() && is_video_name(formats[i].name@) == video && forall|j: int|
                    0 <= j < i ==> is_video_name(formats[j].name@) != video) as usize,
        )
    } else {
        None
    }
}

/// Positions `i` in order for which `keep(i)`, among the first `n`.
pub open spec fn kept_positions(n: int, keep: spec_fn(int) -> bool) -> Seq<usize>
    decreases n,
{
    if n <= 0 {
        Seq::empty()
    } else {
        let rest = kept_positions(n - 1, keep);
        if keep(n - 1) {
            rest.push((n - 1) as usize)
        } else {
            rest
        }
    }
}

fn is_geometry(name: &str) -> (b: bool)
    ensures
        b == is_geometry_field(name@),
{
    same_text(name, "width") || same_text(name, "height") || same_text(name, "framerate")
}

/// Builds the profile that mirrors the source's codecs: the first video format,
/// without its width, height and frame rate so the output may differ in them, and,
/// unless muted, the first format that is not video, reduced to its media type.
pub fn same_container_plan(formats: &Vec<CapsSummary>, mute: bool) -> (p: SameContainerPlan)
    ensures
        match first_of_kind(formats@, true) {
            None => p.video is None,
            Some(i) => p.video matches Some((j, kept)) && j == i && kept@ == kept_positions(
                formats@[i as int].field_names@.len() as int,
                |k: int| !is_geometry_field(formats@[i as int].field_names@[k]@),
            ),
        },
        p.audio == if mute {
            None
        } else {
            first_of_kind(formats@, false)
        },
{
    let mut video: Option<(usize, Vec<usize>)> = None;
    let mut audio: Option<usize> = None;
    let mut i: usize = 0;
    while i < formats.len()
        invariant
            i <= formats@.len(),
            video is None ==> forall|j: int| 0 <= j < i ==> !is_video_name(formats@[j].name@),
            video matches Some((v, kept)) ==> {
                &&& v < i
                &&& is_video_name(formats@[v as int].name@)
                &&& forall|j: int| 0 <= j < v ==> !is_video_name(formats@[j].name@)
                &&& kept@ == kept_positions(
                    formats@[v as int].field_names@.len() as int,
                    |k: int| !is_geometry_field(formats@[v as int].field_names@[k]@),
                )
            },
            audio is None ==> forall|j: int| 0 <= j < i ==> is_video_name(formats@[j].name@),
            audio matches Some(a) ==> {
                &&& a < i
                &&& !is_video_name(formats@[a as int].name@)
                &&& forall|j: int| 0 <= j < a ==> is_video_name(formats@[j].name@)
            },
        decreases formats.len() - i,
    {
        let is_video = starts_with(formats[i].name.as_str(), "video");
        if is_video {
            if video.is_none() {
                let fields = &formats[i].field_names;
                let ghost keep = |k: int| !is_geometry_field(formats@[i as int].field_names@[k]@);
                let mut kept: Vec<usize> = Vec::new();
                let mut k: usize = 0;
                while k < fields.len()
                    invariant
                        k <= fields@.len(),
                        fields@ == formats@[i as int].field_names@,
                        keep == (|k: int| !is_geometry_field(formats@[i as int].field_names@[k]@)),
                        kept@ == kept_positions(k as int, keep),
                    decreases fields.len() - k,
                {
                    if !is_geometry(fields[k].as_str()) {
                        kept.push(k);
                    }
                    k += 1;
                }
                video = Some((i, kept));
            }
        } else {
            if audio.is_none() {
                audio = Some(i);
            }
        }
        i += 1;
    }
    proof {
        match video {
            Some((v, _)) => {
                assert(first_of_kind(formats@, true) == Some(v)) by {
                    let w = choose|w: int|
                        0 <= w < formats@.len() && is_video_name(formats@[w].name@) == true
                            && forall|j: int| 0 <= j < w ==> is_video_name(formats@[j].name@) != true;
                    assert(0 <= v as int && (v as int) < formats@.len() && is_video_name(formats@[v as int].name@));
                    if w < v {
                    } else if w > v {
                        assert(is_video_name(formats@[v as int].name@) != true);
                    }
                }
            },
            None => {},
        }
        match audio {
            Some(a) => {
                assert(first_of_kind(formats@, false) == Some(a)) by {
                    let w = choose|w: int|
                        0 <= w < formats@.len() && is_video_name(formats@[w].name@) == false
                            && forall|j: int| 0 <= j < w ==> is_video_name(formats@[j].name@) != false;
                    assert(0 <= a as int && (a as int) < formats@.len() && !is_video_name(formats@[a as int].name@));
                    if w < a {
                    } else if w > a {
                        assert(is_video_name(formats@[a as int].name@) != false);
                    }
                }
            },
            None => {},
        }
    }
    SameContainerPlan { video, audio: if mute { None } else { audio } }
}

/// The progress reported for a buffer that left the timeline: its presentation
/// time against the clip's length, both in milliseconds; buffers without a
/// presentation time report nothing.
pub fn buffer_progress(pts_millis: Option<u64>, total_millis: u64) -> (p: Option<Progress>)
    ensures
        p == match pts_millis {
            Some(ms) => Some(Progress { position: ms, total: total_millis }),
            None => None,
        },
{
    match pts_millis {
        Some(ms) => Some(Progress { position: ms, total: total_millis }),
        None => None,
    }
}

/// What the progress probe does with a buffer.
#[derive(Clone, Copy, Debug, PartialEq, Eq, Structural)]
pub enum ProbeVerdict {
    /// Let the buffer through.
    Pass,
    /// Drop the buffer: nobody listens for progress any more.
    Drop,
    /// Report the cancellation and drop the buffer.
    CancelAndDrop,
}

/// The probe's decision after reporting progress: a report that could not be
/// delivered stops the render, and so does a cleared running flag, which is also
/// reported as a cancellation.
pub fn probe_verdict(report_failed: bool, running: bool) -> (v: ProbeVerdict)
    ensures
        v == (if report_failed {
            ProbeVerdict::Drop
        } else if !running {
            ProbeVerdict::CancelAndDrop
        } else {
            ProbeVerdict::Pass
        }),
{
    if report_failed {
        ProbeVerdict::Drop
    } else if !running {
        ProbeVerdict::CancelAndDrop
    } else {
        ProbeVerdict::Pass
    }
}

/// The kinds of pipeline bus messages that the render loop tells apart.
#[derive(Clone, Copy, Debug, PartialEq, Eq, Structural)]
pub enum BusMessage {
    EndOfStream,
    Error,
    Other,
}

/// What the render loop does after a bus message.
#[derive(Clone, Copy, Debug, PartialEq, Eq, Structural)]
pub enum BusAction {
    /// The render succeeded: report completion and stop.
    Finish(Progress),
    /// The pipeline failed: stop it, report the failure and stop.
    Fail,
    /// The user cancelled: stop the pipeline, report it and stop.
    Cancel,
    /// Keep waiting for messages.
    Continue,
}

/// The render loop's step: the end of the stream completes the render (reported
/// as progress `1 / 1`), an error fails it, and any other message cancels it when
/// the running flag was cleared.
pub fn bus_step(message: BusMessage, running: bool) -> (a: BusAction)
    ensures
        a == match message {
            BusMessage::EndOfStream => BusAction::Finish(Progress { position: 1, total: 1 }),
            BusMessage::Error => BusAction::Fail,
            BusMessage::Other => if running {
                BusAction::Continue
            } else {
                BusAction::Cancel
            },
        },
{
    match message {
        BusMessage::EndOfStream => BusAction::Finish(Progress { position: 1, total: 1 }),
        BusMessage::Error => BusAction::Fail,
        BusMessage::Other => if running {
            BusAction::Continue
        } else {
            BusAction::Cancel
        },
    }
}

/// What happens to the rendered file once the pipeline has stopped.
#[derive(Clone, Copy, Debug, PartialEq, Eq, Structural)]
pub enum Cleanup {
    /// Move the temporary file over the output (which was also the input).
    Rename,
    /// Delete the temporary file of a render that did not succeed.
    Remove,
    /// The render wrote the output directly; nothing to do.
    Keep,
}

/// When the output overwrites the input, the render went to a temporary file:
/// a successful render replaces the output with it, a failed one deletes it.
pub fn cleanup_action(same_file: bool, success: bool) -> (c: Cleanup)
    ensures
        c == (if !same_file {
            Cleanup::Keep
        } else if success {
            Cleanup::Rename
        } else {
            Cleanup::Remove
        }),
{
    if same_file {
        if success {
            Cleanup::Rename
        } else {
            Cleanup::Remove
        }
    } else {
        Cleanup::Keep
    }
}

/// The extension of the temporary file that a render over its own input writes
/// to: `tmp.` followed by the output's extension.
pub fn temp_extension(extension: &str) -> (e: String)
    ensures
        e@ == "tmp."@ + extension@,
{
    let mut e = String::from_str("tmp.");
    e.append(extension);
    e
}

/// Where a render writes: whether the output is the input file itself, and then
/// the extension of the temporary file written first, so that the source is not
/// truncated while it is read.
#[derive(Clone, Debug)]
pub struct RenderTarget {
    pub same_file: bool,
    pub temp_extension: Option<String>,
}

impl RenderTarget {
    /// Whether a temporary file is written exactly for a render over its own
    /// input, with the extension `tmp.` followed by the output's `extension`.
    pub open spec fn writes_temp_as(self, extension: Seq<char>) -> bool {
        match self.temp_extension {
            Some(e) => self.same_file && e@ == "tmp."@ + extension,
            None => !self.same_file,
        }
    }
}

/// The render target for a source at the local path `input_path` and an output
/// at `output_path` whose extension is `extension`.
pub fn target_for_paths(input_path: &str, output_path: &str, extension: &str) -> (t:
    RenderTarget)
    ensures
        t.same_file == same_path_of(input_path@, output_path@),
        t.writes_temp_as(extension@),
{
    let same_file = same_path(input_path, output_path);
    let temp = if same_file {
        Some(temp_extension(extension))
    } else {
        None
    };
    RenderTarget { same_file, temp_extension: temp }
}

/// The render target for the source `input_uri` and an output at `output_path`
/// whose extension is `extension`; `None` exactly when the source's URI names no
/// local file. Paths are compared as text in which bytes that are not UTF-8 are
/// replaced, so two equal paths always count as the same file: a render over its
/// own input always goes through the temporary file.
pub fn render_target(input_uri: &str, output_path: &str, extension: &str) -> (t: Option<
    RenderTarget,
>)
    ensures
        file_path_of(input_uri@) is None ==> t is None,
        file_path_of(input_uri@) is Some ==> t is Some,
        t matches Some(t) ==> file_path_of(input_uri@) matches Some(p) && t.same_file
            == same_path_of(p, output_path@) && t.writes_temp_as(extension@),
{
    match uri_to_file_path(input_uri) {
        Some(p) => Some(target_for_paths(p.as_str(), output_path, extension)),
        None => None,
    }
}

/// Streams are only copied when the output is the source as it is: any
/// orientation change (a flip as much as a turn), any crop, any other size or a
/// rate that differs as a fraction rules the copy out, as does a source without a
/// video stream or without a usable rate.
pub proof fn law_passthrough_needs_unchanged_picture(
    orientation: VideoOrientation,
    cropping: bool,
    scaled_dimension: Dimensions<u32>,
    framerate: Framerate,
    info: DiscoveredMedia,
)
    ensures
        spec_passthrough_eligible(orientation, cropping, scaled_dimension, framerate, info) ==> {
            &&& orientation == VideoOrientation::Identity
            &&& !cropping
            &&& info.video_streams@.len() > 0
            &&& scaled_dimension.width == info.video_streams@[0].width
            &&& scaled_dimension.height == info.video_streams@[0].height
            &&& info.video_streams@[0].framerate_numer > 0
            &&& info.video_streams@[0].framerate_denom > 0
            &&& info.video_streams@[0].framerate_numer * framerate.denominator
                == framerate.nominator * info.video_streams@[0].framerate_denom
        },
        orientation != VideoOrientation::Identity ==> !spec_passthrough_eligible(
            orientation,
            cropping,
            scaled_dimension,
            framerate,
            info,
        ),
        (orientation == VideoOrientation::Identity && !cropping && info.video_streams@.len() > 0
            && scaled_dimension.width == info.video_streams@[0].width && scaled_dimension.height
            == info.video_streams@[0].height && info.video_streams@[0].framerate_numer > 0
            && info.video_streams@[0].framerate_denom > 0 && framerate.nominator
            == info.video_streams@[0].framerate_numer && framerate.denominator
            == info.video_streams@[0].framerate_denom) ==> spec_passthrough_eligible(
            orientation,
            cropping,
            scaled_dimension,
            framerate,
            info,
        ),
{
}

} // verus!
