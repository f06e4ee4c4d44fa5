use vstd::prelude::*;
use vstd::string::*;

use crate::info::{even_floor, Dimensions, Framerate};
use crate::profiles::{
    only_available, AudioEncoding, ContainerFormat, ContainerSelection, VideoEncoding,
};
use crate::render::Progress;
use crate::text::same_text;

verus! {

/// How the user asked to size the output.
#[derive(Clone, Copy, Debug, PartialEq, Eq, Structural)]
pub enum ResizeRequest {
    /// Percentages of the cropped size, per side.
    Percentage { width: u32, height: u32 },
    /// An explicit size in pixels.
    Exact { width: u32, height: u32 },
}

/// The output size asked for, before evening.
pub open spec fn requested_size(request: ResizeRequest, selected: Dimensions<u32>) -> (int, int) {
    match request {
        ResizeRequest::Percentage { width, height } => (
            selected.width * width / 100,
            selected.height * height / 100,
        ),
        ResizeRequest::Exact { width, height } => (width as int, height as int),
    }
}

/// The output size: a percentage of the cropped size `selected` (rounded down),
/// or the explicit size, and then rounded down to even numbers. A percentage
/// must not make the product overflow.
pub fn desired_dimensions(request: ResizeRequest, selected: Dimensions<u32>) -> (d: Dimensions<u32>)
    requires
        request matches ResizeRequest::Percentage { width, height } ==> selected.width * width
            <= u32::MAX && selected.height * height <= u32::MAX,
    ensures
        d.width == even_floor(requested_size(request, selected).0 as u32),
        d.height == even_floor(requested_size(request, selected).1 as u32),
        0 <= requested_size(request, selected).0 <= u32::MAX,
        0 <= requested_size(request, selected).1 <= u32::MAX,
{
    let size = match request {
        ResizeRequest::Percentage { width, height } => {
            assert(selected.width * width / 100 <= selected.width * width) by (nonlinear_arith)
                requires
                    selected.width * width >= 0,
            ;
            assert(selected.height * height / 100 <= selected.height * height) by (nonlinear_arith)
                requires
                    selected.height * height >= 0,
            ;
            Dimensions {
                width: selected.width * width / 100,
                height: selected.height * height / 100,
            }
        },
        ResizeRequest::Exact { width, height } => Dimensions { width, height },
    };
    size.as_even_dimensions()
}

/// The entry at the `selected` row of a list of choices, or `None` for an empty
/// list.
pub fn chosen<T: Copy>(list: &[T], selected: usize) -> (r: Option<T>)
    requires
        list@.len() > 0 ==> selected < list@.len(),
    ensures
        r == if list@.len() == 0 {
            None
        } else {
            Some(list@[selected as int])
        },
{
    if list.len() == 0 {
        None
    } else {
        Some(list[selected])
    }
}

/// The video codec chosen at row `selected`, among the viable codecs of the chosen
/// container; keeping the source's container chooses none.
pub fn selected_video_encoding(
    selection: ContainerSelection,
    available: &[VideoEncoding],
    selected: usize,
) -> (r: Option<VideoEncoding>)
    requires
        selection matches ContainerSelection::Format(f) ==> (only_available(
            f.compatible_video(),
            available@,
        ).len() > 0 ==> selected < only_available(f.compatible_video(), available@).len()),
    ensures
        r == match selection {
            ContainerSelection::Same => None,
            ContainerSelection::Format(f) => {
                let list = only_available(f.compatible_video(), available@);
                if list.len() == 0 {
                    None
                } else {
                    Some(list[selected as int])
                }
            },
        },
{
    match selection {
        ContainerSelection::Same => None,
        ContainerSelection::Format(f) => {
            let list = f.viable_video_encodings(available);
            chosen(list.as_slice(), selected)
        },
    }
}

/// The audio codec chosen at row `selected`, among the audio codecs of the chosen
/// container; keeping the source's container, or a container without audio,
/// chooses none.
pub fn selected_audio_encoding(selection: ContainerSelection, selected: usize) -> (r: Option<
    AudioEncoding,
>)
    requires
        selection matches ContainerSelection::Format(f) ==> (f.compatible_audio().len() > 0
            ==> selected < f.compatible_audio().len()),
    ensures
        r == match selection {
            ContainerSelection::Same => None,
            ContainerSelection::Format(f) => if f.compatible_audio().len() == 0 {
                None
            } else {
                Some(f.compatible_audio()[selected as int])
            },
        },
{
    match selection {
        ContainerSelection::Same => None,
        ContainerSelection::Format(f) => {
            let list = f.viable_audio_encodings();
            chosen(list.as_slice(), selected)
        },
    }
}

/// A codec chooser is shown only when there is more than one codec to pick from.
pub fn choice_visible(count: usize) -> (b: bool)
    ensures
        b == (count > 1),
{
    count > 1
}

/// Whether editing one percentage field should copy its value into the other:
/// when it differs from it and is not empty.
pub fn mirrors_percentage(other: &str, edited: &str) -> (b: bool)
    ensures
        b == (other@ != edited@ && edited@.len() > 0),
{
    !same_text(other, edited) && edited.unicode_len() > 0
}

/// The extension of the output file: the source's own when keeping its
/// container, otherwise the chosen container's.
pub fn output_extension(selection: ContainerSelection, source_extension: &str) -> (e: String)
    ensures
        e@ == match selection {
            ContainerSelection::Same => source_extension@,
            ContainerSelection::Format(f) => f.spec_extension(),
        },
{
    match selection {
        ContainerSelection::Same => source_extension.to_owned(),
        ContainerSelection::Format(f) => f.extension().to_owned(),
    }
}

/// The file name offered when saving: the source's stem and the output extension.
pub fn suggested_file_name(stem: &str, extension: &str) -> (name: String)
    ensures
        name@ == stem@ + "."@ + extension@,
{
    let mut name = String::from_str(stem);
    name.append(".");
    name.append(extension);
    name
}

/// The highest frame rate offered for the chosen codec, or `fallback` when
/// keeping the source's container leaves no codec chosen.
pub fn framerate_limit(encoding: Option<VideoEncoding>, fallback: u32) -> (fps: u32)
    ensures
        fps == match encoding {
            Some(e) => e.spec_max_framerate(),
            None => fallback,
        },
{
    match encoding {
        Some(e) => e.max_framerate(),
        None => fallback,
    }
}

/// The frame rate used when the chosen rate cannot be written as a fraction.
pub fn default_framerate() -> (f: Framerate)
    ensures
        f == (Framerate { nominator: 30, denominator: 1 }),
{
    Framerate { nominator: 30, denominator: 1 }
}

/// The output frame rate for a fraction approximating the chosen rate, its
/// terms reinterpreted as unsigned.
pub fn framerate_from_ratio(numer: i32, denom: i32) -> (f: Framerate)
    ensures
        f.nominator == numer as u32,
        f.denominator == denom as u32,
{
    Framerate { nominator: numer as u32, denominator: denom as u32 }
}

/// What the export screen shows after a message from the render.
#[derive(Clone, Copy, Debug, PartialEq, Eq, Structural)]
pub enum ExportUpdate {
    /// The render was stopped by the user: show the failure, stop listening.
    Stopped,
    /// The render failed: show the failure, clear the running flag, stop listening.
    Failed,
    /// The render completed: show the success, clear the running flag, stop listening.
    Succeeded,
    /// Show the progress `done / total`.
    Fraction { done: u64, total: u64 },
}

/// The export screen's state: the furthest position reported so far, so that the
/// progress bar never moves back.
#[derive(Clone, Copy, Debug)]
pub struct ExportProgress {
    pub most_done: u64,
}

impl ExportProgress {
    pub fn new() -> (p: ExportProgress)
        ensures
            p.most_done == 0,
    {
        ExportProgress { most_done: 0 }
    }

    /// Handles a message from the render: a cleared running flag stops the export
    /// screen, a failure fails it, a position at the total completes it, and any
    /// other position advances the progress bar to the furthest position seen.
    pub fn on_message(&mut self, message: Result<Progress, ()>, running: bool) -> (u: ExportUpdate)
        ensures
            u == (if !running {
                ExportUpdate::Stopped
            } else {
                match message {
                    Err(()) => ExportUpdate::Failed,
                    Ok(p) => if p.position == p.total {
                        ExportUpdate::Succeeded
                    } else {
                        ExportUpdate::Fraction {
                            done: final(self).most_done,
                            total: p.total,
                        }
                    },
                }
            }),
            final(self).most_done == match message {
                Ok(p) => if running && p.position != p.total && p.position > old(self).most_done {
                    p.position
                } else {
                    old(self).most_done
                },
                Err(()) => old(self).most_done,
            },
            final(self).most_done >= old(self).most_done,
    {
        if !running {
            return ExportUpdate::Stopped;
        }
        match message {
            Err(()) => ExportUpdate::Failed,
            Ok(p) => {
                if p.position == p.total {
                    ExportUpdate::Succeeded
                } else {
                    if p.position > self.most_done {
                        self.most_done = p.position;
                    }
                    ExportUpdate::Fraction { done: self.most_done, total: p.total }
                }
            },
        }
    }
}

} // verus!
