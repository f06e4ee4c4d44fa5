use footage::info::{DiscoveredMedia, Dimensions, VideoStreamInfo};
use footage::crop::Selection;
use footage::orientation::{VideoOrientation, VideoOrientationTransformation};
use footage::preview::{duration_to_clocktime, VideoPreview, VideoPreviewError};
use footage::time::Span;
use footage::timeline::TimeRange;

fn discovered(audio: usize) -> DiscoveredMedia {
    DiscoveredMedia {
        video_streams: vec![VideoStreamInfo {
            width: 1920,
            height: 1080,
            framerate_numer: 30,
            framerate_denom: 1,
        }],
        duration_millis: Some(10_000),
        audio_stream_count: audio,
    }
}

fn loaded_preview() -> VideoPreview {
    let mut p = VideoPreview::new();
    p.load_path("file:///videos/a.mp4".to_owned(), Ok(discovered(1)))
        .unwrap();
    p
}

#[test]
fn uri_for_absolute_and_relative_paths() {
    assert_eq!(
        VideoPreview::uri_for_path("/videos/my clip.mp4").unwrap(),
        "file:///videos/my%20clip.mp4"
    );
    assert_eq!(
        VideoPreview::uri_for_path("videos/a.mp4"),
        Err(VideoPreviewError::InvalidPath)
    );
    assert_eq!(VideoPreview::uri_for_path(""), Err(VideoPreviewError::InvalidPath));
}

#[test]
fn load_errors_leave_preview_unloaded() {
    let mut p = VideoPreview::new();
    assert_eq!(
        p.load_path("file:///a".to_owned(), Err("no such file".to_owned()))
            .unwrap_err(),
        VideoPreviewError::Glib("no such file".to_owned())
    );
    let empty = DiscoveredMedia { video_streams: vec![], duration_millis: None, audio_stream_count: 1 };
    assert_eq!(
        p.load_path("file:///a".to_owned(), Ok(empty)).unwrap_err(),
        VideoPreviewError::NoInfo
    );
    assert!(p.loaded.is_none());
    assert!(p.inpoint().is_zero() && p.outpoint().is_zero());
}

#[test]
fn loading_selects_whole_clip() {
    let p = loaded_preview();
    let v = p.loaded.as_ref().unwrap();
    assert_eq!(v.uri, "file:///videos/a.mp4");
    assert!(p.inpoint().is_zero());
    assert_eq!(p.outpoint().as_nanos(), 10_000_000_000);
    assert!(!v.mute && !v.ended);
    let mut silent = VideoPreview::new();
    let m = silent.load_path("file:///b".to_owned(), Ok(discovered(0))).unwrap();
    assert!(!m.has_audio);
    assert!(silent.loaded.unwrap().mute);
}

#[test]
fn seeking_to_outpoint_marks_end_and_play_restarts() {
    let mut p = loaded_preview();
    p.set_range(TimeRange { start: Span::from_millis(2000), end: Span::from_millis(5000) });
    assert_eq!(p.quiet_seek(Span::from_millis(3000)).unwrap().as_nanos(), 3_000_000_000);
    assert!(!p.loaded.as_ref().unwrap().ended);
    p.quiet_seek(Span::from_millis(5000));
    assert!(p.loaded.as_ref().unwrap().ended);
    let c = p.set_playing(true).unwrap();
    assert!(c.playing);
    assert_eq!(c.seek_to.unwrap().as_nanos(), 2_000_000_000);
    assert!(!p.loaded.as_ref().unwrap().ended);
    let c = p.set_playing(true).unwrap();
    assert!(c.seek_to.is_none());
}

#[test]
fn pausing_keeps_end_flag() {
    let mut p = loaded_preview();
    p.mark_ended();
    let c = p.set_playing(false).unwrap();
    assert!(!c.playing && c.seek_to.is_none());
    assert!(p.loaded.as_ref().unwrap().ended);
    let mut empty = VideoPreview::new();
    assert!(empty.set_playing(true).is_none());
    assert!(empty.quiet_seek(Span::zero()).is_none());
}

fn crop() -> Selection<u32> {
    Selection { top: 1, right: 2, bottom: 3, left: 4 }
}

fn parts(s: Selection<u32>) -> (u32, u32, u32, u32) {
    (s.top, s.right, s.bottom, s.left)
}

#[test]
fn quarter_turns_swap_current_dimensions() {
    let mut p = loaded_preview();
    assert_eq!(p.loaded.as_ref().unwrap().orientation, VideoOrientation::Identity);
    let change = p
        .transform_orientation(VideoOrientationTransformation::RotateLeft, crop())
        .unwrap();
    assert!(change.flipped);
    assert_eq!(parts(change.crop), (2, 3, 4, 1));
    let v = p.loaded.as_ref().unwrap();
    assert_eq!(v.orientation, VideoOrientation::Rotate90Left);
    assert_eq!((v.current_dimensions.width, v.current_dimensions.height), (1080, 1920));
    let change = p
        .transform_orientation(VideoOrientationTransformation::HorizontalFlip, crop())
        .unwrap();
    assert!(!change.flipped);
    assert_eq!(parts(change.crop), (1, 4, 3, 2));
    let v = p.loaded.as_ref().unwrap();
    assert_eq!(v.orientation, VideoOrientation::UpperRightLowerLeft);
    assert_eq!((v.current_dimensions.width, v.current_dimensions.height), (1080, 1920));
    assert_eq!((v.original_dimensions.width, v.original_dimensions.height), (1920, 1080));
    assert!(VideoPreview::new()
        .transform_orientation(VideoOrientationTransformation::RotateRight, crop())
        .is_none());
}

#[test]
fn reloading_resets_orientation() {
    let mut p = loaded_preview();
    p.transform_orientation(VideoOrientationTransformation::RotateRight, crop());
    p.load_path("file:///videos/b.mp4".to_owned(), Ok(discovered(1))).unwrap();
    assert_eq!(p.loaded.as_ref().unwrap().orientation, VideoOrientation::Identity);
}

#[test]
fn refresh_keeps_selection_and_resets_end() {
    let mut p = loaded_preview();
    p.set_range(TimeRange { start: Span::from_millis(1000), end: Span::from_millis(4000) });
    p.set_mute(true);
    p.transform_orientation(VideoOrientationTransformation::RotateRight, crop());
    p.mark_ended();
    let before = p.refresh_ui().unwrap();
    assert_eq!(before.outpoint.as_nanos(), 4_000_000_000);
    let v = p.loaded.as_ref().unwrap();
    assert_eq!(v.inpoint.as_nanos(), 1_000_000_000);
    assert_eq!(v.outpoint.as_nanos(), 4_000_000_000);
    assert_eq!(v.orientation, VideoOrientation::Rotate90Right);
    assert!(v.mute && !v.ended);
    assert_eq!((v.current_dimensions.width, v.current_dimensions.height), (1080, 1920));
    assert!(VideoPreview::new().refresh_ui().is_none());
}

#[test]
fn render_input_for_save() {
    let mut p = loaded_preview();
    p.set_range(TimeRange { start: Span::from_millis(1500), end: Span::from_millis(4000) });
    p.set_mute(true);
    p.transform_orientation(VideoOrientationTransformation::VerticalFlip, crop());
    let job = p.save(crop()).unwrap();
    assert_eq!(job.uri, "file:///videos/a.mp4");
    assert_eq!(job.orientation, VideoOrientation::VerticalFlip);
    assert_eq!(parts(job.crop), (1, 2, 3, 4));
    assert!(job.mute);
    assert_eq!(job.inpoint_nanos, 1_500_000_000);
    assert_eq!(job.duration_nanos, 2_500_000_000);
    assert!(VideoPreview::new().save(crop()).is_none());
    assert_eq!(duration_to_clocktime(Span::from_millis(7)), 7_000_000);
    p.reset();
    assert!(p.loaded.is_none());
}

#[test]
fn dimensions_stay_plain() {
    let d = Dimensions { width: 3u32, height: 4u32 };
    assert!(d.same_as(&Dimensions { width: 3, height: 4 }));
    assert!(!d.same_as(&d.swap()));
}

#[test]
fn range_taken_no_longer_differs() {
    let mut p = loaded_preview();
    let range = TimeRange {
        start: Span::from_millis(1_500),
        end: Span::from_millis(4_000),
    };
    assert!(p.range_differs(&range));
    p.set_range(range);
    assert!(!p.range_differs(&range));
    assert_eq!(p.inpoint().as_nanos(), 1_500_000_000);
    assert_eq!(p.outpoint().as_nanos(), 4_000_000_000);

    let mut empty = VideoPreview::new();
    empty.set_range(range);
    assert!(empty.loaded.is_none());
    assert!(empty.range_differs(&range));
    assert!(!empty.range_differs(&TimeRange {
        start: Span::zero(),
        end: Span::zero(),
    }));
}
