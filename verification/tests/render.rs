use footage::info::{DiscoveredMedia, Dimensions, Framerate, VideoStreamInfo};
use footage::orientation::VideoOrientation;
use footage::profiles::{AudioEncoding, ContainerFormat, ContainerSelection, OutputFormat, VideoEncoding};
use footage::render::{
    buffer_progress, bus_step, cleanup_action, is_passthrough_eligible, needs_discovery, passthrough,
    render_target,
    probe_verdict, profile_plan, render_mode, same_container_plan, temp_extension, BusAction,
    BusMessage, CapsSummary, Cleanup, ProbeVerdict, ProfilePlan, Progress, RenderMode,
};

fn source() -> DiscoveredMedia {
    DiscoveredMedia {
        video_streams: vec![VideoStreamInfo {
            width: 1920,
            height: 1080,
            framerate_numer: 30000,
            framerate_denom: 1001,
        }],
        duration_millis: Some(1000),
        audio_stream_count: 1,
    }
}

fn full_hd() -> Dimensions<u32> {
    Dimensions { width: 1920, height: 1080 }
}

#[test]
fn passthrough_when_nothing_changes() {
    let rate = Framerate { nominator: 60000, denominator: 2002 };
    assert!(is_passthrough_eligible(VideoOrientation::Identity, false, full_hd(), rate, &source()));
}

#[test]
fn passthrough_with_requested_terms_beyond_i32() {
    let source = DiscoveredMedia {
        video_streams: vec![VideoStreamInfo {
            width: 1920,
            height: 1080,
            framerate_numer: i32::MAX,
            framerate_denom: 1,
        }],
        duration_millis: None,
        audio_stream_count: 0,
    };
    let doubled = Framerate { nominator: u32::MAX - 1, denominator: 2 };
    assert!(is_passthrough_eligible(VideoOrientation::Identity, false, full_hd(), doubled, &source));
    let huge = Framerate { nominator: u32::MAX, denominator: u32::MAX };
    assert!(!is_passthrough_eligible(VideoOrientation::Identity, false, full_hd(), huge, &source));
}

#[test]
fn no_passthrough_when_anything_changes() {
    let rate = Framerate { nominator: 30000, denominator: 1001 };
    assert!(!is_passthrough_eligible(VideoOrientation::Rotate180, false, full_hd(), rate, &source()));
    assert!(!is_passthrough_eligible(VideoOrientation::Identity, true, full_hd(), rate, &source()));
    assert!(!is_passthrough_eligible(
        VideoOrientation::Identity,
        false,
        Dimensions { width: 1280, height: 720 },
        rate,
        &source()
    ));
    assert!(!is_passthrough_eligible(
        VideoOrientation::Identity,
        false,
        full_hd(),
        Framerate { nominator: 30, denominator: 1 },
        &source()
    ));
    let mut still = source();
    still.video_streams[0].framerate_numer = 0;
    assert!(!is_passthrough_eligible(VideoOrientation::Identity, false, full_hd(), rate, &still));
    let mut audio_only = source();
    audio_only.video_streams.clear();
    assert!(!is_passthrough_eligible(VideoOrientation::Identity, false, full_hd(), rate, &audio_only));
}

#[test]
fn discovery_only_for_same_container() {
    assert!(needs_discovery(ContainerSelection::Same));
    assert!(!needs_discovery(ContainerSelection::Format(ContainerFormat::WebM)));
    assert_eq!(render_mode(true), RenderMode::SmartRender);
    assert_eq!(render_mode(false), RenderMode::Render);
}

#[test]
fn profile_plans() {
    let same = OutputFormat {
        container_selection: ContainerSelection::Same,
        video_encoding: None,
        audio_encoding: None,
    };
    assert_eq!(profile_plan(&same, true), ProfilePlan::SameContainer { include_audio: false });
    let gif = OutputFormat {
        container_selection: ContainerSelection::Format(ContainerFormat::GifContainer),
        video_encoding: Some(VideoEncoding::Gif),
        audio_encoding: None,
    };
    assert_eq!(profile_plan(&gif, false), ProfilePlan::VideoOnly(VideoEncoding::Gif));
    let mkv = OutputFormat {
        container_selection: ContainerSelection::Format(ContainerFormat::Matroska),
        video_encoding: Some(VideoEncoding::Vp9),
        audio_encoding: Some(AudioEncoding::Flac),
    };
    assert_eq!(
        profile_plan(&mkv, false),
        ProfilePlan::Container {
            container: ContainerFormat::Matroska,
            video: VideoEncoding::Vp9,
            audio: Some(AudioEncoding::Flac)
        }
    );
    assert_eq!(
        profile_plan(&mkv, true),
        ProfilePlan::Container { container: ContainerFormat::Matroska, video: VideoEncoding::Vp9, audio: None }
    );
}

fn caps(name: &str, fields: &[&str]) -> CapsSummary {
    CapsSummary {
        name: name.to_owned(),
        field_names: fields.iter().map(|f| f.to_string()).collect(),
    }
}

#[test]
fn same_container_mirrors_first_video_and_audio() {
    let formats = vec![
        caps("audio/mpeg", &["mpegversion", "rate"]),
        caps("video/x-h264", &["width", "profile", "height", "framerate", "level"]),
        caps("video/x-h265", &[]),
        caps("audio/x-opus", &[]),
    ];
    let p = same_container_plan(&formats, false);
    let (v, kept) = p.video.unwrap();
    assert_eq!(v, 1);
    assert_eq!(kept, vec![1, 4]);
    assert_eq!(p.audio, Some(0));
    let muted = same_container_plan(&formats, true);
    assert_eq!(muted.audio, None);
    assert_eq!(muted.video.unwrap().0, 1);
}

#[test]
fn same_container_without_video() {
    let formats = vec![caps("text/x-raw", &["format"]), caps("vide", &[])];
    let p = same_container_plan(&formats, false);
    assert!(p.video.is_none());
    assert_eq!(p.audio, Some(0));
    assert!(same_container_plan(&vec![], false).audio.is_none());
}

#[test]
fn progress_probe_decisions() {
    assert_eq!(buffer_progress(Some(40), 1000), Some(Progress { position: 40, total: 1000 }));
    assert_eq!(buffer_progress(None, 1000), None);
    assert_eq!(probe_verdict(true, true), ProbeVerdict::Drop);
    assert_eq!(probe_verdict(true, false), ProbeVerdict::Drop);
    assert_eq!(probe_verdict(false, false), ProbeVerdict::CancelAndDrop);
    assert_eq!(probe_verdict(false, true), ProbeVerdict::Pass);
}

#[test]
fn bus_messages() {
    assert_eq!(
        bus_step(BusMessage::EndOfStream, false),
        BusAction::Finish(Progress { position: 1, total: 1 })
    );
    assert_eq!(bus_step(BusMessage::Error, true), BusAction::Fail);
    assert_eq!(bus_step(BusMessage::Other, true), BusAction::Continue);
    assert_eq!(bus_step(BusMessage::Other, false), BusAction::Cancel);
}

#[test]
fn cleanup_after_render() {
    assert_eq!(cleanup_action(true, true), Cleanup::Rename);
    assert_eq!(cleanup_action(true, false), Cleanup::Remove);
    assert_eq!(cleanup_action(false, true), Cleanup::Keep);
    assert_eq!(cleanup_action(false, false), Cleanup::Keep);
    assert_eq!(temp_extension("mp4"), "tmp.mp4");
    assert_eq!(temp_extension(""), "tmp.");
}

#[test]
fn smart_render_only_for_same_container_and_eligible_source() {
    let rate = Framerate { nominator: 30000, denominator: 1001 };
    let id = VideoOrientation::Identity;
    let same = ContainerSelection::Same;
    assert!(passthrough(same, id, false, full_hd(), rate, &Some(source())));
    assert!(!passthrough(same, id, false, full_hd(), rate, &None));
    assert!(!passthrough(same, id, true, full_hd(), rate, &Some(source())));
    assert!(!passthrough(
        ContainerSelection::Format(ContainerFormat::Matroska),
        id,
        false,
        full_hd(),
        rate,
        &Some(source())
    ));
}

#[test]
fn render_over_the_source_goes_through_a_temporary_file() {
    let t = render_target("file:///videos/a%20b.mp4", "/videos/a b.mp4", "mp4").unwrap();
    assert!(t.same_file);
    assert_eq!(t.temp_extension.as_deref(), Some("tmp.mp4"));
    let t = render_target("file:///videos/a.mp4", "/videos//a.mp4", "mp4").unwrap();
    assert!(t.same_file);
    let t = render_target("file:///videos/a.mp4", "/videos/b.mp4", "mp4").unwrap();
    assert!(!t.same_file);
    assert_eq!(t.temp_extension, None);
    assert!(render_target("https://example.com/a.mp4", "/videos/a.mp4", "mp4").is_none());
    assert!(render_target("not a url", "/videos/a.mp4", "mp4").is_none());
}

#[test]
fn source_path_that_is_not_utf8_still_gets_a_target() {
    let t = render_target("file:///videos/%FF.mp4", "/videos/\u{FFFD}.mp4", "mp4").unwrap();
    assert!(t.same_file);
    assert_eq!(t.temp_extension.as_deref(), Some("tmp.mp4"));
    let t = render_target("file:///videos/%FF.mp4", "/videos/other.mp4", "mp4").unwrap();
    assert!(!t.same_file);
    let t = render_target("file://localhost/videos/a.mp4", "/videos/./a.mp4", "webm").unwrap();
    assert!(t.same_file);
    assert_eq!(t.temp_extension.as_deref(), Some("tmp.webm"));
}
