use footage::info::{media_info, DiscoveredMedia, Dimensions, Framerate, VideoStreamInfo};

#[test]
fn even_dimensions_clear_low_bit() {
    let d = Dimensions { width: 1921u32, height: 1080u32 }.as_even_dimensions();
    assert_eq!((d.width, d.height), (1920, 1080));
    let d = Dimensions { width: 1u32, height: u32::MAX }.as_even_dimensions();
    assert_eq!((d.width, d.height), (0, u32::MAX - 1));
    let twice = d.as_even_dimensions();
    assert_eq!((twice.width, twice.height), (d.width, d.height));
}

#[test]
fn swap_exchanges_and_twice_restores() {
    let d = Dimensions { width: 640u32, height: 480u32 };
    let s = d.swap();
    assert_eq!((s.width, s.height), (480, 640));
    let back = s.swap();
    assert_eq!((back.width, back.height), (640, 480));
}

fn stream(numer: i32, denom: i32) -> VideoStreamInfo {
    VideoStreamInfo { width: 1280, height: 720, framerate_numer: numer, framerate_denom: denom }
}

#[test]
fn media_info_reads_first_video_stream() {
    let info = DiscoveredMedia {
        video_streams: vec![stream(30000, 1001), stream(25, 1)],
        duration_millis: Some(1500),
        audio_stream_count: 2,
    };
    let m = media_info(&info).unwrap();
    assert_eq!((m.dimensions.width, m.dimensions.height), (1280, 720));
    assert_eq!(m.framerate, Some(Framerate { nominator: 30000, denominator: 1001 }));
    assert_eq!(m.duration.as_nanos(), 1_500_000_000);
    assert!(m.has_audio);
}

#[test]
fn media_info_without_rate_duration_or_audio() {
    let info = DiscoveredMedia {
        video_streams: vec![stream(0, 1)],
        duration_millis: None,
        audio_stream_count: 0,
    };
    let m = media_info(&info).unwrap();
    assert_eq!(m.framerate, None);
    assert!(m.duration.is_zero());
    assert!(!m.has_audio);
    let negative = DiscoveredMedia {
        video_streams: vec![stream(25, -1)],
        duration_millis: Some(0),
        audio_stream_count: 0,
    };
    assert_eq!(media_info(&negative).unwrap().framerate, None);
}

#[test]
fn media_info_needs_a_video_stream() {
    let info = DiscoveredMedia {
        video_streams: vec![],
        duration_millis: Some(1000),
        audio_stream_count: 1,
    };
    assert!(media_info(&info).is_none());
}
