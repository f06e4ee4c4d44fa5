use footage::export::{
    choice_visible, chosen, default_framerate, desired_dimensions, framerate_from_ratio,
    mirrors_percentage, output_extension, selected_audio_encoding, selected_video_encoding,
    suggested_file_name, ExportProgress, ExportUpdate, ResizeRequest,
};
use footage::info::{Dimensions, Framerate};
use footage::profiles::{AudioEncoding, ContainerFormat, ContainerSelection, VideoEncoding};
use footage::render::Progress;

#[test]
fn desired_dimensions_by_percentage() {
    let selected = Dimensions { width: 1920u32, height: 1080u32 };
    let d = desired_dimensions(ResizeRequest::Percentage { width: 50, height: 50 }, selected);
    assert_eq!((d.width, d.height), (960, 540));
    let d = desired_dimensions(ResizeRequest::Percentage { width: 33, height: 33 }, selected);
    // 633.6 -> 633 -> 632, 356.4 -> 356
    assert_eq!((d.width, d.height), (632, 356));
}

#[test]
fn desired_dimensions_exact_are_evened() {
    let any = Dimensions { width: 1u32, height: 1u32 };
    let d = desired_dimensions(ResizeRequest::Exact { width: 1279, height: 721 }, any);
    assert_eq!((d.width, d.height), (1278, 720));
}

#[test]
fn chosen_rows() {
    assert_eq!(chosen(&[1, 2, 3], 2), Some(3));
    assert_eq!(chosen::<u8>(&[], 7), None);
    let all = [VideoEncoding::Av1, VideoEncoding::Vp8, VideoEncoding::Vp9];
    assert_eq!(selected_video_encoding(ContainerSelection::Same, &all, 0), None);
    assert_eq!(
        selected_video_encoding(ContainerSelection::Format(ContainerFormat::WebM), &all, 2),
        Some(VideoEncoding::Vp9)
    );
    assert_eq!(
        selected_video_encoding(ContainerSelection::Format(ContainerFormat::Mpeg), &[], 5),
        None
    );
    assert_eq!(
        selected_audio_encoding(ContainerSelection::Format(ContainerFormat::Mpeg), 1),
        Some(AudioEncoding::Aac)
    );
    assert_eq!(
        selected_audio_encoding(ContainerSelection::Format(ContainerFormat::GifContainer), 3),
        None
    );
    assert!(choice_visible(2) && !choice_visible(1) && !choice_visible(0));
}

#[test]
fn percentage_mirroring() {
    assert!(mirrors_percentage("100", "50"));
    assert!(!mirrors_percentage("50", "50"));
    assert!(!mirrors_percentage("50", ""));
}

#[test]
fn output_file_names() {
    assert_eq!(output_extension(ContainerSelection::Same, "mov"), "mov");
    assert_eq!(
        output_extension(ContainerSelection::Format(ContainerFormat::Matroska), "mov"),
        "mkv"
    );
    assert_eq!(suggested_file_name("holiday", "webm"), "holiday.webm");
}

#[test]
fn framerates_for_export() {
    assert_eq!(default_framerate(), Framerate { nominator: 30, denominator: 1 });
    assert_eq!(framerate_from_ratio(30000, 1001), Framerate { nominator: 30000, denominator: 1001 });
    assert_eq!(framerate_from_ratio(-1, 1).nominator, u32::MAX);
}

#[test]
fn export_progress_never_moves_back() {
    let mut p = ExportProgress::new();
    assert_eq!(
        p.on_message(Ok(Progress { position: 300, total: 1000 }), true),
        ExportUpdate::Fraction { done: 300, total: 1000 }
    );
    assert_eq!(
        p.on_message(Ok(Progress { position: 200, total: 1000 }), true),
        ExportUpdate::Fraction { done: 300, total: 1000 }
    );
    assert_eq!(
        p.on_message(Ok(Progress { position: 1, total: 1 }), true),
        ExportUpdate::Succeeded
    );
    assert_eq!(p.most_done, 300);
}

#[test]
fn export_failures_and_stops() {
    let mut p = ExportProgress::new();
    assert_eq!(p.on_message(Err(()), true), ExportUpdate::Failed);
    assert_eq!(
        p.on_message(Ok(Progress { position: 5, total: 10 }), false),
        ExportUpdate::Stopped
    );
    assert_eq!(p.most_done, 0);
}
