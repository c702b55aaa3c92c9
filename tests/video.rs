use clipbot::filename::obfuscated_filename;
use clipbot::video::{
    FetchFailure, Limits, VideoAction, VideoEvent, VideoFlow, VideoOutcome, VideoState,
    DELIVERY_CEILING_BYTES, HARD_CEILING_BYTES,
};

const MIB: u64 = 1024 * 1024;

fn reply(text: &str) -> VideoAction {
    VideoAction::Reply { text: text.to_string() }
}

/// Runs a flow for a valid URL up to the inspection of the downloaded file.
fn flow_at_inspection(url: &str, printed: &[u8]) -> (VideoFlow, String) {
    let (flow, action) = VideoFlow::begin(Limits::standard(), url);
    assert_eq!(action, VideoAction::ResolveFilename { url: url.to_string() });
    let (flow, action) =
        flow.step(VideoEvent::FilenameResolved { succeeded: true, stdout: printed.to_vec() });
    let filename = match action {
        VideoAction::Download { url: u, filename, max_bytes } => {
            assert_eq!(u, url);
            assert_eq!(max_bytes, HARD_CEILING_BYTES);
            filename
        }
        other => panic!("expected a download, got {:?}", other),
    };
    let (flow, action) = flow.step(VideoEvent::DownloadFinished { succeeded: true, refused_for_size: false });
    assert_eq!(action, VideoAction::Inspect { filename: filename.clone() });
    (flow, filename)
}

#[test]
fn standard_limits() {
    let limits = Limits::standard();
    assert_eq!(limits.hard_max_bytes, 20 * MIB);
    assert_eq!(limits.delivery_max_bytes, 10 * MIB);
    assert_eq!(HARD_CEILING_BYTES, 20_971_520);
    assert_eq!(DELIVERY_CEILING_BYTES, 10_485_760);
}

#[test]
fn invalid_url_replies_and_stops() {
    let (flow, action) = VideoFlow::begin(Limits::standard(), "not-a-url");
    assert_eq!(action, reply("url is invalid"));
    assert_eq!(flow.state, VideoState::Done { outcome: VideoOutcome::InvalidUrl });
    assert!(flow.is_done());
}

#[test]
fn small_clip_is_delivered_then_removed() {
    let (flow, filename) = flow_at_inspection("https://example.com/clip", b"clip.mp4\n");
    assert_eq!(filename, obfuscated_filename("clip.mp4"));
    assert!(filename.ends_with(".mp4"));
    let (flow, action) = flow.step(VideoEvent::FileInspected { size: Some(5 * MIB) });
    assert_eq!(action, VideoAction::SendAttachment { filename: filename.clone() });
    let (flow, action) = flow.step(VideoEvent::AttachmentSent { delivered: true });
    assert_eq!(action, VideoAction::RemoveFile { filename });
    assert!(!flow.is_done());
    let (flow, action) = flow.step(VideoEvent::FileRemoved);
    assert_eq!(action, VideoAction::Idle);
    assert_eq!(flow.state, VideoState::Done { outcome: VideoOutcome::Delivered });
}

#[test]
fn file_at_delivery_ceiling_is_sent() {
    let (flow, filename) = flow_at_inspection("https://example.com/edge", b"edge.webm");
    let (_, action) = flow.step(VideoEvent::FileInspected { size: Some(10 * MIB) });
    assert_eq!(action, VideoAction::SendAttachment { filename });
}

#[test]
fn file_over_hard_ceiling_is_a_fetch_failure() {
    let (flow, filename) = flow_at_inspection("https://example.com/big", b"big.mp4");
    let (flow, action) = flow.step(VideoEvent::FileInspected { size: Some(25 * MIB) });
    assert_eq!(action, VideoAction::RemoveFile { filename });
    assert_eq!(
        flow.state,
        VideoState::Cleaning { outcome: VideoOutcome::FetchFailed(FetchFailure::TooLarge) }
    );
    let (flow, action) = flow.step(VideoEvent::FileRemoved);
    assert_eq!(action, reply("file too large :'-("));
    assert!(flow.is_done());
}

#[test]
fn failed_download_removes_partial_file() {
    let (flow, _) = VideoFlow::begin(Limits::standard(), "https://example.com/clip");
    let (flow, action) =
        flow.step(VideoEvent::FilenameResolved { succeeded: true, stdout: b"clip.mp4".to_vec() });
    let filename = match action {
        VideoAction::Download { filename, .. } => filename,
        other => panic!("expected a download, got {:?}", other),
    };
    let (flow, action) = flow.step(VideoEvent::DownloadFinished { succeeded: false, refused_for_size: false });
    assert_eq!(action, VideoAction::RemoveFile { filename });
    let (flow, action) = flow.step(VideoEvent::FileRemoved);
    assert_eq!(action, reply("download failed :'-("));
    assert_eq!(
        flow.state,
        VideoState::Done { outcome: VideoOutcome::FetchFailed(FetchFailure::DownloadFailed) }
    );
}

#[test]
fn file_over_delivery_ceiling_is_rejected_and_removed() {
    let (flow, filename) = flow_at_inspection("https://example.com/mid", b"mid.mp4");
    let (flow, action) = flow.step(VideoEvent::FileInspected { size: Some(15 * MIB) });
    assert_eq!(action, VideoAction::RemoveFile { filename });
    let (flow, action) = flow.step(VideoEvent::FileRemoved);
    assert_eq!(action, reply("file is too large :'-("));
    assert_eq!(flow.state, VideoState::Done { outcome: VideoOutcome::SizeExceeded });
}

#[test]
fn unreadable_file_is_an_io_failure() {
    let (flow, filename) = flow_at_inspection("https://example.com/gone", b"gone.mp4");
    let (flow, action) = flow.step(VideoEvent::FileInspected { size: None });
    assert_eq!(action, VideoAction::RemoveFile { filename });
    let (flow, action) = flow.step(VideoEvent::FileRemoved);
    assert_eq!(action, reply("file too large :'-("));
    assert_eq!(flow.state, VideoState::Done { outcome: VideoOutcome::IoFailed });
}

#[test]
fn failed_send_still_removes_file() {
    let (flow, filename) = flow_at_inspection("https://example.com/clip", b"clip.mp4");
    let (flow, _) = flow.step(VideoEvent::FileInspected { size: Some(MIB) });
    let (flow, action) = flow.step(VideoEvent::AttachmentSent { delivered: false });
    assert_eq!(action, VideoAction::RemoveFile { filename });
    let (flow, action) = flow.step(VideoEvent::FileRemoved);
    assert_eq!(action, reply("failed to send the file"));
    assert_eq!(flow.state, VideoState::Done { outcome: VideoOutcome::SendFailed });
}

#[test]
fn failed_resolution_replies_without_download() {
    let (flow, _) = VideoFlow::begin(Limits::standard(), "https://example.com/clip");
    let (flow, action) =
        flow.step(VideoEvent::FilenameResolved { succeeded: false, stdout: Vec::new() });
    assert_eq!(action, reply("yt-dlp failed to get filename"));
    assert_eq!(flow.state, VideoState::Done { outcome: VideoOutcome::ResolutionFailed });
}

#[test]
fn unexpected_event_changes_nothing() {
    let (flow, filename) = flow_at_inspection("https://example.com/clip", b"clip.mp4");
    let (flow, action) = flow.step(VideoEvent::FileRemoved);
    assert_eq!(action, VideoAction::Idle);
    assert_eq!(flow.state, VideoState::Inspecting { filename });
}

#[test]
fn custom_limits_are_used() {
    let limits = Limits { hard_max_bytes: 100, delivery_max_bytes: 50 };
    let (flow, _) = VideoFlow::begin(limits, "https://example.com/clip");
    let (flow, action) =
        flow.step(VideoEvent::FilenameResolved { succeeded: true, stdout: b"a.mp4".to_vec() });
    assert!(matches!(action, VideoAction::Download { max_bytes: 100, .. }));
    let (flow, _) = flow.step(VideoEvent::DownloadFinished { succeeded: true, refused_for_size: false });
    let (flow, _) = flow.step(VideoEvent::FileInspected { size: Some(51) });
    assert_eq!(flow.state, VideoState::Cleaning { outcome: VideoOutcome::SizeExceeded });
}

#[test]
fn downloader_size_refusal_reports_file_too_large() {
    for succeeded in [false, true] {
        let (flow, _) = VideoFlow::begin(Limits::standard(), "https://example.com/huge");
        let (flow, action) = flow
            .step(VideoEvent::FilenameResolved { succeeded: true, stdout: b"huge.mp4".to_vec() });
        let filename = match action {
            VideoAction::Download { filename, .. } => filename,
            other => panic!("expected a download, got {:?}", other),
        };
        let (flow, action) =
            flow.step(VideoEvent::DownloadFinished { succeeded, refused_for_size: true });
        assert_eq!(action, VideoAction::RemoveFile { filename });
        let (flow, action) = flow.step(VideoEvent::FileRemoved);
        assert_eq!(action, reply("file too large :'-("));
        assert_eq!(
            flow.state,
            VideoState::Done { outcome: VideoOutcome::FetchFailed(FetchFailure::TooLarge) }
        );
    }
}

#[test]
fn unavailable_resolver_reports_its_reason() {
    let (flow, _) = VideoFlow::begin(Limits::standard(), "https://example.com/clip");
    let reason = "No such file or directory (os error 2)".to_string();
    let (flow, action) = flow.step(VideoEvent::ResolverUnavailable { reason: reason.clone() });
    assert_eq!(action, VideoAction::Reply { text: reason });
    assert_eq!(flow.state, VideoState::Done { outcome: VideoOutcome::ResolutionFailed });
}
