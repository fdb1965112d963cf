use livewall::ffmpeg::{FfmpegArg, FfmpegError, FfmpegManager, FfmpegTask};

fn t(s: &str) -> FfmpegArg {
    FfmpegArg::Text(s.to_string())
}

#[test]
fn ffmpeg_choice() {
    assert_eq!(FfmpegManager::get_ffmpeg_path(true, Some("/usr/bin/ffmpeg".into())), Ok("vendor/ffmpeg/ffmpeg".to_string()));
    assert_eq!(FfmpegManager::get_ffmpeg_path(false, Some("/usr/bin/ffmpeg".into())), Ok("/usr/bin/ffmpeg".to_string()));
    let e = FfmpegManager::get_ffmpeg_path(false, None).unwrap_err();
    assert_eq!(e, FfmpegError::NotFound);
    assert_eq!(e.message(), "ffmpeg not found. Please ensure it is bundled or installed in PATH.");
}

#[test]
fn transcode_command_line() {
    let job = FfmpegManager::transcode_to_mov();
    assert_eq!(job.task, FfmpegTask::Transcode);
    assert_eq!(
        job.args,
        vec![t("-i"), FfmpegArg::Input, t("-c:v"), t("libx264"), t("-an"), t("-movflags"), t("faststart"), t("-y"), FfmpegArg::Output]
    );
    assert_eq!(job.outcome(true, true), Ok(()));
    let e = job.outcome(true, false).unwrap_err();
    assert_eq!(e.message(), "ffmpeg transcoding failed");
    let e = job.outcome(false, false).unwrap_err();
    assert_eq!(e.message(), "Failed to execute ffmpeg for transcoding");
}

#[test]
fn thumbnail_command_line() {
    let job = FfmpegManager::extract_thumbnail();
    assert_eq!(job.task, FfmpegTask::Thumbnail);
    assert_eq!(
        job.args,
        vec![t("-i"), FfmpegArg::Input, t("-ss"), t("00:00:01"), t("-vframes"), t("1"), t("-y"), FfmpegArg::Output]
    );
    assert_eq!(job.outcome(true, false), Err(FfmpegError::Failed(FfmpegTask::Thumbnail)));
    assert_eq!(job.outcome(true, false).unwrap_err().message(), "ffmpeg thumbnail extraction failed");
    assert_eq!(job.outcome(false, true).unwrap_err().message(), "Failed to execute ffmpeg for thumbnail extraction");
}
