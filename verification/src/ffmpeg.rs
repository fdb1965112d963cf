//! The ffmpeg side of the pipeline: which binary to run, the command lines
//! for transcoding and for the thumbnail, and what their exit means.
use vstd::prelude::*;

verus! {

/// One argument of an ffmpeg command line.
#[derive(Debug, Clone, PartialEq, Eq)]
pub enum FfmpegArg {
    /// The input file.
    Input,
    /// The output file.
    Output,
    /// A fixed option or value.
    Text(String),
}

/// An argument as a value of the specification.
pub enum ArgModel {
    Input,
    Output,
    Text(Seq<char>),
}

impl View for FfmpegArg {
    type V = ArgModel;

    open spec fn view(&self) -> ArgModel {
        match self {
            FfmpegArg::Input => ArgModel::Input,
            FfmpegArg::Output => ArgModel::Output,
            FfmpegArg::Text(s) => ArgModel::Text(s@),
        }
    }
}

/// What an ffmpeg run is for.
#[derive(Debug, Clone, Copy, PartialEq, Eq)]
pub enum FfmpegTask {
    Transcode,
    Thumbnail,
}

/// An ffmpeg run: its purpose and its arguments.
#[derive(Debug, Clone, PartialEq, Eq)]
pub struct FfmpegJob {
    pub task: FfmpegTask,
    pub args: Vec<FfmpegArg>,
}

/// Why an ffmpeg step failed.
#[derive(Debug, Clone, Copy, PartialEq, Eq)]
pub enum FfmpegError {
    /// No ffmpeg binary was found.
    NotFound,
    /// ffmpeg could not be started for the job of that kind.
    Launch(FfmpegTask),
    /// ffmpeg ran a job of that kind and failed.
    Failed(FfmpegTask),
}

/// The text shown for an ffmpeg error.
pub open spec fn ffmpeg_error_text(e: FfmpegError) -> Seq<char> {
    match e {
        FfmpegError::NotFound => "ffmpeg not found. Please ensure it is bundled or installed in PATH."@,
        FfmpegError::Launch(FfmpegTask::Transcode) => "Failed to execute ffmpeg for transcoding"@,
        FfmpegError::Launch(FfmpegTask::Thumbnail) => "Failed to execute ffmpeg for thumbnail extraction"@,
        FfmpegError::Failed(FfmpegTask::Transcode) => "ffmpeg transcoding failed"@,
        FfmpegError::Failed(FfmpegTask::Thumbnail) => "ffmpeg thumbnail extraction failed"@,
    }
}

impl FfmpegError {
    /// The message that tells the user what went wrong.
    pub fn message(&self) -> (r: String)
        ensures
            r@ == ffmpeg_error_text(*self),
    {
        match self {
            FfmpegError::NotFound => String::from_str(
                "ffmpeg not found. Please ensure it is bundled or installed in PATH.",
            ),
            FfmpegError::Launch(FfmpegTask::Transcode) => String::from_str(
                "Failed to execute ffmpeg for transcoding",
            ),
            FfmpegError::Launch(FfmpegTask::Thumbnail) => String::from_str(
                "Failed to execute ffmpeg for thumbnail extraction",
            ),
            FfmpegError::Failed(FfmpegTask::Transcode) => String::from_str(
                "ffmpeg transcoding failed",
            ),
            FfmpegError::Failed(FfmpegTask::Thumbnail) => String::from_str(
                "ffmpeg thumbnail extraction failed",
            ),
        }
    }
}

/// The transcoding command line: H.264 video, no audio, the index at the
/// front of the file, overwriting the output.
pub open spec fn transcode_args() -> Seq<ArgModel> {
    seq![
        ArgModel::Text("-i"@),
        ArgModel::Input,
        ArgModel::Text("-c:v"@),
        ArgModel::Text("libx264"@),
        ArgModel::Text("-an"@),
        ArgModel::Text("-movflags"@),
        ArgModel::Text("faststart"@),
        ArgModel::Text("-y"@),
        ArgModel::Output,
    ]
}

/// The thumbnail command line: one frame at one second, overwriting the output.
pub open spec fn thumbnail_args() -> Seq<ArgModel> {
    seq![
        ArgModel::Text("-i"@),
        ArgModel::Input,
        ArgModel::Text("-ss"@),
        ArgModel::Text("00:00:01"@),
        ArgModel::Text("-vframes"@),
        ArgModel::Text("1"@),
        ArgModel::Text("-y"@),
        ArgModel::Output,
    ]
}

/// The arguments of a job, as values of the specification.
pub open spec fn args_model(args: Seq<FfmpegArg>) -> Seq<ArgModel> {
    args.map_values(|a: FfmpegArg| a@)
}

/// What a run of a job came to: it could not start, it failed, or it succeeded.
pub open spec fn job_result(task: FfmpegTask, started: bool, success: bool) -> Result<(), FfmpegError> {
    if !started {
        Err(FfmpegError::Launch(task))
    } else if !success {
        Err(FfmpegError::Failed(task))
    } else {
        Ok(())
    }
}

/// The ffmpeg binary to use: the bundled one when it exists, else the one
/// found on `PATH`.
pub open spec fn ffmpeg_choice(bundled_exists: bool, on_path: Option<Seq<char>>) -> Result<
    Seq<char>,
    FfmpegError,
> {
    if bundled_exists {
        Ok("vendor/ffmpeg/ffmpeg"@)
    } else {
        match on_path {
            Some(p) => Ok(p),
            None => Err(FfmpegError::NotFound),
        }
    }
}

fn text_arg(s: &str) -> (a: FfmpegArg)
    ensures
        a@ == ArgModel::Text(s@),
{
    FfmpegArg::Text(String::from_str(s))
}

/// Runs ffmpeg for the video pipeline.
pub struct FfmpegManager;

impl FfmpegManager {
    /// Where the bundled ffmpeg binary is looked for.
    pub fn bundled_path() -> (r: String)
        ensures
            r@ == "vendor/ffmpeg/ffmpeg"@,
    {
        String::from_str("vendor/ffmpeg/ffmpeg")
    }

    /// The ffmpeg binary to run, given whether the bundled one exists and
    /// where `PATH` has one, if anywhere.
    pub fn get_ffmpeg_path(bundled_exists: bool, on_path: Option<String>) -> (r: Result<
        String,
        FfmpegError,
    >)
        ensures
            match (r, ffmpeg_choice(
                bundled_exists,
                match on_path {
                    Some(p) => Some(p@),
                    None => None,
                },
            )) {
                (Ok(p), Ok(q)) => p@ == q,
                (Err(e), Err(f)) => e == f,
                _ => false,
            },
    {
        if bundled_exists {
            return Ok(Self::bundled_path());
        }
        match on_path {
            Some(p) => Ok(p),
            None => Err(FfmpegError::NotFound),
        }
    }

    /// The job that turns the input video into a `.mov` at the output.
    pub fn transcode_to_mov() -> (job: FfmpegJob)
        ensures
            job.task == FfmpegTask::Transcode,
            args_model(job.args@) == transcode_args(),
    {
        let mut args: Vec<FfmpegArg> = Vec::new();
        args.push(text_arg("-i"));
        args.push(FfmpegArg::Input);
        args.push(text_arg("-c:v"));
        args.push(text_arg("libx264"));
        args.push(text_arg("-an"));
        args.push(text_arg("-movflags"));
        args.push(text_arg("faststart"));
        args.push(text_arg("-y"));
        args.push(FfmpegArg::Output);
        assert(args_model(args@) =~= transcode_args());
        FfmpegJob { task: FfmpegTask::Transcode, args }
    }

    /// The job that writes a PNG thumbnail of the input video at the output.
    pub fn extract_thumbnail() -> (job: FfmpegJob)
        ensures
            job.task == FfmpegTask::Thumbnail,
            args_model(job.args@) == thumbnail_args(),
    {
        let mut args: Vec<FfmpegArg> = Vec::new();
        args.push(text_arg("-i"));
        args.push(FfmpegArg::Input);
        args.push(text_arg("-ss"));
        args.push(text_arg("00:00:01"));
        args.push(text_arg("-vframes"));
        args.push(text_arg("1"));
        args.push(text_arg("-y"));
        args.push(FfmpegArg::Output);
        assert(args_model(args@) =~= thumbnail_args());
        FfmpegJob { task: FfmpegTask::Thumbnail, args }
    }
}

impl FfmpegJob {
    /// What a run of this job came to, given whether ffmpeg could be started
    /// and whether it exited successfully.
    pub fn outcome(&self, started: bool, success: bool) -> (r: Result<(), FfmpegError>)
        ensures
            r == job_result(self.task, started, success),
    {
        if !started {
            Err(FfmpegError::Launch(self.task))
        } else if !success {
            Err(FfmpegError::Failed(self.task))
        } else {
            Ok(())
        }
    }
}

} // verus!
