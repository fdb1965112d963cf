//! The order in which `set-wallpaper`, `set-screensaver` and `remove` touch
//! files and processes, as a machine that the caller drives: it names the
//! next stage, the caller runs it and reports how it ended.
use vstd::prelude::*;

use crate::commands::set::VideoKind;

verus! {

/// One piece of outside work of a verb.
#[derive(Debug, Clone, Copy, PartialEq, Eq, Structural)]
pub enum Stage {
    /// Create the videos folder where it is missing.
    MakeVideosDir,
    /// Transcode the MP4 input into the planned `.mov` file.
    TranscodeVideo,
    /// Copy the MOV input to the planned `.mov` file.
    CopyVideo,
    /// Create the thumbnails folder where it is missing.
    MakeThumbnailsDir,
    /// Extract the thumbnail from the placed video.
    ExtractThumbnail,
    /// Load the manifest, register the new asset and save it.
    PatchManifest,
    /// Save the manifest without the removed entry.
    SaveManifest,
    /// Delete the removed asset's video, where it exists.
    DeleteVideo,
    /// Delete the removed asset's thumbnail, where it exists.
    DeleteThumbnail,
    /// Restart the wallpaper daemons.
    RestartDaemons,
    /// Print the verb's success line and open its System Settings panel.
    OpenSettings,
}

/// A stage whose failure does not stop the verb: deleting the files of a
/// removed asset, and opening System Settings at the end.
pub open spec fn tolerates_failure(s: Stage) -> bool {
    s == Stage::DeleteVideo || s == Stage::DeleteThumbnail || s == Stage::OpenSettings
}

/// The stage that puts a video of this kind in place.
pub open spec fn placing_stage(kind: VideoKind) -> Stage {
    match kind {
        VideoKind::Mp4 => Stage::TranscodeVideo,
        VideoKind::Mov => Stage::CopyVideo,
    }
}

/// The stages of `set-wallpaper` and `set-screensaver`, in order.
pub open spec fn set_stages(kind: VideoKind) -> Seq<Stage> {
    seq![
        Stage::MakeVideosDir,
        placing_stage(kind),
        Stage::MakeThumbnailsDir,
        Stage::ExtractThumbnail,
        Stage::PatchManifest,
        Stage::RestartDaemons,
        Stage::OpenSettings,
    ]
}

/// The stages of `remove` once the entry was taken out, in order.
pub open spec fn remove_stages() -> Seq<Stage> {
    seq![Stage::SaveManifest, Stage::DeleteVideo, Stage::DeleteThumbnail, Stage::RestartDaemons]
}

/// What the caller is asked to do next.
#[derive(Debug, PartialEq, Eq)]
pub enum PipelineAction {
    /// Run this stage and report how it ended.
    Run(Stage),
    /// The verb is over, with this result.
    Done(Result<(), String>),
}

/// An action as a value of the specification.
pub enum PipelineActionModel {
    Run(Stage),
    Done(Result<(), Seq<char>>),
}

/// A result as a value of the specification.
pub open spec fn result_model(r: Result<(), String>) -> Result<(), Seq<char>> {
    match r {
        Ok(()) => Ok(()),
        Err(e) => Err(e@),
    }
}

/// An optional result as a value of the specification.
pub open spec fn ended_model(r: Option<Result<(), String>>) -> Option<Result<(), Seq<char>>> {
    match r {
        Some(x) => Some(result_model(x)),
        None => None,
    }
}

impl View for PipelineAction {
    type V = PipelineActionModel;

    open spec fn view(&self) -> PipelineActionModel {
        match self {
            PipelineAction::Run(s) => PipelineActionModel::Run(*s),
            PipelineAction::Done(r) => PipelineActionModel::Done(result_model(*r)),
        }
    }
}

/// A verb's stages and how far it has come.
pub struct Pipeline {
    /// Its stages, in order.
    pub stages: Vec<Stage>,
    /// How many of them it has asked to run.
    pub issued: usize,
    /// How it ended, once it has.
    pub ended: Option<Result<(), String>>,
}

/// Where a pipeline stands, as a value of the specification.
pub struct PipelineModel {
    /// Its stages, in order.
    pub stages: Seq<Stage>,
    /// How many of them it has asked to run.
    pub issued: nat,
    /// How it ended, once it has.
    pub ended: Option<Result<(), Seq<char>>>,
}

impl View for Pipeline {
    type V = PipelineModel;

    open spec fn view(&self) -> PipelineModel {
        PipelineModel {
            stages: self.stages@,
            issued: self.issued as nat,
            ended: ended_model(self.ended),
        }
    }
}

/// The next state and action of a pipeline, given how the last stage it
/// asked for ended (`Ok` on the first call). An ended pipeline repeats its
/// result. A failure of a stage that does not tolerate one ends it with that
/// failure. Otherwise it asks for the next stage, or ends well after the last.
pub open spec fn pipeline_step(p: PipelineModel, outcome: Result<(), Seq<char>>) -> (
    PipelineModel,
    PipelineActionModel,
) {
    match p.ended {
        Some(r) => (p, PipelineActionModel::Done(r)),
        None => if p.issued > 0 && outcome is Err && !tolerates_failure(
            p.stages[p.issued - 1],
        ) {
            (
                PipelineModel { ended: Some(outcome), ..p },
                PipelineActionModel::Done(outcome),
            )
        } else if p.issued < p.stages.len() {
            (
                PipelineModel { issued: p.issued + 1, ..p },
                PipelineActionModel::Run(p.stages[p.issued as int]),
            )
        } else {
            (
                PipelineModel { ended: Some(Ok(())), ..p },
                PipelineActionModel::Done(Ok(())),
            )
        },
    }
}

/// A pipeline that has asked for no stage of its own.
pub open spec fn fresh(p: PipelineModel, stages: Seq<Stage>) -> bool {
    p.stages == stages && p.issued == 0 && p.ended is None
}

impl Pipeline {
    /// The pipeline of `set-wallpaper` and `set-screensaver` for an input
    /// of kind `kind`.
    pub fn for_set(kind: VideoKind) -> (p: Pipeline)
        ensures
            fresh(p@, set_stages(kind)),
            p.well_formed(),
    {
        let mut stages: Vec<Stage> = Vec::new();
        stages.push(Stage::MakeVideosDir);
        match kind {
            VideoKind::Mp4 => stages.push(Stage::TranscodeVideo),
            VideoKind::Mov => stages.push(Stage::CopyVideo),
        }
        stages.push(Stage::MakeThumbnailsDir);
        stages.push(Stage::ExtractThumbnail);
        stages.push(Stage::PatchManifest);
        stages.push(Stage::RestartDaemons);
        stages.push(Stage::OpenSettings);
        assert(stages@ =~= set_stages(kind));
        Pipeline { stages, issued: 0, ended: None }
    }

    /// The pipeline of `remove`, once the entry was taken out of the manifest.
    pub fn for_remove() -> (p: Pipeline)
        ensures
            fresh(p@, remove_stages()),
            p.well_formed(),
    {
        let mut stages: Vec<Stage> = Vec::new();
        stages.push(Stage::SaveManifest);
        stages.push(Stage::DeleteVideo);
        stages.push(Stage::DeleteThumbnail);
        stages.push(Stage::RestartDaemons);
        assert(stages@ =~= remove_stages());
        Pipeline { stages, issued: 0, ended: None }
    }

    /// It has asked for no more stages than it has.
    pub open spec fn well_formed(&self) -> bool {
        self.issued <= self.stages@.len()
    }

    /// Takes how the last stage ended and gives the next action.
    pub fn step(&mut self, outcome: &Result<(), String>) -> (action: PipelineAction)
        requires
            old(self).well_formed(),
        ensures
            final(self).well_formed(),
            (final(self)@, action@) == pipeline_step(old(self)@, result_model(*outcome)),
    {
        if let Some(r) = &self.ended {
            let again = match r {
                Ok(()) => Ok(()),
                Err(e) => Err(e.clone()),
            };
            return PipelineAction::Done(again);
        }
        if self.issued > 0 {
            if let Err(e) = outcome {
                let last = self.stages[self.issued - 1];
                let tolerated = match last {
                    Stage::DeleteVideo | Stage::DeleteThumbnail | Stage::OpenSettings => true,
                    _ => false,
                };
                if !tolerated {
                    self.ended = Some(Err(e.clone()));
                    return PipelineAction::Done(Err(e.clone()));
                }
            }
        }
        if self.issued < self.stages.len() {
            let s = self.stages[self.issued];
            self.issued = self.issued + 1;
            PipelineAction::Run(s)
        } else {
            self.ended = Some(Ok(()));
            PipelineAction::Done(Ok(()))
        }
    }
}

/// A stage is asked for only when the stage before it ended well, or its
/// failure is tolerated; and it is always the next stage in order.
pub proof fn law_stage_runs_after_success(p: PipelineModel, outcome: Result<(), Seq<char>>)
    ensures
        pipeline_step(p, outcome).1 matches PipelineActionModel::Run(s) ==> {
            &&& p.ended is None
            &&& p.issued < p.stages.len()
            &&& s == p.stages[p.issued as int]
            &&& pipeline_step(p, outcome).0.issued == p.issued + 1
            &&& (p.issued == 0 || outcome is Ok || tolerates_failure(p.stages[p.issued - 1]))
        },
{
}

/// A failure that is not tolerated ends the verb with that failure, and no
/// stage is asked for after it, whatever is reported next.
pub proof fn law_failure_stops(p: PipelineModel, error: Seq<char>)
    requires
        p.ended is None,
        0 < p.issued,
        !tolerates_failure(p.stages[p.issued - 1]),
    ensures
        pipeline_step(p, Err(error)).1 == PipelineActionModel::Done(Err(error)),
        forall|o: Result<(), Seq<char>>|
            #[trigger] pipeline_step(pipeline_step(p, Err(error)).0, o) == (
                pipeline_step(p, Err(error)).0,
                PipelineActionModel::Done(Err(error)),
            ),
{
}

proof fn lemma_run_well(stages: Seq<Stage>, p: PipelineModel, k: nat)
    requires
        fresh(p, stages),
        k <= stages.len(),
    ensures
        run_well(p, k).issued == k,
        run_well(p, k).ended is None,
        run_well(p, k).stages == stages,
        forall|i: int|
            0 <= i < k ==> #[trigger] pipeline_step(run_well(p, i as nat), Ok(())).1
                == PipelineActionModel::Run(stages[i]),
    decreases k,
{
    if k > 0 {
        lemma_run_well(stages, p, (k - 1) as nat);
        assert(run_well(p, k) == pipeline_step(run_well(p, (k - 1) as nat), Ok(())).0);
    }
}

/// Run to its end with every stage ending well, a pipeline asks for each of
/// its stages once, in order, then ends well.
pub proof fn law_all_stages_in_order(stages: Seq<Stage>, p: PipelineModel)
    requires
        fresh(p, stages),
    ensures
        forall|i: int|
            0 <= i < stages.len() ==> #[trigger] pipeline_step(run_well(p, i as nat), Ok(())).1
                == PipelineActionModel::Run(stages[i]),
        pipeline_step(run_well(p, stages.len()), Ok(())).1 == PipelineActionModel::Done(Ok(())),
{
    lemma_run_well(stages, p, stages.len());
}

/// The state after `k` stages that all ended well.
pub open spec fn run_well(p: PipelineModel, k: nat) -> PipelineModel
    decreases k,
{
    if k == 0 {
        p
    } else {
        pipeline_step(run_well(p, (k - 1) as nat), Ok(())).0
    }
}

/// In `set-wallpaper` and `set-screensaver` the manifest is patched only
/// after the video and its thumbnail are in place, the daemons are restarted
/// only after the manifest was patched, and System Settings opens last.
pub proof fn law_set_order(kind: VideoKind)
    ensures
        set_stages(kind).len() == 7,
        set_stages(kind)[0] == Stage::MakeVideosDir,
        set_stages(kind)[1] == placing_stage(kind),
        set_stages(kind)[2] == Stage::MakeThumbnailsDir,
        set_stages(kind)[3] == Stage::ExtractThumbnail,
        set_stages(kind)[4] == Stage::PatchManifest,
        set_stages(kind)[5] == Stage::RestartDaemons,
        set_stages(kind)[6] == Stage::OpenSettings,
        forall|i: int| 0 <= i < 4 ==> !tolerates_failure(#[trigger] set_stages(kind)[i]),
        !tolerates_failure(set_stages(kind)[4]),
        !tolerates_failure(set_stages(kind)[5]),
{
    assert(!tolerates_failure(set_stages(kind)[1]));
}

/// In `remove` the manifest is saved before any file is deleted, and the
/// daemons are restarted last; a failed save stops it.
pub proof fn law_remove_order()
    ensures
        remove_stages().len() == 4,
        remove_stages()[0] == Stage::SaveManifest,
        !tolerates_failure(remove_stages()[0]),
        remove_stages()[1] == Stage::DeleteVideo,
        remove_stages()[2] == Stage::DeleteThumbnail,
        remove_stages()[3] == Stage::RestartDaemons,
{
}

/// Whatever the kind of the input, each stage of `set-wallpaper` and
/// `set-screensaver` runs once: the videos folder is made before the video is
/// placed (transcoded from MP4, copied as MOV), and the thumbnails folder is
/// made before the thumbnail is extracted from the placed video.
pub proof fn law_folders_made_before_use(kind: VideoKind)
    ensures
        forall|i: int, j: int|
            0 <= i < j < set_stages(kind).len() ==> set_stages(kind)[i] != set_stages(kind)[j],
        set_stages(kind).contains(Stage::MakeVideosDir),
        set_stages(kind).contains(Stage::MakeThumbnailsDir),
        forall|i: int, j: int|
            0 <= i < set_stages(kind).len() && 0 <= j < set_stages(kind).len()
                && set_stages(kind)[i] == Stage::MakeVideosDir && (set_stages(kind)[j]
                == Stage::TranscodeVideo || set_stages(kind)[j] == Stage::CopyVideo) ==> i < j,
        forall|i: int, j: int|
            0 <= i < set_stages(kind).len() && 0 <= j < set_stages(kind).len()
                && set_stages(kind)[i] == Stage::MakeThumbnailsDir && set_stages(kind)[j]
                == Stage::ExtractThumbnail ==> i < j,
        kind == VideoKind::Mp4 ==> set_stages(kind).contains(Stage::TranscodeVideo)
            && !set_stages(kind).contains(Stage::CopyVideo),
        kind == VideoKind::Mov ==> set_stages(kind).contains(Stage::CopyVideo)
            && !set_stages(kind).contains(Stage::TranscodeVideo),
{
    let s = set_stages(kind);
    assert(s[0] == Stage::MakeVideosDir);
    assert(s[2] == Stage::MakeThumbnailsDir);
    if kind == VideoKind::Mp4 {
        assert(s[1] == Stage::TranscodeVideo);
        assert(!s.contains(Stage::CopyVideo));
    } else {
        assert(s[1] == Stage::CopyVideo);
        assert(!s.contains(Stage::TranscodeVideo));
    }
}

} // verus!
