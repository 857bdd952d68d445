//! A whole pipeline run as a state machine. The caller performs each
//! [`RunAction`] (notifying the observer, running a command, touching the
//! file system) and feeds the outcome back as a [`HostEvent`]; the machine
//! decides what comes next, until it asks to finish.
//!
//! A run creates its temporary directory, reports zero progress, then
//! processes one scene (a set of images) or, in batch mode, one scene per
//! input directory. A scene announces and runs each stage of its plan in
//! turn, reporting progress after the counted ones, and its two final
//! images are copied to names stamped with the local time.

use vstd::prelude::*;
use crate::command::{CommandModel, CommandOutput, CommandError, CommandSpec, ErrorModel, OutputModel};
use crate::exposure::FisheyeGeometry;
use crate::formats::{is_jpeg, is_raw, is_supported_format, jpeg_path, raw_path, supported_path};
use crate::image_cache::{conversion_command, conversion_model};
use crate::pipeline::{
    evalglare_result, glare_warning, output_file_names, output_names, progress_of,
    progress_percent, supported_entries, supported_images, PipelineError, PipelineErrorModel, PipelineStatusKind,
    Timestamp,
};
use crate::stages::{
    chain_input, counted_before, evalglare_model, is_counted, lemma_counted_stages, lemma_minimal_plan,
    merge_exposures, merge_model, RESIZE_THRESHOLD,
    output_name, stage_command, stage_model, stage_plan, stage_plan_of, ConfigSettings, SceneParams,
    Stage, COUNTED_STAGES,
};
use crate::text::{base_name, base_name_of, concat, decimal, decimal_text, join_path, joined, trimmed};

verus! {

/// A notification for the observer.
#[derive(Debug, Clone)]
pub enum StatusEvent {
    /// A stage starts.
    Step(Stage),
    /// Progress of the scene, in percent.
    Progress(u32),
    /// The glare evaluation failed but gave a usable value.
    Warning(String),
    /// The run failed.
    Error(PipelineError),
    /// The run is complete, with its final progress.
    Done(u32),
}

impl StatusEvent {
    /// The kind of the event.
    pub fn kind(&self) -> (r: PipelineStatusKind)
        ensures
            match self {
                StatusEvent::Step(_) => r is Step,
                StatusEvent::Progress(_) => r is Progress,
                StatusEvent::Warning(_) => r is Warning,
                StatusEvent::Error(_) => r is Error,
                StatusEvent::Done(_) => r is Done,
            },
    {
        match self {
            StatusEvent::Step(_) => PipelineStatusKind::Step,
            StatusEvent::Progress(_) => PipelineStatusKind::Progress,
            StatusEvent::Warning(_) => PipelineStatusKind::Warning,
            StatusEvent::Error(_) => PipelineStatusKind::Error,
            StatusEvent::Done(_) => PipelineStatusKind::Done,
        }
    }
}

/// Mathematical model of a [`StatusEvent`].
pub enum StatusModel {
    Step(Stage),
    Progress(nat),
    Warning(Seq<char>),
    Error(PipelineErrorModel),
    Done(nat),
}

impl View for StatusEvent {
    type V = StatusModel;

    open spec fn view(&self) -> StatusModel {
        match self {
            StatusEvent::Step(s) => StatusModel::Step(*s),
            StatusEvent::Progress(p) => StatusModel::Progress(*p as nat),
            StatusEvent::Warning(w) => StatusModel::Warning(w@),
            StatusEvent::Error(e) => StatusModel::Error(e@),
            StatusEvent::Done(p) => StatusModel::Done(*p as nat),
        }
    }
}

/// What the caller must do next.
#[derive(Debug)]
pub enum RunAction {
    /// Send this status event to the observer; answer with `Done`.
    Notify(StatusEvent),
    /// Send this bare progress value to the observer; answer with `Done`.
    ReportProgress(u32),
    /// Execute this command; answer with `Executed`.
    Execute(CommandSpec),
    /// Filter the exposures (see `exposure::filter_images`); answer with
    /// `Filtered`.
    FilterExposures { images: Vec<String>, geometry: FisheyeGeometry },
    /// Create this directory and its parents; answer with `Done`.
    CreateDir(String),
    /// List the paths of the entries of this directory; answer with `Listed`.
    ListDir(String),
    /// Read the local date and time; answer with `Clock`.
    ReadClock,
    /// Copy the file `from` to `to`; answer with `Done`.
    Copy { from: String, to: String },
    /// The run is over with this result: the output path, or the error.
    Finish(Result<String, PipelineError>),
}

/// Mathematical model of a [`RunAction`].
pub enum ActionModel {
    Notify(StatusModel),
    ReportProgress(nat),
    Execute(CommandModel),
    FilterExposures(Seq<Seq<char>>, FisheyeGeometry),
    CreateDir(Seq<char>),
    ListDir(Seq<char>),
    ReadClock,
    Copy(Seq<char>, Seq<char>),
    Finish(Result<Seq<char>, PipelineErrorModel>),
}

impl View for RunAction {
    type V = ActionModel;

    open spec fn view(&self) -> ActionModel {
        match self {
            RunAction::Notify(e) => ActionModel::Notify(e@),
            RunAction::ReportProgress(p) => ActionModel::ReportProgress(*p as nat),
            RunAction::Execute(c) => ActionModel::Execute(c@),
            RunAction::FilterExposures { images, geometry } => ActionModel::FilterExposures(
                images.deep_view(),
                *geometry,
            ),
            RunAction::CreateDir(d) => ActionModel::CreateDir(d@),
            RunAction::ListDir(d) => ActionModel::ListDir(d@),
            RunAction::ReadClock => ActionModel::ReadClock,
            RunAction::Copy { from, to } => ActionModel::Copy(from@, to@),
            RunAction::Finish(Ok(p)) => ActionModel::Finish(Ok(p@)),
            RunAction::Finish(Err(e)) => ActionModel::Finish(Err(e@)),
        }
    }
}

/// The outcome of the last action.
#[derive(Debug)]
pub enum HostEvent {
    /// A notification, directory creation or copy succeeded, or failed with
    /// a message.
    Done(Result<(), String>),
    /// A command was executed.
    Executed(Result<CommandOutput, CommandError>),
    /// The exposures were filtered.
    Filtered(Result<Vec<String>, PipelineError>),
    /// A directory was listed, or could not be (with a message).
    Listed(Result<Vec<String>, String>),
    /// The local date and time.
    Clock(Timestamp),
}

/// Mathematical model of a [`HostEvent`].
pub enum EventModel {
    Done(Result<(), Seq<char>>),
    Executed(Result<OutputModel, ErrorModel>),
    Filtered(Result<Seq<Seq<char>>, PipelineErrorModel>),
    Listed(Result<Seq<Seq<char>>, Seq<char>>),
    Clock(Timestamp),
}

impl View for HostEvent {
    type V = EventModel;

    open spec fn view(&self) -> EventModel {
        match self {
            HostEvent::Done(Ok(_)) => EventModel::Done(Ok(())),
            HostEvent::Done(Err(m)) => EventModel::Done(Err(m@)),
            HostEvent::Executed(Ok(o)) => EventModel::Executed(Ok(o@)),
            HostEvent::Executed(Err(e)) => EventModel::Executed(Err(e@)),
            HostEvent::Filtered(Ok(v)) => EventModel::Filtered(Ok(v.deep_view())),
            HostEvent::Filtered(Err(e)) => EventModel::Filtered(Err(e@)),
            HostEvent::Listed(Ok(v)) => EventModel::Listed(Ok(v.deep_view())),
            HostEvent::Listed(Err(m)) => EventModel::Listed(Err(m@)),
            HostEvent::Clock(t) => EventModel::Clock(*t),
        }
    }
}

/// Where a run stands.
#[derive(Debug)]
pub enum Phase {
    CreatingTemp,
    ReportingStart,
    NotifyingStart,
    CreatingSceneDir,
    ListingDir,
    Announcing,
    Converting(usize),
    Filtering,
    Executing,
    Warning(String),
    ReportingProgress,
    NotifyingProgress,
    Stamping,
    CopyingHdr,
    CopyingFalsecolor,
    ReportingError(PipelineError),
    Completing,
    Finished(Result<String, PipelineError>),
}

/// Mathematical model of a [`Phase`].
pub enum PhaseModel {
    CreatingTemp,
    ReportingStart,
    NotifyingStart,
    CreatingSceneDir,
    ListingDir,
    Announcing,
    Converting(nat),
    Filtering,
    Executing,
    Warning(Seq<char>),
    ReportingProgress,
    NotifyingProgress,
    Stamping,
    CopyingHdr,
    CopyingFalsecolor,
    ReportingError(PipelineErrorModel),
    Completing,
    Finished(Result<Seq<char>, PipelineErrorModel>),
}

impl View for Phase {
    type V = PhaseModel;

    open spec fn view(&self) -> PhaseModel {
        match self {
            Phase::CreatingTemp => PhaseModel::CreatingTemp,
            Phase::ReportingStart => PhaseModel::ReportingStart,
            Phase::NotifyingStart => PhaseModel::NotifyingStart,
            Phase::CreatingSceneDir => PhaseModel::CreatingSceneDir,
            Phase::ListingDir => PhaseModel::ListingDir,
            Phase::Announcing => PhaseModel::Announcing,
            Phase::Converting(i) => PhaseModel::Converting(*i as nat),
            Phase::Filtering => PhaseModel::Filtering,
            Phase::Executing => PhaseModel::Executing,
            Phase::Warning(w) => PhaseModel::Warning(w@),
            Phase::ReportingProgress => PhaseModel::ReportingProgress,
            Phase::NotifyingProgress => PhaseModel::NotifyingProgress,
            Phase::Stamping => PhaseModel::Stamping,
            Phase::CopyingHdr => PhaseModel::CopyingHdr,
            Phase::CopyingFalsecolor => PhaseModel::CopyingFalsecolor,
            Phase::ReportingError(e) => PhaseModel::ReportingError(e@),
            Phase::Completing => PhaseModel::Completing,
            Phase::Finished(Ok(p)) => PhaseModel::Finished(Ok(p@)),
            Phase::Finished(Err(e)) => PhaseModel::Finished(Err(e@)),
        }
    }
}

/// What a run was started with; it does not change while the run goes on.
pub struct RunContext {
    pub cfg: ConfigSettings,
    pub params: SceneParams,
    pub inputs: Seq<Seq<char>>,
    pub batch: bool,
}

/// The changing part of a run.
pub struct RunModel {
    pub phase: PhaseModel,
    /// Batch mode: the input directory being processed.
    pub dir: nat,
    /// The temporary directory of the current scene.
    pub temp: Seq<char>,
    /// The stages of the current scene and the one being run.
    pub plan: Seq<Stage>,
    pub stage: nat,
    /// The images to merge.
    pub images: Seq<Seq<char>>,
    /// The glare value, once evaluated.
    pub glare: Seq<char>,
    /// Number of counted stages done in this scene.
    pub completed: nat,
    /// Where the scene's final images go.
    pub targets: (Seq<char>, Seq<char>),
    /// What the run returns on success.
    pub result_path: Seq<char>,
}

/// The error of a failed notification.
pub open spec fn status_failure(message: Seq<char>) -> PipelineErrorModel {
    PipelineErrorModel::Event("Failed to emit status event: "@ + message)
}

/// The error of a failed progress report.
pub open spec fn progress_failure(message: Seq<char>) -> PipelineErrorModel {
    PipelineErrorModel::Event("Failed to emit progress event: "@ + message)
}

/// The error of an answer that does not fit the action asked for.
pub open spec fn unexpected_event() -> PipelineErrorModel {
    PipelineErrorModel::Processing("unexpected answer to the last action"@)
}

/// The run ends with `r`.
pub open spec fn finish(m: RunModel, r: Result<Seq<char>, PipelineErrorModel>) -> RunModel {
    RunModel { phase: PhaseModel::Finished(r), ..m }
}

/// The scene fails with `e`, which is reported to the observer first.
pub open spec fn fail_scene(m: RunModel, e: PipelineErrorModel) -> RunModel {
    RunModel { phase: PhaseModel::ReportingError(e), ..m }
}

/// A scene of `images` starts with its first stage.
pub open spec fn begin_scene(c: RunContext, m: RunModel, images: Seq<Seq<char>>) -> RunModel {
    RunModel {
        phase: PhaseModel::Announcing,
        plan: stage_plan(c.params),
        stage: 0,
        images,
        glare: seq![],
        completed: 0,
        ..m
    }
}

/// Batch mode: the scene of input directory `i` starts, or the run
/// completes when there is none left.
pub open spec fn begin_dir(c: RunContext, m: RunModel, i: nat) -> RunModel {
    if i < c.inputs.len() {
        RunModel {
            phase: PhaseModel::CreatingSceneDir,
            dir: i,
            completed: 0,
            temp: joined(c.cfg.temp_path@, base_name(c.inputs[i as int])),
            ..m
        }
    } else {
        RunModel { phase: PhaseModel::Completing, ..m }
    }
}

/// Once zero progress is reported: the batch, or the single scene if all
/// its images have supported formats.
pub open spec fn after_start(c: RunContext, m: RunModel) -> RunModel {
    if c.batch {
        begin_dir(c, m, 0)
    } else if forall|i: int| 0 <= i < c.inputs.len() ==> supported_path(#[trigger] c.inputs[i]) {
        begin_scene(c, m, c.inputs)
    } else {
        finish(
            m,
            Err(
                PipelineErrorModel::InvalidInput {
                    field: "inputImages"@,
                    value: "unsupported-format"@,
                },
            ),
        )
    }
}

/// Starts the work of the announced stage: the merge may first convert raw
/// files or filter the exposures; the false-color rendering needs a program
/// search path.
pub open spec fn begin_work(c: RunContext, m: RunModel) -> RunModel {
    let s = m.plan[m.stage as int];
    if s is MergeExposures {
        if m.images.len() > 0 && raw_path(m.images[0]) {
            RunModel { phase: PhaseModel::Converting(0), ..m }
        } else if m.images.len() > 0 && c.params.filter_images && jpeg_path(m.images[0]) {
            RunModel { phase: PhaseModel::Filtering, ..m }
        } else {
            RunModel { phase: PhaseModel::Executing, ..m }
        }
    } else if s is Falsecolor && c.cfg.search_path is None {
        fail_scene(m, PipelineErrorModel::Processing("falsecolor: PATH environment variable unavailable"@))
    } else {
        RunModel { phase: PhaseModel::Executing, ..m }
    }
}

/// The TIFF file that the `i`-th raw input is converted to (from 0).
pub open spec fn converted_name(temp: Seq<char>, i: nat) -> Seq<char> {
    joined(temp, "input"@ + decimal(i + 1) + ".tiff"@)
}

/// After the stage: report progress if it is counted, else go on.
pub open spec fn after_work(c: RunContext, m: RunModel) -> RunModel {
    if is_counted(m.plan[m.stage as int]) {
        RunModel { phase: PhaseModel::ReportingProgress, completed: m.completed + 1, ..m }
    } else {
        next_stage(c, m)
    }
}

/// The next stage or, after the last one, the reading of the clock that
/// names the final images.
pub open spec fn next_stage(c: RunContext, m: RunModel) -> RunModel {
    if m.stage + 1 < m.plan.len() {
        RunModel { phase: PhaseModel::Announcing, stage: m.stage + 1, ..m }
    } else {
        RunModel { phase: PhaseModel::Stamping, ..m }
    }
}

/// The names of the scene's final images at local time `t`: stamped, and
/// in batch mode prefixed with the directory's name.
pub open spec fn scene_targets(c: RunContext, m: RunModel, t: Timestamp) -> (Seq<char>, Seq<char>) {
    output_names(
        c.cfg.output_path@,
        if c.batch { Some(base_name(c.inputs[m.dir as int])) } else { None },
        t,
    )
}

/// What the glare evaluation's outcome gives: the value and perhaps a
/// warning, or the scene's error.
pub open spec fn glare_outcome(outcome: Result<OutputModel, ErrorModel>) -> Result<(Seq<char>, Option<Seq<char>>), PipelineErrorModel> {
    match outcome {
        Ok(out) => Ok((out.stdout, None)),
        Err(ErrorModel::NonZeroExit { status_code, stdout, stderr, .. }) if trimmed(stdout).len() > 0 =>
            Ok((stdout, Some(glare_warning(status_code, trimmed(stderr))))),
        Err(e) => Err(PipelineErrorModel::Command(e)),
    }
}

/// How the run moves on when the last action had outcome `ev`.
pub open spec fn advance(c: RunContext, m: RunModel, ev: EventModel) -> RunModel {
    match m.phase {
        PhaseModel::CreatingTemp => match ev {
            EventModel::Done(Ok(_)) => RunModel { phase: PhaseModel::ReportingStart, ..m },
            EventModel::Done(Err(_)) => finish(
                m,
                Err(PipelineErrorModel::Processing("Error creating tmp and output directories."@)),
            ),
            _ => finish(m, Err(unexpected_event())),
        },
        PhaseModel::ReportingStart => match ev {
            EventModel::Done(Ok(_)) => RunModel { phase: PhaseModel::NotifyingStart, ..m },
            EventModel::Done(Err(msg)) => finish(m, Err(progress_failure(msg))),
            _ => finish(m, Err(unexpected_event())),
        },
        PhaseModel::NotifyingStart => match ev {
            EventModel::Done(Ok(_)) => after_start(c, m),
            EventModel::Done(Err(msg)) => finish(m, Err(status_failure(msg))),
            _ => finish(m, Err(unexpected_event())),
        },
        PhaseModel::CreatingSceneDir => match ev {
            EventModel::Done(Ok(_)) => RunModel { phase: PhaseModel::ListingDir, ..m },
            EventModel::Done(Err(_)) => finish(
                m,
                Err(
                    PipelineErrorModel::Processing(
                        "Error creating directories for outputs in temp directory."@,
                    ),
                ),
            ),
            _ => finish(m, Err(unexpected_event())),
        },
        PhaseModel::ListingDir => match ev {
            EventModel::Listed(Ok(entries)) => if supported_entries(entries).len() == 0 {
                finish(
                    m,
                    Err(
                        PipelineErrorModel::InvalidInput {
                            field: "inputImages"@,
                            value: "directory-without-images"@,
                        },
                    ),
                )
            } else {
                begin_scene(c, m, supported_entries(entries))
            },
            EventModel::Listed(Err(_)) => finish(
                m,
                Err(
                    PipelineErrorModel::Processing(
                        "Error reading input directory: "@ + c.inputs[m.dir as int] + "."@,
                    ),
                ),
            ),
            _ => finish(m, Err(unexpected_event())),
        },
        PhaseModel::Announcing => match ev {
            EventModel::Done(Ok(_)) => begin_work(c, m),
            EventModel::Done(Err(msg)) => fail_scene(m, status_failure(msg)),
            _ => finish(m, Err(unexpected_event())),
        },
        PhaseModel::Converting(i) => match ev {
            EventModel::Executed(Ok(_)) => if i + 1 < m.images.len() {
                RunModel { phase: PhaseModel::Converting(i + 1), ..m }
            } else {
                RunModel {
                    phase: PhaseModel::Executing,
                    images: Seq::new(m.images.len(), |k: int| converted_name(m.temp, k as nat)),
                    ..m
                }
            },
            EventModel::Executed(Err(e)) => fail_scene(m, PipelineErrorModel::Command(e)),
            _ => finish(m, Err(unexpected_event())),
        },
        PhaseModel::Filtering => match ev {
            EventModel::Filtered(Ok(v)) => RunModel { phase: PhaseModel::Executing, images: v, ..m },
            EventModel::Filtered(Err(e)) => fail_scene(m, e),
            _ => finish(m, Err(unexpected_event())),
        },
        PhaseModel::Executing => match ev {
            EventModel::Executed(outcome) => if m.plan[m.stage as int] is Evalglare {
                match glare_outcome(outcome) {
                    Ok((value, None)) => after_work(c, RunModel { glare: value, ..m }),
                    Ok((value, Some(w))) => RunModel {
                        phase: PhaseModel::Warning(w),
                        glare: value,
                        ..m
                    },
                    Err(e) => fail_scene(m, e),
                }
            } else {
                match outcome {
                    Ok(_) => after_work(c, m),
                    Err(e) => fail_scene(m, PipelineErrorModel::Command(e)),
                }
            },
            _ => finish(m, Err(unexpected_event())),
        },
        PhaseModel::Warning(_) => match ev {
            EventModel::Done(Ok(_)) => after_work(c, m),
            EventModel::Done(Err(msg)) => fail_scene(m, status_failure(msg)),
            _ => finish(m, Err(unexpected_event())),
        },
        PhaseModel::ReportingProgress => match ev {
            EventModel::Done(Ok(_)) => RunModel { phase: PhaseModel::NotifyingProgress, ..m },
            EventModel::Done(Err(msg)) => fail_scene(m, progress_failure(msg)),
            _ => finish(m, Err(unexpected_event())),
        },
        PhaseModel::NotifyingProgress => match ev {
            EventModel::Done(Ok(_)) => next_stage(c, m),
            EventModel::Done(Err(msg)) => fail_scene(m, status_failure(msg)),
            _ => finish(m, Err(unexpected_event())),
        },
        PhaseModel::Stamping => match ev {
            EventModel::Clock(t) => RunModel {
                phase: PhaseModel::CopyingHdr,
                targets: scene_targets(c, m, t),
                ..m
            },
            _ => finish(m, Err(unexpected_event())),
        },
        PhaseModel::CopyingHdr => match ev {
            EventModel::Done(Ok(_)) => RunModel { phase: PhaseModel::CopyingFalsecolor, ..m },
            EventModel::Done(Err(_)) => finish(
                m,
                Err(PipelineErrorModel::Processing("Error copying final hdr image to output directory."@)),
            ),
            _ => finish(m, Err(unexpected_event())),
        },
        PhaseModel::CopyingFalsecolor => match ev {
            EventModel::Done(Ok(_)) => if c.batch {
                begin_dir(
                    c,
                    RunModel { result_path: joined(c.cfg.output_path@, c.inputs[m.dir as int]), ..m },
                    m.dir + 1,
                )
            } else {
                RunModel { phase: PhaseModel::Completing, result_path: c.cfg.output_path@, ..m }
            },
            EventModel::Done(Err(_)) => finish(
                m,
                Err(
                    PipelineErrorModel::Processing(
                        if c.batch {
                            "Error copying final luminance map hdr image to output directory."@
                        } else {
                            "Error copying final hdr luminance image to output directory."@
                        },
                    ),
                ),
            ),
            _ => finish(m, Err(unexpected_event())),
        },
        PhaseModel::ReportingError(e) => match ev {
            EventModel::Done(Ok(_)) => finish(m, Err(e)),
            EventModel::Done(Err(msg)) => finish(m, Err(status_failure(msg))),
            _ => finish(m, Err(unexpected_event())),
        },
        PhaseModel::Completing => match ev {
            EventModel::Done(Ok(_)) => finish(m, Ok(m.result_path)),
            EventModel::Done(Err(msg)) => finish(m, Err(status_failure(msg))),
            _ => finish(m, Err(unexpected_event())),
        },
        PhaseModel::Finished(_) => m,
    }
}

/// The command that runs the current stage of the scene.
pub open spec fn stage_command_model(c: RunContext, m: RunModel) -> CommandModel {
    let s = m.plan[m.stage as int];
    if s is MergeExposures {
        merge_model(c.cfg, m.images, joined(m.temp, output_name(s)), c.params.response_function@)
    } else {
        stage_model(
            c.cfg,
            c.params,
            s,
            joined(m.temp, chain_input(m.plan, m.stage as int)),
            joined(m.temp, output_name(s)),
            m.glare,
            match c.cfg.search_path {
                Some(x) => x@,
                None => seq![],
            },
        )
    }
}

/// Number of scenes of the run: one per input directory in batch mode,
/// else one.
pub open spec fn scene_count(c: RunContext) -> nat {
    if c.batch { c.inputs.len() } else { 1 }
}

/// Counted stages of the whole run.
pub open spec fn progress_total(c: RunContext) -> nat {
    (COUNTED_STAGES as nat) * scene_count(c)
}

/// Counted stages done so far in the whole run: those of the earlier
/// scenes and those of the current one.
pub open spec fn position(m: RunModel) -> nat {
    m.dir * (COUNTED_STAGES as nat) + m.completed
}

/// Progress of the whole run, in percent.
pub open spec fn progress_now(c: RunContext, m: RunModel) -> nat {
    progress_percent(position(m), progress_total(c))
}

/// The state of a scene: its plan, the stage in range, and in batch mode
/// the directory in range.
pub open spec fn scene_ok(c: RunContext, m: RunModel) -> bool {
    &&& m.plan == stage_plan(c.params)
    &&& m.stage < m.plan.len()
    &&& c.batch ==> m.dir < c.inputs.len()
}

/// What holds of every state that a run reaches.
pub open spec fn run_ok(c: RunContext, m: RunModel) -> bool {
    &&& m.completed <= COUNTED_STAGES
    &&& !c.batch ==> m.dir == 0
    &&& match m.phase {
        PhaseModel::CreatingTemp | PhaseModel::ReportingStart | PhaseModel::NotifyingStart => m.dir
            == 0 && m.completed == 0,
        PhaseModel::CreatingSceneDir | PhaseModel::ListingDir => m.dir < c.inputs.len() && m.completed
            == 0,
        PhaseModel::Announcing => scene_ok(c, m) && m.completed == counted_before(m.plan, m.stage as int),
        PhaseModel::Filtering => scene_ok(c, m) && m.completed == counted_before(m.plan, m.stage as int)
            && m.plan[m.stage as int] is MergeExposures,
        PhaseModel::Converting(i) => scene_ok(c, m) && m.completed == counted_before(
            m.plan,
            m.stage as int,
        ) && i < m.images.len() && m.plan[m.stage as int] is MergeExposures,
        PhaseModel::Executing => scene_ok(c, m) && m.completed == counted_before(m.plan, m.stage as int)
            && (m.plan[m.stage as int] is Falsecolor ==> c.cfg.search_path is Some),
        PhaseModel::Warning(_) => scene_ok(c, m) && m.completed == counted_before(m.plan, m.stage as int)
            && m.plan[m.stage as int] is Evalglare,
        PhaseModel::ReportingProgress | PhaseModel::NotifyingProgress => scene_ok(c, m) && m.completed
            == counted_before(m.plan, m.stage + 1 as int) && is_counted(m.plan[m.stage as int]),
        PhaseModel::Stamping | PhaseModel::CopyingHdr | PhaseModel::CopyingFalsecolor => c.batch ==> m.dir
            < c.inputs.len(),
        _ => true,
    }
}

/// What the run asks for in each phase.
pub open spec fn action_of(c: RunContext, m: RunModel) -> ActionModel {
    match m.phase {
        PhaseModel::CreatingTemp => ActionModel::CreateDir(c.cfg.temp_path@),
        PhaseModel::ReportingStart => ActionModel::ReportProgress(0),
        PhaseModel::NotifyingStart => ActionModel::Notify(StatusModel::Progress(0)),
        PhaseModel::CreatingSceneDir => ActionModel::CreateDir(m.temp),
        PhaseModel::ListingDir => ActionModel::ListDir(c.inputs[m.dir as int]),
        PhaseModel::Announcing => ActionModel::Notify(StatusModel::Step(m.plan[m.stage as int])),
        PhaseModel::Converting(i) => ActionModel::Execute(
            conversion_model(c.cfg.dcraw_emu, m.images[i as int], converted_name(m.temp, i)),
        ),
        PhaseModel::Filtering => ActionModel::FilterExposures(m.images, c.params.geometry),
        PhaseModel::Executing => ActionModel::Execute(stage_command_model(c, m)),
        PhaseModel::Warning(w) => ActionModel::Notify(StatusModel::Warning(w)),
        PhaseModel::ReportingProgress => ActionModel::ReportProgress(progress_now(c, m)),
        PhaseModel::NotifyingProgress => ActionModel::Notify(StatusModel::Progress(progress_now(c, m))),
        PhaseModel::Stamping => ActionModel::ReadClock,
        PhaseModel::CopyingHdr => ActionModel::Copy(joined(m.temp, "header_editing.hdr"@), m.targets.0),
        PhaseModel::CopyingFalsecolor => ActionModel::Copy(
            joined(m.temp, "falsecolor_output.hdr"@),
            m.targets.1,
        ),
        PhaseModel::ReportingError(e) => ActionModel::Notify(StatusModel::Error(e)),
        PhaseModel::Completing => ActionModel::Notify(StatusModel::Done(100)),
        PhaseModel::Finished(r) => ActionModel::Finish(r),
    }
}

/// Progress never falls within a run, batch or not: no step lowers the
/// number of counted stages done over the whole run, so no later progress
/// report is below an earlier one.
#[verifier::rlimit(50)]
pub proof fn lemma_progress_never_falls(c: RunContext, m: RunModel, ev: EventModel)
    requires
        run_ok(c, m),
    ensures
        position(m) <= position(advance(c, m, ev)),
        c.inputs.len() > 0 ==> progress_now(c, m) <= progress_now(c, advance(c, m, ev)),
{
    let n = advance(c, m, ev);
    if c.inputs.len() > 0 {
        let t = progress_total(c);
        assert(t > 0);
        vstd::arithmetic::div_mod::lemma_div_is_ordered(
            (position(m) * 100 + t / 2) as int,
            (position(n) * 100 + t / 2) as int,
            t as int,
        );
    }
}

/// A progress report of a run lies between 0 and 100, and the last one of
/// a run's last scene is 100.
pub proof fn lemma_progress_bounded(c: RunContext, m: RunModel)
    requires
        run_ok(c, m),
        m.phase is ReportingProgress || m.phase is NotifyingProgress,
    ensures
        progress_now(c, m) <= 100,
        position(m) == progress_total(c) ==> progress_now(c, m) == 100,
{
    lemma_counted_stages(c.params, m.stage + 1 as int);
    let t = progress_total(c);
    assert(m.dir < scene_count(c));
    assert(position(m) <= t) by (nonlinear_arith)
        requires
            m.dir < scene_count(c),
            m.completed <= 5,
            position(m) == m.dir * 5 + m.completed,
            t == 5 * scene_count(c),
    ;
    crate::pipeline::lemma_progress_bound(position(m) as int, t as int);
    if position(m) == t {
        assert((t * 100 + t / 2) / t == 100) by (nonlinear_arith)
            requires t > 0;
    }
}

/// In a scene without calibration files whose diameter is at most the
/// threshold, the glare evaluation is the fourth stage, and the command
/// that the run asks for there reads the cropped image directly.
pub proof fn lemma_minimal_scene_evaluates_crop(c: RunContext, m: RunModel)
    requires
        c.params.geometry.diameter <= RESIZE_THRESHOLD,
        c.params.fisheye_correction_cal@.len() == 0,
        c.params.vignetting_correction_cal@.len() == 0,
        c.params.neutral_density_cal@.len() == 0,
        c.params.photometric_adjustment_cal@.len() == 0,
        m.plan == stage_plan(c.params),
        m.stage == 3,
        m.phase is Executing,
    ensures
        m.plan[3] is Evalglare,
        action_of(c, m) == ActionModel::Execute(
            evalglare_model(
                c.cfg,
                joined(m.temp, "crop.hdr"@),
                c.params.vertical_angle,
                c.params.horizontal_angle,
            ),
        ),
{
    lemma_minimal_plan(c.params);
}

/// The view of a run's result.
pub open spec fn result_view(r: Result<String, PipelineError>) -> Result<Seq<char>, PipelineErrorModel> {
    match r {
        Ok(p) => Ok(p@),
        Err(e) => Err(e@),
    }
}

/// How a run starts: with an empty input list it fails at once; otherwise
/// it first creates its temporary directory.
pub open spec fn initial(c: RunContext) -> RunModel {
    RunModel {
        phase: if c.inputs.len() == 0 {
            PhaseModel::Finished(
                Err(PipelineErrorModel::InvalidInput { field: "inputImages"@, value: "empty"@ }),
            )
        } else {
            PhaseModel::CreatingTemp
        },
        dir: 0,
        temp: c.cfg.temp_path@,
        plan: seq![],
        stage: 0,
        images: seq![],
        glare: seq![],
        completed: 0,
        targets: (seq![], seq![]),
        result_path: seq![],
    }
}

fn copy_command_error(e: &CommandError) -> (r: CommandError)
    ensures
        r@ == e@,
{
    match e {
        CommandError::Io { operation, path, message } => CommandError::Io {
            operation: operation.clone(),
            path: path.clone(),
            message: message.clone(),
        },
        CommandError::Spawn { program, args, message } => CommandError::Spawn {
            program: program.clone(),
            args: args.clone(),
            message: message.clone(),
        },
        CommandError::NonZeroExit { program, args, status_code, stdout, stderr } =>
            CommandError::NonZeroExit {
            program: program.clone(),
            args: args.clone(),
            status_code: *status_code,
            stdout: stdout.clone(),
            stderr: stderr.clone(),
        },
    }
}

/// A copy of `e` with the same view.
pub fn copy_error(e: &PipelineError) -> (r: PipelineError)
    ensures
        r@ == e@,
{
    match e {
        PipelineError::Command { error } => PipelineError::Command { error: copy_command_error(error) },
        PipelineError::InvalidInput { field, value } => PipelineError::InvalidInput {
            field: field.clone(),
            value: value.clone(),
        },
        PipelineError::Processing { message } => PipelineError::Processing { message: message.clone() },
        PipelineError::Event { message } => PipelineError::Event { message: message.clone() },
    }
}

fn processing(message: &str) -> (e: PipelineError)
    ensures
        e@ == PipelineErrorModel::Processing(message@),
{
    PipelineError::Processing { message: String::from_str(message) }
}

fn event_failure(prefix: &str, message: &String) -> (e: PipelineError)
    ensures
        e@ == PipelineErrorModel::Event(prefix@ + message@),
{
    PipelineError::Event { message: concat(prefix, message.as_str()) }
}

/// A pipeline run in progress.
pub struct PipelineRun {
    cfg: ConfigSettings,
    params: SceneParams,
    inputs: Vec<String>,
    batch: bool,
    phase: Phase,
    dir: usize,
    temp: String,
    plan: Vec<Stage>,
    stage: usize,
    images: Vec<String>,
    glare: String,
    completed: u32,
    targets: (String, String),
    result_path: String,
}

impl PipelineRun {
    /// What the run was started with.
    pub closed spec fn context(self) -> RunContext {
        RunContext {
            cfg: self.cfg,
            params: self.params,
            inputs: self.inputs.deep_view(),
            batch: self.batch,
        }
    }

    /// Where the run stands.
    pub closed spec fn model(self) -> RunModel {
        RunModel {
            phase: self.phase@,
            dir: self.dir as nat,
            temp: self.temp@,
            plan: self.plan@,
            stage: self.stage as nat,
            images: self.images.deep_view(),
            glare: self.glare@,
            completed: self.completed as nat,
            targets: (self.targets.0@, self.targets.1@),
            result_path: self.result_path@,
        }
    }

    closed spec fn in_scene(self) -> bool {
        scene_ok(self.context(), self.model())
    }

    #[verifier::type_invariant]
    closed spec fn inv(self) -> bool {
        run_ok(self.context(), self.model())
    }

    /// Starts a run over `inputs`: image paths, or directory paths in batch
    /// mode. `cfg.temp_path` is the temporary directory of the run.
    pub fn start(cfg: ConfigSettings, params: SceneParams, inputs: Vec<String>, batch: bool) -> (r: (
        PipelineRun,
        RunAction,
    ))
        ensures
            r.0.context() == (RunContext { cfg, params, inputs: inputs.deep_view(), batch }),
            r.0.model() == initial(r.0.context()),
            r.1@ == action_of(r.0.context(), r.0.model()),
            run_ok(r.0.context(), r.0.model()),
    {
        let phase = if inputs.len() == 0 {
            Phase::Finished(
                Err(
                    PipelineError::InvalidInput {
                        field: String::from_str("inputImages"),
                        value: String::from_str("empty"),
                    },
                ),
            )
        } else {
            Phase::CreatingTemp
        };
        let temp = cfg.temp_path.clone();
        let run = PipelineRun {
            cfg,
            params,
            inputs,
            batch,
            phase,
            dir: 0,
            temp,
            plan: Vec::new(),
            stage: 0,
            images: Vec::new(),
            glare: String::new(),
            completed: 0,
            targets: (String::new(), String::new()),
            result_path: String::new(),
        };
        assert(run.model().plan =~= seq![]);
        assert(run.model().images =~= seq![]);
        let a = run.action();
        (run, a)
    }

    /// What the run asks for now.
    pub fn action(&self) -> (a: RunAction)
        ensures
            a@ == action_of(self.context(), self.model()),
    {
        proof {
            use_type_invariant(self);
        }
        match &self.phase {
            Phase::CreatingTemp => RunAction::CreateDir(self.cfg.temp_path.clone()),
            Phase::ReportingStart => RunAction::ReportProgress(0),
            Phase::NotifyingStart => RunAction::Notify(StatusEvent::Progress(0)),
            Phase::CreatingSceneDir => RunAction::CreateDir(self.temp.clone()),
            Phase::ListingDir => RunAction::ListDir(self.inputs[self.dir].clone()),
            Phase::Announcing => RunAction::Notify(StatusEvent::Step(self.plan[self.stage])),
            Phase::Converting(i) => {
                let len = self.images.len();
                assert(*i < len);
                let n = decimal_text((*i + 1) as u64);
                let name = concat("input", n.as_str()).concat(".tiff");
                let output = join_path(self.temp.as_str(), name.as_str());
                RunAction::Execute(
                    conversion_command(&self.cfg.dcraw_emu, self.images[*i].as_str(), output.as_str()),
                )
            },
            Phase::Filtering => RunAction::FilterExposures {
                images: self.images.clone(),
                geometry: self.params.geometry,
            },
            Phase::Executing => RunAction::Execute(self.stage_spec()),
            Phase::Warning(w) => RunAction::Notify(StatusEvent::Warning(w.clone())),
            Phase::ReportingProgress => RunAction::ReportProgress(self.progress()),
            Phase::NotifyingProgress => RunAction::Notify(StatusEvent::Progress(self.progress())),
            Phase::Stamping => RunAction::ReadClock,
            Phase::CopyingHdr => RunAction::Copy {
                from: join_path(self.temp.as_str(), "header_editing.hdr"),
                to: self.targets.0.clone(),
            },
            Phase::CopyingFalsecolor => RunAction::Copy {
                from: join_path(self.temp.as_str(), "falsecolor_output.hdr"),
                to: self.targets.1.clone(),
            },
            Phase::ReportingError(e) => RunAction::Notify(StatusEvent::Error(copy_error(e))),
            Phase::Completing => RunAction::Notify(StatusEvent::Done(100)),
            Phase::Finished(Ok(p)) => RunAction::Finish(Ok(p.clone())),
            Phase::Finished(Err(e)) => RunAction::Finish(Err(copy_error(e))),
        }
    }

    /// Moves the run on after the outcome `ev` of its last action, and
    /// returns what it asks for next.
    pub fn step(self, ev: HostEvent) -> (r: (PipelineRun, RunAction))
        ensures
            r.0.context() == self.context(),
            r.0.model() == advance(self.context(), self.model(), ev@),
            r.1@ == action_of(r.0.context(), r.0.model()),
            run_ok(r.0.context(), r.0.model()),
    {
        let next = self.advance_exec(ev);
        proof {
            use_type_invariant(&next);
        }
        let a = next.action();
        (next, a)
    }

    fn finish_with(self, r: Result<String, PipelineError>) -> (n: Self)
        ensures
            n.context() == self.context(),
            n.model() == finish(self.model(), result_view(r)),
    {
        proof {
            use_type_invariant(&self);
        }
        PipelineRun { phase: Phase::Finished(r), ..self }
    }

    fn unexpected(self) -> (n: Self)
        ensures
            n.context() == self.context(),
            n.model() == finish(self.model(), Err(unexpected_event())),
    {
        self.finish_with(Err(processing("unexpected answer to the last action")))
    }

    fn fail_with(self, e: PipelineError) -> (n: Self)
        ensures
            n.context() == self.context(),
            n.model() == fail_scene(self.model(), e@),
    {
        proof {
            use_type_invariant(&self);
        }
        PipelineRun { phase: Phase::ReportingError(e), ..self }
    }

    fn begin_scene_exec(self, images: Vec<String>) -> (n: Self)
        requires
            self.batch ==> self.dir < self.inputs@.len(),
        ensures
            n.context() == self.context(),
            n.model() == begin_scene(self.context(), self.model(), images.deep_view()),
    {
        proof {
            use_type_invariant(&self);
        }
        let plan = stage_plan_of(&self.params);
        PipelineRun {
            phase: Phase::Announcing,
            plan,
            stage: 0,
            images,
            glare: String::new(),
            completed: 0,
            ..self
        }
    }

    fn begin_dir_exec(self, i: usize) -> (n: Self)
        requires
            self.batch,
        ensures
            n.context() == self.context(),
            n.model() == begin_dir(self.context(), self.model(), i as nat),
    {
        proof {
            use_type_invariant(&self);
        }
        if i < self.inputs.len() {
            let temp = join_path(self.cfg.temp_path.as_str(), base_name_of(self.inputs[i].as_str()).as_str());
            PipelineRun { phase: Phase::CreatingSceneDir, dir: i, temp, completed: 0, ..self }
        } else {
            PipelineRun { phase: Phase::Completing, ..self }
        }
    }

    fn after_start_exec(self) -> (n: Self)
        ensures
            n.context() == self.context(),
            n.model() == after_start(self.context(), self.model()),
    {
        proof {
            use_type_invariant(&self);
        }
        if self.batch {
            return self.begin_dir_exec(0);
        }
        let mut k: usize = 0;
        while k < self.inputs.len()
            invariant
                !self.batch,
                k <= self.inputs@.len(),
                forall|j: int| 0 <= j < k ==> supported_path(#[trigger] self.inputs.deep_view()[j]),
            decreases self.inputs.len() - k,
        {
            if !is_supported_format(self.inputs[k].as_str()) {
                assert(self.inputs.deep_view()[k as int] == self.inputs@[k as int]@);
                assert(!supported_path(self.inputs.deep_view()[k as int]));
                return self.finish_with(
                    Err(
                        PipelineError::InvalidInput {
                            field: String::from_str("inputImages"),
                            value: String::from_str("unsupported-format"),
                        },
                    ),
                );
            }
            k = k + 1;
        }
        let images = self.inputs.clone();
        self.begin_scene_exec(images)
    }

    fn begin_work_exec(self) -> (n: Self)
        requires
            self.phase is Announcing,
        ensures
            n.context() == self.context(),
            n.model() == begin_work(self.context(), self.model()),
    {
        proof {
            use_type_invariant(&self);
        }
        let s = self.plan[self.stage];
        if s == Stage::MergeExposures {
            if self.images.len() > 0 && is_raw(self.images[0].as_str()) {
                PipelineRun { phase: Phase::Converting(0), ..self }
            } else if self.images.len() > 0 && self.params.filter_images && is_jpeg(
                self.images[0].as_str(),
            ) {
                PipelineRun { phase: Phase::Filtering, ..self }
            } else {
                PipelineRun { phase: Phase::Executing, ..self }
            }
        } else if s == Stage::Falsecolor && self.cfg.search_path.is_none() {
            self.fail_with(processing("falsecolor: PATH environment variable unavailable"))
        } else {
            PipelineRun { phase: Phase::Executing, ..self }
        }
    }

    fn next_stage_exec(self) -> (r: Self)
        requires
            self.in_scene(),
            self.completed == counted_before(self.plan@, self.stage + 1),
        ensures
            r.context() == self.context(),
            r.model() == next_stage(self.context(), self.model()),
    {
        proof {
            use_type_invariant(&self);
        }
        proof {
            lemma_counted_stages(self.params, self.stage + 1);
        }
        if self.stage + 1 < self.plan.len() {
            PipelineRun { phase: Phase::Announcing, stage: self.stage + 1, ..self }
        } else {
            PipelineRun { phase: Phase::Stamping, ..self }
        }
    }

    fn after_work_exec(self) -> (r: Self)
        requires
            self.in_scene(),
            self.completed == counted_before(self.plan@, self.stage as int),
        ensures
            r.context() == self.context(),
            r.model() == after_work(self.context(), self.model()),
    {
        proof {
            use_type_invariant(&self);
        }
        proof {
            lemma_counted_stages(self.params, self.stage + 1);
        }
        if is_counted_stage(self.plan[self.stage]) {
            let c = self.completed + 1;
            PipelineRun { phase: Phase::ReportingProgress, completed: c, ..self }
        } else {
            self.next_stage_exec()
        }
    }

    fn converted_names(&self) -> (r: Vec<String>)
        ensures
            r.deep_view() == Seq::new(self.images@.len(), |k: int| converted_name(self.temp@, k as nat)),
    {
        let n = self.images.len();
        let mut r: Vec<String> = Vec::new();
        let mut k: usize = 0;
        while k < n
            invariant
                k <= n,
                n == self.images@.len(),
                r.deep_view() == Seq::new(k as nat, |j: int| converted_name(self.temp@, j as nat)),
            decreases n - k,
        {
            let d = decimal_text((k + 1) as u64);
            let name = concat("input", d.as_str()).concat(".tiff");
            let ghost before = r.deep_view();
            let item = join_path(self.temp.as_str(), name.as_str());
            assert(item@ == converted_name(self.temp@, k as nat));
            r.push(item);
            assert(r.deep_view() =~= before.push(converted_name(self.temp@, k as nat)));
            assert(r.deep_view() =~= Seq::new((k + 1) as nat, |j: int| converted_name(self.temp@, j as nat)));
            k = k + 1;
        }
        r
    }

    fn advance_exec(self, ev: HostEvent) -> (r: Self)
        ensures
            r.context() == self.context(),
            r.model() == advance(self.context(), self.model(), ev@),
    {
        match &self.phase {
            Phase::CreatingTemp | Phase::ReportingStart | Phase::NotifyingStart
            | Phase::CreatingSceneDir | Phase::ListingDir => self.advance_setup(ev),
            Phase::Announcing | Phase::Converting(_) | Phase::Filtering | Phase::Executing
            | Phase::Warning(_) | Phase::ReportingProgress | Phase::NotifyingProgress => self.advance_scene(ev),
            _ => self.advance_wrap_up(ev),
        }
    }

    #[verifier::rlimit(50)]
    fn advance_setup(self, ev: HostEvent) -> (r: Self)
        requires
            self.phase is CreatingTemp || self.phase is ReportingStart || self.phase is NotifyingStart
                || self.phase is CreatingSceneDir || self.phase is ListingDir,
        ensures
            r.context() == self.context(),
            r.model() == advance(self.context(), self.model(), ev@),
    {
        proof {
            use_type_invariant(&self);
        }
        match &self.phase {
            Phase::CreatingTemp => match ev {
                HostEvent::Done(Ok(())) => PipelineRun { phase: Phase::ReportingStart, ..self },
                HostEvent::Done(Err(_)) => self.finish_with(Err(processing("Error creating tmp and output directories."))),
                _ => self.unexpected(),
            },
            Phase::ReportingStart => match ev {
                HostEvent::Done(Ok(())) => PipelineRun { phase: Phase::NotifyingStart, ..self },
                HostEvent::Done(Err(m)) => self.finish_with(Err(event_failure("Failed to emit progress event: ", &m))),
                _ => self.unexpected(),
            },
            Phase::NotifyingStart => match ev {
                HostEvent::Done(Ok(())) => self.after_start_exec(),
                HostEvent::Done(Err(m)) => self.finish_with(Err(event_failure("Failed to emit status event: ", &m))),
                _ => self.unexpected(),
            },
            Phase::CreatingSceneDir => match ev {
                HostEvent::Done(Ok(())) => PipelineRun { phase: Phase::ListingDir, ..self },
                HostEvent::Done(Err(_)) => self.finish_with(
                        Err(processing("Error creating directories for outputs in temp directory.")),
                    ),
                _ => self.unexpected(),
            },
            Phase::ListingDir => match ev {
                HostEvent::Listed(Ok(entries)) => {
                    let images = supported_images(&entries);
                    if images.len() == 0 {
                        self.finish_with(
                                Err(
                                    PipelineError::InvalidInput {
                                        field: String::from_str("inputImages"),
                                        value: String::from_str("directory-without-images"),
                                    },
                                ),
                            )
                    } else {
                        self.begin_scene_exec(images)
                    }
                },
                HostEvent::Listed(Err(_)) => {
                    assert(self.inputs.deep_view()[self.dir as int] == self.inputs@[self.dir as int]@);
                    let message = concat("Error reading input directory: ", self.inputs[self.dir].as_str()).concat(".");
                    self.finish_with(Err(PipelineError::Processing { message }))
                },
                _ => self.unexpected(),
            },
            _ => {
                proof {
                    assert(false);
                }
                self
            },
        }
    }

    #[verifier::rlimit(50)]
    fn advance_scene(self, ev: HostEvent) -> (r: Self)
        requires
            self.phase is Announcing || self.phase is Converting || self.phase is Filtering
                || self.phase is Executing || self.phase is Warning || self.phase is ReportingProgress
                || self.phase is NotifyingProgress,
        ensures
            r.context() == self.context(),
            r.model() == advance(self.context(), self.model(), ev@),
    {
        proof {
            use_type_invariant(&self);
        }
        match &self.phase {
            Phase::Announcing => match ev {
                HostEvent::Done(Ok(())) => self.begin_work_exec(),
                HostEvent::Done(Err(m)) => self.fail_with(event_failure("Failed to emit status event: ", &m)),
                _ => self.unexpected(),
            },
            Phase::Converting(i) => {
                let i = *i;
                let len = self.images.len();
                match ev {
                    HostEvent::Executed(Ok(_)) => {
                        if i + 1 < len {
                            PipelineRun { phase: Phase::Converting(i + 1), ..self }
                        } else {
                            let images = self.converted_names();
                            PipelineRun { phase: Phase::Executing, images, ..self }
                        }
                    },
                    HostEvent::Executed(Err(e)) => self.fail_with(PipelineError::Command { error: e }),
                    _ => self.unexpected(),
                }
            },
            Phase::Filtering => match ev {
                HostEvent::Filtered(Ok(images)) => PipelineRun { phase: Phase::Executing, images, ..self },
                HostEvent::Filtered(Err(e)) => self.fail_with(e),
                _ => self.unexpected(),
            },
            Phase::Executing => match ev {
                HostEvent::Executed(outcome) => {
                    if self.plan[self.stage] == Stage::Evalglare {
                        match evalglare_result(outcome) {
                            Ok(g) => match g.warning {
                                None => {
                                    let run = PipelineRun { glare: g.value, ..self };
                                    run.after_work_exec()
                                },
                                Some(w) => PipelineRun { phase: Phase::Warning(w), glare: g.value, ..self },
                            },
                            Err(e) => self.fail_with(e),
                        }
                    } else {
                        match outcome {
                            Ok(_) => self.after_work_exec(),
                            Err(e) => self.fail_with(PipelineError::Command { error: e }),
                        }
                    }
                },
                _ => self.unexpected(),
            },
            Phase::Warning(_) => match ev {
                HostEvent::Done(Ok(())) => self.after_work_exec(),
                HostEvent::Done(Err(m)) => self.fail_with(event_failure("Failed to emit status event: ", &m)),
                _ => self.unexpected(),
            },
            Phase::ReportingProgress => match ev {
                HostEvent::Done(Ok(())) => PipelineRun { phase: Phase::NotifyingProgress, ..self },
                HostEvent::Done(Err(m)) => self.fail_with(event_failure("Failed to emit progress event: ", &m)),
                _ => self.unexpected(),
            },
            Phase::NotifyingProgress => match ev {
                HostEvent::Done(Ok(())) => self.next_stage_exec(),
                HostEvent::Done(Err(m)) => self.fail_with(event_failure("Failed to emit status event: ", &m)),
                _ => self.unexpected(),
            },
            _ => {
                proof {
                    assert(false);
                }
                self
            },
        }
    }

    #[verifier::rlimit(50)]
    fn advance_wrap_up(self, ev: HostEvent) -> (r: Self)
        requires
            self.phase is Stamping || self.phase is CopyingHdr || self.phase is CopyingFalsecolor
                || self.phase is ReportingError
                || self.phase is Completing || self.phase is Finished,
        ensures
            r.context() == self.context(),
            r.model() == advance(self.context(), self.model(), ev@),
    {
        proof {
            use_type_invariant(&self);
        }
        match &self.phase {
            Phase::Stamping => match ev {
                HostEvent::Clock(t) => {
                    let names = if self.batch {
                        let base = base_name_of(self.inputs[self.dir].as_str());
                        output_file_names(self.cfg.output_path.as_str(), Some(base.as_str()), t)
                    } else {
                        output_file_names(self.cfg.output_path.as_str(), None, t)
                    };
                    PipelineRun { phase: Phase::CopyingHdr, targets: names, ..self }
                },
                _ => self.unexpected(),
            },
            Phase::CopyingHdr => match ev {
                HostEvent::Done(Ok(())) => PipelineRun { phase: Phase::CopyingFalsecolor, ..self },
                HostEvent::Done(Err(_)) => self.finish_with(Err(processing("Error copying final hdr image to output directory."))),
                _ => self.unexpected(),
            },
            Phase::CopyingFalsecolor => match ev {
                HostEvent::Done(Ok(())) => {
                    let count = self.inputs.len();
                    if self.batch {
                        assert(self.dir < count);
                        let result_path = join_path(self.cfg.output_path.as_str(), self.inputs[self.dir].as_str());
                        let next = self.dir + 1;
                        let run = PipelineRun { result_path, ..self };
                        run.begin_dir_exec(next)
                    } else {
                        let result_path = self.cfg.output_path.clone();
                        PipelineRun { phase: Phase::Completing, result_path, ..self }
                    }
                },
                HostEvent::Done(Err(_)) => {
                    let e = if self.batch {
                        processing("Error copying final luminance map hdr image to output directory.")
                    } else {
                        processing("Error copying final hdr luminance image to output directory.")
                    };
                    self.finish_with(Err(e))
                },
                _ => self.unexpected(),
            },
            Phase::ReportingError(e) => {
                let e = copy_error(e);
                match ev {
                    HostEvent::Done(Ok(())) => self.finish_with(Err(e)),
                    HostEvent::Done(Err(m)) => self.finish_with(Err(event_failure("Failed to emit status event: ", &m))),
                    _ => self.unexpected(),
                }
            },
            Phase::Completing => match ev {
                HostEvent::Done(Ok(())) => {
                    let p = self.result_path.clone();
                    self.finish_with(Ok(p))
                },
                HostEvent::Done(Err(m)) => self.finish_with(Err(event_failure("Failed to emit status event: ", &m))),
                _ => self.unexpected(),
            },
            Phase::Finished(_) => self,
            _ => {
                proof {
                    assert(false);
                }
                self
            },
        }
    }

    fn progress(&self) -> (r: u32)
        requires
            self.phase is ReportingProgress || self.phase is NotifyingProgress,
        ensures
            r as nat == progress_now(self.context(), self.model()),
    {
        proof {
            use_type_invariant(self);
            lemma_counted_stages(self.params, self.stage + 1);
        }
        let scenes: usize = if self.batch { self.inputs.len() } else { 1 };
        assert(self.dir < scenes);
        assert((self.dir as u128) * 5 + self.completed as u128 <= 5 * (scenes as u128)) by (nonlinear_arith)
            requires self.dir < scenes, self.completed <= 5;
        progress_of((self.dir as u128) * 5 + self.completed as u128, 5 * (scenes as u128))
    }

    fn stage_spec(&self) -> (r: CommandSpec)
        requires
            self.phase is Executing,
        ensures
            r@ == stage_command_model(self.context(), self.model()),
    {
        proof {
            use_type_invariant(self);
        }
        let s = self.plan[self.stage];
        if s == Stage::MergeExposures {
            let output = join_path(self.temp.as_str(), "merge_exposures.hdr");
            merge_exposures(&self.cfg, &self.images, self.params.response_function.as_str(), output.as_str())
        } else {
            let input = join_path(self.temp.as_str(), self.chain_input_name());
            let output = join_path(self.temp.as_str(), output_name_of(s));
            match stage_command(&self.cfg, &self.params, s, input.as_str(), output.as_str(), self.glare.as_str()) {
                Ok(spec) => spec,
                Err(_) => {
                    proof {
                        assert(false);
                    }
                    CommandSpec::new("")
                },
            }
        }
    }

    fn chain_input_name(&self) -> (r: &'static str)
        requires
            self.stage <= self.plan@.len(),
        ensures
            r@ == chain_input(self.plan@, self.stage as int),
    {
        let mut k: usize = self.stage;
        while k > 0 && self.plan[k - 1] == Stage::Evalglare
            invariant
                k <= self.stage <= self.plan@.len(),
                chain_input(self.plan@, self.stage as int) == chain_input(self.plan@, k as int),
            decreases k,
        {
            k = k - 1;
        }
        if k == 0 {
            proof {
                reveal_strlit("");
            }
            ""
        } else {
            output_name_of(self.plan[k - 1])
        }
    }
}

/// Whether progress is reported after stage `s`.
pub fn is_counted_stage(s: Stage) -> (r: bool)
    ensures
        r == is_counted(s),
{
    match s {
        Stage::MergeExposures | Stage::NullifyExposure | Stage::Crop | Stage::Evalglare
        | Stage::HeaderEditing => true,
        _ => false,
    }
}

/// The file a stage writes, as [`output_name`] says.
pub fn output_name_of(s: Stage) -> (r: &'static str)
    ensures
        r@ == output_name(s),
{
    proof {
        reveal_strlit("");
    }
    match s {
        Stage::MergeExposures => "merge_exposures.hdr",
        Stage::NullifyExposure => "nullify_exposure_value.hdr",
        Stage::Crop => "crop.hdr",
        Stage::Resize => "resize.hdr",
        Stage::ProjectionAdjustment => "projection_adjustment.hdr",
        Stage::VignettingCorrection => "vignetting_correction.hdr",
        Stage::NeutralDensity => "neutral_density.hdr",
        Stage::PhotometricAdjustment => "photometric_adjustment.hdr",
        Stage::Evalglare => "",
        Stage::HeaderEditing => "header_editing.hdr",
        Stage::Falsecolor => "falsecolor_output.hdr",
    }
}

} // verus!
