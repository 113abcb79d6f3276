//! The build pipeline: the directory layout of one run, the strict sequence
//! of its stages, and the state machine that moves from stage to stage as
//! the caller reports each task done or failed.

use crate::error::PatcherError;
use crate::paths::{join_path, join_spec, lemma_below, lies_below};
use vstd::prelude::*;

verus! {

/// The directory layout of one run. Everything lies below the directory of
/// the version, which a run deletes and creates anew when it starts, so
/// that a run does not depend on what an earlier one left behind. Two runs
/// over the same output root and version must not overlap in time.
#[derive(Debug)]
pub struct PipelineContext {
    /// The directory of the version, below the output root.
    pub build_dir: String,
    /// The directory for what does not outlive the run.
    pub temp_dir: String,
    /// Where the installer is downloaded to.
    pub installer_path: String,
    /// Where the installer is unpacked.
    pub extracted_dir: String,
    /// Where the packed resource archive is expected after unpacking.
    pub archive_path: String,
    /// Where the application's icon is expected after unpacking.
    pub icon_source: String,
    /// Where the icon is kept.
    pub icon_target: String,
    /// The pristine source tree.
    pub source_dir: String,
    /// The working tree that receives the patches.
    pub modded_dir: String,
}

/// The mathematical value of a [`PipelineContext`].
pub struct ContextView {
    pub build_dir: Seq<char>,
    pub temp_dir: Seq<char>,
    pub installer_path: Seq<char>,
    pub extracted_dir: Seq<char>,
    pub archive_path: Seq<char>,
    pub icon_source: Seq<char>,
    pub icon_target: Seq<char>,
    pub source_dir: Seq<char>,
    pub modded_dir: Seq<char>,
}

impl View for PipelineContext {
    type V = ContextView;

    open spec fn view(&self) -> ContextView {
        ContextView {
            build_dir: self.build_dir@,
            temp_dir: self.temp_dir@,
            installer_path: self.installer_path@,
            extracted_dir: self.extracted_dir@,
            archive_path: self.archive_path@,
            icon_source: self.icon_source@,
            icon_target: self.icon_target@,
            source_dir: self.source_dir@,
            modded_dir: self.modded_dir@,
        }
    }
}

/// The layout for a version below an output root.
pub open spec fn layout_spec(output_root: Seq<char>, version: Seq<char>) -> ContextView {
    let build_dir = join_spec(output_root, version);
    ContextView {
        build_dir,
        temp_dir: build_dir + "/temp"@,
        installer_path: build_dir + "/temp/build.exe"@,
        extracted_dir: build_dir + "/temp/extracted"@,
        archive_path: build_dir + "/temp/extracted/resources/app.asar"@,
        icon_source: build_dir + "/temp/extracted/resources/assets/icon.ico"@,
        icon_target: build_dir + "/icon.ico"@,
        source_dir: build_dir + "/src"@,
        modded_dir: build_dir + "/mod"@,
    }
}

impl PipelineContext {
    /// The layout for a version below an output root. A version without a
    /// name has no directory of its own and is refused as invalid build
    /// information.
    pub fn new(output_root: &str, version: &str) -> (r: Result<PipelineContext, PatcherError>)
        ensures
            match r {
                Ok(context) => version@.len() > 0 && context@ == layout_spec(
                    output_root@,
                    version@,
                ),
                Err(e) => version@.len() == 0 && e is InvalidBuildInfo && e.detail_spec()
                    == "the build has no version"@,
            },
    {
        if version.unicode_len() == 0 {
            return Err(PatcherError::InvalidBuildInfo("the build has no version".to_owned()));
        }
        let build_dir = join_path(output_root, version);
        let base = build_dir.as_str();
        Ok(
            PipelineContext {
                temp_dir: base.to_owned().concat("/temp"),
                installer_path: base.to_owned().concat("/temp/build.exe"),
                extracted_dir: base.to_owned().concat("/temp/extracted"),
                archive_path: base.to_owned().concat("/temp/extracted/resources/app.asar"),
                icon_source: base.to_owned().concat("/temp/extracted/resources/assets/icon.ico"),
                icon_target: base.to_owned().concat("/icon.ico"),
                source_dir: base.to_owned().concat("/src"),
                modded_dir: base.to_owned().concat("/mod"),
                build_dir,
            },
        )
    }
}

/// Every path of a layout lies below the directory of the version, and
/// what does not outlive the run lies below the temporary directory.
pub proof fn lemma_layout_nested(output_root: Seq<char>, version: Seq<char>)
    ensures
        ({
            let c = layout_spec(output_root, version);
            &&& lies_below(c.temp_dir, c.build_dir)
            &&& lies_below(c.installer_path, c.build_dir)
            &&& lies_below(c.extracted_dir, c.build_dir)
            &&& lies_below(c.archive_path, c.build_dir)
            &&& lies_below(c.icon_source, c.build_dir)
            &&& lies_below(c.icon_target, c.build_dir)
            &&& lies_below(c.source_dir, c.build_dir)
            &&& lies_below(c.modded_dir, c.build_dir)
            &&& lies_below(c.installer_path, c.temp_dir)
            &&& lies_below(c.extracted_dir, c.temp_dir)
            &&& lies_below(c.archive_path, c.temp_dir)
            &&& lies_below(c.icon_source, c.temp_dir)
            &&& !lies_below(c.source_dir, c.temp_dir)
            &&& !lies_below(c.modded_dir, c.temp_dir)
        }),
{
    let c = layout_spec(output_root, version);
    let b = c.build_dir;
    reveal_strlit("/");
    reveal_strlit("/temp");
    reveal_strlit("/temp/build.exe");
    reveal_strlit("/temp/extracted");
    reveal_strlit("/temp/extracted/resources/app.asar");
    reveal_strlit("/temp/extracted/resources/assets/icon.ico");
    reveal_strlit("/icon.ico");
    reveal_strlit("/src");
    reveal_strlit("/mod");
    reveal_strlit("temp");
    reveal_strlit("temp/build.exe");
    reveal_strlit("temp/extracted");
    reveal_strlit("temp/extracted/resources/app.asar");
    reveal_strlit("temp/extracted/resources/assets/icon.ico");
    reveal_strlit("icon.ico");
    reveal_strlit("src");
    reveal_strlit("mod");
    reveal_strlit("build.exe");
    reveal_strlit("extracted");
    reveal_strlit("extracted/resources/app.asar");
    reveal_strlit("extracted/resources/assets/icon.ico");
    assert("/temp"@ =~= "/"@ + "temp"@);
    assert("/temp/build.exe"@ =~= "/"@ + "temp/build.exe"@);
    assert("/temp/extracted"@ =~= "/"@ + "temp/extracted"@);
    assert("/temp/extracted/resources/app.asar"@ =~= "/"@ + "temp/extracted/resources/app.asar"@);
    assert("/temp/extracted/resources/assets/icon.ico"@ =~= "/"@
        + "temp/extracted/resources/assets/icon.ico"@);
    assert("/icon.ico"@ =~= "/"@ + "icon.ico"@);
    assert("/src"@ =~= "/"@ + "src"@);
    assert("/mod"@ =~= "/"@ + "mod"@);
    lemma_below(b, "/temp"@, "temp"@);
    lemma_below(b, "/temp/build.exe"@, "temp/build.exe"@);
    lemma_below(b, "/temp/extracted"@, "temp/extracted"@);
    lemma_below(b, "/temp/extracted/resources/app.asar"@, "temp/extracted/resources/app.asar"@);
    lemma_below(
        b,
        "/temp/extracted/resources/assets/icon.ico"@,
        "temp/extracted/resources/assets/icon.ico"@,
    );
    lemma_below(b, "/icon.ico"@, "icon.ico"@);
    lemma_below(b, "/src"@, "src"@);
    lemma_below(b, "/mod"@, "mod"@);
    let t = c.temp_dir;
    assert(c.installer_path =~= t + ("/"@ + "build.exe"@));
    assert(c.extracted_dir =~= t + ("/"@ + "extracted"@));
    assert(c.archive_path =~= t + ("/"@ + "extracted/resources/app.asar"@));
    assert(c.icon_source =~= t + ("/"@ + "extracted/resources/assets/icon.ico"@));
    lemma_below(t, "/"@ + "build.exe"@, "build.exe"@);
    lemma_below(t, "/"@ + "extracted"@, "extracted"@);
    lemma_below(t, "/"@ + "extracted/resources/app.asar"@, "extracted/resources/app.asar"@);
    lemma_below(
        t,
        "/"@ + "extracted/resources/assets/icon.ico"@,
        "extracted/resources/assets/icon.ico"@,
    );
    assert(c.source_dir.len() < t.len() + 1);
    assert(c.modded_dir.len() < t.len() + 1);
}

/// The stages of a run, in their order.
#[derive(Clone, Copy, Debug, PartialEq, Eq, Structural)]
pub enum Stage {
    Init,
    DirectoriesPrepared,
    Downloaded,
    InstallerExtracted,
    ResourceArchiveLocated,
    ResourceArchiveExtracted,
    TempCleaned,
    SourceCopied,
    PatchesApplied,
    AssetsInjected,
    TreeRewritten,
    Done,
}

/// The position of a stage in the sequence.
pub open spec fn stage_index(stage: Stage) -> int {
    match stage {
        Stage::Init => 0,
        Stage::DirectoriesPrepared => 1,
        Stage::Downloaded => 2,
        Stage::InstallerExtracted => 3,
        Stage::ResourceArchiveLocated => 4,
        Stage::ResourceArchiveExtracted => 5,
        Stage::TempCleaned => 6,
        Stage::SourceCopied => 7,
        Stage::PatchesApplied => 8,
        Stage::AssetsInjected => 9,
        Stage::TreeRewritten => 10,
        Stage::Done => 11,
    }
}

/// The stage that follows, if the run is not done.
pub open spec fn next_stage_spec(stage: Stage) -> Option<Stage> {
    match stage {
        Stage::Init => Some(Stage::DirectoriesPrepared),
        Stage::DirectoriesPrepared => Some(Stage::Downloaded),
        Stage::Downloaded => Some(Stage::InstallerExtracted),
        Stage::InstallerExtracted => Some(Stage::ResourceArchiveLocated),
        Stage::ResourceArchiveLocated => Some(Stage::ResourceArchiveExtracted),
        Stage::ResourceArchiveExtracted => Some(Stage::TempCleaned),
        Stage::TempCleaned => Some(Stage::SourceCopied),
        Stage::SourceCopied => Some(Stage::PatchesApplied),
        Stage::PatchesApplied => Some(Stage::AssetsInjected),
        Stage::AssetsInjected => Some(Stage::TreeRewritten),
        Stage::TreeRewritten => Some(Stage::Done),
        Stage::Done => None,
    }
}

/// The stage that follows, if the run is not done.
pub fn next_stage(stage: Stage) -> (r: Option<Stage>)
    ensures
        r == next_stage_spec(stage),
{
    match stage {
        Stage::Init => Some(Stage::DirectoriesPrepared),
        Stage::DirectoriesPrepared => Some(Stage::Downloaded),
        Stage::Downloaded => Some(Stage::InstallerExtracted),
        Stage::InstallerExtracted => Some(Stage::ResourceArchiveLocated),
        Stage::ResourceArchiveLocated => Some(Stage::ResourceArchiveExtracted),
        Stage::ResourceArchiveExtracted => Some(Stage::TempCleaned),
        Stage::TempCleaned => Some(Stage::SourceCopied),
        Stage::SourceCopied => Some(Stage::PatchesApplied),
        Stage::PatchesApplied => Some(Stage::AssetsInjected),
        Stage::AssetsInjected => Some(Stage::TreeRewritten),
        Stage::TreeRewritten => Some(Stage::Done),
        Stage::Done => None,
    }
}

/// The work that leads from one stage to the next.
#[derive(Clone, Copy, Debug, PartialEq, Eq, Structural)]
pub enum Task {
    /// Delete the directory of the version, then create it with the
    /// extraction, source and working directories.
    PrepareDirectories,
    /// Fetch the installer to its place in the temporary directory.
    Download,
    /// Run the installer chain into the extraction directory.
    ExtractInstaller,
    /// Make sure the packed resource archive is where it is expected, and
    /// keep the icon if there is one.
    LocateResourceArchive,
    /// Run the resource-archive chain into the source directory.
    ExtractResourceArchive,
    /// Delete the temporary directory.
    CleanTemp,
    /// Copy the source tree into the working tree.
    CopySource,
    /// Apply the rule set to the working tree.
    ApplyPatches,
    /// Write the mod's own files into the working tree.
    InjectAssets,
    /// Rewrite every markup document of the working tree.
    RewriteTree,
    /// Report the working tree as the result.
    Report,
}

/// The task that leads on from a stage.
pub open spec fn task_spec(stage: Stage) -> Option<Task> {
    match stage {
        Stage::Init => Some(Task::PrepareDirectories),
        Stage::DirectoriesPrepared => Some(Task::Download),
        Stage::Downloaded => Some(Task::ExtractInstaller),
        Stage::InstallerExtracted => Some(Task::LocateResourceArchive),
        Stage::ResourceArchiveLocated => Some(Task::ExtractResourceArchive),
        Stage::ResourceArchiveExtracted => Some(Task::CleanTemp),
        Stage::TempCleaned => Some(Task::CopySource),
        Stage::SourceCopied => Some(Task::ApplyPatches),
        Stage::PatchesApplied => Some(Task::InjectAssets),
        Stage::AssetsInjected => Some(Task::RewriteTree),
        Stage::TreeRewritten => Some(Task::Report),
        Stage::Done => None,
    }
}

/// The task that leads on from a stage.
pub fn task_of(stage: Stage) -> (r: Option<Task>)
    ensures
        r == task_spec(stage),
{
    match stage {
        Stage::Init => Some(Task::PrepareDirectories),
        Stage::DirectoriesPrepared => Some(Task::Download),
        Stage::Downloaded => Some(Task::ExtractInstaller),
        Stage::InstallerExtracted => Some(Task::LocateResourceArchive),
        Stage::ResourceArchiveLocated => Some(Task::ExtractResourceArchive),
        Stage::ResourceArchiveExtracted => Some(Task::CleanTemp),
        Stage::TempCleaned => Some(Task::CopySource),
        Stage::SourceCopied => Some(Task::ApplyPatches),
        Stage::PatchesApplied => Some(Task::InjectAssets),
        Stage::AssetsInjected => Some(Task::RewriteTree),
        Stage::TreeRewritten => Some(Task::Report),
        Stage::Done => None,
    }
}

/// The name of a task in messages.
pub open spec fn task_name_spec(task: Task) -> Seq<char> {
    match task {
        Task::PrepareDirectories => "prepare directories"@,
        Task::Download => "download"@,
        Task::ExtractInstaller => "extract installer"@,
        Task::LocateResourceArchive => "locate resource archive"@,
        Task::ExtractResourceArchive => "extract resource archive"@,
        Task::CleanTemp => "clean temporary files"@,
        Task::CopySource => "copy sources"@,
        Task::ApplyPatches => "apply patches"@,
        Task::InjectAssets => "inject assets"@,
        Task::RewriteTree => "rewrite tree"@,
        Task::Report => "report"@,
    }
}

/// The name of a task in messages.
pub fn task_name(task: Task) -> (r: &'static str)
    ensures
        r@ == task_name_spec(task),
{
    match task {
        Task::PrepareDirectories => "prepare directories",
        Task::Download => "download",
        Task::ExtractInstaller => "extract installer",
        Task::LocateResourceArchive => "locate resource archive",
        Task::ExtractResourceArchive => "extract resource archive",
        Task::CleanTemp => "clean temporary files",
        Task::CopySource => "copy sources",
        Task::ApplyPatches => "apply patches",
        Task::InjectAssets => "inject assets",
        Task::RewriteTree => "rewrite tree",
        Task::Report => "report",
    }
}

/// The progress to show when a task begins, in percent, where the task
/// has a notification of its own.
pub open spec fn progress_percent_spec(task: Task) -> Option<u8> {
    match task {
        Task::PrepareDirectories => None,
        Task::Download => Some(5u8),
        Task::ExtractInstaller => Some(20u8),
        Task::LocateResourceArchive => Some(35u8),
        Task::ExtractResourceArchive => None,
        Task::CleanTemp => Some(45u8),
        Task::CopySource => Some(50u8),
        Task::ApplyPatches => Some(55u8),
        Task::InjectAssets => Some(80u8),
        Task::RewriteTree => Some(90u8),
        Task::Report => Some(100u8),
    }
}

/// The message that goes with the progress of a task.
pub open spec fn progress_message_spec(task: Task) -> Seq<char> {
    match task {
        Task::Download => "Downloading build..."@,
        Task::ExtractInstaller => "Extracting installer..."@,
        Task::LocateResourceArchive => "Locating and extracting app.asar..."@,
        Task::CleanTemp => "Cleaning up temp files..."@,
        Task::CopySource => "Copying sources..."@,
        Task::ApplyPatches => "Applying patches..."@,
        Task::InjectAssets => "Creating mod files..."@,
        Task::RewriteTree => "Injecting mod into HTML..."@,
        Task::Report => "Done!"@,
        _ => Seq::empty(),
    }
}

/// The notification for an observer when a task begins: a percentage and
/// a message. Two tasks have none.
pub fn progress(task: Task) -> (r: Option<(u8, &'static str)>)
    ensures
        match r {
            Some((percent, message)) => progress_percent_spec(task) == Some(percent) && percent
                <= 100 && message@ == progress_message_spec(task),
            None => progress_percent_spec(task).is_none(),
        },
{
    match task {
        Task::PrepareDirectories => None,
        Task::Download => Some((5u8, "Downloading build...")),
        Task::ExtractInstaller => Some((20u8, "Extracting installer...")),
        Task::LocateResourceArchive => Some((35u8, "Locating and extracting app.asar...")),
        Task::ExtractResourceArchive => None,
        Task::CleanTemp => Some((45u8, "Cleaning up temp files...")),
        Task::CopySource => Some((50u8, "Copying sources...")),
        Task::ApplyPatches => Some((55u8, "Applying patches...")),
        Task::InjectAssets => Some((80u8, "Creating mod files...")),
        Task::RewriteTree => Some((90u8, "Injecting mod into HTML...")),
        Task::Report => Some((100u8, "Done!")),
    }
}

/// Where a run stands: at a stage, or failed in a task.
#[derive(Debug)]
pub enum PipelineState {
    At(Stage),
    Failed { task: Task, reason: String },
}

/// The mathematical value of a [`PipelineState`].
pub enum StateView {
    At(Stage),
    Failed { task: Task, reason: Seq<char> },
}

impl View for PipelineState {
    type V = StateView;

    open spec fn view(&self) -> StateView {
        match self {
            PipelineState::At(stage) => StateView::At(*stage),
            PipelineState::Failed { task, reason } => StateView::Failed {
                task: *task,
                reason: reason@,
            },
        }
    }
}

/// What the caller reports of the pending task.
#[derive(Debug)]
pub enum TaskReport {
    /// The task is done.
    Completed,
    /// The task failed for this reason.
    Failed(String),
}

/// The mathematical value of a [`TaskReport`].
pub enum ReportView {
    Completed,
    Failed(Seq<char>),
}

impl View for TaskReport {
    type V = ReportView;

    open spec fn view(&self) -> ReportView {
        match self {
            TaskReport::Completed => ReportView::Completed,
            TaskReport::Failed(reason) => ReportView::Failed(reason@),
        }
    }
}

/// The task that is pending in a state. None is pending once the run is
/// done or has failed.
pub open spec fn pending_task_spec(state: StateView) -> Option<Task> {
    match state {
        StateView::At(stage) => task_spec(stage),
        StateView::Failed { .. } => None,
    }
}

/// The state after a report on the pending task. A completed task leads to
/// the next stage; a failed one leads to the failed state, which keeps the
/// task and the reason. Where no task is pending the state stays.
pub open spec fn advance_spec(state: StateView, report: ReportView) -> StateView {
    match state {
        StateView::At(stage) => match task_spec(stage) {
            None => state,
            Some(task) => match report {
                ReportView::Completed => StateView::At(next_stage_spec(stage).unwrap()),
                ReportView::Failed(reason) => StateView::Failed { task, reason },
            },
        },
        StateView::Failed { .. } => state,
    }
}

/// The state after a sequence of reports, one after another.
pub open spec fn advance_all_spec(state: StateView, reports: Seq<ReportView>) -> StateView
    decreases reports.len(),
{
    if reports.len() == 0 {
        state
    } else {
        advance_spec(advance_all_spec(state, reports.drop_last()), reports.last())
    }
}

/// The task that is pending in a state.
pub fn pending_task(state: &PipelineState) -> (r: Option<Task>)
    ensures
        r == pending_task_spec(state@),
{
    match state {
        PipelineState::At(stage) => task_of(*stage),
        PipelineState::Failed { .. } => None,
    }
}

/// The state after a report on the pending task.
pub fn advance(state: PipelineState, report: TaskReport) -> (r: PipelineState)
    ensures
        r@ == advance_spec(state@, report@),
{
    match state {
        PipelineState::At(stage) => match task_of(stage) {
            None => PipelineState::At(stage),
            Some(task) => match report {
                TaskReport::Completed => match next_stage(stage) {
                    Some(next) => PipelineState::At(next),
                    None => PipelineState::At(stage),
                },
                TaskReport::Failed(reason) => PipelineState::Failed { task, reason },
            },
        },
        PipelineState::Failed { task, reason } => PipelineState::Failed { task, reason },
    }
}

/// The kind of error that a failure in a task is reported as.
pub open spec fn failure_kind_matches(task: Task, error: PatcherError) -> bool {
    match task {
        Task::Download => error is DownloadError,
        Task::ExtractInstaller => error is ExtractionError,
        Task::LocateResourceArchive => error is FileNotFound,
        Task::ExtractResourceArchive => error is AsarError,
        Task::ApplyPatches => error is PatchError,
        _ => error is IoError,
    }
}

/// The detail of the error of a failed run: the task, then the reason.
pub open spec fn failure_detail_spec(task: Task, reason: Seq<char>) -> Seq<char> {
    task_name_spec(task) + ": "@ + reason
}

/// The result of a run, once it is over: the working tree for a run that
/// is done, and for a failed run an error whose kind goes by the task and
/// whose detail names the task and the reason. A run that is under way has
/// no result yet.
pub fn outcome(context: &PipelineContext, state: &PipelineState) -> (r: Option<
    Result<String, PatcherError>,
>)
    ensures
        match r {
            None => state@ is At && state@ != StateView::At(Stage::Done),
            Some(Ok(path)) => state@ == StateView::At(Stage::Done) && path@ == context@.modded_dir,
            Some(Err(error)) => state@ is Failed && failure_kind_matches(
                state@->Failed_task,
                error,
            ) && error.detail_spec() == failure_detail_spec(
                state@->Failed_task,
                state@->Failed_reason,
            ),
        },
{
    match state {
        PipelineState::At(stage) => match stage {
            Stage::Done => Some(Ok(context.modded_dir.clone())),
            _ => None,
        },
        PipelineState::Failed { task, reason } => {
            let detail = task_name(*task).to_owned().concat(": ").concat(reason.as_str());
            let error = match task {
                Task::Download => PatcherError::DownloadError(detail),
                Task::ExtractInstaller => PatcherError::ExtractionError(detail),
                Task::LocateResourceArchive => PatcherError::FileNotFound(detail),
                Task::ExtractResourceArchive => PatcherError::AsarError(detail),
                Task::ApplyPatches => PatcherError::PatchError(detail),
                _ => PatcherError::IoError(detail),
            };
            Some(Err(error))
        },
    }
}

/// A completed task moves the run exactly one stage on.
pub proof fn lemma_completion_moves_one_stage(stage: Stage)
    requires
        stage != Stage::Done,
    ensures
        advance_spec(StateView::At(stage), ReportView::Completed) is At,
        stage_index(advance_spec(StateView::At(stage), ReportView::Completed)->At_0) == stage_index(
            stage,
        ) + 1,
{
}

/// The stages follow one another without branching: after `n` completed
/// tasks a run that started at the beginning stands at the stage with
/// index `n`.
pub proof fn lemma_completions_reach(reports: Seq<ReportView>)
    requires
        reports.len() <= 11,
        forall|i: int| 0 <= i < reports.len() ==> reports[i] is Completed,
    ensures
        advance_all_spec(StateView::At(Stage::Init), reports) is At,
        stage_index(advance_all_spec(StateView::At(Stage::Init), reports)->At_0) == reports.len(),
        reports.len() == 11 ==> advance_all_spec(StateView::At(Stage::Init), reports)
            == StateView::At(Stage::Done),
    decreases reports.len(),
{
    if reports.len() > 0 {
        lemma_completions_reach(reports.drop_last());
    }
}

/// A failure ends the run: the failed state has no pending task and no
/// report changes it.
pub proof fn lemma_failure_is_final(task: Task, reason: Seq<char>, reports: Seq<ReportView>)
    ensures
        pending_task_spec(StateView::Failed { task, reason }).is_none(),
        advance_all_spec(StateView::Failed { task, reason }, reports) == (StateView::Failed {
            task,
            reason,
        }),
    decreases reports.len(),
{
    if reports.len() > 0 {
        lemma_failure_is_final(task, reason, reports.drop_last());
    }
}

/// A run that is done stays done.
pub proof fn lemma_done_is_final(reports: Seq<ReportView>)
    ensures
        advance_all_spec(StateView::At(Stage::Done), reports) == StateView::At(Stage::Done),
    decreases reports.len(),
{
    if reports.len() > 0 {
        lemma_done_is_final(reports.drop_last());
    }
}

/// The progress shown never goes back: a task later in the sequence shows
/// at least the percentage of an earlier one.
pub proof fn lemma_progress_monotone(earlier: Stage, later: Stage)
    requires
        stage_index(earlier) <= stage_index(later),
        task_spec(earlier) is Some,
        task_spec(later) is Some,
        progress_percent_spec(task_spec(earlier).unwrap()) is Some,
        progress_percent_spec(task_spec(later).unwrap()) is Some,
    ensures
        progress_percent_spec(task_spec(earlier).unwrap()).unwrap() <= progress_percent_spec(
            task_spec(later).unwrap(),
        ).unwrap() <= 100,
{
}

} // verus!
