//! The acquisition orchestrator, as a state machine.
//!
//! The machine decides; its driver performs. Each [`Request`] names one
//! piece of outside work: a query to the registry, a download, a write. The
//! driver does it and hands back a [`Response`], and [`Pipeline::step`]
//! answers with the next request and with the failures to report.
//!
//! The requested mods are worked through one after another. For each, the
//! project is fetched and held against the target game version; its
//! dependencies are fetched and resolved; then for each resolved project the
//! releases are fetched, the best is selected, its first file is downloaded,
//! verified and handed on for writing. A failure ends the work on the item it
//! concerns and the machine turns to the next.

use crate::acquire::{acquire, acquired, Artifact, ArtifactView};
use crate::api::{
    dependencies_endpoint, dependencies_url, project_endpoint, project_url, versions_endpoint,
    versions_url,
};
use crate::compat::project_compatible;
use crate::digest::{digest_declared, sha512_digest};
use crate::error::{failure_views, Failure, FailureView};
use crate::model::{
    project_views, version_views, Config, ConfigView, Dependencies, DependenciesView, File,
    FileView, ModrinthProject, ModrinthProjectView, ProjectVersion, ProjectVersionView,
};
use crate::resolve::{
    dropped_warnings, lemma_resolve_keeps_compatible_only, resolve, resolved_projects,
};
use crate::select::{best_choice, lemma_choice_iff_eligible, none_eligible, select_best_index};
use crate::text::texts;
use vstd::prelude::*;

verus! {

/// One piece of outside work that the machine asks for.
#[derive(Debug, Clone, PartialEq)]
pub enum Request {
    /// Fetch the project at `url`; answer with [`Response::Project`].
    FetchProject { url: String },
    /// Fetch the dependencies at `url`; answer with [`Response::Dependencies`].
    FetchDependencies { url: String },
    /// Fetch the releases of the project titled `title` at `url`; answer with
    /// [`Response::Versions`].
    FetchVersions { url: String, title: String },
    /// Download the content of the file `filename` at `url`; answer with
    /// [`Response::Bytes`].
    FetchBytes { url: String, filename: String },
    /// Write the verified content under its file name, replacing what is
    /// there; answer with [`Response::Written`].
    WriteFile { artifact: Artifact },
    /// Nothing is left to do.
    Finished,
}

/// What a [`Request`] holds.
pub ghost enum RequestView {
    FetchProject { url: Seq<char> },
    FetchDependencies { url: Seq<char> },
    FetchVersions { url: Seq<char>, title: Seq<char> },
    FetchBytes { url: Seq<char>, filename: Seq<char> },
    WriteFile { artifact: ArtifactView },
    Finished,
}

impl View for Request {
    type V = RequestView;

    open spec fn view(&self) -> RequestView {
        match self {
            Request::FetchProject { url } => RequestView::FetchProject { url: url@ },
            Request::FetchDependencies { url } => RequestView::FetchDependencies { url: url@ },
            Request::FetchVersions { url, title } => RequestView::FetchVersions {
                url: url@,
                title: title@,
            },
            Request::FetchBytes { url, filename } => RequestView::FetchBytes {
                url: url@,
                filename: filename@,
            },
            Request::WriteFile { artifact } => RequestView::WriteFile { artifact: artifact@ },
            Request::Finished => RequestView::Finished,
        }
    }
}

/// What came of the work that the last request asked for.
#[derive(Debug, Clone, PartialEq)]
pub enum Response {
    /// The project that was fetched.
    Project(ModrinthProject),
    /// The dependencies that were fetched.
    Dependencies(Dependencies),
    /// The releases that were fetched.
    Versions(Vec<ProjectVersion>),
    /// The content that was downloaded.
    Bytes(Vec<u8>),
    /// The file was written.
    Written,
    /// The work failed: no answer, an answer without success, or one that
    /// could not be read.
    Failed,
}

/// What a [`Response`] holds.
pub ghost enum ResponseView {
    Project(ModrinthProjectView),
    Dependencies(DependenciesView),
    Versions(Seq<ProjectVersionView>),
    Bytes(Seq<u8>),
    Written,
    Failed,
}

impl View for Response {
    type V = ResponseView;

    open spec fn view(&self) -> ResponseView {
        match self {
            Response::Project(project) => ResponseView::Project(project@),
            Response::Dependencies(bundle) => ResponseView::Dependencies(bundle@),
            Response::Versions(versions) => ResponseView::Versions(version_views(versions@)),
            Response::Bytes(bytes) => ResponseView::Bytes(bytes@),
            Response::Written => ResponseView::Written,
            Response::Failed => ResponseView::Failed,
        }
    }
}

/// What the machine waits for.
pub ghost enum StageView {
    /// The project of the current mod.
    AwaitProject,
    /// The dependencies of the current mod, whose project is `project`.
    AwaitDependencies { project: ModrinthProjectView },
    /// The releases of the current resolved project.
    AwaitVersions,
    /// The content of `file`, the first file of the selected release.
    AwaitBytes { file: FileView },
    /// The writing of the verified content.
    AwaitWrite,
    /// Nothing: all mods are done.
    Done,
}

/// The state of the machine: the target, the requested mods and the position
/// among them, the projects resolved for the current mod and the position
/// among those, and what is waited for.
pub ghost struct PipelineView {
    pub target: Seq<char>,
    pub loader: Seq<char>,
    pub mods: Seq<Seq<char>>,
    pub cursor: int,
    pub pending: Seq<ModrinthProjectView>,
    pub position: int,
    pub stage: StageView,
}

/// One move of the machine: the state after it, the next piece of work, the
/// failures that ended the work on an item, and the warnings for
/// dependencies that were dropped.
pub ghost struct TransitionView {
    pub next: PipelineView,
    pub request: RequestView,
    pub reports: Seq<FailureView>,
    pub warnings: Seq<FailureView>,
}

/// The positions are within their lists, and the machine waits only for
/// something that concerns an item it has.
pub open spec fn state_valid(state: PipelineView) -> bool {
    &&& 0 <= state.cursor <= state.mods.len()
    &&& 0 <= state.position <= state.pending.len()
    &&& match state.stage {
        StageView::AwaitProject => state.cursor < state.mods.len(),
        StageView::AwaitDependencies { .. } => state.cursor < state.mods.len(),
        StageView::AwaitVersions => state.cursor < state.mods.len() && state.position
            < state.pending.len(),
        StageView::AwaitBytes { .. } => state.cursor < state.mods.len() && state.position
            < state.pending.len(),
        StageView::AwaitWrite => state.cursor < state.mods.len() && state.position
            < state.pending.len(),
        StageView::Done => state.cursor == state.mods.len(),
    }
}

/// Turning to the mod at `cursor`: its project is asked for, or, past the
/// last mod, the machine is done.
pub open spec fn enter_mod(
    state: PipelineView,
    cursor: int,
    reports: Seq<FailureView>,
    warnings: Seq<FailureView>,
) -> TransitionView {
    if 0 <= cursor < state.mods.len() {
        TransitionView {
            next: PipelineView {
                cursor,
                pending: Seq::empty(),
                position: 0,
                stage: StageView::AwaitProject,
                ..state
            },
            request: RequestView::FetchProject { url: project_endpoint(state.mods[cursor]) },
            reports,
            warnings,
        }
    } else {
        TransitionView {
            next: PipelineView {
                cursor: state.mods.len() as int,
                pending: Seq::empty(),
                position: 0,
                stage: StageView::Done,
                ..state
            },
            request: RequestView::Finished,
            reports,
            warnings,
        }
    }
}

/// Turning to the resolved project at `position` of `pending`: its releases
/// are asked for, or, past the last project, the machine turns to the next
/// mod.
pub open spec fn enter_project(
    state: PipelineView,
    pending: Seq<ModrinthProjectView>,
    position: int,
    reports: Seq<FailureView>,
    warnings: Seq<FailureView>,
) -> TransitionView {
    if 0 <= position < pending.len() {
        TransitionView {
            next: PipelineView { pending, position, stage: StageView::AwaitVersions, ..state },
            request: RequestView::FetchVersions {
                url: versions_endpoint(pending[position].id),
                title: pending[position].title,
            },
            reports,
            warnings,
        }
    } else {
        enter_mod(state, state.cursor + 1, reports, warnings)
    }
}

/// The first move: the machine turns to the first mod.
pub open spec fn begin(config: ConfigView, mods: Seq<Seq<char>>) -> TransitionView {
    enter_mod(
        PipelineView {
            target: config.version,
            loader: config.loader,
            mods,
            cursor: 0,
            pending: Seq::empty(),
            position: 0,
            stage: StageView::Done,
        },
        0,
        Seq::empty(),
        Seq::empty(),
    )
}

/// The move on the project of the current mod. A project that lists the
/// target is kept and its dependencies are asked for. One that does not, or
/// a failed query, ends the mod.
pub open spec fn on_project(state: PipelineView, response: ResponseView) -> TransitionView {
    let id = state.mods[state.cursor];
    match response {
        ResponseView::Project(project) => if project_compatible(project, state.target) {
            TransitionView {
                next: PipelineView { stage: StageView::AwaitDependencies { project }, ..state },
                request: RequestView::FetchDependencies { url: dependencies_endpoint(id) },
                reports: Seq::empty(),
                warnings: Seq::empty(),
            }
        } else {
            enter_mod(
                state,
                state.cursor + 1,
                seq![FailureView::IncompatibleVersion { id, target: state.target }],
                Seq::empty(),
            )
        },
        _ => enter_mod(
            state,
            state.cursor + 1,
            seq![FailureView::QueryFailed { target: id }],
            Seq::empty(),
        ),
    }
}

/// The move on the dependencies of the current mod: the project and its
/// dependencies are resolved, with a warning for each one dropped. A failed
/// query ends the mod: nothing of it is downloaded, the requested project
/// included.
pub open spec fn on_dependencies(
    state: PipelineView,
    project: ModrinthProjectView,
    response: ResponseView,
) -> TransitionView {
    match response {
        ResponseView::Dependencies(bundle) => enter_project(
            state,
            resolved_projects(project, bundle.projects, state.target),
            0,
            Seq::empty(),
            dropped_warnings(bundle.projects, state.target),
        ),
        _ => enter_mod(
            state,
            state.cursor + 1,
            seq![FailureView::QueryFailed { target: state.mods[state.cursor] }],
            Seq::empty(),
        ),
    }
}

/// The move on the releases of the current project: the first file of the
/// best release is asked for. Where no release is eligible the project ends
/// with that report. It ends as a failed query where none came, or where the
/// best release holds no file, which no release of the registry does.
pub open spec fn on_versions(state: PipelineView, response: ResponseView) -> TransitionView {
    match response {
        ResponseView::Versions(versions) => match best_choice(
            versions,
            state.target,
            state.loader,
        ) {
            Some(i) => if versions[i].files.len() > 0 {
                TransitionView {
                    next: PipelineView {
                        stage: StageView::AwaitBytes { file: versions[i].files[0] },
                        ..state
                    },
                    request: RequestView::FetchBytes {
                        url: versions[i].files[0].url,
                        filename: versions[i].files[0].filename,
                    },
                    reports: Seq::empty(),
                    warnings: Seq::empty(),
                }
            } else {
                enter_project(
                    state,
                    state.pending,
                    state.position + 1,
                    seq![FailureView::QueryFailed { target: state.pending[state.position].title }],
                    Seq::empty(),
                )
            },
            None => enter_project(
                state,
                state.pending,
                state.position + 1,
                seq![FailureView::NoEligibleVersion],
                Seq::empty(),
            ),
        },
        _ => enter_project(
            state,
            state.pending,
            state.position + 1,
            seq![FailureView::QueryFailed { target: state.pending[state.position].title }],
            Seq::empty(),
        ),
    }
}

/// The move on the content of `file`: content with the declared digest is
/// handed on for writing. Other content, or a failed download, ends the
/// project, and nothing is written.
pub open spec fn on_bytes(
    state: PipelineView,
    file: FileView,
    response: ResponseView,
) -> TransitionView {
    match response {
        ResponseView::Bytes(bytes) => match acquired(file, bytes) {
            Ok(artifact) => TransitionView {
                next: PipelineView { stage: StageView::AwaitWrite, ..state },
                request: RequestView::WriteFile { artifact },
                reports: Seq::empty(),
                warnings: Seq::empty(),
            },
            Err(failure) => enter_project(
                state,
                state.pending,
                state.position + 1,
                seq![failure],
                Seq::empty(),
            ),
        },
        _ => enter_project(
            state,
            state.pending,
            state.position + 1,
            seq![FailureView::QueryFailed { target: file.url }],
            Seq::empty(),
        ),
    }
}

/// The move of the machine in `state` on `response`.
pub open spec fn next_move(state: PipelineView, response: ResponseView) -> TransitionView {
    match state.stage {
        StageView::AwaitProject => on_project(state, response),
        StageView::AwaitDependencies { project } => on_dependencies(state, project, response),
        StageView::AwaitVersions => on_versions(state, response),
        StageView::AwaitBytes { file } => on_bytes(state, file, response),
        StageView::AwaitWrite => enter_project(
            state,
            state.pending,
            state.position + 1,
            Seq::empty(),
            Seq::empty(),
        ),
        StageView::Done => TransitionView {
            next: state,
            request: RequestView::Finished,
            reports: Seq::empty(),
            warnings: Seq::empty(),
        },
    }
}

/// How far a stage is from the downloads of its mod: two for the stage that
/// waits for the project, one for the stage that waits for the dependencies,
/// nought for the stages of a download and for the end.
pub open spec fn stage_rank(stage: StageView) -> int {
    match stage {
        StageView::AwaitProject => 2,
        StageView::AwaitDependencies { .. } => 1,
        _ => 0,
    }
}

/// The steps that the current project may still take.
pub open spec fn file_rank(state: PipelineView) -> int {
    match state.stage {
        StageView::AwaitVersions => 3 * (state.pending.len() - state.position),
        StageView::AwaitBytes { .. } => 3 * (state.pending.len() - state.position) - 1,
        StageView::AwaitWrite => 3 * (state.pending.len() - state.position) - 2,
        _ => 0,
    }
}

/// `after` is further on than `before`: at a later mod, or at the same mod in
/// a later stage, or in the same stage with fewer steps left for its
/// projects.
pub open spec fn further_on(before: PipelineView, after: PipelineView) -> bool {
    ||| after.cursor > before.cursor
    ||| after.cursor == before.cursor && stage_rank(after.stage) < stage_rank(before.stage)
    ||| after.cursor == before.cursor && stage_rank(after.stage) == stage_rank(before.stage)
        && 0 <= file_rank(after) < file_rank(before)
}

/// The machine keeps its state valid, never changes the target or the list
/// of mods, and never goes back to an earlier mod, whatever the response.
pub proof fn lemma_move_keeps_valid(state: PipelineView, response: ResponseView)
    requires
        state_valid(state),
    ensures
        state_valid(next_move(state, response).next),
        next_move(state, response).next.target == state.target,
        next_move(state, response).next.loader == state.loader,
        next_move(state, response).next.mods == state.mods,
        next_move(state, response).next.cursor >= state.cursor,
{
}

/// Every move before the end makes progress, so the machine comes to its end
/// after finitely many responses, whatever they are: a failure of one item
/// cannot hold up the others.
pub proof fn lemma_move_makes_progress(state: PipelineView, response: ResponseView)
    requires
        state_valid(state),
        !(state.stage is Done),
    ensures
        further_on(state, next_move(state, response).next),
        next_move(state, response).next.cursor <= state.mods.len(),
{
}

/// A file is written only after its content was verified: the machine asks
/// for a write only when it waited for the content of a file, content came,
/// and the SHA-512 digest of that content is the one declared for the file.
/// What it hands on is that content, under the declared file name.
pub proof fn lemma_write_only_verified(state: PipelineView, response: ResponseView)
    requires
        next_move(state, response).request is WriteFile,
    ensures
        state.stage is AwaitBytes,
        response is Bytes,
        ({
            let file = state.stage->file;
            let bytes = response->Bytes_0;
            let artifact = next_move(state, response).request->artifact;
            &&& digest_declared(sha512_digest(bytes), file.hashes.sha512)
            &&& artifact.bytes == bytes
            &&& artifact.filename == file.filename
        }),
{
}

/// A failure leaves the other mods alone: a move that reports a failure still
/// keeps the list of mods and the target, and leaves every mod after the
/// current one to be worked on.
pub proof fn lemma_failure_is_isolated(state: PipelineView, response: ResponseView)
    requires
        state_valid(state),
        next_move(state, response).reports.len() > 0,
    ensures
        next_move(state, response).next.mods == state.mods,
        state.cursor <= next_move(state, response).next.cursor <= state.cursor + 1,
        next_move(state, response).next.cursor < state.mods.len() ==> !(next_move(
            state,
            response,
        ).next.stage is Done),
{
}

/// A failed query for the project of a mod or for its dependencies ends the
/// work on that mod: the failure is reported under the mod's name, the
/// machine turns to the next mod or to its end, and nothing of the mod is
/// looked up or downloaded.
pub proof fn lemma_failed_query_ends_the_mod(state: PipelineView, response: ResponseView)
    requires
        state_valid(state),
        (state.stage is AwaitProject && !(response is Project)) || (state.stage
            is AwaitDependencies && !(response is Dependencies)),
    ensures
        next_move(state, response).reports == seq![
            FailureView::QueryFailed { target: state.mods[state.cursor] },
        ],
        next_move(state, response).next.cursor == state.cursor + 1,
        next_move(state, response).next.pending.len() == 0,
        next_move(state, response).request is FetchProject || next_move(
            state,
            response,
        ).request is Finished,
{
}

/// That no release is eligible is reported exactly when it is so: the
/// machine waited for the releases of a project, releases came, and none of
/// them lists both the target game version and the loader. The project then
/// ends, and nothing is asked of its files.
pub proof fn lemma_no_eligible_version_reported_exactly(
    state: PipelineView,
    response: ResponseView,
)
    requires
        state_valid(state),
    ensures
        next_move(state, response).reports == seq![FailureView::NoEligibleVersion] <==> {
            &&& state.stage is AwaitVersions
            &&& response matches ResponseView::Versions(versions)
            &&& none_eligible(versions, state.target, state.loader, versions.len() as int)
        },
        next_move(state, response).reports == seq![FailureView::NoEligibleVersion] ==> !(
        next_move(state, response).request is FetchBytes) && !(next_move(
            state,
            response,
        ).request is WriteFile),
{
    let reports = next_move(state, response).reports;
    let sought = seq![FailureView::NoEligibleVersion];
    assert(sought.len() == 1 && sought[0] == FailureView::NoEligibleVersion);
    match state.stage {
        StageView::AwaitVersions => {
            if let ResponseView::Versions(versions) = response {
                lemma_choice_iff_eligible(versions, state.target, state.loader);
                if best_choice(versions, state.target, state.loader) is Some {
                    assert(reports.len() == 0 || reports[0] is QueryFailed);
                }
            } else {
                assert(reports[0] is QueryFailed);
            }
        },
        StageView::AwaitBytes { file } => {
            assert(reports.len() == 0 || reports[0] is QueryFailed || reports[0]
                is IntegrityMismatch);
        },
        StageView::AwaitProject => {
            assert(reports.len() == 0 || reports[0] is QueryFailed || reports[0]
                is IncompatibleVersion);
        },
        StageView::AwaitDependencies { project } => {
            assert(reports.len() == 0 || reports[0] is QueryFailed);
        },
        StageView::AwaitWrite => {
            assert(reports.len() == 0);
        },
        StageView::Done => {
            assert(reports.len() == 0);
        },
    }
}

/// Dependencies are followed one level deep and no further: the machine asks
/// for the dependencies of a requested mod only, right after it took that
/// mod's project, and never for those of a dependency.
pub proof fn lemma_dependencies_of_requested_mods_only(state: PipelineView, response: ResponseView)
    requires
        state_valid(state),
        next_move(state, response).request is FetchDependencies,
    ensures
        state.stage is AwaitProject,
        response is Project,
        next_move(state, response).request->FetchDependencies_url == dependencies_endpoint(
            state.mods[state.cursor],
        ),
        next_move(state, response).next.cursor == state.cursor,
{
}

/// A dropped dependency ends nothing: a move that warns still goes on with
/// the current mod, and turns to the releases of its project.
pub proof fn lemma_warning_ends_nothing(state: PipelineView, response: ResponseView)
    requires
        state_valid(state),
        next_move(state, response).warnings.len() > 0,
    ensures
        next_move(state, response).reports.len() == 0,
        next_move(state, response).next.cursor == state.cursor,
        next_move(state, response).next.stage is AwaitVersions,
        next_move(state, response).request is FetchVersions,
{
    if let StageView::AwaitDependencies { project } = state.stage {
        if let ResponseView::Dependencies(bundle) = response {
            lemma_resolve_keeps_compatible_only(project, bundle.projects, state.target);
        }
    }
}

/// What the machine waits for.
#[derive(Debug, Clone, PartialEq)]
enum Stage {
    AwaitProject,
    AwaitDependencies { project: ModrinthProject },
    AwaitVersions,
    AwaitBytes { file: File },
    AwaitWrite,
    Done,
}

impl View for Stage {
    type V = StageView;

    closed spec fn view(&self) -> StageView {
        match self {
            Stage::AwaitProject => StageView::AwaitProject,
            Stage::AwaitDependencies { project } => StageView::AwaitDependencies {
                project: project@,
            },
            Stage::AwaitVersions => StageView::AwaitVersions,
            Stage::AwaitBytes { file } => StageView::AwaitBytes { file: file@ },
            Stage::AwaitWrite => StageView::AwaitWrite,
            Stage::Done => StageView::Done,
        }
    }
}

/// The acquisition state machine.
#[derive(Debug, PartialEq)]
pub struct Pipeline {
    target: String,
    loader: String,
    mods: Vec<String>,
    cursor: usize,
    pending: Vec<ModrinthProject>,
    position: usize,
    stage: Stage,
}

impl View for Pipeline {
    type V = PipelineView;

    closed spec fn view(&self) -> PipelineView {
        PipelineView {
            target: self.target@,
            loader: self.loader@,
            mods: texts(self.mods@),
            cursor: self.cursor as int,
            pending: project_views(self.pending@),
            position: self.position as int,
            stage: self.stage@,
        }
    }
}

/// One move of the machine.
#[derive(Debug, PartialEq)]
pub struct Transition {
    /// The state after the move.
    pub next: Pipeline,
    /// The next piece of work.
    pub request: Request,
    /// The failures that ended the work on an item.
    pub reports: Vec<Failure>,
    /// The warnings for dependencies that were dropped.
    pub warnings: Vec<Failure>,
}

impl View for Transition {
    type V = TransitionView;

    open spec fn view(&self) -> TransitionView {
        TransitionView {
            next: self.next@,
            request: self.request@,
            reports: failure_views(self.reports@),
            warnings: failure_views(self.warnings@),
        }
    }
}

/// A list with one failure.
fn one_report(failure: Failure) -> (reports: Vec<Failure>)
    ensures
        failure_views(reports@) == seq![failure@],
{
    let mut reports: Vec<Failure> = Vec::new();
    reports.push(failure);
    assert(failure_views(reports@) =~= seq![failure@]);
    reports
}

/// An empty list of failures.
fn no_report() -> (reports: Vec<Failure>)
    ensures
        failure_views(reports@) == Seq::<FailureView>::empty(),
{
    let reports: Vec<Failure> = Vec::new();
    assert(failure_views(reports@) =~= Seq::<FailureView>::empty());
    reports
}

impl Pipeline {
    #[verifier::type_invariant]
    spec fn valid(self) -> bool {
        state_valid(self@)
    }

    /// Whether nothing is left to do.
    pub fn is_done(&self) -> (done: bool)
        ensures
            done == (self@.stage is Done),
    {
        match self.stage {
            Stage::Done => true,
            _ => false,
        }
    }

    /// Starts the machine on the mods `mods` for the target of `config`.
    pub fn start(config: &Config, mods: Vec<String>) -> (transition: Transition)
        ensures
            transition@ == begin(config@, texts(mods@)),
            state_valid(transition@.next),
    {
        Self::turn_to_mod(
            config.version.clone(),
            config.loader.clone(),
            mods,
            0,
            no_report(),
            no_report(),
        )
    }

    /// Turns to the mod at `cursor`.
    fn turn_to_mod(
        target: String,
        loader: String,
        mods: Vec<String>,
        cursor: usize,
        reports: Vec<Failure>,
        warnings: Vec<Failure>,
    ) -> (transition: Transition)
        ensures
            transition@ == enter_mod(
                PipelineView {
                    target: target@,
                    loader: loader@,
                    mods: texts(mods@),
                    cursor: cursor as int,
                    pending: Seq::empty(),
                    position: 0,
                    stage: StageView::Done,
                },
                cursor as int,
                failure_views(reports@),
                failure_views(warnings@),
            ),
            state_valid(transition@.next),
    {
        let pending: Vec<ModrinthProject> = Vec::new();
        assert(project_views(pending@) =~= Seq::empty());
        if cursor < mods.len() {
            let url = project_url(mods[cursor].as_str());
            let next = Pipeline {
                target,
                loader,
                mods,
                cursor,
                pending,
                position: 0,
                stage: Stage::AwaitProject,
            };
            Transition { next, request: Request::FetchProject { url }, reports, warnings }
        } else {
            let cursor = mods.len();
            let next = Pipeline {
                target,
                loader,
                mods,
                cursor,
                pending,
                position: 0,
                stage: Stage::Done,
            };
            Transition { next, request: Request::Finished, reports, warnings }
        }
    }

    /// Turns to the resolved project at `position` of `pending`.
    fn turn_to_project(
        target: String,
        loader: String,
        mods: Vec<String>,
        cursor: usize,
        pending: Vec<ModrinthProject>,
        position: usize,
        reports: Vec<Failure>,
        warnings: Vec<Failure>,
    ) -> (transition: Transition)
        requires
            cursor < mods@.len(),
        ensures
            transition@ == enter_project(
                PipelineView {
                    target: target@,
                    loader: loader@,
                    mods: texts(mods@),
                    cursor: cursor as int,
                    pending: project_views(pending@),
                    position: position as int,
                    stage: StageView::Done,
                },
                project_views(pending@),
                position as int,
                failure_views(reports@),
                failure_views(warnings@),
            ),
            state_valid(transition@.next),
    {
        if position < pending.len() {
            let url = versions_url(pending[position].id.as_str());
            let title = pending[position].title.clone();
            let next = Pipeline {
                target,
                loader,
                mods,
                cursor,
                pending,
                position,
                stage: Stage::AwaitVersions,
            };
            Transition { next, request: Request::FetchVersions { url, title }, reports, warnings }
        } else {
            assert(mods@.len() == mods.len());
            Self::turn_to_mod(target, loader, mods, cursor + 1, reports, warnings)
        }
    }

    /// Takes the response to the last request and gives the next request,
    /// with the failures to report. A response of a kind that was not asked
    /// for counts as a failure of the work that was.
    pub fn step(self, response: Response) -> (transition: Transition)
        ensures
            transition@ == next_move(self@, response@),
            state_valid(transition@.next),
    {
        proof {
            use_type_invariant(&self);
        }
        let Pipeline { target, loader, mods, cursor, pending, position, stage } = self;
        assert(mods@.len() == mods.len() && pending@.len() == pending.len());
        match stage {
            Stage::AwaitProject => {
                match response {
                    Response::Project(project) => {
                        if project.is_compatible(target.as_str()) {
                            let url = dependencies_url(mods[cursor].as_str());
                            let next = Pipeline {
                                target,
                                loader,
                                mods,
                                cursor,
                                pending,
                                position,
                                stage: Stage::AwaitDependencies { project },
                            };
                            Transition {
                                next,
                                request: Request::FetchDependencies { url },
                                reports: no_report(),
                                warnings: no_report(),
                            }
                        } else {
                            let reports = one_report(
                                Failure::IncompatibleVersion {
                                    id: mods[cursor].clone(),
                                    target: target.clone(),
                                },
                            );
                            Self::turn_to_mod(target, loader, mods, cursor + 1, reports, no_report())
                        }
                    },
                    _ => {
                        let reports = one_report(
                            Failure::QueryFailed { target: mods[cursor].clone() },
                        );
                        Self::turn_to_mod(target, loader, mods, cursor + 1, reports, no_report())
                    },
                }
            },
            Stage::AwaitDependencies { project } => {
                match response {
                    Response::Dependencies(bundle) => {
                        let resolution = resolve(project, bundle, target.as_str());
                        Self::turn_to_project(
                            target,
                            loader,
                            mods,
                            cursor,
                            resolution.projects,
                            0,
                            no_report(),
                            resolution.warnings,
                        )
                    },
                    _ => {
                        let reports = one_report(
                            Failure::QueryFailed { target: mods[cursor].clone() },
                        );
                        Self::turn_to_mod(target, loader, mods, cursor + 1, reports, no_report())
                    },
                }
            },
            Stage::AwaitVersions => {
                match response {
                    Response::Versions(versions) => {
                        let mut versions = versions;
                        let ghost views = version_views(versions@);
                        match select_best_index(&versions, target.as_str(), loader.as_str()) {
                            Some(i) => {
                                assert(views[i as int] == versions@[i as int]@);
                                if versions[i].files.len() > 0 {
                                    let chosen = versions.swap_remove(i);
                                    let mut files = chosen.files;
                                    let file = files.swap_remove(0);
                                    assert(file@ == views[i as int].files[0]);
                                    let url = file.url.clone();
                                    let filename = file.filename.clone();
                                    let next = Pipeline {
                                        target,
                                        loader,
                                        mods,
                                        cursor,
                                        pending,
                                        position,
                                        stage: Stage::AwaitBytes { file },
                                    };
                                    Transition {
                                        next,
                                        request: Request::FetchBytes { url, filename },
                                        reports: no_report(),
                                        warnings: no_report(),
                                    }
                                } else {
                                    let reports = one_report(
                                        Failure::QueryFailed {
                                            target: pending[position].title.clone(),
                                        },
                                    );
                                    Self::turn_to_project(
                                        target,
                                        loader,
                                        mods,
                                        cursor,
                                        pending,
                                        position + 1,
                                        reports,
                                        no_report(),
                                    )
                                }
                            },
                            None => {
                                let reports = one_report(Failure::NoEligibleVersion);
                                Self::turn_to_project(
                                    target,
                                    loader,
                                    mods,
                                    cursor,
                                    pending,
                                    position + 1,
                                    reports,
                                    no_report(),
                                )
                            },
                        }
                    },
                    _ => {
                        let reports = one_report(
                            Failure::QueryFailed { target: pending[position].title.clone() },
                        );
                        Self::turn_to_project(
                            target,
                            loader,
                            mods,
                            cursor,
                            pending,
                            position + 1,
                            reports,
                            no_report(),
                        )
                    },
                }
            },
            Stage::AwaitBytes { file } => {
                match response {
                    Response::Bytes(bytes) => {
                        match acquire(&file, bytes) {
                            Ok(artifact) => {
                                let next = Pipeline {
                                    target,
                                    loader,
                                    mods,
                                    cursor,
                                    pending,
                                    position,
                                    stage: Stage::AwaitWrite,
                                };
                                Transition {
                                    next,
                                    request: Request::WriteFile { artifact },
                                    reports: no_report(),
                                    warnings: no_report(),
                                }
                            },
                            Err(failure) => {
                                let reports = one_report(failure);
                                Self::turn_to_project(
                                    target,
                                    loader,
                                    mods,
                                    cursor,
                                    pending,
                                    position + 1,
                                    reports,
                                    no_report(),
                                )
                            },
                        }
                    },
                    _ => {
                        let reports = one_report(Failure::QueryFailed { target: file.url.clone() });
                        Self::turn_to_project(
                            target,
                            loader,
                            mods,
                            cursor,
                            pending,
                            position + 1,
                            reports,
                            no_report(),
                        )
                    },
                }
            },
            Stage::AwaitWrite => Self::turn_to_project(
                target,
                loader,
                mods,
                cursor,
                pending,
                position + 1,
                no_report(),
                no_report(),
            ),
            Stage::Done => {
                let next = Pipeline {
                    target,
                    loader,
                    mods,
                    cursor,
                    pending,
                    position,
                    stage: Stage::Done,
                };
                Transition {
                    next,
                    request: Request::Finished,
                    reports: no_report(),
                    warnings: no_report(),
                }
            },
        }
    }
}

} // verus!
