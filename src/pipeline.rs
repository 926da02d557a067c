//! The per-request pipeline as a state machine: each step takes the outcome of the work
//! the caller did and says what to do next, and a held workspace is always released
//! before the answer.

use vstd::prelude::*;
use vstd::string::*;

use crate::analysis::{
    analyzer_command, combined_text, exit_failure_text, is_analyzer_command, judge_exit_bytes,
    lossy_text, new_report_path, normalized_path, process_analysis_result, read_failure,
    read_failure_text, report_path_text, start_failure, AnalyzerCommand,
};
use crate::models::{same_but_file, AnalysisResult, AnalysisResultItem, ApiResponse};
use crate::repository::{
    is_revision, manifest_pattern, manifest_pattern_text, new_workspace_path,
    package_name_from_manifest, revision_of, toml_string_at, MetadataError,
};
use crate::utils::is_alphanumeric;
use crate::request::requested_repo;
use crate::storage::{store_error_text, store_key, store_key_text, StoreError};
use crate::text::hex_text;

verus! {

/// HTTP status of a successful analysis.
pub const STATUS_OK: u16 = 200;

/// HTTP status of a request without a repository.
pub const STATUS_BAD_REQUEST: u16 = 400;

/// HTTP status of a failed analysis.
pub const STATUS_SERVER_ERROR: u16 = 500;

/// Where a request stands in its pipeline.
#[derive(Clone, Copy, Debug, PartialEq, Eq, Structural)]
pub enum Stage {
    /// The workspace directory is being created.
    Preparing,
    /// The repository is being cloned into the workspace.
    Fetching,
    /// The manifest is being looked for and read.
    Resolving,
    /// The analyzer is running.
    Analyzing,
    /// The analyzer's report is being read.
    Reading,
    /// The result is being written to the store.
    Storing,
    /// The answer is decided; the workspace is being removed.
    Releasing,
    /// The answer was given.
    Finished,
}

/// The order in which the stages are passed through.
pub open spec fn rank(s: Stage) -> int {
    match s {
        Stage::Preparing => 0,
        Stage::Fetching => 1,
        Stage::Resolving => 2,
        Stage::Analyzing => 3,
        Stage::Reading => 4,
        Stage::Storing => 5,
        Stage::Releasing => 6,
        Stage::Finished => 7,
    }
}

/// An answer to the caller.
#[derive(Clone, Debug)]
pub struct Response {
    pub status: u16,
    pub body: ApiResponse<AnalysisResult>,
}

/// What the manifest search found.
#[derive(Clone, Debug)]
pub enum ManifestSearch {
    /// No file matched the pattern.
    NotFound,
    /// The first match could not be read.
    Unreadable(String),
    /// The text of the first match.
    Read(String),
}

/// How the analyzer process ended.
#[derive(Clone, Debug)]
pub enum AnalyzerExit {
    /// It could not be started.
    NotStarted(String),
    /// It ran: whether it succeeded, its exit code if it has one, and its output.
    Exited { success: bool, code: Option<i32>, stdout: Vec<u8>, stderr: Vec<u8> },
}

/// What became of the analyzer's report file.
#[derive(Clone, Debug)]
pub enum ReportOutcome {
    /// It could not be read.
    Unreadable(String),
    /// It was read but is not a list of findings.
    Unparsable(String),
    /// Its findings, and the time in seconds since the epoch when they were read.
    Parsed { findings: Vec<AnalysisResultItem>, now: i64 },
}

/// What the caller must do next for a request.
#[derive(Clone, Debug)]
pub enum Action {
    /// Remove `path` if it exists, then create it.
    PrepareWorkspace { path: String },
    /// Clone `url` with depth one into `path` and report the id of its HEAD commit.
    Fetch { url: String, path: String },
    /// Look for a manifest matching `pattern` and read the first one found.
    FindManifest { pattern: String },
    /// Run the analyzer as `command` says.
    RunAnalyzer { command: AnalyzerCommand },
    /// Read the report at `path`, delete it, and parse its findings.
    ReadReport { path: String },
    /// Write the serialized result under `key`, overwriting what is there.
    Store { key: String },
    /// Remove the workspace at `path`; a failure is only logged.
    Release { path: String },
    /// Give this answer; the request is done.
    Respond { response: Response },
}

/// Whether `r` is the failed answer with `status` and the error text `msg`.
pub open spec fn is_error_response(r: Response, status: u16, msg: Seq<char>) -> bool {
    &&& r.status == status
    &&& !r.body.success
    &&& r.body.message is None
    &&& r.body.data is None
    &&& r.body.error matches Some(e) && e@ == msg
}

/// One request's pipeline: the state between the steps the caller carries out.
pub struct Pipeline {
    pub stage: Stage,
    /// The repository identifier, exactly as requested.
    pub repo: String,
    /// The workspace, while it is held.
    pub workspace: Option<String>,
    /// The revision of the fetched HEAD.
    pub commit: String,
    pub package_name: String,
    /// Both output streams of the analyzer, for diagnostics.
    pub combined: String,
    /// The analyzer's report file.
    pub report: String,
    /// The assembled result, until it is answered.
    pub result: Option<AnalysisResult>,
    /// The decided answer, while the workspace is released.
    pub response: Option<Response>,
}

/// Whether a step keeps the workspace guarantee: it answers only once no workspace
/// is held, it issues a release only for the workspace held, and a held workspace
/// is forgotten only by the step after its release.
pub open spec fn guards_workspace(before: Pipeline, after: Pipeline, a: Action) -> bool {
    &&& (a is Respond ==> after.workspace is None && after.stage == Stage::Finished)
    &&& match a {
        Action::Release { path } => after.stage == Stage::Releasing && after.workspace == Some(path),
        _ => true,
    }
    &&& ((before.workspace is Some && before.stage != Stage::Releasing) ==> after.workspace
        == before.workspace)
    &&& ((before.stage != Stage::Releasing && after.stage == Stage::Releasing) ==> a is Release)
    &&& rank(before.stage) < rank(after.stage)
}

/// Whether a step failed the request with `msg`: the answer is decided and the
/// held workspace is released first.
pub open spec fn fails_with(before: Pipeline, after: Pipeline, a: Action, msg: Seq<char>) -> bool {
    &&& after.stage == Stage::Releasing
    &&& after.workspace == before.workspace
    &&& (after.response matches Some(r) && is_error_response(r, STATUS_SERVER_ERROR, msg))
    &&& a == (Action::Release { path: before.workspace->0 })
}

/// Whether a step moved on to `stage` with nothing but the named fields changed.
pub open spec fn moves_to(before: Pipeline, after: Pipeline, stage: Stage) -> bool {
    &&& after.stage == stage
    &&& after.repo == before.repo
    &&& after.commit == before.commit
    &&& after.workspace == before.workspace
    &&& after.response == before.response
}

impl Pipeline {
    /// The pipeline's invariant.
    pub open spec fn wf(self) -> bool {
        &&& (self.stage == Stage::Finished) == (self.workspace is None)
        &&& (self.stage == Stage::Releasing) ==> self.response is Some
        &&& (self.stage != Stage::Releasing && self.stage != Stage::Finished) ==> self.response is None
        &&& rank(self.stage) >= 2 && rank(self.stage) <= 5 ==> is_revision(self.commit@)
        &&& self.stage == Stage::Storing ==> (self.result matches Some(d) && d.commit == self.commit)
        &&& self.response matches Some(r) ==> (r.body.data matches Some(d) ==> (d.commit == self.commit
            && is_revision(d.commit@)))
    }

    fn empty(stage: Stage, repo: String, workspace: Option<String>, response: Option<Response>) -> (r: Pipeline)
        ensures
            r.stage == stage,
            r.repo == repo,
            r.workspace == workspace,
            r.response == response,
            r.result is None,
    {
        Pipeline {
            stage,
            repo,
            workspace,
            commit: String::new(),
            package_name: String::new(),
            combined: String::new(),
            report: String::new(),
            result: None,
            response,
        }
    }

    /// Starts a request for the URI `uri`. Without a `repo` query parameter it is
    /// answered at once as a client error; otherwise a fresh workspace is named
    /// and must be prepared.
    pub fn start(uri: &str) -> (r: (Pipeline, Action))
        ensures
            r.0.wf(),
            match requested_repo_spec(uri@) {
                None => r.0.stage == Stage::Finished && r.0.workspace is None && (r.1 matches Action::Respond { response } && is_error_response(
                    response,
                    STATUS_BAD_REQUEST,
                    "repo query parameter is required"@,
                )),
                Some(repo) => r.0.stage == Stage::Preparing && r.0.repo@ == repo && r.0.workspace is Some
                    && r.1 == (Action::PrepareWorkspace { path: r.0.workspace->0 }),
            },
    {
        match requested_repo(uri) {
            None => {
                let response = Response {
                    status: STATUS_BAD_REQUEST,
                    body: ApiResponse::failure(String::from_str("repo query parameter is required")),
                };
                (Pipeline::empty(Stage::Finished, String::new(), None, None), Action::Respond { response })
            },
            Some(repo) => {
                let path = new_workspace_path();
                let p = Pipeline::empty(Stage::Preparing, repo, Some(path.clone()), None);
                (p, Action::PrepareWorkspace { path })
            },
        }
    }

    fn workspace_path(&self) -> (r: String)
        requires
            self.workspace is Some,
        ensures
            r == self.workspace->0,
    {
        self.workspace.as_ref().unwrap().clone()
    }

    /// Decides the failed answer `msg` and asks for the workspace to be released.
    fn fail(&mut self, msg: String) -> (a: Action)
        requires
            old(self).wf(),
            old(self).workspace is Some,
            rank(old(self).stage) < 6,
        ensures
            final(self).wf(),
            fails_with(*old(self), *final(self), a, msg@),
            guards_workspace(*old(self), *final(self), a),
    {
        self.response = Some(Response { status: STATUS_SERVER_ERROR, body: ApiResponse::failure(msg) });
        self.stage = Stage::Releasing;
        Action::Release { path: self.workspace_path() }
    }

    /// The workspace was prepared, or could not be: fetch the repository into it,
    /// or fail the request.
    pub fn on_workspace_prepared(&mut self, outcome: Result<(), String>) -> (a: Action)
        requires
            old(self).wf(),
            old(self).stage == Stage::Preparing,
        ensures
            final(self).wf(),
            guards_workspace(*old(self), *final(self), a),
            match outcome {
                Ok(_) => moves_to(*old(self), *final(self), Stage::Fetching) && a == (Action::Fetch {
                    url: old(self).repo,
                    path: old(self).workspace->0,
                }),
                Err(e) => fails_with(*old(self), *final(self), a, "Failed to clone repository: "@ + e@),
            },
    {
        match outcome {
            Ok(()) => {
                self.stage = Stage::Fetching;
                Action::Fetch { url: self.repo.clone(), path: self.workspace_path() }
            },
            Err(e) => self.fail(String::from_str("Failed to clone repository: ").concat(e.as_str())),
        }
    }

    /// The clone finished with the id of its HEAD commit, or failed: look for the
    /// manifest, or fail the request. An id that is not twenty bytes long names no
    /// commit.
    pub fn on_fetched(&mut self, head: Result<Vec<u8>, String>) -> (a: Action)
        requires
            old(self).wf(),
            old(self).stage == Stage::Fetching,
        ensures
            final(self).wf(),
            guards_workspace(*old(self), *final(self), a),
            match head {
                Ok(id) => if id@.len() == 20 {
                    &&& final(self).stage == Stage::Resolving
                    &&& final(self).repo == old(self).repo
                    &&& final(self).workspace == old(self).workspace
                    &&& final(self).response == old(self).response
                    &&& final(self).commit@ == hex_text(id@)
                    &&& a matches Action::FindManifest { pattern } && pattern@ == manifest_pattern_text(
                        old(self).workspace->0@,
                    )
                } else {
                    fails_with(*old(self), *final(self), a, "Failed to clone repository: HEAD does not name a commit"@)
                },
                Err(e) => fails_with(*old(self), *final(self), a, "Failed to clone repository: "@ + e@),
            },
    {
        match head {
            Ok(id) => match revision_of(id.as_slice()) {
                Some(commit) => {
                    self.commit = commit;
                    self.stage = Stage::Resolving;
                    let path = self.workspace_path();
                    Action::FindManifest { pattern: manifest_pattern(path.as_str()) }
                },
                None => self.fail(String::from_str("Failed to clone repository: HEAD does not name a commit")),
            },
            Err(e) => self.fail(String::from_str("Failed to clone repository: ").concat(e.as_str())),
        }
    }

    /// The manifest search ended: run the analyzer once the package name is
    /// known, or fail the request.
    pub fn on_manifest(&mut self, search: ManifestSearch) -> (a: Action)
        requires
            old(self).wf(),
            old(self).stage == Stage::Resolving,
        ensures
            final(self).wf(),
            guards_workspace(*old(self), *final(self), a),
            match search {
                ManifestSearch::NotFound => fails_with(*old(self), *final(self), a,
                    "Failed to find package name: "@ + "No cjpm.toml found"@),
                ManifestSearch::Unreadable(e) => fails_with(*old(self), *final(self), a,
                    "Failed to find package name: "@ + ("Failed to read cjpm.toml: "@ + e@)),
                ManifestSearch::Read(content) => match toml_string_at(content@, "package"@, "name"@) {
                    None => exists|d: Seq<char>| fails_with(*old(self), *final(self), a,
                        "Failed to find package name: "@ + ("Failed to parse TOML: "@ + d)),
                    Some(None) => fails_with(*old(self), *final(self), a,
                        "Failed to find package name: "@ + "package.name not found in cjpm.toml"@),
                    Some(Some(name)) => {
                        &&& moves_to(*old(self), *final(self), Stage::Analyzing)
                        &&& final(self).package_name@ == name
                        &&& exists|s: Seq<char>| s.len() == 10 && (forall|i: int| 0 <= i < 10 ==> is_alphanumeric(#[trigger] s[i]))
                            && final(self).report@ == report_path_text(s)
                        &&& a matches Action::RunAnalyzer { command } && is_analyzer_command(
                            command,
                            old(self).workspace->0@,
                            final(self).report@,
                        )
                    },
                },
            },
    {
        let path = self.workspace_path();
        let resolved = match search {
            ManifestSearch::NotFound => Err(MetadataError::NotFound { pattern: manifest_pattern(path.as_str()) }),
            ManifestSearch::Unreadable(e) => Err(MetadataError::Unreadable(e)),
            ManifestSearch::Read(content) => package_name_from_manifest(content.as_str()),
        };
        match resolved {
            Ok(name) => {
                self.package_name = name;
                self.report = new_report_path();
                self.stage = Stage::Analyzing;
                Action::RunAnalyzer { command: analyzer_command(path.as_str(), self.report.as_str()) }
            },
            Err(e) => self.fail(String::from_str("Failed to find package name: ").concat(e.message().as_str())),
        }
    }

    /// The analyzer ended: read its report if it succeeded, or fail the request
    /// with its exit code and both output streams.
    pub fn on_analyzer_exit(&mut self, exit: AnalyzerExit) -> (a: Action)
        requires
            old(self).wf(),
            old(self).stage == Stage::Analyzing,
        ensures
            final(self).wf(),
            guards_workspace(*old(self), *final(self), a),
            match exit {
                AnalyzerExit::NotStarted(e) => fails_with(*old(self), *final(self), a,
                    "Failed to run cjlint: "@ + ("Failed to execute cjlint: "@ + e@)),
                AnalyzerExit::Exited { success, code, stdout, stderr } => {
                    let combined = combined_text(lossy_text(stdout@), lossy_text(stderr@));
                    if success {
                        &&& moves_to(*old(self), *final(self), Stage::Reading)
                        &&& final(self).package_name == old(self).package_name
                        &&& final(self).combined@ == combined
                        &&& a == (Action::ReadReport { path: old(self).report })
                    } else {
                        fails_with(*old(self), *final(self), a,
                            "Failed to run cjlint: "@ + exit_failure_text(code, combined))
                    }
                },
            },
    {
        match exit {
            AnalyzerExit::NotStarted(e) => {
                let m = start_failure(e.as_str());
                self.fail(String::from_str("Failed to run cjlint: ").concat(m.as_str()))
            },
            AnalyzerExit::Exited { success, code, stdout, stderr } => {
                match judge_exit_bytes(success, code, stdout.as_slice(), stderr.as_slice()) {
                    Ok(combined) => {
                        self.combined = combined;
                        self.stage = Stage::Reading;
                        Action::ReadReport { path: self.report.clone() }
                    },
                    Err(m) => self.fail(String::from_str("Failed to run cjlint: ").concat(m.as_str())),
                }
            },
        }
    }

    /// The report was read: assemble the result with its paths made relative to
    /// the workspace and store it, or fail the request.
    pub fn on_report(&mut self, outcome: ReportOutcome) -> (a: Action)
        requires
            old(self).wf(),
            old(self).stage == Stage::Reading,
        ensures
            final(self).wf(),
            guards_workspace(*old(self), *final(self), a),
            match outcome {
                ReportOutcome::Unreadable(e) => fails_with(*old(self), *final(self), a,
                    "Failed to run cjlint: "@ + read_failure_text(e@, old(self).combined@)),
                ReportOutcome::Unparsable(e) => fails_with(*old(self), *final(self), a,
                    "Failed to parse cjlint output: "@ + e@),
                ReportOutcome::Parsed { findings, now } => {
                    &&& moves_to(*old(self), *final(self), Stage::Storing)
                    &&& (final(self).result matches Some(d) && {
                        &&& d.created_at == now
                        &&& d.commit == old(self).commit
                        &&& d.package_name == old(self).package_name
                        &&& d.cjlint@.len() == findings@.len()
                        &&& forall|i: int| 0 <= i < findings@.len() ==> {
                            &&& (#[trigger] d.cjlint@[i]).file@ == normalized_path(
                                findings@[i].file@,
                                old(self).workspace->0@,
                            )
                            &&& same_but_file(findings@[i], d.cjlint@[i])
                        }
                    })
                    &&& a matches Action::Store { key } && key@ == store_key_text(old(self).repo@)
                },
            },
    {
        match outcome {
            ReportOutcome::Unreadable(e) => {
                let m = read_failure(e.as_str(), self.combined.as_str());
                self.fail(String::from_str("Failed to run cjlint: ").concat(m.as_str()))
            },
            ReportOutcome::Unparsable(e) => {
                self.fail(String::from_str("Failed to parse cjlint output: ").concat(e.as_str()))
            },
            ReportOutcome::Parsed { findings, now } => {
                let path = self.workspace_path();
                let result = AnalysisResult {
                    cjlint: process_analysis_result(findings, path.as_str()),
                    created_at: now,
                    commit: self.commit.clone(),
                    package_name: self.package_name.clone(),
                };
                self.result = Some(result);
                self.stage = Stage::Storing;
                Action::Store { key: store_key(self.repo.as_str()) }
            },
        }
    }

    /// The store write ended: answer with the result once the workspace is
    /// released, or fail the request.
    pub fn on_stored(&mut self, outcome: Result<(), StoreError>) -> (a: Action)
        requires
            old(self).wf(),
            old(self).stage == Stage::Storing,
        ensures
            final(self).wf(),
            guards_workspace(*old(self), *final(self), a),
            match outcome {
                Err(e) => fails_with(*old(self), *final(self), a, "Failed to save to Redis: "@ + store_error_text(e)),
                Ok(_) => {
                    &&& final(self).stage == Stage::Releasing
                    &&& final(self).workspace == old(self).workspace
                    &&& final(self).commit == old(self).commit
                    &&& (final(self).response matches Some(r) && {
                        &&& r.status == STATUS_OK
                        &&& r.body.success
                        &&& (r.body.message matches Some(m) && m@ == "Analysis completed successfully"@)
                        &&& r.body.data == old(self).result
                        &&& r.body.error is None
                    })
                    &&& a == (Action::Release { path: old(self).workspace->0 })
                },
            },
    {
        match outcome {
            Err(e) => self.fail(String::from_str("Failed to save to Redis: ").concat(e.message().as_str())),
            Ok(()) => {
                let data = self.result.take().unwrap();
                let body = ApiResponse::succeeded(String::from_str("Analysis completed successfully"), data);
                self.response = Some(Response { status: STATUS_OK, body });
                self.stage = Stage::Releasing;
                Action::Release { path: self.workspace_path() }
            },
        }
    }

    /// The workspace was removed (a failure to remove it is only logged): give the
    /// decided answer.
    pub fn on_released(&mut self) -> (a: Action)
        requires
            old(self).wf(),
            old(self).stage == Stage::Releasing,
        ensures
            final(self).wf(),
            guards_workspace(*old(self), *final(self), a),
            (final(self).workspace is None),
            final(self).commit == old(self).commit,
            a == (Action::Respond { response: old(self).response->0 }),
    {
        let response = self.response.take().unwrap();
        self.workspace = None;
        self.stage = Stage::Finished;
        Action::Respond { response }
    }
}

/// An answer that carries a result names the revision recorded when HEAD was
/// fetched, and that revision is forty lower-case hexadecimal digits.
pub proof fn lemma_answered_commit_is_revision(p: Pipeline)
    requires
        p.wf(),
        p.response matches Some(r) && r.body.data is Some,
    ensures
        p.response->0.body.data->0.commit == p.commit,
        is_revision(p.response->0.body.data->0.commit@),
{
}

/// In any run of steps that keep the workspace guarantee, a workspace held at the
/// start, before its release was decided, is released before the request is answered.
pub proof fn lemma_release_precedes_answer(states: Seq<Pipeline>, actions: Seq<Action>)
    requires
        states.len() == actions.len() + 1,
        forall|i: int|
            0 <= i < actions.len() ==> guards_workspace(
                #[trigger] states[i],
                states[i + 1],
                actions[i],
            ),
        states[0].workspace is Some,
        states[0].stage != Stage::Releasing,
        actions.len() > 0,
        actions.last() is Respond,
    ensures
        exists|i: int|
            0 <= i < actions.len() - 1 && actions[i] == (Action::Release {
                path: states[0].workspace->0,
            }),
    decreases actions.len(),
{
    assert(guards_workspace(states[0], states[1], actions[0]));
    if states[1].stage == Stage::Releasing {
        assert(actions[0] == (Action::Release { path: states[0].workspace->0 }));
    } else {
        let rest_s = states.skip(1);
        let rest_a = actions.skip(1);
        assert(actions.len() > 1);
        assert forall|i: int| 0 <= i < rest_a.len() implies guards_workspace(
            #[trigger] rest_s[i],
            rest_s[i + 1],
            rest_a[i],
        ) by {
            assert(guards_workspace(states[i + 1], states[i + 2], actions[i + 1]));
        }
        assert(rest_a.last() == actions.last());
        lemma_release_precedes_answer(rest_s, rest_a);
        let j = choose|j: int|
            0 <= j < rest_a.len() - 1 && rest_a[j] == (Action::Release {
                path: rest_s[0].workspace->0,
            });
        assert(actions[j + 1] == rest_a[j]);
    }
}

/// The repository that a request URI names, as `requested_repo` finds it.
pub open spec fn requested_repo_spec(uri: Seq<char>) -> Option<Seq<char>> {
    match crate::request::url_query_pairs(uri) {
        None => None,
        Some(ps) => crate::request::last_value(ps, "repo"@),
    }
}

} // verus!
