//! The `git_log` tool as a sequence of questions to the runtime.
//!
//! Running a process, resolving a project, checking the exact form of a commit id and
//! rendering a proposed call are the runtime's. What to ask, in which order, and what
//! each reply leads to is decided here: a session asks one question at a time, and
//! each reply gives the next question or the answer of the tool.

use vstd::prelude::*;

use crate::git_log::{
    commits_model, git_log_args, git_log_next_skip, log_args, next_page_skip,
    normalize_git_log_limit, normalize_git_log_skip, page_limit, page_skip, parse_git_log_commits,
    read_page, GitCommit, GitCommitModel,
};
use crate::git_process::{completed_git_process, process_of, GitProcessModel, GitProcessOutput};
use crate::json::{empty_object, items_model, text_array, text_or_null, Json, JsonModel};
use crate::rule::{accepted, is_rule};
use crate::text::{same_text, strings, trim_text, trimmed, Margin};
use crate::tool_result::{
    failure, optional_text, success, SuggestedToolCall, SuggestedToolCallModel, ToolResult,
    ToolResultModel,
};

verus! {

/// How many seconds a `git` process may take.
pub const GIT_TIMEOUT_SECS: u64 = 30;

/// A request for a page of the log.
#[derive(Debug, PartialEq, Eq)]
pub struct GitLogRequest {
    pub project: String,
    pub head_commit: Option<String>,
    pub limit: Option<usize>,
    pub skip: Option<usize>,
    pub session_id: Option<String>,
}

/// What a request holds.
#[verifier::ext_equal]
pub struct GitLogRequestModel {
    pub project: Seq<char>,
    pub head_commit: Option<Seq<char>>,
    pub limit: Option<usize>,
    pub skip: Option<usize>,
    pub session_id: Option<Seq<char>>,
}

impl View for GitLogRequest {
    type V = GitLogRequestModel;

    open spec fn view(&self) -> GitLogRequestModel {
        GitLogRequestModel {
            project: self.project@,
            head_commit: optional_text(self.head_commit),
            limit: self.limit,
            skip: self.skip,
            session_id: optional_text(self.session_id),
        }
    }
}

/// A process for the runtime to run.
#[derive(Debug, PartialEq, Eq)]
pub struct ProcessRequest {
    pub project: String,
    pub program: String,
    pub args: Vec<String>,
    pub timeout_secs: u64,
}

/// What a process request holds.
#[verifier::ext_equal]
pub struct ProcessRequestModel {
    pub project: Seq<char>,
    pub program: Seq<char>,
    pub args: Seq<Seq<char>>,
    pub timeout_secs: u64,
}

impl View for ProcessRequest {
    type V = ProcessRequestModel;

    open spec fn view(&self) -> ProcessRequestModel {
        ProcessRequestModel {
            project: self.project@,
            program: self.program@,
            args: strings(self.args@),
            timeout_secs: self.timeout_secs,
        }
    }
}

/// What a session asks of the runtime.
#[derive(Debug, PartialEq, Eq)]
pub enum Question {
    /// Is this text an exact commit id, and what is its normal form?
    CommitId(String),
    /// Which project does this name stand for?
    Project(String),
    /// What does this process give?
    Process(ProcessRequest),
    /// How does this proposed call read in a result?
    SuggestedCall(SuggestedToolCall),
}

/// What a question holds.
pub enum QuestionModel {
    CommitId(Seq<char>),
    Project(Seq<char>),
    Process(ProcessRequestModel),
    SuggestedCall(SuggestedToolCallModel),
}

impl View for Question {
    type V = QuestionModel;

    open spec fn view(&self) -> QuestionModel {
        match *self {
            Question::CommitId(text) => QuestionModel::CommitId(text@),
            Question::Project(name) => QuestionModel::Project(name@),
            Question::Process(request) => QuestionModel::Process(request@),
            Question::SuggestedCall(call) => QuestionModel::SuggestedCall(call@),
        }
    }
}

/// What the runtime replies.
#[derive(Debug, PartialEq, Eq)]
pub enum Reply {
    /// The normal form of the commit id, or the kind of error.
    CommitId(Result<String, String>),
    /// The id of the project, or why there is none.
    Project(Result<String, String>),
    /// The result of the process.
    Process(ToolResult),
    /// The proposed call as a result shows it.
    SuggestedCall(Json),
}

/// What a reply holds.
pub enum ReplyModel {
    CommitId(Result<Seq<char>, Seq<char>>),
    Project(Result<Seq<char>, Seq<char>>),
    Process(ToolResultModel),
    SuggestedCall(JsonModel),
}

/// The texts in a result of two strings.
pub open spec fn text_result(r: Result<String, String>) -> Result<Seq<char>, Seq<char>> {
    match r {
        Ok(s) => Ok(s@),
        Err(s) => Err(s@),
    }
}

impl View for Reply {
    type V = ReplyModel;

    open spec fn view(&self) -> ReplyModel {
        match *self {
            Reply::CommitId(r) => ReplyModel::CommitId(text_result(r)),
            Reply::Project(r) => ReplyModel::Project(text_result(r)),
            Reply::Process(r) => ReplyModel::Process(r@),
            Reply::SuggestedCall(j) => ReplyModel::SuggestedCall(j@),
        }
    }
}

/// How far a session has come: what its open question is for.
#[derive(Debug, PartialEq, Eq)]
pub enum Phase {
    /// Is the requested head an exact commit id?
    RequestedHead,
    /// Which project is meant?
    Resolving { requested: Option<String> },
    /// Is the requested head a commit of the project?
    ObjectType { project: String, head: String },
    /// What is the commit at `HEAD`?
    CurrentHead { project: String },
    /// Is what `HEAD` gave an exact commit id?
    CurrentHeadId { project: String },
    /// Which branch does `HEAD` name, now that it gives no commit?
    SymbolicHead { project: String },
    /// Does that branch exist?
    BranchExists { project: String },
    /// What does the log say, from that commit?
    Log { project: String, snapshot: String },
    /// How does the proposed call for the next page read?
    NextPage { payload: Json },
}

/// How far a session has come, with its texts as sequences.
pub enum PhaseModel {
    RequestedHead,
    Resolving { requested: Option<Seq<char>> },
    ObjectType { project: Seq<char>, head: Seq<char> },
    CurrentHead { project: Seq<char> },
    CurrentHeadId { project: Seq<char> },
    SymbolicHead { project: Seq<char> },
    BranchExists { project: Seq<char> },
    Log { project: Seq<char>, snapshot: Seq<char> },
    NextPage { payload: JsonModel },
}

impl View for Phase {
    type V = PhaseModel;

    open spec fn view(&self) -> PhaseModel {
        match *self {
            Phase::RequestedHead => PhaseModel::RequestedHead,
            Phase::Resolving { requested } => PhaseModel::Resolving {
                requested: optional_text(requested),
            },
            Phase::ObjectType { project, head } => PhaseModel::ObjectType {
                project: project@,
                head: head@,
            },
            Phase::CurrentHead { project } => PhaseModel::CurrentHead { project: project@ },
            Phase::CurrentHeadId { project } => PhaseModel::CurrentHeadId { project: project@ },
            Phase::SymbolicHead { project } => PhaseModel::SymbolicHead { project: project@ },
            Phase::BranchExists { project } => PhaseModel::BranchExists { project: project@ },
            Phase::Log { project, snapshot } => PhaseModel::Log {
                project: project@,
                snapshot: snapshot@,
            },
            Phase::NextPage { payload } => PhaseModel::NextPage { payload: payload@ },
        }
    }
}

/// What of the request stays in view to the end.
#[derive(Debug, PartialEq, Eq)]
pub struct Page {
    /// The project as the request names it.
    pub project: String,
    pub limit: usize,
    pub skip: usize,
    pub session_id: Option<String>,
}

/// What a page holds.
#[verifier::ext_equal]
pub struct PageModel {
    pub project: Seq<char>,
    pub limit: nat,
    pub skip: nat,
    pub session_id: Option<Seq<char>>,
}

impl View for Page {
    type V = PageModel;

    open spec fn view(&self) -> PageModel {
        PageModel {
            project: self.project@,
            limit: self.limit as nat,
            skip: self.skip as nat,
            session_id: optional_text(self.session_id),
        }
    }
}

/// A session with an open question.
#[derive(Debug, PartialEq, Eq)]
pub struct GitLogSession {
    pub page: Page,
    pub phase: Phase,
}

/// What a session holds.
pub struct GitLogSessionModel {
    pub page: PageModel,
    pub phase: PhaseModel,
}

impl View for GitLogSession {
    type V = GitLogSessionModel;

    open spec fn view(&self) -> GitLogSessionModel {
        GitLogSessionModel { page: self.page@, phase: self.phase@ }
    }
}

/// What comes next.
#[derive(Debug, PartialEq, Eq)]
pub enum Step {
    /// A question; the session goes on with the reply.
    Ask(GitLogSession, Question),
    /// The answer of the tool.
    Answer(ToolResult),
    /// The project is not known: the answer is that failure, with this message and
    /// without an output of the tool's own.
    Unresolved(String),
}

/// What a step holds.
pub enum StepModel {
    Ask(GitLogSessionModel, QuestionModel),
    Answer(ToolResultModel),
    Unresolved(Seq<char>),
}

impl View for Step {
    type V = StepModel;

    open spec fn view(&self) -> StepModel {
        match *self {
            Step::Ask(session, question) => StepModel::Ask(session@, question@),
            Step::Answer(result) => StepModel::Answer(result@),
            Step::Unresolved(error) => StepModel::Unresolved(error@),
        }
    }
}

/// The output of a failure that changed nothing.
pub open spec fn unchanged_output(project: Seq<char>, kind: Seq<char>) -> JsonModel {
    empty_object().with("project"@, JsonModel::Text(project)).with(
        "error_kind"@,
        JsonModel::Text(kind),
    ).with("state_changed"@, JsonModel::Bool(false))
}

/// The answer where a source could not be read in full.
pub open spec fn incomplete(project: Seq<char>, message: Seq<char>) -> ToolResultModel {
    failure(message, unchanged_output(project, "source_incomplete"@))
}

/// The answer where no commit can be named to read the log from.
pub open spec fn unavailable(project: Seq<char>, head: Option<Seq<char>>) -> ToolResultModel {
    failure(
        "git log snapshot is unavailable"@,
        empty_object().with("project"@, JsonModel::Text(project)).with(
            "head_commit"@,
            text_or_null(head),
        ).with("error_kind"@, JsonModel::Text("snapshot_unavailable"@)).with(
            "state_changed"@,
            JsonModel::Bool(false),
        ),
    )
}

/// A commit as the answer shows it.
pub open spec fn commit_json(c: GitCommitModel) -> JsonModel {
    empty_object().with("hash"@, JsonModel::Text(c.hash)).with(
        "short_hash"@,
        JsonModel::Text(c.short_hash),
    ).with("subject"@, JsonModel::Text(c.subject)).with(
        "author_name"@,
        JsonModel::Text(c.author_name),
    ).with("author_email"@, JsonModel::Text(c.author_email)).with(
        "author_date"@,
        JsonModel::Text(c.author_date),
    ).with("refs"@, text_array(c.refs))
}

/// A page as the answer shows it.
pub open spec fn page_output(
    page: PageModel,
    head: Option<Seq<char>>,
    commits: Seq<GitCommitModel>,
    truncated: bool,
    next_skip: Option<usize>,
) -> JsonModel {
    empty_object().with("project"@, JsonModel::Text(page.project)).with(
        "head_commit"@,
        text_or_null(head),
    ).with("limit"@, JsonModel::Integer(page.limit as int)).with(
        "skip"@,
        JsonModel::Integer(page.skip as int),
    ).with("count"@, JsonModel::Integer(commits.len() as int)).with(
        "truncated"@,
        JsonModel::Bool(truncated),
    ).with(
        "next_skip"@,
        match next_skip {
            Some(n) => JsonModel::Integer(n as int),
            None => JsonModel::Null,
        },
    ).with(
        "commits"@,
        JsonModel::Array(commits.map_values(|c: GitCommitModel| commit_json(c))),
    )
}

/// The answer of a project without commits.
pub open spec fn empty_page(page: PageModel) -> ToolResultModel {
    success(page_output(page, None, seq![], false, None))
}

/// The answer where `git log` itself failed.
pub open spec fn log_failed(
    page: PageModel,
    snapshot: Seq<char>,
    process: GitProcessModel,
) -> ToolResultModel {
    failure(
        "git log failed"@,
        empty_object().with("project"@, JsonModel::Text(page.project)).with(
            "head_commit"@,
            JsonModel::Text(snapshot),
        ).with("limit"@, JsonModel::Integer(page.limit as int)).with(
            "skip"@,
            JsonModel::Integer(page.skip as int),
        ).with("exit_code"@, JsonModel::Integer(process.exit_code)).with(
            "stderr"@,
            JsonModel::Text(process.stderr),
        ),
    )
}

/// The call that gives the next page: the same head and limit, further on.
pub open spec fn next_page_call(
    project: Seq<char>,
    head_commit: Seq<char>,
    limit: nat,
    next_skip: nat,
    session_id: Option<Seq<char>>,
) -> SuggestedToolCallModel {
    let arguments = empty_object().with("project"@, JsonModel::Text(project)).with(
        "head_commit"@,
        JsonModel::Text(head_commit),
    ).with("limit"@, JsonModel::Integer(limit as int)).with(
        "skip"@,
        JsonModel::Integer(next_skip as int),
    );
    SuggestedToolCallModel {
        tool: "git_log"@,
        arguments: match session_id {
            Some(id) => arguments.with("session_id"@, JsonModel::Text(id)),
            None => arguments,
        },
    }
}

/// The question what `git` with these arguments gives.
pub open spec fn git_question(project: Seq<char>, args: Seq<Seq<char>>) -> QuestionModel {
    QuestionModel::Process(
        ProcessRequestModel {
            project,
            program: "git"@,
            args,
            timeout_secs: GIT_TIMEOUT_SECS,
        },
    )
}

/// A text without the white space at its ends.
pub open spec fn bare(text: Seq<char>) -> Seq<char> {
    trimmed(text, Margin::WhiteSpace)
}

/// Asking which project is meant.
pub open spec fn ask_project(page: PageModel, head: Option<Seq<char>>) -> StepModel {
    StepModel::Ask(
        GitLogSessionModel { page, phase: PhaseModel::Resolving { requested: head } },
        QuestionModel::Project(page.project),
    )
}

/// Asking `git` for the log from that commit.
pub open spec fn ask_log(page: PageModel, project: Seq<char>, snapshot: Seq<char>) -> StepModel {
    StepModel::Ask(
        GitLogSessionModel { page, phase: PhaseModel::Log { project, snapshot } },
        git_question(project, log_args(snapshot, page.limit, page.skip)),
    )
}

/// The first step of a request.
pub open spec fn first_step(request: GitLogRequestModel) -> StepModel {
    let page = PageModel {
        project: request.project,
        limit: page_limit(request.limit) as nat,
        skip: page_skip(request.skip) as nat,
        session_id: request.session_id,
    };
    match request.head_commit {
        Some(text) => StepModel::Ask(
            GitLogSessionModel { page, phase: PhaseModel::RequestedHead },
            QuestionModel::CommitId(text),
        ),
        None => ask_project(page, None),
    }
}

/// After the check of the requested head.
pub open spec fn after_requested_head(
    page: PageModel,
    id: Result<Seq<char>, Seq<char>>,
) -> StepModel {
    match id {
        Ok(id) => ask_project(page, Some(id)),
        Err(kind) => StepModel::Answer(
            failure("git_log failed: "@ + kind, unchanged_output(page.project, kind)),
        ),
    }
}

/// After the resolution of the project.
pub open spec fn after_project(
    page: PageModel,
    head: Option<Seq<char>>,
    resolved: Result<Seq<char>, Seq<char>>,
) -> StepModel {
    match resolved {
        Err(error) => StepModel::Unresolved(error),
        Ok(project) => match head {
            Some(head) => StepModel::Ask(
                GitLogSessionModel { page, phase: PhaseModel::ObjectType { project, head } },
                git_question(project, seq!["cat-file"@, "-t"@, head]),
            ),
            None => StepModel::Ask(
                GitLogSessionModel { page, phase: PhaseModel::CurrentHead { project } },
                git_question(project, seq!["rev-parse"@, "--verify"@, "HEAD^{commit}"@]),
            ),
        },
    }
}

/// After a process that has to be read in full: the answer where it cannot be, else
/// what it left.
pub open spec fn whole_process(
    page: PageModel,
    result: ToolResultModel,
    message: Seq<char>,
) -> Result<GitProcessModel, ToolResultModel> {
    match process_of(result) {
        Err(failed) => Err(failed),
        Ok(process) => if process.stdout_truncated {
            Err(incomplete(page.project, message))
        } else {
            Ok(process)
        },
    }
}

/// After the type of the requested head.
pub open spec fn after_object_type(
    page: PageModel,
    project: Seq<char>,
    head: Seq<char>,
    result: ToolResultModel,
) -> StepModel {
    match whole_process(page, result, "git object type result is incomplete"@) {
        Err(failed) => StepModel::Answer(failed),
        Ok(process) => if process.exit_code == 0 && bare(process.stdout) == "commit"@ {
            ask_log(page, project, head)
        } else {
            StepModel::Answer(unavailable(page.project, Some(head)))
        },
    }
}

/// After the commit at `HEAD`.
pub open spec fn after_current_head(
    page: PageModel,
    project: Seq<char>,
    result: ToolResultModel,
) -> StepModel {
    match whole_process(page, result, "git HEAD result is incomplete"@) {
        Err(failed) => StepModel::Answer(failed),
        Ok(process) => if process.exit_code == 0 {
            StepModel::Ask(
                GitLogSessionModel { page, phase: PhaseModel::CurrentHeadId { project } },
                QuestionModel::CommitId(bare(process.stdout)),
            )
        } else {
            StepModel::Ask(
                GitLogSessionModel { page, phase: PhaseModel::SymbolicHead { project } },
                git_question(project, seq!["symbolic-ref"@, "-q"@, "HEAD"@]),
            )
        },
    }
}

/// After the check of what `HEAD` gave.
pub open spec fn after_current_head_id(
    page: PageModel,
    project: Seq<char>,
    id: Result<Seq<char>, Seq<char>>,
) -> StepModel {
    match id {
        Ok(snapshot) => ask_log(page, project, snapshot),
        Err(_) => StepModel::Answer(unavailable(page.project, None)),
    }
}

/// After the name of the branch at `HEAD`.
pub open spec fn after_symbolic_head(
    page: PageModel,
    project: Seq<char>,
    result: ToolResultModel,
) -> StepModel {
    match whole_process(page, result, "git symbolic HEAD result is incomplete"@) {
        Err(failed) => StepModel::Answer(failed),
        Ok(process) => if process.exit_code != 0 || bare(process.stdout).len() == 0 {
            StepModel::Answer(unavailable(page.project, None))
        } else {
            StepModel::Ask(
                GitLogSessionModel { page, phase: PhaseModel::BranchExists { project } },
                git_question(
                    project,
                    seq!["show-ref"@, "--verify"@, "--quiet"@, bare(process.stdout)],
                ),
            )
        },
    }
}

/// After the check that the branch exists: only where it does not is the project one
/// without commits.
pub open spec fn after_branch_check(page: PageModel, result: ToolResultModel) -> StepModel {
    match whole_process(page, result, "git ref verification result is incomplete"@) {
        Err(failed) => StepModel::Answer(failed),
        Ok(process) => StepModel::Answer(
            if process.exit_code == 1 {
                empty_page(page)
            } else {
                unavailable(page.project, None)
            },
        ),
    }
}

/// After the commits of the page were read.
pub open spec fn after_page(
    page: PageModel,
    project: Seq<char>,
    snapshot: Seq<char>,
    commits: Seq<GitCommitModel>,
    truncated: bool,
) -> StepModel {
    let next_skip = next_page_skip(page.skip, commits.len(), truncated);
    let payload = page_output(page, Some(snapshot), commits, truncated, next_skip);
    match next_skip {
        Some(next) => StepModel::Ask(
            GitLogSessionModel { page, phase: PhaseModel::NextPage { payload } },
            QuestionModel::SuggestedCall(
                next_page_call(project, snapshot, page.limit, next as nat, page.session_id),
            ),
        ),
        None => StepModel::Answer(success(payload)),
    }
}

/// After the log.
pub open spec fn after_log(
    page: PageModel,
    project: Seq<char>,
    snapshot: Seq<char>,
    result: ToolResultModel,
    is_object_id: spec_fn(Seq<char>) -> bool,
) -> StepModel {
    match process_of(result) {
        Err(failed) => StepModel::Answer(failed),
        Ok(process) => if process.exit_code != 0 {
            StepModel::Answer(log_failed(page, snapshot, process))
        } else if process.stdout_truncated {
            StepModel::Answer(
                incomplete(page.project, "git log source is incomplete; retry with a smaller limit"@),
            )
        } else {
            match read_page(process.stdout, page.limit, is_object_id) {
                Err(message) => StepModel::Answer(incomplete(page.project, message)),
                Ok((commits, truncated)) => after_page(
                    page,
                    project,
                    snapshot,
                    commits,
                    truncated,
                ),
            }
        },
    }
}

/// Whether the reply is one to the open question.
pub open spec fn fits(session: GitLogSessionModel, reply: ReplyModel) -> bool {
    match session.phase {
        PhaseModel::RequestedHead | PhaseModel::CurrentHeadId { .. } => reply is CommitId,
        PhaseModel::Resolving { .. } => reply is Project,
        PhaseModel::NextPage { .. } => reply is SuggestedCall,
        _ => reply is Process,
    }
}

/// What comes after the reply.
pub open spec fn next_step(
    session: GitLogSessionModel,
    reply: ReplyModel,
    is_object_id: spec_fn(Seq<char>) -> bool,
) -> StepModel
    recommends
        fits(session, reply),
{
    let page = session.page;
    match session.phase {
        PhaseModel::RequestedHead => after_requested_head(page, reply->CommitId_0),
        PhaseModel::Resolving { requested } => after_project(page, requested, reply->Project_0),
        PhaseModel::ObjectType { project, head } => after_object_type(
            page,
            project,
            head,
            reply->Process_0,
        ),
        PhaseModel::CurrentHead { project } => after_current_head(page, project, reply->Process_0),
        PhaseModel::CurrentHeadId { project } => after_current_head_id(
            page,
            project,
            reply->CommitId_0,
        ),
        PhaseModel::SymbolicHead { project } => after_symbolic_head(page, project, reply->Process_0),
        PhaseModel::BranchExists { .. } => after_branch_check(page, reply->Process_0),
        PhaseModel::Log { project, snapshot } => after_log(
            page,
            project,
            snapshot,
            reply->Process_0,
            is_object_id,
        ),
        PhaseModel::NextPage { payload } => StepModel::Answer(
            success(payload.with("suggested_call"@, reply->SuggestedCall_0)),
        ),
    }
}

/// The output of a failure that changed nothing.
fn unchanged(project: &str, kind: &str) -> (r: Json)
    ensures
        r@ == unchanged_output(project@, kind@),
{
    Json::object().with("project", Json::text(project)).with("error_kind", Json::text(kind)).with(
        "state_changed",
        Json::Bool(false),
    )
}

/// The answer where a source could not be read in full.
fn source_incomplete(page: &Page, message: &str) -> (r: ToolResult)
    ensures
        r@ == incomplete(page@.project, message@),
{
    ToolResult::err_with_output(message, unchanged(page.project.as_str(), "source_incomplete"))
}

/// The answer where no commit can be named to read the log from.
fn snapshot_unavailable(page: &Page, head: &Option<String>) -> (r: Step)
    ensures
        r@ == StepModel::Answer(unavailable(page@.project, optional_text(*head))),
{
    Step::Answer(
        ToolResult::err_with_output(
            "git log snapshot is unavailable",
            Json::object().with("project", Json::text(page.project.as_str())).with(
                "head_commit",
                Json::optional_text(head),
            ).with("error_kind", Json::text("snapshot_unavailable")).with(
                "state_changed",
                Json::Bool(false),
            ),
        ),
    )
}

/// A commit as the answer shows it.
fn commit_value(c: &GitCommit) -> (r: Json)
    ensures
        r@ == commit_json(c@),
{
    Json::object().with("hash", Json::text(c.hash.as_str())).with(
        "short_hash",
        Json::text(c.short_hash.as_str()),
    ).with("subject", Json::text(c.subject.as_str())).with(
        "author_name",
        Json::text(c.author_name.as_str()),
    ).with("author_email", Json::text(c.author_email.as_str())).with(
        "author_date",
        Json::text(c.author_date.as_str()),
    ).with("refs", Json::texts(&c.refs))
}

/// The commits as the answer shows them.
fn commit_values(commits: &Vec<GitCommit>) -> (r: Json)
    ensures
        r@ == JsonModel::Array(
            commits_model(commits@).map_values(|c: GitCommitModel| commit_json(c)),
        ),
{
    let mut out: Vec<Json> = Vec::new();
    let ghost all = commits_model(commits@);
    let ghost f = |c: GitCommitModel| commit_json(c);
    let mut i: usize = 0;
    while i < commits.len()
        invariant
            i <= commits@.len(),
            all == commits_model(commits@),
            f == |c: GitCommitModel| commit_json(c),
            items_model(out@) == all.take(i as int).map_values(f),
        decreases commits@.len() - i,
    {
        let ghost before = out@;
        out.push(commit_value(&commits[i]));
        proof {
            assert(out@.drop_last() == before);
            assert(all.take(i + 1) == all.take(i as int).push(all[i as int]));
        }
        i = i + 1;
    }
    assert(all.take(all.len() as int) == all);
    Json::Array(out)
}

/// A page as the answer shows it.
fn page_value(
    page: &Page,
    head: Json,
    commits: &Vec<GitCommit>,
    truncated: bool,
    next_skip: Option<usize>,
) -> (r: Json)
    ensures
        forall|h: Option<Seq<char>>| text_or_null(h) == head@ ==> r@ == #[trigger] page_output(
            page@,
            h,
            commits_model(commits@),
            truncated,
            next_skip,
        ),
{
    Json::object().with("project", Json::text(page.project.as_str())).with("head_commit", head).with(
        "limit",
        Json::count(page.limit),
    ).with("skip", Json::count(page.skip)).with("count", Json::count(commits.len())).with(
        "truncated",
        Json::Bool(truncated),
    ).with("next_skip", Json::optional_count(next_skip)).with("commits", commit_values(commits))
}

/// The call that gives the next page.
pub fn git_log_suggested_call(
    project: &str,
    head_commit: &str,
    limit: usize,
    next_skip: usize,
    session_id: Option<&str>,
) -> (r: SuggestedToolCall)
    ensures
        r@ == next_page_call(
            project@,
            head_commit@,
            limit as nat,
            next_skip as nat,
            match session_id {
                Some(id) => Some(id@),
                None => None,
            },
        ),
{
    let arguments = Json::object().with("project", Json::text(project)).with(
        "head_commit",
        Json::text(head_commit),
    ).with("limit", Json::count(limit)).with("skip", Json::count(next_skip));
    let arguments = match session_id {
        Some(id) => arguments.with("session_id", Json::text(id)),
        None => arguments,
    };
    SuggestedToolCall::new("git_log", arguments)
}

/// The question what `git` with these arguments gives.
fn ask_git(project: &str, args: Vec<String>) -> (r: Question)
    ensures
        r@ == git_question(project@, strings(args@)),
{
    Question::Process(
        ProcessRequest {
            project: project.to_owned(),
            program: "git".to_owned(),
            args,
            timeout_secs: GIT_TIMEOUT_SECS,
        },
    )
}

/// Asks `git` for the log from that commit.
fn read_log(page: Page, project: String, snapshot: String) -> (r: Step)
    ensures
        r@ == ask_log(page@, project@, snapshot@),
{
    let args = git_log_args(snapshot.as_str(), page.limit, page.skip);
    let question = ask_git(project.as_str(), args);
    Step::Ask(GitLogSession { page, phase: Phase::Log { project, snapshot } }, question)
}

/// What a process left, where it can be read in full; else the answer.
fn read_whole(page: &Page, result: ToolResult, message: &str) -> (r: Result<
    GitProcessOutput,
    ToolResult,
>)
    ensures
        match r {
            Ok(process) => whole_process(page@, result@, message@) == Ok::<
                GitProcessModel,
                ToolResultModel,
            >(process@),
            Err(failed) => whole_process(page@, result@, message@) == Err::<
                GitProcessModel,
                ToolResultModel,
            >(failed@),
        },
{
    match completed_git_process(result) {
        Ok(process) => if process.stdout_truncated {
            Err(source_incomplete(page, message))
        } else {
            Ok(process)
        },
        Err(failed) => Err(failed),
    }
}

/// After the check of the requested head.
fn on_requested_head(page: Page, id: Result<String, String>) -> (r: Step)
    ensures
        r@ == after_requested_head(page@, text_result(id)),
{
    match id {
        Ok(id) => {
            let question = Question::Project(page.project.clone());
            Step::Ask(GitLogSession { page, phase: Phase::Resolving { requested: Some(id) } }, question)
        },
        Err(kind) => {
            let output = unchanged(page.project.as_str(), kind.as_str());
            let message = "git_log failed: ".to_owned().concat(kind.as_str());
            Step::Answer(ToolResult::err_with_output(message.as_str(), output))
        },
    }
}

/// After the resolution of the project.
fn on_project(page: Page, head: Option<String>, resolved: Result<String, String>) -> (r: Step)
    ensures
        r@ == after_project(page@, optional_text(head), text_result(resolved)),
{
    let project = match resolved {
        Ok(project) => project,
        Err(error) => return Step::Unresolved(error),
    };
    match head {
        Some(head) => {
            let args = vec!["cat-file".to_owned(), "-t".to_owned(), head.clone()];
            assert(strings(args@) == seq!["cat-file"@, "-t"@, head@]);
            let question = ask_git(project.as_str(), args);
            Step::Ask(GitLogSession { page, phase: Phase::ObjectType { project, head } }, question)
        },
        None => {
            let args = vec![
                "rev-parse".to_owned(),
                "--verify".to_owned(),
                "HEAD^{commit}".to_owned(),
            ];
            assert(strings(args@) == seq!["rev-parse"@, "--verify"@, "HEAD^{commit}"@]);
            let question = ask_git(project.as_str(), args);
            Step::Ask(GitLogSession { page, phase: Phase::CurrentHead { project } }, question)
        },
    }
}

/// After the type of the requested head.
fn on_object_type(page: Page, project: String, head: String, result: ToolResult) -> (r: Step)
    ensures
        r@ == after_object_type(page@, project@, head@, result@),
{
    match read_whole(&page, result, "git object type result is incomplete") {
        Err(failed) => Step::Answer(failed),
        Ok(process) => {
            let kind = trim_text(process.stdout.as_str());
            if process.exit_code == 0 && same_text(kind.as_str(), "commit") {
                read_log(page, project, head)
            } else {
                snapshot_unavailable(&page, &Some(head))
            }
        },
    }
}

/// After the commit at `HEAD`.
fn on_current_head(page: Page, project: String, result: ToolResult) -> (r: Step)
    ensures
        r@ == after_current_head(page@, project@, result@),
{
    match read_whole(&page, result, "git HEAD result is incomplete") {
        Err(failed) => Step::Answer(failed),
        Ok(process) => if process.exit_code == 0 {
            let question = Question::CommitId(trim_text(process.stdout.as_str()));
            Step::Ask(GitLogSession { page, phase: Phase::CurrentHeadId { project } }, question)
        } else {
            let args = vec!["symbolic-ref".to_owned(), "-q".to_owned(), "HEAD".to_owned()];
            assert(strings(args@) == seq!["symbolic-ref"@, "-q"@, "HEAD"@]);
            let question = ask_git(project.as_str(), args);
            Step::Ask(GitLogSession { page, phase: Phase::SymbolicHead { project } }, question)
        },
    }
}

/// After the check of what `HEAD` gave.
fn on_current_head_id(page: Page, project: String, id: Result<String, String>) -> (r: Step)
    ensures
        r@ == after_current_head_id(page@, project@, text_result(id)),
{
    match id {
        Ok(snapshot) => read_log(page, project, snapshot),
        Err(_) => snapshot_unavailable(&page, &None),
    }
}

/// After the name of the branch at `HEAD`.
fn on_symbolic_head(page: Page, project: String, result: ToolResult) -> (r: Step)
    ensures
        r@ == after_symbolic_head(page@, project@, result@),
{
    match read_whole(&page, result, "git symbolic HEAD result is incomplete") {
        Err(failed) => Step::Answer(failed),
        Ok(process) => {
            let reference = trim_text(process.stdout.as_str());
            if process.exit_code != 0 || reference.as_str().is_empty() {
                return snapshot_unavailable(&page, &None);
            }
            let ghost name = reference@;
            let args = vec![
                "show-ref".to_owned(),
                "--verify".to_owned(),
                "--quiet".to_owned(),
                reference,
            ];
            assert(strings(args@) == seq!["show-ref"@, "--verify"@, "--quiet"@, name]);
            let question = ask_git(project.as_str(), args);
            Step::Ask(GitLogSession { page, phase: Phase::BranchExists { project } }, question)
        },
    }
}

/// After the check that the branch exists.
fn on_branch_check(page: Page, result: ToolResult) -> (r: Step)
    ensures
        r@ == after_branch_check(page@, result@),
{
    match read_whole(&page, result, "git ref verification result is incomplete") {
        Err(failed) => Step::Answer(failed),
        Ok(process) => if process.exit_code == 1 {
            let commits: Vec<GitCommit> = Vec::new();
            assert(commits_model(commits@) == Seq::<GitCommitModel>::empty());
            assert(text_or_null(None) == JsonModel::Null);
            Step::Answer(ToolResult::ok(page_value(&page, Json::Null, &commits, false, None)))
        } else {
            snapshot_unavailable(&page, &None)
        },
    }
}

/// After the commits of the page were read.
fn on_page(
    page: Page,
    project: String,
    snapshot: String,
    commits: Vec<GitCommit>,
    truncated: bool,
) -> (r: Step)
    ensures
        r@ == after_page(page@, project@, snapshot@, commits_model(commits@), truncated),
{
    let next_skip = git_log_next_skip(page.skip, commits.len(), truncated);
    assert(text_or_null(Some(snapshot@)) == JsonModel::Text(snapshot@));
    let payload = page_value(&page, Json::text(snapshot.as_str()), &commits, truncated, next_skip);
    match next_skip {
        Some(next) => {
            let session_id = match &page.session_id {
                Some(id) => Some(id.as_str()),
                None => None,
            };
            let call = git_log_suggested_call(
                project.as_str(),
                snapshot.as_str(),
                page.limit,
                next,
                session_id,
            );
            Step::Ask(
                GitLogSession { page, phase: Phase::NextPage { payload } },
                Question::SuggestedCall(call),
            )
        },
        None => Step::Answer(ToolResult::ok(payload)),
    }
}

/// After the log.
fn on_log<F: Fn(&str) -> bool>(
    page: Page,
    project: String,
    snapshot: String,
    result: ToolResult,
    is_object_id: F,
) -> (r: Step)
    requires
        is_rule(is_object_id),
    ensures
        r@ == after_log(page@, project@, snapshot@, result@, accepted(is_object_id)),
{
    let process = match completed_git_process(result) {
        Ok(process) => process,
        Err(failed) => return Step::Answer(failed),
    };
    if process.exit_code != 0 {
        return Step::Answer(
            ToolResult::err_with_output(
                "git log failed",
                Json::object().with("project", Json::text(page.project.as_str())).with(
                    "head_commit",
                    Json::text(snapshot.as_str()),
                ).with("limit", Json::count(page.limit)).with("skip", Json::count(page.skip)).with(
                    "exit_code",
                    Json::signed(process.exit_code),
                ).with("stderr", Json::text(process.stderr.as_str())),
            ),
        );
    }
    if process.stdout_truncated {
        return Step::Answer(
            source_incomplete(&page, "git log source is incomplete; retry with a smaller limit"),
        );
    }
    match parse_git_log_commits(process.stdout.as_str(), page.limit, is_object_id) {
        Err(message) => Step::Answer(source_incomplete(&page, message)),
        Ok((commits, truncated)) => on_page(page, project, snapshot, commits, truncated),
    }
}

/// Begins a session for the request.
pub fn git_log(request: GitLogRequest) -> (r: Step)
    ensures
        r@ == first_step(request@),
{
    let page = Page {
        project: request.project,
        limit: normalize_git_log_limit(request.limit),
        skip: normalize_git_log_skip(request.skip),
        session_id: request.session_id,
    };
    match request.head_commit {
        Some(text) => Step::Ask(
            GitLogSession { page, phase: Phase::RequestedHead },
            Question::CommitId(text),
        ),
        None => {
            let question = Question::Project(page.project.clone());
            Step::Ask(GitLogSession { page, phase: Phase::Resolving { requested: None } }, question)
        },
    }
}

impl GitLogSession {
    /// Whether the reply is one to the open question.
    pub fn takes(&self, reply: &Reply) -> (r: bool)
        ensures
            r == fits(self@, reply@),
    {
        match (&self.phase, reply) {
            (Phase::RequestedHead, Reply::CommitId(_)) => true,
            (Phase::CurrentHeadId { .. }, Reply::CommitId(_)) => true,
            (Phase::Resolving { .. }, Reply::Project(_)) => true,
            (Phase::NextPage { .. }, Reply::SuggestedCall(_)) => true,
            (Phase::ObjectType { .. }, Reply::Process(_)) => true,
            (Phase::CurrentHead { .. }, Reply::Process(_)) => true,
            (Phase::SymbolicHead { .. }, Reply::Process(_)) => true,
            (Phase::BranchExists { .. }, Reply::Process(_)) => true,
            (Phase::Log { .. }, Reply::Process(_)) => true,
            _ => false,
        }
    }

    /// Goes on with the reply to the open question.
    ///
    /// `is_object_id` is the rule for the names of git objects that the git tools share.
    pub fn advance<F: Fn(&str) -> bool>(self, reply: Reply, is_object_id: F) -> (r: Step)
        requires
            fits(self@, reply@),
            is_rule(is_object_id),
        ensures
            r@ == next_step(self@, reply@, accepted(is_object_id)),
    {
        let page = self.page;
        match (self.phase, reply) {
            (Phase::RequestedHead, Reply::CommitId(id)) => on_requested_head(page, id),
            (Phase::Resolving { requested }, Reply::Project(resolved)) => on_project(
                page,
                requested,
                resolved,
            ),
            (Phase::ObjectType { project, head }, Reply::Process(result)) => on_object_type(
                page,
                project,
                head,
                result,
            ),
            (Phase::CurrentHead { project }, Reply::Process(result)) => on_current_head(
                page,
                project,
                result,
            ),
            (Phase::CurrentHeadId { project }, Reply::CommitId(id)) => on_current_head_id(
                page,
                project,
                id,
            ),
            (Phase::SymbolicHead { project }, Reply::Process(result)) => on_symbolic_head(
                page,
                project,
                result,
            ),
            (Phase::BranchExists { project }, Reply::Process(result)) => on_branch_check(
                page,
                result,
            ),
            (Phase::Log { project, snapshot }, Reply::Process(result)) => on_log(
                page,
                project,
                snapshot,
                result,
                is_object_id,
            ),
            (Phase::NextPage { payload }, Reply::SuggestedCall(call)) => Step::Answer(
                ToolResult::ok(payload.with("suggested_call", call)),
            ),
            _ => vstd::pervasive::unreached(),
        }
    }
}

} // verus!
