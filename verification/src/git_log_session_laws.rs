//! What a `git_log` session promises, whatever the runtime replies.

use vstd::prelude::*;

use crate::git_log::{log_args, next_page_skip, page_limit, page_skip, read_page, GitCommitModel};
use crate::git_log_session::{
    after_page, bare, commit_json, empty_page, first_step, fits, git_question,
    incomplete, log_failed, next_page_call, next_step, page_output, unavailable, unchanged_output,
    whole_process, GitLogRequestModel, GitLogSessionModel, PageModel, PhaseModel,
    ProcessRequestModel, QuestionModel, ReplyModel, StepModel, GIT_TIMEOUT_SECS,
};
use crate::git_process::process_of;
use crate::json::{text_or_null, JsonModel};
use crate::tool_result::{failure, success, SuggestedToolCallModel, ToolResultModel};

verus! {

/// Whether the reply is of the kind that the question asks for.
pub open spec fn answers(question: QuestionModel, reply: ReplyModel) -> bool {
    match question {
        QuestionModel::CommitId(_) => reply is CommitId,
        QuestionModel::Project(_) => reply is Project,
        QuestionModel::Process(_) => reply is Process,
        QuestionModel::SuggestedCall(_) => reply is SuggestedCall,
    }
}

/// A runtime that answers what it is asked always meets the session: a reply fits exactly
/// where it is one to the question.
pub proof fn law_replies_fit(
    request: GitLogRequestModel,
    session: GitLogSessionModel,
    last: ReplyModel,
    is_object_id: spec_fn(Seq<char>) -> bool,
)
    ensures
        first_step(request) matches StepModel::Ask(next, question) ==> forall|reply: ReplyModel|
            #[trigger] answers(question, reply) <==> fits(next, reply),
        fits(session, last) ==> (next_step(session, last, is_object_id) matches StepModel::Ask(
            next,
            question,
        ) ==> forall|reply: ReplyModel| #[trigger] answers(question, reply) <==> fits(next, reply)),
{
}

/// How many questions a session can still ask at most, besides the open one.
pub open spec fn questions_left(phase: PhaseModel) -> nat {
    match phase {
        PhaseModel::RequestedHead => 5,
        PhaseModel::Resolving { .. } => 4,
        PhaseModel::CurrentHead { .. } => 3,
        PhaseModel::ObjectType { .. } => 2,
        PhaseModel::CurrentHeadId { .. } => 2,
        PhaseModel::SymbolicHead { .. } => 1,
        PhaseModel::Log { .. } => 1,
        PhaseModel::BranchExists { .. } => 0,
        PhaseModel::NextPage { .. } => 0,
    }
}

/// A session comes to its end: every question leaves fewer to ask, of six at most, and
/// the page that it is about stays the same.
pub proof fn law_session_ends(
    session: GitLogSessionModel,
    reply: ReplyModel,
    is_object_id: spec_fn(Seq<char>) -> bool,
)
    requires
        fits(session, reply),
    ensures
        next_step(session, reply, is_object_id) matches StepModel::Ask(next, _) ==> {
            &&& next.page == session.page
            &&& questions_left(next.phase) < questions_left(session.phase) <= 5
        },
{
}

/// The project that the phase works on, once it is known.
pub open spec fn project_of(phase: PhaseModel) -> Option<Seq<char>> {
    match phase {
        PhaseModel::ObjectType { project, .. } => Some(project),
        PhaseModel::CurrentHead { project } => Some(project),
        PhaseModel::CurrentHeadId { project } => Some(project),
        PhaseModel::SymbolicHead { project } => Some(project),
        PhaseModel::BranchExists { project } => Some(project),
        PhaseModel::Log { project, .. } => Some(project),
        _ => None,
    }
}

/// Whether the command is one of those that read a repository and write nothing.
pub open spec fn only_reads(args: Seq<Seq<char>>) -> bool {
    &&& args.len() > 0
    &&& {
        ||| args[0] == "cat-file"@
        ||| args[0] == "rev-parse"@
        ||| args[0] == "symbolic-ref"@ && args.len() == 3
        ||| args[0] == "show-ref"@
        ||| args[0] == "log"@
    }
}

/// Every process that a session asks for is `git` with a command that only reads, in the
/// project that the runtime resolved, and in that one to the end.
pub proof fn law_processes_only_read(
    session: GitLogSessionModel,
    reply: ReplyModel,
    is_object_id: spec_fn(Seq<char>) -> bool,
)
    requires
        fits(session, reply),
    ensures
        next_step(session, reply, is_object_id) matches StepModel::Ask(next, question) ==> {
            &&& question matches QuestionModel::Process(process) ==> {
                &&& process.program == "git"@
                &&& process.timeout_secs == GIT_TIMEOUT_SECS
                &&& only_reads(process.args)
                &&& project_of(next.phase) == Some(process.project)
            }
            &&& project_of(session.phase) is Some && !(next.phase is NextPage) ==> project_of(
                next.phase,
            ) == project_of(session.phase)
            &&& session.phase is Resolving ==> reply == ReplyModel::Project(
                Ok(project_of(next.phase)->0),
            )
        },
{
}

/// The log is read from a commit only that was checked: an id that the runtime gave as
/// the normal form of what `HEAD` is, or the requested head in the normal form that the
/// runtime gave, once `git` has said that it is a commit.
pub proof fn law_log_starts_at_a_checked_commit(
    request: GitLogRequestModel,
    session: GitLogSessionModel,
    reply: ReplyModel,
    is_object_id: spec_fn(Seq<char>) -> bool,
)
    requires
        fits(session, reply),
    ensures
        next_step(session, reply, is_object_id) matches StepModel::Ask(next, question) ==> {
            &&& next.phase matches PhaseModel::Log { project, snapshot } ==> {
                &&& question == git_question(
                    project,
                    log_args(snapshot, next.page.limit, next.page.skip),
                )
                &&& {
                    ||| session.phase is CurrentHeadId && reply == ReplyModel::CommitId(
                        Ok(snapshot),
                    )
                    ||| {
                        &&& session.phase == (PhaseModel::ObjectType { project, head: snapshot })
                        &&& process_of(reply->Process_0) is Ok
                        &&& process_of(reply->Process_0)->Ok_0.exit_code == 0
                        &&& bare(process_of(reply->Process_0)->Ok_0.stdout) == "commit"@
                    }
                }
            }
            &&& next.phase matches PhaseModel::ObjectType { project, head } ==> session.phase == (
            PhaseModel::Resolving { requested: Some(head) })
            &&& next.phase matches PhaseModel::Resolving { requested } ==> requested is Some
                && reply == ReplyModel::CommitId(Ok(requested->0))
        },
        first_step(request) matches StepModel::Ask(next, _) && (next.phase is RequestedHead
            || next.phase == PhaseModel::Resolving { requested: None }),
{
}

/// A process that did not run to its end, or whose output was cut off, never leads to a
/// success and never to a further question: the tool fails, with a message of its own or
/// with the failure that the process had.
pub proof fn law_incomplete_source_fails_closed(
    session: GitLogSessionModel,
    result: ToolResultModel,
    is_object_id: spec_fn(Seq<char>) -> bool,
)
    requires
        fits(session, ReplyModel::Process(result)),
        match process_of(result) {
            Ok(process) => process.stdout_truncated,
            Err(_) => true,
        },
    ensures
        next_step(session, ReplyModel::Process(result), is_object_id) matches StepModel::Answer(
            answer,
        ) && !answer.success && (answer.error is Some || answer == result),
{
}

/// The names of the members of a page are different.
pub proof fn lemma_page_names()
    ensures
        "project"@.len() == 7 && "project"@[0] == 'p',
        "commits"@.len() == 7 && "commits"@[0] == 'c',
        "head_commit"@.len() == 11,
        "limit"@.len() == 5 && "limit"@[0] == 'l',
        "count"@.len() == 5 && "count"@[0] == 'c',
        "skip"@.len() == 4,
        "truncated"@.len() == 9 && "truncated"@[0] == 't',
        "next_skip"@.len() == 9 && "next_skip"@[0] == 'n',
        "suggested_call"@.len() == 14,
{
    reveal_strlit("project");
    reveal_strlit("commits");
    reveal_strlit("head_commit");
    reveal_strlit("limit");
    reveal_strlit("count");
    reveal_strlit("skip");
    reveal_strlit("truncated");
    reveal_strlit("next_skip");
    reveal_strlit("suggested_call");
}

/// A page shows under each name what it is: the count is that of its commits, and the
/// beginning of the next page is shown, or null where there is none.
pub proof fn law_page_members(
    page: PageModel,
    head: Option<Seq<char>>,
    commits: Seq<GitCommitModel>,
    truncated: bool,
    next_skip: Option<usize>,
)
    ensures
        ({
            let output = page_output(page, head, commits, truncated, next_skip);
            &&& output.text_member("project"@) == Some(page.project)
            &&& output.member("head_commit"@) == Some(text_or_null(head))
            &&& output.integer_member("limit"@) == Some(page.limit as int)
            &&& output.integer_member("skip"@) == Some(page.skip as int)
            &&& output.integer_member("count"@) == Some(commits.len() as int)
            &&& output.bool_member("truncated"@) == Some(truncated)
            &&& output.member("next_skip"@) == Some(
                match next_skip {
                    Some(n) => JsonModel::Integer(n as int),
                    None => JsonModel::Null,
                },
            )
            &&& output.member("commits"@) == Some(
                JsonModel::Array(commits.map_values(|c: GitCommitModel| commit_json(c))),
            )
            &&& output.member("suggested_call"@) is None
        }),
{
    lemma_page_names();
}

/// A call is proposed exactly where the page shows the beginning of a next one; it asks
/// for the same commit and the same limit, from that beginning on.
pub proof fn law_next_page_is_proposed(
    page: PageModel,
    project: Seq<char>,
    snapshot: Seq<char>,
    commits: Seq<GitCommitModel>,
    truncated: bool,
)
    ensures
        match (
            after_page(page, project, snapshot, commits, truncated),
            next_page_skip(page.skip, commits.len(), truncated),
        ) {
            (StepModel::Ask(next, QuestionModel::SuggestedCall(call)), Some(skip)) => {
                &&& next.phase is NextPage
                &&& call.tool == "git_log"@
                &&& call.arguments.text_member("project"@) == Some(project)
                &&& call.arguments.text_member("head_commit"@) == Some(snapshot)
                &&& call.arguments.integer_member("limit"@) == Some(page.limit as int)
                &&& call.arguments.integer_member("skip"@) == Some(skip as int)
                &&& call.arguments.text_member("session_id"@) == page.session_id
                &&& skip == page.skip + commits.len()
            },
            (StepModel::Answer(answer), None) => {
                &&& answer.success
                &&& answer.output.member("suggested_call"@) is None
                &&& answer.output.member("next_skip"@) == Some(JsonModel::Null)
            },
            _ => false,
        },
{
    lemma_page_names();
    reveal_strlit("session_id");
    assert("session_id"@.len() == 10);
}

/// The names of the members of a failure are different.
proof fn lemma_failure_names()
    ensures
        "project"@.len() == 7,
        "head_commit"@.len() == 11,
        "error_kind"@.len() == 10,
        "state_changed"@.len() == 13,
{
    reveal_strlit("project");
    reveal_strlit("head_commit");
    reveal_strlit("error_kind");
    reveal_strlit("state_changed");
}

/// A failure that the tool itself finds says that nothing changed and of what kind it
/// is. The others are a process result that failed, which is passed on as it is, and the
/// failure of `git log`, which is shown with its exit code.
pub proof fn law_failures_change_nothing(
    session: GitLogSessionModel,
    reply: ReplyModel,
    is_object_id: spec_fn(Seq<char>) -> bool,
)
    requires
        fits(session, reply),
    ensures
        next_step(session, reply, is_object_id) matches StepModel::Answer(answer) ==> {
            ||| answer.success
            ||| {
                &&& answer.error is Some
                &&& answer.output.bool_member("state_changed"@) == Some(false)
                &&& answer.output.text_member("error_kind"@) is Some
            }
            ||| reply == ReplyModel::Process(answer)
            ||| {
                &&& session.phase matches PhaseModel::Log { project, snapshot }
                &&& process_of(reply->Process_0) matches Ok(process)
                &&& process.exit_code != 0
                &&& answer == log_failed(session.page, snapshot, process)
            }
        },
{
    lemma_failure_names();
}

/// A runtime that always replies the same to the same question.
pub struct Host {
    pub commit_id: spec_fn(Seq<char>) -> Result<Seq<char>, Seq<char>>,
    pub project: spec_fn(Seq<char>) -> Result<Seq<char>, Seq<char>>,
    pub process: spec_fn(ProcessRequestModel) -> ToolResultModel,
    pub suggested_call: spec_fn(SuggestedToolCallModel) -> JsonModel,
    pub is_object_id: spec_fn(Seq<char>) -> bool,
}

impl Host {
    /// The reply to a question.
    pub open spec fn reply(self, question: QuestionModel) -> ReplyModel {
        match question {
            QuestionModel::CommitId(text) => ReplyModel::CommitId((self.commit_id)(text)),
            QuestionModel::Project(name) => ReplyModel::Project((self.project)(name)),
            QuestionModel::Process(request) => ReplyModel::Process((self.process)(request)),
            QuestionModel::SuggestedCall(call) => ReplyModel::SuggestedCall(
                (self.suggested_call)(call),
            ),
        }
    }

    /// Where the steps lead, with at most that many questions.
    pub open spec fn outcome(self, step: StepModel, questions: nat) -> StepModel
        decreases questions,
    {
        match step {
            StepModel::Ask(session, question) => if questions > 0 {
                self.outcome(
                    next_step(session, self.reply(question), self.is_object_id),
                    (questions - 1) as nat,
                )
            } else {
                step
            },
            _ => step,
        }
    }

    /// What `git` gives in the project.
    pub open spec fn git(self, project: Seq<char>, args: Seq<Seq<char>>) -> ToolResultModel {
        (self.process)(
            ProcessRequestModel {
                project,
                program: "git"@,
                args,
                timeout_secs: GIT_TIMEOUT_SECS,
            },
        )
    }

    /// The commit to read the log from, where the request names it: that one, where it is
    /// a commit.
    pub open spec fn requested_snapshot(
        self,
        page: PageModel,
        project: Seq<char>,
        head: Seq<char>,
    ) -> Result<Seq<char>, ToolResultModel> {
        match whole_process(
            page,
            self.git(project, seq!["cat-file"@, "-t"@, head]),
            "git object type result is incomplete"@,
        ) {
            Err(failed) => Err(failed),
            Ok(process) => if process.exit_code == 0 && bare(process.stdout) == "commit"@ {
                Ok(head)
            } else {
                Err(unavailable(page.project, Some(head)))
            },
        }
    }

    /// The answer where `HEAD` gives no commit: an empty page where it names a branch that
    /// does not exist yet.
    pub open spec fn without_head(self, page: PageModel, project: Seq<char>) -> ToolResultModel {
        match whole_process(
            page,
            self.git(project, seq!["symbolic-ref"@, "-q"@, "HEAD"@]),
            "git symbolic HEAD result is incomplete"@,
        ) {
            Err(failed) => failed,
            Ok(named) => if named.exit_code != 0 || bare(named.stdout).len() == 0 {
                unavailable(page.project, None)
            } else {
                match whole_process(
                    page,
                    self.git(
                        project,
                        seq!["show-ref"@, "--verify"@, "--quiet"@, bare(named.stdout)],
                    ),
                    "git ref verification result is incomplete"@,
                ) {
                    Err(failed) => failed,
                    Ok(check) => if check.exit_code == 1 {
                        empty_page(page)
                    } else {
                        unavailable(page.project, None)
                    },
                }
            },
        }
    }

    /// The commit to read the log from, where the request names none: that at `HEAD`.
    pub open spec fn current_snapshot(self, page: PageModel, project: Seq<char>) -> Result<
        Seq<char>,
        ToolResultModel,
    > {
        match whole_process(
            page,
            self.git(project, seq!["rev-parse"@, "--verify"@, "HEAD^{commit}"@]),
            "git HEAD result is incomplete"@,
        ) {
            Err(failed) => Err(failed),
            Ok(process) => if process.exit_code != 0 {
                Err(self.without_head(page, project))
            } else {
                match (self.commit_id)(bare(process.stdout)) {
                    Ok(id) => Ok(id),
                    Err(_) => Err(unavailable(page.project, None)),
                }
            },
        }
    }

    /// The answer once the commit is known.
    pub open spec fn page_from(
        self,
        page: PageModel,
        project: Seq<char>,
        snapshot: Seq<char>,
    ) -> ToolResultModel {
        match process_of(self.git(project, log_args(snapshot, page.limit, page.skip))) {
            Err(failed) => failed,
            Ok(process) => if process.exit_code != 0 {
                log_failed(page, snapshot, process)
            } else if process.stdout_truncated {
                incomplete(
                    page.project,
                    "git log source is incomplete; retry with a smaller limit"@,
                )
            } else {
                match read_page(process.stdout, page.limit, self.is_object_id) {
                    Err(message) => incomplete(page.project, message),
                    Ok((commits, truncated)) => {
                        let next_skip = next_page_skip(page.skip, commits.len(), truncated);
                        let payload = page_output(
                            page,
                            Some(snapshot),
                            commits,
                            truncated,
                            next_skip,
                        );
                        success(
                            match next_skip {
                                None => payload,
                                Some(next) => payload.with(
                                    "suggested_call"@,
                                    (self.suggested_call)(
                                        next_page_call(
                                            project,
                                            snapshot,
                                            page.limit,
                                            next as nat,
                                            page.session_id,
                                        ),
                                    ),
                                ),
                            },
                        )
                    },
                }
            },
        }
    }

    /// The answer once the project is known.
    pub open spec fn answer_in(
        self,
        page: PageModel,
        project: Seq<char>,
        head: Option<Seq<char>>,
    ) -> ToolResultModel {
        let snapshot = match head {
            Some(head) => self.requested_snapshot(page, project, head),
            None => self.current_snapshot(page, project),
        };
        match snapshot {
            Ok(snapshot) => self.page_from(page, project, snapshot),
            Err(answer) => answer,
        }
    }

    /// What `git_log` answers to the request: the requested head is checked first, then
    /// the project is resolved, then the commit is found, and then the page is read.
    pub open spec fn git_log(self, request: GitLogRequestModel) -> StepModel {
        let page = PageModel {
            project: request.project,
            limit: page_limit(request.limit) as nat,
            skip: page_skip(request.skip) as nat,
            session_id: request.session_id,
        };
        let head = match request.head_commit {
            Some(text) => Some((self.commit_id)(text)),
            None => None,
        };
        match (head, (self.project)(request.project)) {
            (Some(Err(kind)), _) => StepModel::Answer(
                failure("git_log failed: "@ + kind, unchanged_output(page.project, kind)),
            ),
            (_, Err(error)) => StepModel::Unresolved(error),
            (Some(Ok(id)), Ok(project)) => StepModel::Answer(
                self.answer_in(page, project, Some(id)),
            ),
            (None, Ok(project)) => StepModel::Answer(self.answer_in(page, project, None)),
        }
    }
}

/// From the log on.
proof fn lemma_outcome_of_log(
    host: Host,
    page: PageModel,
    project: Seq<char>,
    snapshot: Seq<char>,
    questions: nat,
)
    requires
        questions >= 2,
    ensures
        host.outcome(crate::git_log_session::ask_log(page, project, snapshot), questions)
            == StepModel::Answer(host.page_from(page, project, snapshot)),
{
    reveal_with_fuel(Host::outcome, 3);
}

/// From the resolved project on.
proof fn lemma_outcome_in_project(
    host: Host,
    page: PageModel,
    project: Seq<char>,
    head: Option<Seq<char>>,
    questions: nat,
)
    requires
        questions >= 4,
    ensures
        host.outcome(
            crate::git_log_session::after_project(page, head, Ok(project)),
            questions,
        ) == StepModel::Answer(host.answer_in(page, project, head)),
{
    reveal_with_fuel(Host::outcome, 4);
    match head {
        Some(head) => {
            lemma_outcome_of_log(host, page, project, head, (questions - 1) as nat);
        },
        None => {
            if let Ok(snapshot) = host.current_snapshot(page, project) {
                lemma_outcome_of_log(host, page, project, snapshot, (questions - 2) as nat);
            }
        },
    }
}

/// A session with a runtime that always replies the same to the same question gives,
/// after at most six questions, what the procedure gives.
pub proof fn law_session_follows_the_procedure(host: Host, request: GitLogRequestModel)
    ensures
        host.outcome(first_step(request), 6) == host.git_log(request),
{
    reveal_with_fuel(Host::outcome, 3);
    let page = PageModel {
        project: request.project,
        limit: page_limit(request.limit) as nat,
        skip: page_skip(request.skip) as nat,
        session_id: request.session_id,
    };
    if let Ok(project) = (host.project)(request.project) {
        match request.head_commit {
            Some(text) => {
                if let Ok(id) = (host.commit_id)(text) {
                    lemma_outcome_in_project(host, page, project, Some(id), 4);
                }
            },
            None => {
                lemma_outcome_in_project(host, page, project, None, 5);
            },
        }
    }
}

} // verus!
