//! What the answers of `git_log` show, member by member, and that they show the history
//! of the project.

use vstd::prelude::*;

use crate::git_log::{log_args, page_limit, page_skip, refs_of, GitCommit, GitCommitModel};
use crate::git_log_laws::{
    commits_of, excerpt, law_log_command, law_next_page_is_named, law_page_bounds,
    law_page_shows_the_history, writable, written_log,
};
use crate::git_log_session::{
    bare, commit_json, empty_page, first_step, git_question, incomplete, log_failed,
    next_page_call, page_output, unavailable, unchanged_output, whole_process, GitLogRequest,
    GitLogRequestModel, GitLogSession, Page, PageModel, Phase, PhaseModel, ProcessRequest,
    Question, QuestionModel, Reply, ReplyModel, Step, StepModel,
};
use crate::git_log_session_laws::{
    law_page_members, law_session_follows_the_procedure, lemma_page_names, Host,
};
use crate::git_process::{law_completed_process_is_read, process_of, GitProcessModel};
use crate::json::JsonModel;
use crate::text::{decimal, Margin};
use crate::text_laws::{bare_ends, blank, law_trim_keeps_what_is_between};
use crate::tool_result::ToolResultModel;

verus! {

/// The names of the members of a commit are different.
proof fn lemma_commit_names()
    ensures
        "hash"@.len() == 4 && "hash"@[0] == 'h',
        "short_hash"@.len() == 10,
        "subject"@.len() == 7,
        "author_name"@.len() == 11 && "author_name"@[7] == 'n',
        "author_email"@.len() == 12,
        "author_date"@.len() == 11 && "author_date"@[7] == 'd',
        "refs"@.len() == 4 && "refs"@[0] == 'r',
{
    reveal_strlit("hash");
    reveal_strlit("short_hash");
    reveal_strlit("subject");
    reveal_strlit("author_name");
    reveal_strlit("author_email");
    reveal_strlit("author_date");
    reveal_strlit("refs");
}

/// Whether the value shows the commit: under each name that part of it, in full, and
/// nothing else.
pub open spec fn shows_commit(shown: JsonModel, c: GitCommitModel) -> bool {
    &&& shown.text_member("hash"@) == Some(c.hash)
    &&& shown.text_member("short_hash"@) == Some(c.short_hash)
    &&& shown.text_member("subject"@) == Some(c.subject)
    &&& shown.text_member("author_name"@) == Some(c.author_name)
    &&& shown.text_member("author_email"@) == Some(c.author_email)
    &&& shown.text_member("author_date"@) == Some(c.author_date)
    &&& shown.member("refs"@) matches Some(JsonModel::Array(refs)) && refs.len() == c.refs.len()
        && forall|i: int|
        0 <= i < c.refs.len() ==> #[trigger] refs[i] == JsonModel::Text(c.refs[i])
    &&& forall|name: Seq<char>|
        name != "hash"@ && name != "short_hash"@ && name != "subject"@ && name != "author_name"@
            && name != "author_email"@ && name != "author_date"@ && name != "refs"@
            ==> #[trigger] shown.member(name) is None
}

/// A commit is shown part by part, each in full.
pub proof fn law_commit_is_shown(c: GitCommitModel)
    ensures
        shows_commit(commit_json(c), c),
{
    lemma_commit_names();
}

/// A commit of the library is shown with its own texts.
pub proof fn law_own_texts_are_shown(c: GitCommit)
    ensures
        ({
            let shown = commit_json(c@);
            &&& shown.text_member("hash"@) == Some(c.hash@)
            &&& shown.text_member("short_hash"@) == Some(c.short_hash@)
            &&& shown.text_member("subject"@) == Some(c.subject@)
            &&& shown.text_member("author_name"@) == Some(c.author_name@)
            &&& shown.text_member("author_email"@) == Some(c.author_email@)
            &&& shown.text_member("author_date"@) == Some(c.author_date@)
            &&& shown.member("refs"@) matches Some(JsonModel::Array(refs)) && refs.len()
                == c.refs@.len() && forall|i: int|
                0 <= i < c.refs@.len() ==> refs[i] == JsonModel::Text((#[trigger] c.refs@[i])@)
        }),
{
    law_commit_is_shown(c@);
}

/// Each item of the commits of a page shows its commit, in order, and there are as many as
/// there are commits.
pub proof fn law_commits_of_a_page_are_shown(
    page: PageModel,
    head: Option<Seq<char>>,
    commits: Seq<GitCommitModel>,
    truncated: bool,
    next_skip: Option<usize>,
)
    ensures
        page_output(page, head, commits, truncated, next_skip).member("commits"@) matches Some(
            JsonModel::Array(shown),
        ) && shown.len() == commits.len() && forall|i: int|
            0 <= i < commits.len() ==> shows_commit(#[trigger] shown[i], commits[i]),
{
    law_page_members(page, head, commits, truncated, next_skip);
    assert forall|i: int| 0 <= i < commits.len() implies shows_commit(
        commit_json(#[trigger] commits[i]),
        commits[i],
    ) by {
        law_commit_is_shown(commits[i]);
    }
}

/// A page shows nothing but its eight members.
pub proof fn law_page_shows_nothing_else(
    page: PageModel,
    head: Option<Seq<char>>,
    commits: Seq<GitCommitModel>,
    truncated: bool,
    next_skip: Option<usize>,
    name: Seq<char>,
)
    requires
        name != "project"@ && name != "head_commit"@ && name != "limit"@ && name != "skip"@,
        name != "count"@ && name != "truncated"@ && name != "next_skip"@ && name != "commits"@,
    ensures
        page_output(page, head, commits, truncated, next_skip) is Object,
        page_output(page, head, commits, truncated, next_skip).member(name) is None,
{
}

/// The answer of a project without commits is a success that shows no head, no commits and
/// no next page.
pub proof fn law_empty_page_is_empty(page: PageModel)
    ensures
        ({
            let answer = empty_page(page);
            &&& answer.success
            &&& answer.error is None
            &&& answer.output.text_member("project"@) == Some(page.project)
            &&& answer.output.member("head_commit"@) == Some(JsonModel::Null)
            &&& answer.output.integer_member("limit"@) == Some(page.limit as int)
            &&& answer.output.integer_member("skip"@) == Some(page.skip as int)
            &&& answer.output.integer_member("count"@) == Some(0int)
            &&& answer.output.bool_member("truncated"@) == Some(false)
            &&& answer.output.member("next_skip"@) == Some(JsonModel::Null)
            &&& answer.output.member("commits"@) matches Some(JsonModel::Array(shown))
                && shown.len() == 0
            &&& answer.output.member("suggested_call"@) is None
        }),
{
    law_page_members(page, None, seq![], false, None);
}

/// The names of the members of a failure are different.
proof fn lemma_failure_names()
    ensures
        "project"@.len() == 7,
        "head_commit"@.len() == 11,
        "error_kind"@.len() == 10,
        "state_changed"@.len() == 13,
        "limit"@.len() == 5,
        "skip"@.len() == 4,
        "exit_code"@.len() == 9,
        "stderr"@.len() == 6,
{
    reveal_strlit("project");
    reveal_strlit("head_commit");
    reveal_strlit("error_kind");
    reveal_strlit("state_changed");
    reveal_strlit("limit");
    reveal_strlit("skip");
    reveal_strlit("exit_code");
    reveal_strlit("stderr");
}

/// What each failure of the tool tells: its message, the project as the request names it,
/// its kind, and that nothing changed. Where no commit can be named, it shows the head that
/// was asked for, or null; where `git log` failed, the page that was asked for, the exit
/// code and what `git` said.
pub proof fn law_failures_tell_their_reason(
    page: PageModel,
    project: Seq<char>,
    message: Seq<char>,
    kind: Seq<char>,
    head: Option<Seq<char>>,
    snapshot: Seq<char>,
    process: GitProcessModel,
    name: Seq<char>,
)
    ensures
        ({
            let output = unchanged_output(project, kind);
            &&& output.text_member("project"@) == Some(project)
            &&& output.text_member("error_kind"@) == Some(kind)
            &&& output.bool_member("state_changed"@) == Some(false)
            &&& name != "project"@ && name != "error_kind"@ && name != "state_changed"@
                ==> output.member(name) is None
        }),
        ({
            let failed = incomplete(project, message);
            &&& !failed.success
            &&& failed.error == Some(message)
            &&& failed.output.text_member("project"@) == Some(project)
            &&& failed.output.text_member("error_kind"@) == Some("source_incomplete"@)
            &&& failed.output.bool_member("state_changed"@) == Some(false)
            &&& name != "project"@ && name != "error_kind"@ && name != "state_changed"@
                ==> failed.output.member(name) is None
        }),
        ({
            let failed = unavailable(project, head);
            &&& !failed.success
            &&& failed.error == Some("git log snapshot is unavailable"@)
            &&& failed.output.text_member("project"@) == Some(project)
            &&& failed.output.member("head_commit"@) == Some(
                match head {
                    Some(t) => JsonModel::Text(t),
                    None => JsonModel::Null,
                },
            )
            &&& failed.output.text_member("error_kind"@) == Some("snapshot_unavailable"@)
            &&& failed.output.bool_member("state_changed"@) == Some(false)
            &&& name != "project"@ && name != "head_commit"@ && name != "error_kind"@ && name
                != "state_changed"@ ==> failed.output.member(name) is None
        }),
        ({
            let failed = log_failed(page, snapshot, process);
            &&& !failed.success
            &&& failed.error == Some("git log failed"@)
            &&& failed.output.text_member("project"@) == Some(page.project)
            &&& failed.output.text_member("head_commit"@) == Some(snapshot)
            &&& failed.output.integer_member("limit"@) == Some(page.limit as int)
            &&& failed.output.integer_member("skip"@) == Some(page.skip as int)
            &&& failed.output.integer_member("exit_code"@) == Some(process.exit_code)
            &&& failed.output.text_member("stderr"@) == Some(process.stderr)
            &&& name != "project"@ && name != "head_commit"@ && name != "limit"@ && name
                != "skip"@ && name != "exit_code"@ && name != "stderr"@ ==> failed.output.member(
                name,
            ) is None
        }),
{
    lemma_failure_names();
}

/// A process that has to be read in full is, unless its output was cut off: then the answer
/// is the failure with the given message.
pub proof fn law_cut_off_process_is_not_read(
    page: PageModel,
    result: ToolResultModel,
    message: Seq<char>,
)
    ensures
        match process_of(result) {
            Err(failed) => whole_process(page, result, message) == Err::<
                GitProcessModel,
                ToolResultModel,
            >(failed),
            Ok(process) => {
                &&& !process.stdout_truncated ==> whole_process(page, result, message) == Ok::<
                    GitProcessModel,
                    ToolResultModel,
                >(process)
                &&& process.stdout_truncated ==> (whole_process(page, result, message) matches Err(
                    failed,
                ) && !failed.success && failed.error == Some(message) && failed.output.text_member(
                    "project"@,
                ) == Some(page.project))
            },
        },
{
    lemma_failure_names();
}

/// What a process says is taken without the white space around it.
pub proof fn law_white_space_around_a_reply(a: Seq<char>, t: Seq<char>, b: Seq<char>)
    requires
        blank(a),
        blank(b),
        bare_ends(t),
    ensures
        bare(a + t + b) == t,
{
    law_trim_keeps_what_is_between(a, t, b, Margin::WhiteSpace);
}

/// The proposed call is for the same tool, in the resolved project, at the same commit,
/// with the same limit and session, and from the given beginning on; it has no other
/// arguments.
pub proof fn law_proposed_call(
    project: Seq<char>,
    head: Seq<char>,
    limit: nat,
    next_skip: nat,
    session_id: Option<Seq<char>>,
    name: Seq<char>,
)
    ensures
        ({
            let call = next_page_call(project, head, limit, next_skip, session_id);
            &&& call.tool == "git_log"@
            &&& call.arguments.text_member("project"@) == Some(project)
            &&& call.arguments.text_member("head_commit"@) == Some(head)
            &&& call.arguments.integer_member("limit"@) == Some(limit as int)
            &&& call.arguments.integer_member("skip"@) == Some(next_skip as int)
            &&& call.arguments.member("session_id"@) == match session_id {
                Some(id) => Some(JsonModel::Text(id)),
                None => None,
            }
            &&& name != "project"@ && name != "head_commit"@ && name != "limit"@ && name
                != "skip"@ && name != "session_id"@ ==> call.arguments.member(name) is None
        }),
{
    lemma_failure_names();
    reveal_strlit("session_id");
    assert("session_id"@.len() == 10);
}

/// The process that is asked for is `git` with these arguments, in that project, for at
/// most 30 seconds.
pub proof fn law_git_is_asked(project: Seq<char>, args: Seq<Seq<char>>)
    ensures
        git_question(project, args) matches QuestionModel::Process(process) && process.project
            == project && process.program == "git"@ && process.args == args && process.timeout_secs
            == 30,
{
}

/// What is handed to the runtime and what comes back is what it holds, part by part.
pub proof fn law_parts_are_handed_over(
    request: GitLogRequest,
    process: ProcessRequest,
    question: Question,
    reply: Reply,
    step: Step,
)
    ensures
        request@.project == request.project@,
        request@.limit == request.limit,
        request@.skip == request.skip,
        request.head_commit is None <==> request@.head_commit is None,
        request.head_commit matches Some(t) ==> request@.head_commit == Some(t@),
        request.session_id is None <==> request@.session_id is None,
        request.session_id matches Some(t) ==> request@.session_id == Some(t@),
        process@.project == process.project@,
        process@.program == process.program@,
        process@.timeout_secs == process.timeout_secs,
        process@.args.len() == process.args@.len(),
        forall|i: int|
            0 <= i < process.args@.len() ==> process@.args[i] == (#[trigger] process.args@[i])@,
        match question {
            Question::CommitId(t) => question@ == QuestionModel::CommitId(t@),
            Question::Project(t) => question@ == QuestionModel::Project(t@),
            Question::Process(p) => question@ == QuestionModel::Process(p@),
            Question::SuggestedCall(c) => question@ == QuestionModel::SuggestedCall(c@),
        },
        match reply {
            Reply::CommitId(Ok(t)) => reply@ == ReplyModel::CommitId(Ok(t@)),
            Reply::CommitId(Err(t)) => reply@ == ReplyModel::CommitId(Err(t@)),
            Reply::Project(Ok(t)) => reply@ == ReplyModel::Project(Ok(t@)),
            Reply::Project(Err(t)) => reply@ == ReplyModel::Project(Err(t@)),
            Reply::Process(r) => reply@ == ReplyModel::Process(r@),
            Reply::SuggestedCall(j) => reply@ == ReplyModel::SuggestedCall(j@),
        },
        match step {
            Step::Ask(session, asked) => step@ == StepModel::Ask(session@, asked@),
            Step::Answer(result) => step@ == StepModel::Answer(result@),
            Step::Unresolved(error) => step@ == StepModel::Unresolved(error@),
        },
{
}

/// A session keeps what it was given, part by part.
pub proof fn law_session_holds_its_parts(session: GitLogSession, page: Page, phase: Phase)
    ensures
        session@.page == session.page@,
        session@.phase == session.phase@,
        page@.project == page.project@,
        page@.limit == page.limit,
        page@.skip == page.skip,
        page.session_id is None <==> page@.session_id is None,
        page.session_id matches Some(t) ==> page@.session_id == Some(t@),
        match phase {
            Phase::RequestedHead => phase@ is RequestedHead,
            Phase::Resolving { requested: None } => phase@ == (PhaseModel::Resolving {
                requested: None,
            }),
            Phase::Resolving { requested: Some(t) } => phase@ == (PhaseModel::Resolving {
                requested: Some(t@),
            }),
            Phase::ObjectType { project, head } => phase@ == (PhaseModel::ObjectType {
                project: project@,
                head: head@,
            }),
            Phase::CurrentHead { project } => phase@ == (PhaseModel::CurrentHead {
                project: project@,
            }),
            Phase::CurrentHeadId { project } => phase@ == (PhaseModel::CurrentHeadId {
                project: project@,
            }),
            Phase::SymbolicHead { project } => phase@ == (PhaseModel::SymbolicHead {
                project: project@,
            }),
            Phase::BranchExists { project } => phase@ == (PhaseModel::BranchExists {
                project: project@,
            }),
            Phase::Log { project, snapshot } => phase@ == (PhaseModel::Log {
                project: project@,
                snapshot: snapshot@,
            }),
            Phase::NextPage { payload } => phase@ == (PhaseModel::NextPage { payload: payload@ }),
        },
{
}

/// Whether the result is that of a process that succeeded and wrote this text, all of it.
pub open spec fn wrote(result: ToolResultModel, text: Seq<char>) -> bool {
    &&& result.output.member("execution_state"@) == Some(JsonModel::Text("completed"@))
    &&& result.output.member("exit_code"@) == Some(JsonModel::Integer(0))
    &&& result.output.member("stdout_tail"@) == Some(JsonModel::Text(text))
    &&& result.output.member("stdout_truncated"@) != Some(JsonModel::Bool(true))
}

/// The command for `count` commits of the log from `head`, behind the first `skip`.
pub open spec fn log_command(head: Seq<char>, count: nat, skip: nat) -> Seq<Seq<char>> {
    seq![
        "log"@,
        "--decorate=short"@,
        "--date=iso-strict"@,
        "--pretty=format:%H%x1f%h%x1f%D%x1f%an%x1f%ae%x1f%aI%x1f%s%x1e"@,
        "-n"@,
        decimal(count),
        "--skip"@,
        decimal(skip),
        head,
    ]
}

impl Host {
    /// Whether `git` in the project shows that history from that commit on: for every
    /// number of commits and every beginning it writes just those.
    pub open spec fn has_history(
        self,
        project: Seq<char>,
        head: Seq<char>,
        history: Seq<Seq<Seq<char>>>,
    ) -> bool {
        forall|count: nat, skip: nat| #[trigger]
            wrote(
                self.git(project, log_command(head, count, skip)),
                written_log(excerpt(history, skip, count)),
            )
    }

    /// Whether the request leads to that project and that commit: the requested one, which
    /// is a commit there, or, where none is requested, the one at `HEAD`.
    pub open spec fn leads_to(
        self,
        request: GitLogRequestModel,
        project: Seq<char>,
        head: Seq<char>,
        id: Seq<char>,
    ) -> bool {
        &&& (self.project)(request.project) == Ok::<Seq<char>, Seq<char>>(project)
        &&& match request.head_commit {
            Some(text) => {
                &&& (self.commit_id)(text) == Ok::<Seq<char>, Seq<char>>(head)
                &&& wrote(
                    self.git(project, seq!["cat-file"@, "-t"@, head]),
                    "commit"@ + seq!['\n'],
                )
            },
            None => {
                &&& bare_ends(id)
                &&& wrote(
                    self.git(project, seq!["rev-parse"@, "--verify"@, "HEAD^{commit}"@]),
                    id + seq!['\n'],
                )
                &&& (self.commit_id)(id) == Ok::<Seq<char>, Seq<char>>(head)
            },
        }
    }
}

/// A process that succeeded and wrote a text is read as that.
proof fn lemma_wrote(page: PageModel, result: ToolResultModel, text: Seq<char>, message: Seq<char>)
    requires
        wrote(result, text),
    ensures
        whole_process(page, result, message) is Ok,
        whole_process(page, result, message) == process_of(result),
        process_of(result)->Ok_0.exit_code == 0,
        process_of(result)->Ok_0.stdout == text,
        !process_of(result)->Ok_0.stdout_truncated,
{
    law_completed_process_is_read(result);
}

/// A line is taken without the line feed behind it.
proof fn lemma_line(t: Seq<char>)
    requires
        bare_ends(t),
    ensures
        bare(t + seq!['\n']) == t,
{
    let none = Seq::<char>::empty();
    assert(none + t + seq!['\n'] == t + seq!['\n']);
    law_white_space_around_a_reply(none, t, seq!['\n']);
}

/// The answer shows the history of the project: the commits from the requested beginning
/// on, as many as the page holds, each with all its parts; it says that there are more
/// exactly where there are; and where they can be asked for, it proposes the call for the
/// page right behind it.
pub proof fn law_answer_shows_the_history(
    host: Host,
    request: GitLogRequestModel,
    project: Seq<char>,
    head: Seq<char>,
    id: Seq<char>,
    history: Seq<Seq<Seq<char>>>,
)
    requires
        host.leads_to(request, project, head, id),
        host.has_history(project, head, history),
        forall|i: int| 0 <= i < history.len() ==> writable(#[trigger] history[i]),
        forall|i: int| 0 <= i < history.len() ==> (host.is_object_id)((#[trigger] history[i])[0]),
    ensures
        ({
            let limit = page_limit(request.limit) as nat;
            let skip = page_skip(request.skip) as nat;
            let more = history.len() > skip + limit;
            let left = if history.len() > skip {
                history.len() - skip
            } else {
                0
            };
            let count = if left <= limit {
                left
            } else {
                limit as int
            };
            &&& host.outcome(first_step(request), 6) matches StepModel::Answer(answer)
            &&& answer.success
            &&& answer.error is None
            &&& answer.output.text_member("project"@) == Some(request.project)
            &&& answer.output.text_member("head_commit"@) == Some(head)
            &&& answer.output.integer_member("limit"@) == Some(limit as int)
            &&& answer.output.integer_member("skip"@) == Some(skip as int)
            &&& answer.output.integer_member("count"@) == Some(count)
            &&& answer.output.bool_member("truncated"@) == Some(more)
            &&& answer.output.member("commits"@) matches Some(JsonModel::Array(shown))
            &&& shown.len() == count
            &&& forall|i: int|
                0 <= i < count ==> {
                    let commit = history[skip + i];
                    &&& (#[trigger] shown[i]).text_member("hash"@) == Some(commit[0])
                    &&& shown[i].text_member("short_hash"@) == Some(commit[1])
                    &&& shown[i].text_member("author_name"@) == Some(commit[3])
                    &&& shown[i].text_member("author_email"@) == Some(commit[4])
                    &&& shown[i].text_member("author_date"@) == Some(commit[5])
                    &&& shown[i].text_member("subject"@) == Some(commit[6])
                    &&& shown[i].member("refs"@) matches Some(JsonModel::Array(refs)) && refs.len()
                        == refs_of(commit[2]).len() && forall|k: int|
                        0 <= k < refs.len() ==> #[trigger] refs[k] == JsonModel::Text(
                            refs_of(commit[2])[k],
                        )
                }
            &&& if more && skip + limit <= 10_000 {
                &&& answer.output.integer_member("next_skip"@) == Some((skip + limit) as int)
                &&& answer.output.member("suggested_call"@) == Some(
                    (host.suggested_call)(
                        next_page_call(project, head, limit, skip + limit, request.session_id),
                    ),
                )
            } else {
                &&& answer.output.member("next_skip"@) == Some(JsonModel::Null)
                &&& answer.output.member("suggested_call"@) is None
            }
        }),
{
    let limit = page_limit(request.limit) as nat;
    let skip = page_skip(request.skip) as nat;
    let page = PageModel { project: request.project, limit, skip, session_id: request.session_id };
    law_session_follows_the_procedure(host, request);
    law_page_bounds(request.limit, request.skip);
    match request.head_commit {
        Some(text) => {
            let result = host.git(project, seq!["cat-file"@, "-t"@, head]);
            lemma_wrote(
                page,
                result,
                "commit"@ + seq!['\n'],
                "git object type result is incomplete"@,
            );
            reveal_strlit("commit");
            lemma_line("commit"@);
            assert(host.requested_snapshot(page, project, head) == Ok::<
                Seq<char>,
                ToolResultModel,
            >(head));
        },
        None => {
            let result = host.git(project, seq!["rev-parse"@, "--verify"@, "HEAD^{commit}"@]);
            lemma_wrote(page, result, id + seq!['\n'], "git HEAD result is incomplete"@);
            lemma_line(id);
            assert(host.current_snapshot(page, project) == Ok::<Seq<char>, ToolResultModel>(head));
        },
    }
    assert(host.outcome(first_step(request), 6) == StepModel::Answer(
        host.page_from(page, project, head),
    ));
    law_log_command(head, limit, skip);
    assert(log_args(head, limit, skip) == log_command(head, limit + 1, skip));
    let stdout = written_log(excerpt(history, skip, limit + 1));
    assert(wrote(host.git(project, log_command(head, limit + 1, skip)), stdout));
    lemma_wrote(page, host.git(project, log_args(head, limit, skip)), stdout, Seq::empty());
    law_page_shows_the_history(history, skip, limit, host.is_object_id);
    let shown = excerpt(history, skip, limit);
    let commits = commits_of(shown);
    let more = history.len() > skip + limit;
    let next = crate::git_log::next_page_skip(skip, commits.len(), more);
    law_next_page_is_named(skip, commits.len(), more);
    law_page_members(page, Some(head), commits, more, next);
    law_commits_of_a_page_are_shown(page, Some(head), commits, more, next);
    lemma_page_names();
    assert forall|i: int| 0 <= i < shown.len() implies commits[i].hash == history[skip + i][0]
        && commits[i].short_hash == history[skip + i][1] && commits[i].author_name == history[skip
        + i][3] && commits[i].author_email == history[skip + i][4] && commits[i].author_date
        == history[skip + i][5] && commits[i].subject == history[skip + i][6] && commits[i].refs
        == refs_of(history[skip + i][2]) by {
        assert(shown[i] == history[skip + i]);
    }
}

} // verus!
