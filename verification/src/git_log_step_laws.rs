//! Where each reply leads a `git_log` session.

use vstd::prelude::*;

use crate::git_log::{log_args, next_page_skip, page_limit, page_skip, read_page};
use crate::git_log_session::{
    bare, empty_page, first_step, incomplete, log_failed, next_page_call, next_step, page_output,
    unavailable, GitLogRequestModel, GitLogSessionModel, PageModel, PhaseModel,
    ProcessRequestModel, QuestionModel, ReplyModel, StepModel,
};
use crate::git_process::process_of;
use crate::tool_result::ToolResultModel;

verus! {

/// Whether the step asks `git` for this, in that project, and waits in that phase.
pub open spec fn asks_git(
    step: StepModel,
    page: PageModel,
    phase: PhaseModel,
    project: Seq<char>,
    args: Seq<Seq<char>>,
) -> bool {
    step == StepModel::Ask(
        GitLogSessionModel { page, phase },
        QuestionModel::Process(
            ProcessRequestModel { project, program: "git"@, args, timeout_secs: 30 },
        ),
    )
}

/// A request with a head has that very text checked first; one without has its project
/// resolved first. The page is that of the request.
pub proof fn law_request_is_taken_up(request: GitLogRequestModel)
    ensures
        first_step(request) matches StepModel::Ask(session, question) && {
            &&& session.page.project == request.project
            &&& session.page.limit == page_limit(request.limit)
            &&& session.page.skip == page_skip(request.skip)
            &&& session.page.session_id == request.session_id
            &&& match request.head_commit {
                Some(text) => session.phase is RequestedHead && question
                    == QuestionModel::CommitId(text),
                None => session.phase == (PhaseModel::Resolving { requested: None }) && question
                    == QuestionModel::Project(request.project),
            }
        },
{
}

/// A head that is no exact commit id is refused by its kind of error; the normal form of
/// one that is goes on to the project.
pub proof fn law_after_requested_head(
    page: PageModel,
    id: Seq<char>,
    is_object_id: spec_fn(Seq<char>) -> bool,
)
    ensures
        ({
            let session = GitLogSessionModel { page, phase: PhaseModel::RequestedHead };
            &&& next_step(session, ReplyModel::CommitId(Ok(id)), is_object_id) == StepModel::Ask(
                GitLogSessionModel { page, phase: PhaseModel::Resolving { requested: Some(id) } },
                QuestionModel::Project(page.project),
            )
            &&& next_step(
                session,
                ReplyModel::CommitId(Err(id)),
                is_object_id,
            ) matches StepModel::Answer(answer)
            &&& !answer.success
            &&& answer.error == Some("git_log failed: "@ + id)
            &&& answer.output.text_member("project"@) == Some(page.project)
            &&& answer.output.text_member("error_kind"@) == Some(id)
            &&& answer.output.bool_member("state_changed"@) == Some(false)
        }),
{
    reveal_strlit("project");
    reveal_strlit("error_kind");
    reveal_strlit("state_changed");
    assert("project"@.len() == 7);
    assert("error_kind"@.len() == 10);
    assert("state_changed"@.len() == 13);
}

/// A project that is not known ends the session with that message; in one that is known,
/// `git` is asked for the type of the requested head, or, without one, for the commit at
/// `HEAD`.
pub proof fn law_after_project(
    page: PageModel,
    head: Seq<char>,
    requested: Option<Seq<char>>,
    reply: Seq<char>,
    is_object_id: spec_fn(Seq<char>) -> bool,
)
    ensures
        next_step(
            GitLogSessionModel { page, phase: PhaseModel::Resolving { requested } },
            ReplyModel::Project(Err(reply)),
            is_object_id,
        ) == StepModel::Unresolved(reply),
        asks_git(
            next_step(
                GitLogSessionModel { page, phase: PhaseModel::Resolving { requested: Some(head) } },
                ReplyModel::Project(Ok(reply)),
                is_object_id,
            ),
            page,
            PhaseModel::ObjectType { project: reply, head },
            reply,
            seq!["cat-file"@, "-t"@, head],
        ),
        asks_git(
            next_step(
                GitLogSessionModel { page, phase: PhaseModel::Resolving { requested: None } },
                ReplyModel::Project(Ok(reply)),
                is_object_id,
            ),
            page,
            PhaseModel::CurrentHead { project: reply },
            reply,
            seq!["rev-parse"@, "--verify"@, "HEAD^{commit}"@],
        ),
{
}

/// A process that did not complete ends the session with its failure, in every phase that
/// waits for one; so does, with a message of its own for each phase, one whose output was
/// cut off, unless it is a log that failed.
pub proof fn law_after_unreadable_process(
    page: PageModel,
    phase: PhaseModel,
    result: ToolResultModel,
    is_object_id: spec_fn(Seq<char>) -> bool,
)
    requires
        phase is ObjectType || phase is CurrentHead || phase is SymbolicHead
            || phase is BranchExists || phase is Log,
    ensures
        ({
            let step = next_step(
                GitLogSessionModel { page, phase },
                ReplyModel::Process(result),
                is_object_id,
            );
            &&& process_of(result) matches Err(failed) ==> step == StepModel::Answer(failed)
            &&& process_of(result) matches Ok(process) ==> process.stdout_truncated && !(
            phase is Log && process.exit_code != 0) ==> step == StepModel::Answer(
                incomplete(
                    page.project,
                    match phase {
                        PhaseModel::ObjectType { .. } => "git object type result is incomplete"@,
                        PhaseModel::CurrentHead { .. } => "git HEAD result is incomplete"@,
                        PhaseModel::SymbolicHead { .. } => "git symbolic HEAD result is incomplete"@,
                        PhaseModel::BranchExists { .. } =>
                            "git ref verification result is incomplete"@,
                        _ => "git log source is incomplete; retry with a smaller limit"@,
                    },
                ),
            )
        }),
{
}

/// The log is read from the requested head exactly where `git` says that it is a commit;
/// else there is no snapshot, and the head is named.
pub proof fn law_after_object_type(
    page: PageModel,
    project: Seq<char>,
    head: Seq<char>,
    result: ToolResultModel,
    is_object_id: spec_fn(Seq<char>) -> bool,
)
    requires
        process_of(result) is Ok,
        !process_of(result)->Ok_0.stdout_truncated,
    ensures
        ({
            let process = process_of(result)->Ok_0;
            let is_commit = process.exit_code == 0 && bare(process.stdout) == "commit"@;
            let step = next_step(
                GitLogSessionModel { page, phase: PhaseModel::ObjectType { project, head } },
                ReplyModel::Process(result),
                is_object_id,
            );
            &&& is_commit ==> asks_git(
                step,
                page,
                PhaseModel::Log { project, snapshot: head },
                project,
                log_args(head, page.limit, page.skip),
            )
            &&& !is_commit ==> step == StepModel::Answer(unavailable(page.project, Some(head)))
        }),
{
}

/// Where `HEAD` gives something, that is checked; the log is read from its normal form,
/// and without one there is no snapshot. Where it gives nothing, `git` is asked which
/// branch it names.
pub proof fn law_after_current_head(
    page: PageModel,
    project: Seq<char>,
    result: ToolResultModel,
    id: Seq<char>,
    is_object_id: spec_fn(Seq<char>) -> bool,
)
    requires
        process_of(result) is Ok,
        !process_of(result)->Ok_0.stdout_truncated,
    ensures
        ({
            let process = process_of(result)->Ok_0;
            let step = next_step(
                GitLogSessionModel { page, phase: PhaseModel::CurrentHead { project } },
                ReplyModel::Process(result),
                is_object_id,
            );
            let waiting = GitLogSessionModel { page, phase: PhaseModel::CurrentHeadId { project } };
            &&& process.exit_code == 0 ==> step == StepModel::Ask(
                waiting,
                QuestionModel::CommitId(bare(process.stdout)),
            )
            &&& process.exit_code != 0 ==> asks_git(
                step,
                page,
                PhaseModel::SymbolicHead { project },
                project,
                seq!["symbolic-ref"@, "-q"@, "HEAD"@],
            )
            &&& asks_git(
                next_step(waiting, ReplyModel::CommitId(Ok(id)), is_object_id),
                page,
                PhaseModel::Log { project, snapshot: id },
                project,
                log_args(id, page.limit, page.skip),
            )
            &&& next_step(waiting, ReplyModel::CommitId(Err(id)), is_object_id)
                == StepModel::Answer(unavailable(page.project, None))
        }),
{
}

/// Where `HEAD` names a branch, `git` is asked whether that very branch exists, and only
/// where it says that it does not is the project one without commits. In every other case
/// there is no snapshot.
pub proof fn law_after_branch(
    page: PageModel,
    project: Seq<char>,
    result: ToolResultModel,
    is_object_id: spec_fn(Seq<char>) -> bool,
)
    requires
        process_of(result) is Ok,
        !process_of(result)->Ok_0.stdout_truncated,
    ensures
        ({
            let process = process_of(result)->Ok_0;
            let name = bare(process.stdout);
            let named = next_step(
                GitLogSessionModel { page, phase: PhaseModel::SymbolicHead { project } },
                ReplyModel::Process(result),
                is_object_id,
            );
            let checked = next_step(
                GitLogSessionModel { page, phase: PhaseModel::BranchExists { project } },
                ReplyModel::Process(result),
                is_object_id,
            );
            &&& process.exit_code == 0 && name.len() > 0 ==> asks_git(
                named,
                page,
                PhaseModel::BranchExists { project },
                project,
                seq!["show-ref"@, "--verify"@, "--quiet"@, name],
            )
            &&& process.exit_code != 0 || name.len() == 0 ==> named == StepModel::Answer(
                unavailable(page.project, None),
            )
            &&& process.exit_code == 1 ==> checked == StepModel::Answer(empty_page(page))
            &&& process.exit_code != 1 ==> checked == StepModel::Answer(
                unavailable(page.project, None),
            )
        }),
{
}

/// A log that failed is answered with its failure, one that cannot be read with the reason,
/// and one that can with its page, to which the proposed call is added where there is a
/// next one.
pub proof fn law_after_log(
    page: PageModel,
    project: Seq<char>,
    snapshot: Seq<char>,
    result: ToolResultModel,
    call: crate::json::JsonModel,
    is_object_id: spec_fn(Seq<char>) -> bool,
)
    requires
        process_of(result) is Ok,
    ensures
        ({
            let process = process_of(result)->Ok_0;
            let step = next_step(
                GitLogSessionModel { page, phase: PhaseModel::Log { project, snapshot } },
                ReplyModel::Process(result),
                is_object_id,
            );
            &&& process.exit_code != 0 ==> step == StepModel::Answer(
                log_failed(page, snapshot, process),
            )
            &&& process.exit_code == 0 && !process.stdout_truncated ==> match read_page(
                process.stdout,
                page.limit,
                is_object_id,
            ) {
                Err(message) => step == StepModel::Answer(incomplete(page.project, message)),
                Ok((commits, truncated)) => {
                    let next = next_page_skip(page.skip, commits.len(), truncated);
                    let payload = page_output(page, Some(snapshot), commits, truncated, next);
                    let waiting = GitLogSessionModel {
                        page,
                        phase: PhaseModel::NextPage { payload },
                    };
                    match next {
                        None => step matches StepModel::Answer(answer) && answer.success
                            && answer.error is None && answer.output == payload,
                        Some(begin) => {
                            &&& step == StepModel::Ask(
                                waiting,
                                QuestionModel::SuggestedCall(
                                    next_page_call(
                                        project,
                                        snapshot,
                                        page.limit,
                                        begin as nat,
                                        page.session_id,
                                    ),
                                ),
                            )
                            &&& next_step(
                                waiting,
                                ReplyModel::SuggestedCall(call),
                                is_object_id,
                            ) matches StepModel::Answer(answer)
                            &&& answer.success
                            &&& answer.error is None
                            &&& answer.output == payload.with("suggested_call"@, call)
                        },
                    }
                },
            }
        }),
{
}

} // verus!
