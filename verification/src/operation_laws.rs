//! What the operations return, whatever they are called with.
//!
//! Each law speaks of a call and of its result: `call_ensures(f, args, r)` says that `f`,
//! called with `args`, may return `r`.

use vstd::prelude::*;

use crate::git_log::{
    git_log_args, git_log_next_skip, log_args, normalize_git_log_limit, normalize_git_log_skip,
    parse_git_log_commits, parse_git_log_refs, refs_of, GitCommit,
};
use crate::git_log_answer_laws::law_commits_of_a_page_are_shown;
use crate::git_log_laws::{
    commits_of, law_log_command, law_next_page_is_named, law_page_of_a_written_log,
    law_requested_page_is_given, legible, written_log,
};
use crate::git_log_session::{GitLogSession, Phase, Reply, Step};
use crate::git_log_step_laws::law_after_log;
use crate::git_process::{
    completed_git_process, law_completed_process_is_read, law_unread_process_fails, process_of,
    GitProcessOutput,
};
use crate::git_refs_laws::{
    all_names, law_comma_separates_parts, law_decorations_are_read_back, written_decorations,
    Decoration,
};
use crate::json::{Json, JsonModel};
use crate::mutation_outcome::{answers_with, law_told_end_is_believed, outcome_of, says};
use crate::observation::Outcome;
use crate::rule::{accepted, is_rule};
use crate::text::strings;
use crate::text_laws::value_of;
use crate::tool_effects::{
    law_only_named_calls_are_left_out, observes_with_metadata, ToolCall, ToolCallKind, ToolMetadata,
};
use crate::tool_result::ToolResult;

verus! {

/// The outcome of a tool result: unknown where one of its states says so; else, without a
/// job, completed where the command is over or the output says whether anything changed;
/// with a job that the rule accepts, completed where the command is over and pending in that
/// job where not; and unknown where none of this holds.
pub proof fn law_outcome_of_a_result<F: Fn(&str) -> bool>(
    output: &Json,
    is_safe_job_id: F,
    job: &str,
    safe: bool,
    r: Outcome,
)
    requires
        is_rule(is_safe_job_id),
        call_ensures(is_safe_job_id, (job,), safe),
        call_ensures(outcome_of::<F>, (output, is_safe_job_id), r),
    ensures
        ({
            let o = output@;
            let unknown = {
                ||| says(o, "execution_state"@, "outcome_unknown"@)
                ||| says(o, "execution_state"@, "lost"@)
                ||| says(o, "failure_kind"@, "outcome_unknown"@)
                ||| says(o, "failure_kind"@, "lost"@)
                ||| says(o, "command_execution_state"@, "outcome_unknown"@)
            };
            let over = answers_with(o, "command_completed"@, true) || answers_with(
                o,
                "command_started"@,
                false,
            );
            let change_told = answers_with(o, "state_changed"@, true) || answers_with(
                o,
                "state_changed"@,
                false,
            );
            let no_job = o.member("job_id"@) is None || o.member("job_id"@) == Some(
                JsonModel::Null,
            );
            let in_job = says(o, "job_id"@, job@);
            &&& unknown ==> r is Unknown
            &&& !unknown && no_job ==> (r is Completed <==> over || change_told)
            &&& !unknown && no_job ==> (r is Unknown <==> !(over || change_told))
            &&& !unknown && in_job && safe && over ==> r is Completed
            &&& !unknown && in_job && safe && !over ==> (r matches Outcome::Pending(left)
                && left@ == job@)
            &&& in_job && !safe ==> r is Unknown
            &&& !no_job && !(o.member("job_id"@)->0 is Text) ==> r is Unknown
        }),
{
    law_told_end_is_believed(output@, job@, accepted(is_safe_job_id));
    crate::rule::law_rule_decides(is_safe_job_id, job, safe);
}

/// A call is observed exactly where it is none of the six tools and no formatter that only
/// looks, and its declaration says that it may mutate a project.
pub proof fn law_observed_calls(call: &ToolCall, metadata: &ToolMetadata, r: bool)
    requires
        call_ensures(observes_with_metadata, (call, metadata), r),
    ensures
        r <==> {
            &&& call.name@ != "code_mode_exec"@
            &&& call.name@ != "code_mode_exec_effectful"@
            &&& call.name@ != "code_mode_exec_mutating"@
            &&& call.name@ != "cargo_check"@
            &&& call.name@ != "cargo_test"@
            &&& call.name@ != "go_test"@
            &&& call.kind matches ToolCallKind::CargoFmt { check } ==> check != Some(true)
            &&& metadata.requires_project
            &&& metadata.effect is Other
            &&& metadata.shell_like || !(metadata.risk is Other)
        },
{
    law_only_named_calls_are_left_out(*call, *metadata);
}

/// The command line of a page asks for one commit more than the page holds.
pub proof fn law_command_line(head: &str, limit: usize, skip: usize, r: Vec<String>)
    requires
        call_ensures(git_log_args, (head, limit, skip), r),
    ensures
        r@.len() == 9,
        r@[0]@ == "log"@,
        r@[1]@ == "--decorate=short"@,
        r@[2]@ == "--date=iso-strict"@,
        r@[3]@ == "--pretty=format:%H%x1f%h%x1f%D%x1f%an%x1f%ae%x1f%aI%x1f%s%x1e"@,
        r@[4]@ == "-n"@,
        limit < usize::MAX ==> value_of(r@[5]@) == limit + 1,
        limit == usize::MAX ==> value_of(r@[5]@) == limit,
        r@[6]@ == "--skip"@,
        value_of(r@[7]@) == skip,
        r@[8]@ == head@,
{
    law_log_command(head@, limit as nat, skip as nat);
    let args = log_args(head@, limit as nat, skip as nat);
    assert(strings(r@) == args);
    assert(strings(r@).len() == r@.len());
    assert forall|i: int| 0 <= i < 9 implies args[i] == (#[trigger] r@[i])@ by {}
}

/// The decorations that `git` writes are read as exactly their names, in order and each in
/// full.
pub proof fn law_refs_of_decorations(decorations: &str, all: Seq<Decoration>, r: Vec<String>)
    requires
        call_ensures(parse_git_log_refs, (decorations,), r),
        decorations@ == written_decorations(all),
        forall|i: int| 0 <= i < all.len() ==> (#[trigger] all[i]).readable(),
    ensures
        r@.len() == all_names(all).len(),
        forall|i: int| 0 <= i < r@.len() ==> (#[trigger] r@[i])@ == all_names(all)[i],
{
    law_decorations_are_read_back(all);
    assert(strings(r@).len() == r@.len());
    assert forall|i: int| 0 <= i < r@.len() implies (#[trigger] r@[i])@ == all_names(all)[i] by {
        assert(strings(r@)[i] == r@[i]@);
    }
}

/// Two decorations with a comma between them are read as the one and then the other.
pub proof fn law_refs_of_joined_decorations(
    a: &str,
    b: &str,
    both: &str,
    ra: Vec<String>,
    rb: Vec<String>,
    r: Vec<String>,
)
    requires
        both@ == a@ + seq![','] + b@,
        call_ensures(parse_git_log_refs, (a,), ra),
        call_ensures(parse_git_log_refs, (b,), rb),
        call_ensures(parse_git_log_refs, (both,), r),
    ensures
        strings(r@) == strings(ra@) + strings(rb@),
{
    law_comma_separates_parts(a@, b@);
}

/// A log of legible records is read as they were written, field by field; a bad record on
/// the page or right behind it makes it unreadable.
pub proof fn law_commits_of_a_log<F: Fn(&str) -> bool>(
    stdout: &str,
    limit: usize,
    is_object_id: F,
    log: Seq<Seq<Seq<char>>>,
    r: Result<(Vec<GitCommit>, bool), &'static str>,
)
    requires
        call_ensures(parse_git_log_commits::<F>, (stdout, limit, is_object_id), r),
        stdout@ == written_log(log),
        forall|i: int| 0 <= i < log.len() ==> legible(#[trigger] log[i]),
    ensures
        r is Err <==> exists|i: int|
            0 <= i < log.len() && i <= limit && ((#[trigger] log[i]).len() < 7 || !accepted(
                is_object_id,
            )(log[i][0])),
        r matches Err(message) ==> message@
            == "git log source is incomplete or malformed; retry with a smaller limit"@,
        r matches Ok((commits, truncated)) ==> {
            &&& truncated == (log.len() > limit)
            &&& commits@.len() == if log.len() <= limit {
                log.len()
            } else {
                limit as nat
            }
            &&& forall|i: int|
                0 <= i < commits@.len() ==> {
                    &&& (#[trigger] commits@[i]).hash@ == log[i][0]
                    &&& commits@[i].short_hash@ == log[i][1]
                    &&& strings(commits@[i].refs@) == refs_of(log[i][2])
                    &&& commits@[i].author_name@ == log[i][3]
                    &&& commits@[i].author_email@ == log[i][4]
                    &&& commits@[i].author_date@ == log[i][5]
                    &&& commits@[i].subject@ == log[i][6]
                }
        },
{
    law_page_of_a_written_log(log, limit as nat, accepted(is_object_id));
    if let Ok((commits, truncated)) = r {
        let page = if log.len() <= limit {
            log
        } else {
            log.take(limit as int)
        };
        let read = crate::git_log::commits_model(commits@);
        assert(read == commits_of(page));
        assert(read.len() == commits@.len());
        assert forall|i: int| 0 <= i < commits@.len() implies (#[trigger] commits@[i])@
            == crate::git_log_laws::commit_of_fields(log[i]) by {
            assert(read[i] == commits@[i]@);
            assert(page[i] == log[i]);
        }
    }
}

/// The page that a step ends with, or that waits for its proposed call.
pub open spec fn page_of_step(r: Step) -> Option<JsonModel> {
    match r {
        Step::Answer(answer) => if answer.success {
            Some(answer.output@)
        } else {
            None
        },
        Step::Ask(session, _) => match session.phase {
            Phase::NextPage { payload } => Some(payload@),
            _ => None,
        },
        Step::Unresolved(_) => None,
    }
}

/// The page that a log leads to shows each commit that is read from it, with all its texts
/// in full.
pub proof fn law_answer_shows_what_was_read<F: Fn(&str) -> bool>(
    session: GitLogSession,
    result: ToolResult,
    stdout: &str,
    is_object_id: F,
    commits: Vec<GitCommit>,
    truncated: bool,
    r: Step,
)
    requires
        session.phase is Log,
        process_of(result@) is Ok,
        process_of(result@)->Ok_0.exit_code == 0,
        !process_of(result@)->Ok_0.stdout_truncated,
        stdout@ == process_of(result@)->Ok_0.stdout,
        call_ensures(
            parse_git_log_commits::<F>,
            (stdout, session.page.limit, is_object_id),
            Ok::<(Vec<GitCommit>, bool), &'static str>((commits, truncated)),
        ),
        call_ensures(
            GitLogSession::advance::<F>,
            (session, Reply::Process(result), is_object_id),
            r,
        ),
    ensures
        page_of_step(r) matches Some(page) && {
            &&& page.text_member("project"@) == Some(session.page.project@)
            &&& page.integer_member("limit"@) == Some(session.page.limit as int)
            &&& page.integer_member("skip"@) == Some(session.page.skip as int)
            &&& page.integer_member("count"@) == Some(commits@.len() as int)
            &&& page.bool_member("truncated"@) == Some(truncated)
            &&& page.member("commits"@) matches Some(JsonModel::Array(shown))
            &&& shown.len() == commits@.len()
            &&& forall|i: int|
                0 <= i < commits@.len() ==> {
                    &&& (#[trigger] shown[i]).text_member("hash"@) == Some(commits@[i].hash@)
                    &&& shown[i].text_member("short_hash"@) == Some(commits@[i].short_hash@)
                    &&& shown[i].text_member("subject"@) == Some(commits@[i].subject@)
                    &&& shown[i].text_member("author_name"@) == Some(commits@[i].author_name@)
                    &&& shown[i].text_member("author_email"@) == Some(commits@[i].author_email@)
                    &&& shown[i].text_member("author_date"@) == Some(commits@[i].author_date@)
                }
        },
{
    if let Phase::Log { project, snapshot } = session.phase {
        let page = session.page@;
        law_after_log(
            page,
            project@,
            snapshot@,
            result@,
            JsonModel::Null,
            accepted(is_object_id),
        );
        let read = crate::git_log::commits_model(commits@);
        let next = crate::git_log::next_page_skip(page.skip, read.len(), truncated);
        crate::git_log_session_laws::law_page_members(
            page,
            Some(snapshot@),
            read,
            truncated,
            next,
        );
        law_commits_of_a_page_are_shown(page, Some(snapshot@), read, truncated, next);
        assert(page_of_step(r) == Some(
            crate::git_log_session::page_output(page, Some(snapshot@), read, truncated, next),
        ));
        assert forall|i: int| 0 <= i < commits@.len() implies read[i] == (#[trigger] commits@[i])@ by {}
    }
}

/// A process result is read exactly where it reports a completion, with its own exit code
/// and texts; every other one fails.
pub proof fn law_process_of_a_result(
    result: ToolResult,
    r: Result<GitProcessOutput, ToolResult>,
)
    requires
        call_ensures(completed_git_process, (result,), r),
    ensures
        ({
            let output = result.output@;
            &&& r is Ok <==> {
                &&& output.member("execution_state"@) == Some(JsonModel::Text("completed"@))
                &&& output.member("exit_code"@) matches Some(JsonModel::Integer(n)) && -0x8000_0000
                    <= n <= 0x7fff_ffff
                &&& output.member("stdout_tail"@) matches Some(JsonModel::Text(_))
            }
            &&& r matches Ok(process) ==> {
                &&& output.member("exit_code"@) == Some(
                    JsonModel::Integer(process.exit_code as int),
                )
                &&& output.member("stdout_tail"@) == Some(JsonModel::Text(process.stdout@))
                &&& match output.member("stderr_tail"@) {
                    Some(JsonModel::Text(t)) => process.stderr@ == t,
                    _ => process.stderr@.len() == 0,
                }
                &&& process.stdout_truncated <==> output.member("stdout_truncated"@) == Some(
                    JsonModel::Bool(true),
                )
            }
            &&& r matches Err(failed) ==> !failed.success && (!result.success ==> failed@
                == result@)
        }),
{
    law_completed_process_is_read(result@);
    law_unread_process_fails(result@, Seq::empty());
}

/// The bounds of a page and the beginning of the next one.
pub proof fn law_bounds_of_a_page(
    n: usize,
    limit: usize,
    no_limit: usize,
    skip: usize,
    no_skip: usize,
    count: usize,
    truncated: bool,
    next: Option<usize>,
)
    requires
        call_ensures(normalize_git_log_limit, (Some(n),), limit),
        call_ensures(normalize_git_log_limit, (None::<usize>,), no_limit),
        call_ensures(normalize_git_log_skip, (Some(n),), skip),
        call_ensures(normalize_git_log_skip, (None::<usize>,), no_skip),
        call_ensures(git_log_next_skip, (n, count, truncated), next),
    ensures
        limit == if n == 0 {
            20
        } else if n <= 100 {
            n
        } else {
            100
        },
        no_limit == 20,
        skip == if n <= 10_000 {
            n
        } else {
            10_000
        },
        no_skip == 0,
        next is Some <==> truncated && count > 0 && n + count <= 10_000,
        next matches Some(begin) ==> begin == n + count,
{
    law_requested_page_is_given(n);
    law_next_page_is_named(n as nat, count as nat, truncated);
}

} // verus!
