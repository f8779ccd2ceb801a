//! How a potential mutation ended, as its tool result reports it.

use vstd::prelude::*;

use crate::json::{Json, JsonModel};
use crate::observation::{Outcome, OutcomeModel};
use crate::rule::{accepted, is_rule};
use crate::text::same_text;

verus! {

/// Whether a state says that nobody knows how the work ended.
pub open spec fn is_unknown_state(state: Option<Seq<char>>) -> bool {
    state == Some("outcome_unknown"@) || state == Some("lost"@)
}

/// Whether an output says that nobody knows how the work ended.
pub open spec fn reports_unknown_end(output: JsonModel) -> bool {
    ||| is_unknown_state(output.text_member("execution_state"@))
    ||| is_unknown_state(output.text_member("failure_kind"@))
    ||| output.text_member("command_execution_state"@) == Some("outcome_unknown"@)
}

/// Whether an output says that its command is over: it ran to its end, or it never
/// started.
pub open spec fn reports_command_over(output: JsonModel) -> bool {
    ||| output.bool_member("command_completed"@) == Some(true)
    ||| output.bool_member("command_started"@) == Some(false)
}

/// The job that an output names. A null names none.
pub open spec fn named_job(output: JsonModel) -> Option<JsonModel> {
    match output.member("job_id"@) {
        Some(JsonModel::Null) => None,
        other => other,
    }
}

/// How the work ended, as its output reports it. Work that names a job is done only
/// where its command is over, and else pending in that job, whose name has to be a safe
/// one. Other work is done where its command is over or it says whether it changed
/// anything. In every other case nobody can say.
pub open spec fn reported_outcome(
    output: JsonModel,
    is_safe_job_id: spec_fn(Seq<char>) -> bool,
) -> OutcomeModel {
    if reports_unknown_end(output) {
        OutcomeModel::Unknown
    } else {
        match named_job(output) {
            Some(JsonModel::Text(job)) => if !is_safe_job_id(job) {
                OutcomeModel::Unknown
            } else if reports_command_over(output) {
                OutcomeModel::Completed
            } else {
                OutcomeModel::Pending(job)
            },
            Some(_) => OutcomeModel::Unknown,
            None => if output.bool_member("state_changed"@) is Some || reports_command_over(
                output,
            ) {
                OutcomeModel::Completed
            } else {
                OutcomeModel::Unknown
            },
        }
    }
}

/// Whether the member with that name says that nobody knows how the work ended.
fn has_unknown_state(output: &Json, name: &str) -> (r: bool)
    ensures
        r == is_unknown_state(output@.text_member(name@)),
{
    match output.text_member(name) {
        Some(state) => same_text(state, "outcome_unknown") || same_text(state, "lost"),
        None => false,
    }
}

/// Whether an output says that nobody knows how the work ended.
fn has_unknown_end(output: &Json) -> (r: bool)
    ensures
        r == reports_unknown_end(output@),
{
    let command_unknown = match output.text_member("command_execution_state") {
        Some(state) => same_text(state, "outcome_unknown"),
        None => false,
    };
    has_unknown_state(output, "execution_state") || has_unknown_state(output, "failure_kind")
        || command_unknown
}

/// How the work ended, as its output reports it.
///
/// `is_safe_job_id` is the rule for the names of jobs.
pub fn outcome_of<F: Fn(&str) -> bool>(output: &Json, is_safe_job_id: F) -> (r: Outcome)
    requires
        is_rule(is_safe_job_id),
    ensures
        r@ == reported_outcome(output@, accepted(is_safe_job_id)),
{
    if has_unknown_end(output) {
        return Outcome::Unknown;
    }
    let command_completed = match output.bool_member("command_completed") {
        Some(b) => b,
        None => false,
    };
    let command_not_started = match output.bool_member("command_started") {
        Some(b) => !b,
        None => false,
    };
    if let Some(job_id) = output.get("job_id") {
        if !job_id.is_null() {
            return match job_id.as_text() {
                Some(job) => {
                    let safe = is_safe_job_id(job);
                    assert(safe == accepted(is_safe_job_id)(job@));
                    if !safe {
                        Outcome::Unknown
                    } else if command_completed || command_not_started {
                        Outcome::Completed
                    } else {
                        Outcome::Pending(job.to_owned())
                    }
                },
                None => Outcome::Unknown,
            };
        }
    }
    if output.bool_member("state_changed").is_some() || command_completed || command_not_started {
        Outcome::Completed
    } else {
        Outcome::Unknown
    }
}

/// Work that ended in an unknown way, or names a job that is no safe name, is never taken
/// for done or pending, whatever else its output says.
pub proof fn law_unknown_end_wins(output: JsonModel, is_safe_job_id: spec_fn(Seq<char>) -> bool)
    requires
        reports_unknown_end(output) || (named_job(output) matches Some(job) && !(
        job matches JsonModel::Text(name) && is_safe_job_id(name))),
    ensures
        reported_outcome(output, is_safe_job_id) == OutcomeModel::Unknown,
{
}

/// Work is taken for done only where its output says so: the command is over, or there is
/// no job and the output says whether anything changed. It is taken for pending only in
/// the job that it names, by a safe name, while the command is not over.
pub proof fn law_known_end_is_reported(
    output: JsonModel,
    is_safe_job_id: spec_fn(Seq<char>) -> bool,
)
    ensures
        match reported_outcome(output, is_safe_job_id) {
            OutcomeModel::Completed => !reports_unknown_end(output) && (reports_command_over(output)
                || named_job(output) is None && output.bool_member("state_changed"@) is Some),
            OutcomeModel::Pending(job) => {
                &&& !reports_unknown_end(output)
                &&& !reports_command_over(output)
                &&& named_job(output) == Some(JsonModel::Text(job))
                &&& is_safe_job_id(job)
            },
            OutcomeModel::Unknown => true,
        },
{
}

/// Whether the output holds that word under `name`.
pub open spec fn says(output: JsonModel, name: Seq<char>, word: Seq<char>) -> bool {
    output.member(name) == Some(JsonModel::Text(word))
}

/// Whether the output holds that truth value under `name`.
pub open spec fn answers_with(output: JsonModel, name: Seq<char>, b: bool) -> bool {
    output.member(name) == Some(JsonModel::Bool(b))
}

/// An end is unknown, first, where one of the three states says so in the two words for
/// it. Elsewhere an end that the output tells is never taken for unknown: without a job,
/// the work is done where its command ran to its end, or never started, or the output says
/// whether anything changed; with a job of a safe name, it is done where its command ran to
/// its end or never started, and pending in that job where not. What tells nothing, and a
/// job without a safe name, is unknown.
pub proof fn law_told_end_is_believed(
    output: JsonModel,
    job: Seq<char>,
    is_safe_job_id: spec_fn(Seq<char>) -> bool,
)
    ensures
        ({
            let unknown = {
                ||| says(output, "execution_state"@, "outcome_unknown"@)
                ||| says(output, "execution_state"@, "lost"@)
                ||| says(output, "failure_kind"@, "outcome_unknown"@)
                ||| says(output, "failure_kind"@, "lost"@)
                ||| says(output, "command_execution_state"@, "outcome_unknown"@)
            };
            let over = answers_with(output, "command_completed"@, true) || answers_with(
                output,
                "command_started"@,
                false,
            );
            let change_told = answers_with(output, "state_changed"@, true) || answers_with(
                output,
                "state_changed"@,
                false,
            );
            let no_job = output.member("job_id"@) is None || output.member("job_id"@) == Some(
                JsonModel::Null,
            );
            let outcome = reported_outcome(output, is_safe_job_id);
            &&& unknown ==> outcome is Unknown
            &&& !unknown && no_job && (over || change_told) ==> outcome is Completed
            &&& !unknown && no_job && !over && !change_told ==> outcome is Unknown
            &&& !unknown && says(output, "job_id"@, job) && is_safe_job_id(job) && over
                ==> outcome is Completed
            &&& !unknown && says(output, "job_id"@, job) && is_safe_job_id(job) && !over
                ==> outcome == OutcomeModel::Pending(job)
            &&& says(output, "job_id"@, job) && !is_safe_job_id(job) ==> outcome is Unknown
            &&& !no_job && !(output.member("job_id"@)->0 is Text) ==> outcome is Unknown
        }),
{
}

/// Nothing else that an output holds makes a difference: two outputs that agree on the
/// seven members that tell of an end report the same one.
pub proof fn law_other_members_make_no_difference(
    a: JsonModel,
    b: JsonModel,
    is_safe_job_id: spec_fn(Seq<char>) -> bool,
)
    requires
        a.member("execution_state"@) == b.member("execution_state"@),
        a.member("failure_kind"@) == b.member("failure_kind"@),
        a.member("command_execution_state"@) == b.member("command_execution_state"@),
        a.member("command_completed"@) == b.member("command_completed"@),
        a.member("command_started"@) == b.member("command_started"@),
        a.member("job_id"@) == b.member("job_id"@),
        a.member("state_changed"@) == b.member("state_changed"@),
    ensures
        reported_outcome(a, is_safe_job_id) == reported_outcome(b, is_safe_job_id),
{
}

/// Beside the words for an unknown end, the states make no difference either: an output
/// with any other state reports what it reports without one.
pub proof fn law_other_states_make_no_difference(
    output: JsonModel,
    name: Seq<char>,
    state: JsonModel,
    is_safe_job_id: spec_fn(Seq<char>) -> bool,
)
    requires
        output is Object,
        output.member(name) is None,
        name == "execution_state"@ || name == "failure_kind"@ || name
            == "command_execution_state"@,
        state != JsonModel::Text("outcome_unknown"@),
        state != JsonModel::Text("lost"@) || name == "command_execution_state"@,
    ensures
        reported_outcome(output.with(name, state), is_safe_job_id) == reported_outcome(
            output,
            is_safe_job_id,
        ),
{
    lemma_outcome_names();
}

/// The names of the members that tell of an end are different.
proof fn lemma_outcome_names()
    ensures
        "execution_state"@.len() == 15 && "execution_state"@[0] == 'e',
        "failure_kind"@.len() == 12,
        "command_execution_state"@.len() == 23,
        "command_completed"@.len() == 17,
        "command_started"@.len() == 15 && "command_started"@[0] == 'c',
        "job_id"@.len() == 6,
        "state_changed"@.len() == 13,
        "outcome_unknown"@.len() == 15,
        "lost"@.len() == 4,
{
    reveal_strlit("execution_state");
    reveal_strlit("failure_kind");
    reveal_strlit("command_execution_state");
    reveal_strlit("command_completed");
    reveal_strlit("command_started");
    reveal_strlit("job_id");
    reveal_strlit("state_changed");
    reveal_strlit("outcome_unknown");
    reveal_strlit("lost");
}

/// An outcome names its own job.
pub proof fn law_outcome_names_its_job(outcome: Outcome)
    ensures
        outcome is Completed <==> outcome@ is Completed,
        outcome is Unknown <==> outcome@ is Unknown,
        outcome matches Outcome::Pending(job) ==> outcome@ == OutcomeModel::Pending(job@),
{
}

} // verus!
