//! Reading the tool result of a finished `git` process.

use vstd::prelude::*;

use crate::json::{empty_object, Json, JsonModel};
use crate::tool_result::{failure, ToolResult, ToolResultModel};

verus! {

/// What a finished `git` process left.
#[derive(Debug, PartialEq, Eq)]
pub struct GitProcessOutput {
    pub exit_code: i32,
    pub stdout: String,
    pub stderr: String,
    pub stdout_truncated: bool,
}

/// What a finished `git` process left, with its texts as sequences.
#[verifier::ext_equal]
pub struct GitProcessModel {
    pub exit_code: int,
    pub stdout: Seq<char>,
    pub stderr: Seq<char>,
    pub stdout_truncated: bool,
}

impl View for GitProcessOutput {
    type V = GitProcessModel;

    open spec fn view(&self) -> GitProcessModel {
        GitProcessModel {
            exit_code: self.exit_code as int,
            stdout: self.stdout@,
            stderr: self.stderr@,
            stdout_truncated: self.stdout_truncated,
        }
    }
}

/// The exit code that an output reports, where it is one that a process can have.
pub open spec fn reported_exit_code(output: JsonModel) -> Option<int> {
    match output.integer_member("exit_code"@) {
        Some(n) => if i32::MIN <= n <= i32::MAX {
            Some(n)
        } else {
            None
        },
        None => None,
    }
}

/// Whether an output reports a process that ran to its end, with its exit code and
/// what it wrote.
pub open spec fn reports_completion(output: JsonModel) -> bool {
    &&& output.text_member("execution_state"@) == Some("completed"@)
    &&& reported_exit_code(output) is Some
    &&& output.text_member("stdout_tail"@) is Some
}

/// The failure that stands for a success whose output does not report a completion.
pub open spec fn incomplete_process() -> ToolResultModel {
    failure(
        "git process result is incomplete or malformed"@,
        empty_object().with("error_kind"@, JsonModel::Text("source_incomplete"@)).with(
            "state_changed"@,
            JsonModel::Bool(false),
        ),
    )
}

/// What a tool result says of the process: what it left, where its output reports a
/// completion; else the failure to answer with. A result that failed is that failure
/// itself; one that claims success fails all the same.
pub open spec fn process_of(result: ToolResultModel) -> Result<GitProcessModel, ToolResultModel> {
    let output = result.output;
    if reports_completion(output) {
        Ok(
            GitProcessModel {
                exit_code: reported_exit_code(output)->0,
                stdout: output.text_member("stdout_tail"@)->0,
                stderr: match output.text_member("stderr_tail"@) {
                    Some(t) => t,
                    None => seq![],
                },
                stdout_truncated: output.bool_member("stdout_truncated"@) == Some(true),
            },
        )
    } else if result.success {
        Err(incomplete_process())
    } else {
        Err(result)
    }
}

/// The exit code that an output reports.
fn exit_code_of(output: &Json) -> (r: Option<i32>)
    ensures
        match reported_exit_code(output@) {
            Some(n) => r == Some(n as i32),
            None => r is None,
        },
{
    match output.get("exit_code") {
        Some(member) => match member.as_i64() {
            Some(n) => if i32::MIN as i64 <= n && n <= i32::MAX as i64 {
                Some(n as i32)
            } else {
                None
            },
            None => None,
        },
        None => None,
    }
}

/// What the process left, where the output reports a completion.
fn read_completion(output: &Json) -> (r: Option<GitProcessOutput>)
    ensures
        r is Some <==> reports_completion(output@),
        r is Some ==> forall|result: ToolResultModel|
            result.output == output@ ==> #[trigger] process_of(result) == Ok::<
                GitProcessModel,
                ToolResultModel,
            >(r->0@),
{
    let completed = match output.text_member("execution_state") {
        Some(state) => crate::text::same_text(state, "completed"),
        None => false,
    };
    if !completed {
        return None;
    }
    let exit_code = match exit_code_of(output) {
        Some(code) => code,
        None => return None,
    };
    let stdout = match output.text_member("stdout_tail") {
        Some(text) => text.to_owned(),
        None => return None,
    };
    let stderr = match output.text_member("stderr_tail") {
        Some(text) => text.to_owned(),
        None => String::new(),
    };
    let stdout_truncated = match output.bool_member("stdout_truncated") {
        Some(b) => b,
        None => false,
    };
    Some(GitProcessOutput { exit_code, stdout, stderr, stdout_truncated })
}

/// What a tool result says of the process: what it left, or the failure to answer with.
pub fn completed_git_process(result: ToolResult) -> (r: Result<GitProcessOutput, ToolResult>)
    ensures
        match r {
            Ok(process) => process_of(result@) == Ok::<GitProcessModel, ToolResultModel>(process@),
            Err(failed) => process_of(result@) == Err::<GitProcessModel, ToolResultModel>(failed@),
        },
{
    match read_completion(&result.output) {
        Some(process) => Ok(process),
        None => if result.success {
            Err(
                ToolResult::err_with_output(
                    "git process result is incomplete or malformed",
                    Json::object().with("error_kind", Json::text("source_incomplete")).with(
                        "state_changed",
                        Json::Bool(false),
                    ),
                ),
            )
        } else {
            Err(result)
        },
    }
}

/// A process is read exactly where its result says that it completed, with an exit code
/// that 32 bits hold and with what it wrote: then its exit code, what it wrote, what it
/// wrote as errors (nothing where none is given) and whether that was cut off (only where
/// it says so) are those of the result, whether the result counts as a success or not.
pub proof fn law_completed_process_is_read(result: ToolResultModel)
    ensures
        ({
            let output = result.output;
            &&& process_of(result) is Ok <==> {
                &&& output.member("execution_state"@) == Some(JsonModel::Text("completed"@))
                &&& output.member("exit_code"@) matches Some(JsonModel::Integer(n)) && -0x8000_0000
                    <= n <= 0x7fff_ffff
                &&& output.member("stdout_tail"@) matches Some(JsonModel::Text(_))
            }
            &&& process_of(result) matches Ok(process) ==> {
                &&& output.member("exit_code"@) == Some(JsonModel::Integer(process.exit_code))
                &&& output.member("stdout_tail"@) == Some(JsonModel::Text(process.stdout))
                &&& match output.member("stderr_tail"@) {
                    Some(JsonModel::Text(t)) => process.stderr == t,
                    _ => process.stderr.len() == 0,
                }
                &&& process.stdout_truncated <==> output.member("stdout_truncated"@) == Some(
                    JsonModel::Bool(true),
                )
            }
        }),
{
}

/// A result that is not read as a process never counts as a success: one that failed is
/// passed on unchanged, and one that claims success becomes a failure that says that the
/// source is incomplete and that nothing changed.
pub proof fn law_unread_process_fails(result: ToolResultModel, name: Seq<char>)
    ensures
        process_of(result) matches Err(failed) ==> {
            &&& !failed.success
            &&& !result.success ==> failed == result
            &&& result.success ==> {
                &&& failed.error == Some("git process result is incomplete or malformed"@)
                &&& failed.output.member("error_kind"@) == Some(
                    JsonModel::Text("source_incomplete"@),
                )
                &&& failed.output.member("state_changed"@) == Some(JsonModel::Bool(false))
                &&& name != "error_kind"@ && name != "state_changed"@ ==> failed.output.member(
                    name,
                ) is None
            }
        },
{
    reveal_strlit("error_kind");
    reveal_strlit("state_changed");
    assert("error_kind"@.len() == 10);
    assert("state_changed"@.len() == 13);
}

/// A process output holds its own parts.
pub proof fn law_process_holds_its_parts(p: GitProcessOutput)
    ensures
        p@.exit_code == p.exit_code,
        p@.stdout == p.stdout@,
        p@.stderr == p.stderr@,
        p@.stdout_truncated == p.stdout_truncated,
{
}

} // verus!
