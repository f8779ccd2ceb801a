//! Which tool calls may change the sources of a project.

use vstd::prelude::*;

use crate::text::same_text;

verus! {

/// What a tool call is, as far as its effect depends on it.
#[derive(Debug, PartialEq, Eq)]
pub enum ToolCallKind {
    /// The formatter, which only looks where `check` is set.
    CargoFmt { check: Option<bool> },
    Other,
}

/// A tool call.
#[derive(Debug, PartialEq, Eq)]
pub struct ToolCall {
    pub name: String,
    pub kind: ToolCallKind,
}

/// What a tool does to its surroundings.
#[derive(Clone, Copy, Debug, PartialEq, Eq, Structural)]
pub enum ToolEffect {
    Observe,
    Other,
}

/// What a tool puts at risk.
#[derive(Clone, Copy, Debug, PartialEq, Eq, Structural)]
pub enum ToolRisk {
    ProjectWrite,
    JobRun,
    CheckpointManage,
    Other,
}

/// What the runtime declares of a tool.
#[derive(Clone, Copy, Debug, PartialEq, Eq, Structural)]
pub struct ToolMetadata {
    pub requires_project: bool,
    pub effect: ToolEffect,
    pub shell_like: bool,
    pub risk: ToolRisk,
}

/// Whether the tool is a wrapper, which does not write itself and whose calls are
/// observed one by one, or a validator, whose own writes go through no fence.
pub open spec fn is_wrapper_or_validator(name: Seq<char>) -> bool {
    ||| name == "code_mode_exec"@
    ||| name == "code_mode_exec_effectful"@
    ||| name == "code_mode_exec_mutating"@
    ||| name == "cargo_check"@
    ||| name == "cargo_test"@
    ||| name == "go_test"@
}

/// Whether the call is left out whatever is declared of its tool.
pub open spec fn is_exempt(call: ToolCall) -> bool {
    ||| is_wrapper_or_validator(call.name@)
    ||| call.kind == ToolCallKind::CargoFmt { check: Some(true) }
}

/// Whether a tool may change the sources of a project, by what is declared of it.
pub open spec fn may_mutate(metadata: ToolMetadata) -> bool {
    &&& metadata.requires_project
    &&& metadata.effect != ToolEffect::Observe
    &&& metadata.shell_like || metadata.risk == ToolRisk::ProjectWrite || metadata.risk
        == ToolRisk::JobRun || metadata.risk == ToolRisk::CheckpointManage
}

/// Whether the call is left out whatever is declared of its tool.
fn exempt(call: &ToolCall) -> (r: bool)
    ensures
        r == is_exempt(*call),
{
    let name = call.name.as_str();
    if same_text(name, "code_mode_exec") || same_text(name, "code_mode_exec_effectful")
        || same_text(name, "code_mode_exec_mutating") || same_text(name, "cargo_check")
        || same_text(name, "cargo_test") || same_text(name, "go_test") {
        return true;
    }
    match call.kind {
        ToolCallKind::CargoFmt { check: Some(true) } => true,
        _ => false,
    }
}

/// Whether the call may change the sources of a project, where this is declared of its
/// tool.
pub fn observes_with_metadata(call: &ToolCall, metadata: &ToolMetadata) -> (r: bool)
    ensures
        r == (!is_exempt(*call) && may_mutate(*metadata)),
{
    !exempt(call) && metadata.requires_project && metadata.effect != ToolEffect::Observe && (
    metadata.shell_like || metadata.risk == ToolRisk::ProjectWrite || metadata.risk
        == ToolRisk::JobRun || metadata.risk == ToolRisk::CheckpointManage)
}

/// Whether the call may change the sources of a project.
///
/// `runtime_tool_metadata` gives what the runtime declares of the tool with a name; it is
/// asked for the name of the call, and not at all where the call is exempt.
pub fn observes_potential_mutation<F: Fn(&str) -> ToolMetadata>(
    call: &ToolCall,
    runtime_tool_metadata: F,
) -> (r: bool)
    requires
        forall|name: &str|
            name@ == call.name@ ==> call_requires(runtime_tool_metadata, (name,)),
    ensures
        is_exempt(*call) ==> !r,
        !is_exempt(*call) ==> exists|name: &str, metadata: ToolMetadata|
            name@ == call.name@ && #[trigger] call_ensures(
                runtime_tool_metadata,
                (name,),
                metadata,
            ) && r == may_mutate(metadata),
{
    if exempt(call) {
        return false;
    }
    let metadata = runtime_tool_metadata(call.name.as_str());
    observes_with_metadata(call, &metadata)
}

/// Neither a wrapper nor a validator nor a formatter that only looks is ever observed,
/// whatever is declared of it.
pub proof fn law_exempt_calls_are_never_observed(call: ToolCall, metadata: ToolMetadata)
    requires
        is_wrapper_or_validator(call.name@) || call.kind == (ToolCallKind::CargoFmt {
            check: Some(true),
        }),
    ensures
        !(!is_exempt(call) && may_mutate(metadata)),
{
}

/// A tool that only observes, or that works on no project, is not observed; one that
/// works on a project like a shell is, unless it only observes.
pub proof fn law_declared_effect_decides(metadata: ToolMetadata)
    ensures
        metadata.effect == ToolEffect::Observe ==> !may_mutate(metadata),
        !metadata.requires_project ==> !may_mutate(metadata),
        metadata.requires_project && metadata.effect != ToolEffect::Observe && metadata.shell_like
            ==> may_mutate(metadata),
{
}

/// Only six tools, by their exact names, and a formatter that only looks are left out
/// whatever is declared; every other call is observed exactly where its tool works on a
/// project, does more than observe, and is like a shell or puts the project, a job or a
/// checkpoint at risk.
pub proof fn law_only_named_calls_are_left_out(call: ToolCall, metadata: ToolMetadata)
    ensures
        (!is_exempt(call) && may_mutate(metadata)) || {
            ||| call.name@ == "code_mode_exec"@
            ||| call.name@ == "code_mode_exec_effectful"@
            ||| call.name@ == "code_mode_exec_mutating"@
            ||| call.name@ == "cargo_check"@
            ||| call.name@ == "cargo_test"@
            ||| call.name@ == "go_test"@
            ||| call.kind matches ToolCallKind::CargoFmt { check } && check == Some(true)
            ||| !metadata.requires_project
            ||| metadata.effect is Observe
            ||| !metadata.shell_like && metadata.risk is Other
        },
        (!is_exempt(call) && may_mutate(metadata)) ==> {
            &&& call.name@ != "code_mode_exec"@
            &&& call.name@ != "code_mode_exec_effectful"@
            &&& call.name@ != "code_mode_exec_mutating"@
            &&& call.name@ != "cargo_check"@
            &&& call.name@ != "cargo_test"@
            &&& call.name@ != "go_test"@
            &&& call.kind matches ToolCallKind::CargoFmt { check } ==> check != Some(true)
            &&& metadata.requires_project
            &&& metadata.effect is Other
            &&& metadata.shell_like || !(metadata.risk is Other)
        },
{
}

/// Two calls that are both observed for some declaration are observed for the same ones:
/// beyond what leaves a call out, neither its name nor its kind makes a difference.
pub proof fn law_name_makes_no_other_difference(
    a: ToolCall,
    b: ToolCall,
    some: ToolMetadata,
    other: ToolMetadata,
    metadata: ToolMetadata,
)
    requires
        (!is_exempt(a) && may_mutate(some)),
        (!is_exempt(b) && may_mutate(other)),
    ensures
        (!is_exempt(a) && may_mutate(metadata)) == (!is_exempt(b) && may_mutate(metadata)),
{
}

/// A formatter that may rewrite sources is observed wherever its declaration says that it
/// may mutate, under its own name and under every other but those of the six tools.
pub proof fn law_rewriting_formatter_is_observed(call: ToolCall, metadata: ToolMetadata)
    requires
        call.name@ == "cargo_fmt"@,
        call.kind matches ToolCallKind::CargoFmt { check } ==> check != Some(true),
        metadata.requires_project,
        metadata.effect is Other,
        metadata.shell_like || !(metadata.risk is Other),
    ensures
        (!is_exempt(call) && may_mutate(metadata)),
{
    reveal_strlit("cargo_fmt");
    reveal_strlit("code_mode_exec");
    reveal_strlit("code_mode_exec_effectful");
    reveal_strlit("code_mode_exec_mutating");
    reveal_strlit("cargo_check");
    reveal_strlit("cargo_test");
    reveal_strlit("go_test");
    assert("cargo_fmt"@.len() == 9);
    assert("code_mode_exec"@.len() == 14);
    assert("code_mode_exec_effectful"@.len() == 24);
    assert("code_mode_exec_mutating"@.len() == 23);
    assert("cargo_check"@.len() == 11);
    assert("cargo_test"@.len() == 10);
    assert("go_test"@.len() == 7);
}

} // verus!
