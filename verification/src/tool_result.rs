//! What a tool call gives back.

use vstd::prelude::*;

use crate::json::{Json, JsonModel};

verus! {

/// The result of a tool call.
#[derive(Debug, PartialEq, Eq)]
pub struct ToolResult {
    pub success: bool,
    pub output: Json,
    pub error: Option<String>,
}

/// What a tool result holds.
pub struct ToolResultModel {
    pub success: bool,
    pub output: JsonModel,
    pub error: Option<Seq<char>>,
}

/// The text that an optional string holds.
pub open spec fn optional_text(t: Option<String>) -> Option<Seq<char>> {
    match t {
        Some(s) => Some(s@),
        None => None,
    }
}

impl View for ToolResult {
    type V = ToolResultModel;

    open spec fn view(&self) -> ToolResultModel {
        ToolResultModel {
            success: self.success,
            output: self.output@,
            error: optional_text(self.error),
        }
    }
}

/// A success with that output.
pub open spec fn success(output: JsonModel) -> ToolResultModel {
    ToolResultModel { success: true, output, error: None }
}

/// A failure with that message and output.
pub open spec fn failure(error: Seq<char>, output: JsonModel) -> ToolResultModel {
    ToolResultModel { success: false, output, error: Some(error) }
}

impl ToolResult {
    /// A success with that output.
    pub fn ok(output: Json) -> (r: ToolResult)
        ensures
            r@ == success(output@),
    {
        ToolResult { success: true, output, error: None }
    }

    /// A failure with that message and output.
    pub fn err_with_output(error: &str, output: Json) -> (r: ToolResult)
        ensures
            r@ == failure(error@, output@),
    {
        ToolResult { success: false, output, error: Some(error.to_owned()) }
    }
}

/// A tool call that a result proposes.
#[derive(Debug, PartialEq, Eq)]
pub struct SuggestedToolCall {
    pub tool: String,
    pub arguments: Json,
}

/// What a proposed call holds.
pub struct SuggestedToolCallModel {
    pub tool: Seq<char>,
    pub arguments: JsonModel,
}

impl View for SuggestedToolCall {
    type V = SuggestedToolCallModel;

    open spec fn view(&self) -> SuggestedToolCallModel {
        SuggestedToolCallModel { tool: self.tool@, arguments: self.arguments@ }
    }
}

impl SuggestedToolCall {
    /// The call of `tool` with those arguments.
    pub fn new(tool: &str, arguments: Json) -> (r: SuggestedToolCall)
        ensures
            r@ == (SuggestedToolCallModel { tool: tool@, arguments: arguments@ }),
    {
        SuggestedToolCall { tool: tool.to_owned(), arguments }
    }
}

/// A result holds its own output and message, and a proposed call its own tool and
/// arguments.
pub proof fn law_result_holds_its_parts(r: ToolResult, call: SuggestedToolCall)
    ensures
        r@.success == r.success,
        r@.output == r.output@,
        r.error is None <==> r@.error is None,
        r.error matches Some(message) ==> r@.error == Some(message@),
        call@.tool == call.tool@,
        call@.arguments == call.arguments@,
{
}

/// A success carries its output and no message; a failure carries its output and its
/// message.
pub proof fn law_success_and_failure(output: JsonModel, error: Seq<char>)
    ensures
        success(output).success && success(output).output == output && success(output).error is None,
        !failure(error, output).success && failure(error, output).output == output && failure(
            error,
            output,
        ).error == Some(error),
{
}

} // verus!
