//! The ways in which registering or invoking a tool fails.

use vstd::prelude::*;
use crate::outcome::{ToolResult, ToolResultView, INTERNAL_ERROR, INVALID_PARAMS};
use crate::schema::{Fault, InvalidArguments, InvalidArgumentsView};

verus! {

/// A failure to register or to invoke a tool.
#[derive(Debug, PartialEq, Eq)]
pub enum ToolError {
    /// A tool of this name is registered already.
    DuplicateToolName(String),
    /// No tool of this name is registered.
    UnknownTool(String),
    /// The arguments do not fit the tool.
    InvalidArguments(InvalidArguments),
}

/// The mathematical model of a [`ToolError`].
pub enum ToolErrorView {
    DuplicateToolName(Seq<char>),
    UnknownTool(Seq<char>),
    InvalidArguments(InvalidArgumentsView),
}

impl View for ToolError {
    type V = ToolErrorView;

    open spec fn view(&self) -> ToolErrorView {
        match self {
            ToolError::DuplicateToolName(name) => ToolErrorView::DuplicateToolName(name@),
            ToolError::UnknownTool(name) => ToolErrorView::UnknownTool(name@),
            ToolError::InvalidArguments(fault) => ToolErrorView::InvalidArguments(fault@),
        }
    }
}

/// How a fault reads in a message.
pub open spec fn fault_text(reason: Fault) -> Seq<char> {
    match reason {
        Fault::Missing => "missing required field"@,
        Fault::WrongType => "value of the wrong type"@,
        Fault::Unknown => "unknown field"@,
        Fault::Empty => "must not be empty"@,
    }
}

/// The message that tells of `error`.
pub open spec fn error_message(error: ToolErrorView) -> Seq<char> {
    match error {
        ToolErrorView::DuplicateToolName(name) => "Duplicate tool name: "@ + name,
        ToolErrorView::UnknownTool(name) => "Unknown tool: "@ + name,
        ToolErrorView::InvalidArguments(fault) => "Invalid arguments: "@ + fault.field + ": "@
            + fault_text(fault.reason),
    }
}

/// The code under which `error` is reported. What the client's request
/// caused is an invalid request; a name registered twice is a fault of the
/// service itself.
pub open spec fn error_code(error: ToolErrorView) -> int {
    match error {
        ToolErrorView::DuplicateToolName(_) => INTERNAL_ERROR as int,
        ToolErrorView::UnknownTool(_) => INVALID_PARAMS as int,
        ToolErrorView::InvalidArguments(_) => INVALID_PARAMS as int,
    }
}

/// The failure that reports `error` to the client.
pub open spec fn error_result(error: ToolErrorView) -> ToolResultView {
    ToolResultView::Failure {
        code: error_code(error),
        message: error_message(error),
        data: None,
    }
}

/// How `reason` reads in a message.
pub fn describe_fault(reason: Fault) -> (text: String)
    ensures
        text@ == fault_text(reason),
{
    match reason {
        Fault::Missing => String::from_str("missing required field"),
        Fault::WrongType => String::from_str("value of the wrong type"),
        Fault::Unknown => String::from_str("unknown field"),
        Fault::Empty => String::from_str("must not be empty"),
    }
}

impl ToolError {
    /// The code under which this error is reported.
    pub fn code(&self) -> (code: i32)
        ensures
            code == error_code(self@),
    {
        match self {
            ToolError::DuplicateToolName(_) => INTERNAL_ERROR,
            ToolError::UnknownTool(_) => INVALID_PARAMS,
            ToolError::InvalidArguments(_) => INVALID_PARAMS,
        }
    }

    /// The message that tells of this error.
    pub fn message(&self) -> (message: String)
        ensures
            message@ == error_message(self@),
    {
        match self {
            ToolError::DuplicateToolName(name) => String::from_str("Duplicate tool name: ").concat(
                name.as_str(),
            ),
            ToolError::UnknownTool(name) => String::from_str("Unknown tool: ").concat(
                name.as_str(),
            ),
            ToolError::InvalidArguments(fault) => {
                let reason = describe_fault(fault.reason);
                String::from_str("Invalid arguments: ").concat(fault.field.as_str()).concat(
                    ": ",
                ).concat(reason.as_str())
            },
        }
    }

    /// The failure that reports this error to the client.
    pub fn to_result(&self) -> (r: ToolResult)
        ensures
            r@ == error_result(self@),
    {
        ToolResult::failure(self.code(), self.message())
    }
}

} // verus!
