//! The result of one tool invocation.

use vstd::prelude::*;

verus! {

/// The code of a failure inside the service: the outbound request failed, or
/// the body of its response could not be read.
pub const INTERNAL_ERROR: i32 = -32603;

/// The code of a failure that the client's request caused: the tool is not
/// known, or the arguments do not fit its schema.
pub const INVALID_PARAMS: i32 = -32602;

/// One block of a successful result's content.
#[derive(Debug, PartialEq, Eq)]
pub enum ContentBlock {
    Text(String),
    Binary(Vec<u8>),
}

/// The mathematical model of a [`ContentBlock`].
pub enum ContentBlockView {
    Text(Seq<char>),
    Binary(Seq<u8>),
}

impl View for ContentBlock {
    type V = ContentBlockView;

    open spec fn view(&self) -> ContentBlockView {
        match self {
            ContentBlock::Text(text) => ContentBlockView::Text(text@),
            ContentBlock::Binary(bytes) => ContentBlockView::Binary(bytes@),
        }
    }
}

/// The outcome of one invocation, made anew for each and handed to the client.
#[derive(Debug, PartialEq, Eq)]
pub enum ToolResult {
    Success { content: Vec<ContentBlock> },
    Failure { code: i32, message: String, data: Option<String> },
}

/// The mathematical model of a [`ToolResult`].
pub enum ToolResultView {
    Success { content: Seq<ContentBlockView> },
    Failure { code: int, message: Seq<char>, data: Option<Seq<char>> },
}

/// The models of a sequence of content blocks, in order.
pub open spec fn content_view(content: Seq<ContentBlock>) -> Seq<ContentBlockView> {
    content.map_values(|block: ContentBlock| block@)
}

/// The model of optional text.
pub open spec fn optional_text_view(text: Option<String>) -> Option<Seq<char>> {
    match text {
        Some(t) => Some(t@),
        None => None,
    }
}

impl View for ToolResult {
    type V = ToolResultView;

    open spec fn view(&self) -> ToolResultView {
        match self {
            ToolResult::Success { content } => ToolResultView::Success {
                content: content_view(content@),
            },
            ToolResult::Failure { code, message, data } => ToolResultView::Failure {
                code: *code as int,
                message: message@,
                data: optional_text_view(*data),
            },
        }
    }
}

impl ToolResult {
    /// A successful result whose content is one block of text, kept as given.
    pub fn text(body: String) -> (r: ToolResult)
        ensures
            r@ == (ToolResultView::Success { content: seq![ContentBlockView::Text(body@)] }),
    {
        let mut content: Vec<ContentBlock> = Vec::new();
        content.push(ContentBlock::Text(body));
        assert(content_view(content@) =~= seq![ContentBlockView::Text(body@)]);
        ToolResult::Success { content }
    }

    /// A failure with the given code and message and no further data.
    pub fn failure(code: i32, message: String) -> (r: ToolResult)
        ensures
            r@ == (ToolResultView::Failure { code: code as int, message: message@, data: None }),
    {
        ToolResult::Failure { code, message, data: None }
    }

    /// Whether this result is a success.
    pub fn is_success(&self) -> (b: bool)
        ensures
            b == (self@ is Success),
    {
        match self {
            ToolResult::Success { .. } => true,
            ToolResult::Failure { .. } => false,
        }
    }
}

} // verus!
