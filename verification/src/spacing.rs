use vstd::prelude::*;

verus! {

/// The category of a rendered block of output.
#[derive(Debug, Clone, Copy, PartialEq, Eq, Structural)]
pub enum ContentType {
    Empty,
    Text,
    ToolCall,
    ToolResponse,
    System,
    Prompt,
    Header,
    Error,
}

impl Default for ContentType {
    /// The kind of the last block before any block is rendered.
    fn default() -> (out: ContentType)
        ensures
            out == ContentType::Empty,
    {
        ContentType::Empty
    }
}

/// Whether one blank separator line stands between a block of kind `prev`
/// and the block of kind `next` that follows it.
pub open spec fn needs_separator(prev: ContentType, next: ContentType) -> bool {
    if prev == ContentType::Empty {
        false
    } else if prev == ContentType::Header || next == ContentType::Header {
        true
    } else if prev == ContentType::ToolCall && next == ContentType::ToolResponse {
        false
    } else {
        true
    }
}

/// No separator stands before the first block, whatever its kind.
pub proof fn law_no_separator_at_start(next: ContentType)
    ensures
        !needs_separator(ContentType::Empty, next),
{
}

/// No separator stands between a tool call and the tool response that
/// follows it.
pub proof fn law_response_follows_call()
    ensures
        !needs_separator(ContentType::ToolCall, ContentType::ToolResponse),
{
}

/// A separator stands between a header and the block that follows it,
/// whatever its kind.
pub proof fn law_separator_after_header(next: ContentType)
    ensures
        needs_separator(ContentType::Header, next),
{
}

/// A separator stands between a block and the header that follows it.
pub proof fn law_separator_before_header(prev: ContentType)
    requires
        prev != ContentType::Empty,
    ensures
        needs_separator(prev, ContentType::Header),
{
}

/// Decides the separator before a block of kind `next` that follows a block
/// of kind `prev`, and gives the state after the block: always `next`.
pub fn spacing(prev: ContentType, next: ContentType) -> (out: (bool, ContentType))
    ensures
        out.0 == needs_separator(prev, next),
        out.1 == next,
{
    let separator = match (prev, next) {
        (ContentType::Empty, _) => false,
        (ContentType::Header, _) | (_, ContentType::Header) => true,
        (ContentType::ToolCall, ContentType::ToolResponse) => false,
        _ => true,
    };
    (separator, next)
}

} // verus!
