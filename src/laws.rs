//! Properties of whole exchanges, proved over the orchestrator's step
//! function.

use vstd::prelude::*;
use crate::message::{AgentError, ToolCallView, tool_result_view};
use crate::session::{ActionView, EventView, Phase, SessionView, next, tool_request};
use crate::tools::{Tool, json_string_member, tool_named};

verus! {

/// A call of the page fetcher whose arguments carry a string `url`, followed
/// by the tool's output and then a plain-text reply, ends the exchange with
/// that text after exactly one page fetch, of that url.
pub proof fn lemma_one_tool_call_then_answer(
    s: SessionView,
    call: ToolCallView,
    url: Seq<char>,
    output: Seq<char>,
    answer: Seq<char>,
)
    requires
        s.phase == Phase::AwaitingReply,
        s.tool_calls < s.max_tool_calls,
        tool_named(call.name) == Some(Tool::FetchPageText),
        json_string_member(call.arguments, "url"@) == Some(Some(url)),
    ensures
        ({
            let (s1, a1) = next(s, EventView::ToolRequested(tool_request(call)));
            let (s2, a2) = next(s1, EventView::ToolOutput(output));
            let (s3, a3) = next(s2, EventView::Answered(answer));
            &&& a1 == ActionView::FetchPage(url)
            &&& a2 == ActionView::SendChat
            &&& a3 == ActionView::Finish(answer)
            &&& s3.phase == Phase::Done
            &&& s3.tool_calls == s.tool_calls + 1
        }),
{
}

/// A plain-text reply to the first request is the answer: the exchange
/// ends at once, with no tool call and the conversation untouched.
pub proof fn lemma_plain_answer_passes_through(s: SessionView, answer: Seq<char>)
    requires
        s.phase == Phase::AwaitingReply,
    ensures
        ({
            let (s1, a1) = next(s, EventView::Answered(answer));
            &&& a1 == ActionView::Finish(answer)
            &&& s1.phase == Phase::Done
            &&& s1.tool_calls == s.tool_calls
            &&& s1.conversation == s.conversation
        }),
{
}

/// After a tool call, the conversation sent with the next request holds
/// every earlier message, in order, followed by exactly one tool-result
/// message carrying the tool's output.
pub proof fn lemma_history_preserved(s: SessionView, output: Seq<char>)
    requires
        s.phase == Phase::AwaitingPage,
    ensures
        ({
            let (s1, a1) = next(s, EventView::ToolOutput(output));
            &&& a1 == ActionView::SendChat
            &&& s1.conversation.len() == s.conversation.len() + 1
            &&& s1.conversation.subrange(0, s.conversation.len() as int) == s.conversation
            &&& s1.conversation.last() == tool_result_view(output)
        }),
{
    let (s1, a1) = next(s, EventView::ToolOutput(output));
    assert(s1.conversation.subrange(0, s.conversation.len() as int) =~= s.conversation);
}

/// A call of the page fetcher whose arguments are not JSON, or have no
/// string member `url`, fails the exchange with `MalformedToolArguments` and
/// no page is fetched.
pub proof fn lemma_malformed_arguments_fail(s: SessionView, call: ToolCallView)
    requires
        s.phase == Phase::AwaitingReply,
        s.tool_calls < s.max_tool_calls,
        tool_named(call.name) == Some(Tool::FetchPageText),
        !(json_string_member(call.arguments, "url"@) matches Some(Some(_))),
    ensures
        ({
            let (s1, a1) = next(s, EventView::ToolRequested(tool_request(call)));
            &&& a1 == ActionView::Fail(AgentError::MalformedToolArguments)
            &&& s1.phase == Phase::Done
            &&& s1.tool_calls == s.tool_calls
        }),
{
}

/// A failed page fetch fails the exchange with `FetchFailed`, and once an
/// exchange is over no later event yields an answer or any other action.
pub proof fn lemma_fetch_failure_propagates(s: SessionView, later: EventView)
    requires
        s.phase == Phase::AwaitingPage,
    ensures
        ({
            let (s1, a1) = next(s, EventView::FetchFailed);
            &&& a1 == ActionView::Fail(AgentError::FetchFailed)
            &&& s1.phase == Phase::Done
            &&& next(s1, later) == (s1, ActionView::Ignore)
        }),
{
}

/// The conversation only ever grows, and only by one tool-result message
/// appended at its end.
pub proof fn lemma_conversation_append_only(s: SessionView, e: EventView)
    ensures
        ({
            let (s1, a1) = next(s, e);
            ||| s1.conversation == s.conversation
            ||| exists|t: Seq<char>| s1.conversation == s.conversation.push(#[trigger] tool_result_view(t))
        }),
{
    let (s1, a1) = next(s, e);
    if let EventView::ToolOutput(t) = e {
        if s.phase == Phase::AwaitingPage {
            assert(s1.conversation == s.conversation.push(tool_result_view(t)));
        }
    }
}

} // verus!
