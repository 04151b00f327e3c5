use page_agent::message::{AgentError, Message, Role, ToolCall};
use page_agent::page::{page_text, RENDER_WIDTH};
use page_agent::session::{read_reply, Action, Event, Phase, Session};
use page_agent::text::trim_window;
use page_agent::tools::{all_tools, url_argument, url_from_member, Tool};

fn numbered_lines(n: usize) -> String {
    (1..=n).map(|i| format!("line{}", i)).collect::<Vec<_>>().join("\n")
}

fn tool_reply(name: &str, arguments: &str) -> Message {
    Message {
        role: Role::Assistant,
        content: Some(String::new()),
        tool_call: Some(ToolCall { name: name.to_string(), arguments: arguments.to_string() }),
    }
}

fn text_reply(text: &str) -> Message {
    Message { role: Role::Assistant, content: Some(text.to_string()), tool_call: None }
}

fn start() -> Session {
    Session::new(vec![Message::user("tell me about this page".to_string())], 5)
}

#[test]
fn trim_keeps_line_31_of_181() {
    assert_eq!(trim_window(&numbered_lines(181)), "line31");
}

#[test]
fn trim_of_180_lines_is_empty() {
    assert_eq!(trim_window(&numbered_lines(180)), "");
}

#[test]
fn trim_of_short_text_is_empty() {
    assert_eq!(trim_window(""), "");
    assert_eq!(trim_window("a\nb\nc"), "");
    assert_eq!(trim_window(&numbered_lines(179)), "");
}

#[test]
fn trim_keeps_middle_lines() {
    let expected = (31..=50).map(|i| format!("line{}", i)).collect::<Vec<_>>().join("\n");
    assert_eq!(trim_window(&numbered_lines(200)), expected);
}

#[test]
fn trim_counts_trailing_newline_as_a_line() {
    let text = format!("{}\n", numbered_lines(181));
    assert_eq!(trim_window(&text), "line31\nline32");
}

#[test]
fn trim_keeps_non_ascii_text() {
    let lines: Vec<String> = (1..=181).map(|i| format!("行{}", i)).collect();
    assert_eq!(trim_window(&lines.join("\n")), "行31");
}

#[test]
fn page_text_renders_then_trims() {
    let markup: String = (1..=300).map(|i| format!("<p>paragraph {}</p>", i)).collect();
    let rendered = html2text::from_read(markup.as_bytes(), RENDER_WIDTH);
    let rendered = rendered.unwrap();
    let text = page_text(&markup).unwrap();
    assert_eq!(text, trim_window(&rendered));
    assert!(!text.is_empty());
    assert!(!text.contains("<p>"));
    assert!(!text.contains("paragraph 1\n"));
}

#[test]
fn page_text_of_short_page_is_empty() {
    assert_eq!(page_text("<html><body><p>hello</p></body></html>"), Ok(String::new()));
}

#[test]
fn page_text_of_deeply_nested_page_does_not_panic() {
    let markup = format!("{}text{}", "<blockquote>".repeat(60), "</blockquote>".repeat(60));
    match html2text::from_read(markup.as_bytes(), RENDER_WIDTH) {
        Ok(rendered) => assert_eq!(page_text(&markup), Ok(trim_window(&rendered))),
        Err(_) => assert_eq!(page_text(&markup), Err(AgentError::FetchFailed)),
    }
}

#[test]
fn url_from_member_takes_the_string() {
    assert_eq!(url_from_member(Some("https://example.com/a".to_string())), Ok("https://example.com/a".to_string()));
    assert_eq!(url_from_member(None), Err(AgentError::MalformedToolArguments));
}

#[test]
fn url_argument_unescapes_json_string() {
    assert_eq!(url_argument("{\"url\": \"https:\\/\\/example.com\\/a\"}"), Ok("https://example.com/a".to_string()));
}

#[test]
fn url_argument_rejects_non_string_url() {
    assert_eq!(url_argument("{\"url\": 5}"), Err(AgentError::MalformedToolArguments));
    assert_eq!(url_argument("{\"url\": null}"), Err(AgentError::MalformedToolArguments));
}

#[test]
fn url_argument_reads_url() {
    assert_eq!(url_argument("{\"url\": \"https://example.com/x\"}"), Ok("https://example.com/x".to_string()));
}

#[test]
fn url_argument_rejects_invalid_json() {
    assert_eq!(url_argument("{\"url\": "), Err(AgentError::MalformedToolArguments));
    assert_eq!(url_argument("not json"), Err(AgentError::MalformedToolArguments));
}

#[test]
fn url_argument_rejects_missing_url() {
    assert_eq!(url_argument("{\"link\": \"https://example.com\"}"), Err(AgentError::MalformedToolArguments));
    assert_eq!(url_argument("[1, 2]"), Err(AgentError::MalformedToolArguments));
}

#[test]
fn registry_declares_page_fetcher() {
    let tools = all_tools();
    assert_eq!(tools.len(), 1);
    assert_eq!(tools[0].name, "get_html_context");
    assert!(tools[0].parameter_schema.contains("\"url\""));
    assert_eq!(Tool::resolve(&"get_html_context".to_string()), Some(Tool::FetchPageText));
    assert_eq!(Tool::resolve(&"get_weather".to_string()), None);
}

#[test]
fn read_reply_plain_text_is_answer() {
    assert!(matches!(read_reply(&text_reply("hello")), Event::Answered(t) if t == "hello"));
    let empty = Message { role: Role::Assistant, content: None, tool_call: None };
    assert!(matches!(read_reply(&empty), Event::Answered(t) if t.is_empty()));
}

#[test]
fn read_reply_tool_call_reads_url() {
    let e = read_reply(&tool_reply("get_html_context", "{\"url\":\"https://example.com\"}"));
    assert!(matches!(e, Event::ToolRequested(Ok(u)) if u == "https://example.com"));
}

#[test]
fn read_reply_unknown_tool_is_error() {
    let e = read_reply(&tool_reply("get_weather", "{\"url\":\"https://example.com\"}"));
    assert!(matches!(e, Event::ToolRequested(Err(AgentError::UnknownTool))));
}

#[test]
fn one_tool_call_then_answer() {
    let mut s = start();
    let e = read_reply(&tool_reply("get_html_context", "{\"url\":\"https://example.com\"}"));
    let a = s.step(e);
    assert!(matches!(&a, Action::FetchPage(u) if u == "https://example.com"));
    let a = s.step(Event::ToolOutput("page body".to_string()));
    assert!(matches!(a, Action::SendChat));
    let a = s.step(read_reply(&text_reply("the answer")));
    assert!(matches!(&a, Action::Finish(t) if t == "the answer"));
    assert_eq!(s.phase(), Phase::Done);
}

#[test]
fn plain_answer_passes_through() {
    let mut s = start();
    let a = s.step(read_reply(&text_reply("direct")));
    assert!(matches!(&a, Action::Finish(t) if t == "direct"));
    assert_eq!(s.conversation().len(), 1);
    assert_eq!(s.phase(), Phase::Done);
}

#[test]
fn tool_result_is_appended_last() {
    let first = Message::system("be brief".to_string());
    let second = Message::user("question".to_string());
    let mut s = Session::new(vec![first, second], 3);
    s.step(Event::ToolRequested(Ok("https://example.com".to_string())));
    s.step(Event::ToolOutput("fetched".to_string()));
    let conv = s.conversation();
    assert_eq!(conv.len(), 3);
    assert_eq!(conv[0].role, Role::System);
    assert_eq!(conv[0].content.as_deref(), Some("be brief"));
    assert_eq!(conv[1].role, Role::User);
    assert_eq!(conv[1].content.as_deref(), Some("question"));
    assert_eq!(conv[2].role, Role::ToolResult);
    assert_eq!(conv[2].content.as_deref(), Some("fetched"));
    assert!(conv[2].tool_call.is_none());
    assert_eq!(s.phase(), Phase::AwaitingReply);
}

#[test]
fn malformed_arguments_fail_without_fetch() {
    let mut s = start();
    let a = s.step(read_reply(&tool_reply("get_html_context", "{url: oops")));
    assert!(matches!(a, Action::Fail(AgentError::MalformedToolArguments)));
    assert_eq!(s.phase(), Phase::Done);
    let mut s = start();
    let a = s.step(read_reply(&tool_reply("get_html_context", "{\"page\":\"x\"}")));
    assert!(matches!(a, Action::Fail(AgentError::MalformedToolArguments)));
}

#[test]
fn fetch_failure_propagates() {
    let mut s = start();
    s.step(Event::ToolRequested(Ok("https://example.com".to_string())));
    let a = s.step(Event::FetchFailed);
    assert!(matches!(a, Action::Fail(AgentError::FetchFailed)));
    let a = s.step(Event::Answered("late".to_string()));
    assert!(matches!(a, Action::Ignore));
    assert_eq!(s.phase(), Phase::Done);
}

#[test]
fn chat_failure_propagates() {
    let mut s = start();
    assert!(matches!(s.step(Event::ChatFailed), Action::Fail(AgentError::ChatCompletionFailed)));
}

#[test]
fn unknown_tool_fails() {
    let mut s = start();
    let a = s.step(read_reply(&tool_reply("get_weather", "{}")));
    assert!(matches!(a, Action::Fail(AgentError::UnknownTool)));
}

#[test]
fn turn_limit_stops_tool_calls() {
    let mut s = Session::new(vec![Message::user("q".to_string())], 1);
    assert!(matches!(s.step(Event::ToolRequested(Ok("u".to_string()))), Action::FetchPage(_)));
    assert!(matches!(s.step(Event::ToolOutput("t".to_string())), Action::SendChat));
    let a = s.step(Event::ToolRequested(Ok("u".to_string())));
    assert!(matches!(a, Action::Fail(AgentError::TurnLimitExceeded)));
    let mut s = Session::new(vec![Message::user("q".to_string())], 0);
    assert!(matches!(s.step(Event::ToolRequested(Ok("u".to_string()))), Action::Fail(AgentError::TurnLimitExceeded)));
}

#[test]
fn out_of_phase_events_are_ignored() {
    let mut s = start();
    assert!(matches!(s.step(Event::ToolOutput("x".to_string())), Action::Ignore));
    assert!(matches!(s.step(Event::FetchFailed), Action::Ignore));
    assert_eq!(s.phase(), Phase::AwaitingReply);
    assert_eq!(s.conversation().len(), 1);
}

#[test]
fn page_fetched_event_carries_page_text() {
    let markup: String = (1..=300).map(|i| format!("<p>para {}</p>", i)).collect();
    let expected = page_text(&markup).unwrap();
    assert!(matches!(Event::page_fetched(&markup), Event::ToolOutput(t) if t == expected));
}

#[test]
fn answer_of_message_without_content_is_empty() {
    assert_eq!(Message { role: Role::Assistant, content: None, tool_call: None }.answer(), "");
    assert_eq!(text_reply("x").answer(), "x");
}
