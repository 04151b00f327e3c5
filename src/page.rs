//! Turning a fetched page's markup into the text handed back to the model.

use vstd::prelude::*;
use crate::message::AgentError;
use crate::text::{trim_window, trimmed};

verus! {

#[verifier::external_type_specification]
#[verifier::external_body]
pub struct ExHtmlError(html2text::Error);

/// Column width used when rendering markup as text.
pub const RENDER_WIDTH: usize = 100;

/// What `html2text` renders from `markup` at `width` columns: the plain
/// text, or `None` where it reports an error (such as nesting too deep for
/// the width).
pub uninterp spec fn rendered_text(markup: Seq<char>, width: nat) -> Option<Seq<char>>;

/// Relies on `html2text::from_read`: markup rendered as text wrapped at
/// `width` columns, or an error; either outcome depends on the markup and
/// the width alone.
#[verifier::external_body]
fn render_html(markup: &str, width: usize) -> (r: Result<String, html2text::Error>)
    ensures
        rendered_text(markup@, width as nat) == match r {
            Ok(t) => Some(t@),
            Err(_) => None::<Seq<char>>,
        },
{
    html2text::from_read(markup.as_bytes(), width)
}

/// The tool result a page yields: its rendering at `RENDER_WIDTH` columns,
/// trimmed; a page that cannot be rendered fails the fetch.
pub open spec fn is_page_text(markup: Seq<char>, r: Result<Seq<char>, AgentError>) -> bool {
    match rendered_text(markup, RENDER_WIDTH as nat) {
        Some(t) => r matches Ok(x) && trimmed(t, x),
        None => r == Err::<Seq<char>, AgentError>(AgentError::FetchFailed),
    }
}

/// The tool result for a fetched page: the markup rendered at
/// `RENDER_WIDTH` columns, then cut to the trim window.
pub fn page_text(markup: &str) -> (r: Result<String, AgentError>)
    ensures
        is_page_text(
            markup@,
            match r {
                Ok(t) => Ok(t@),
                Err(e) => Err(e),
            },
        ),
{
    match render_html(markup, RENDER_WIDTH) {
        Ok(rendered) => Ok(trim_window(rendered.as_str())),
        Err(_) => Err(AgentError::FetchFailed),
    }
}

} // verus!
