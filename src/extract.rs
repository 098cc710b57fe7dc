//! Text and title extraction, in-process and from the remote service's answers.

use vstd::prelude::*;

use crate::error::PipelineError;
use crate::metadata::{meta_title, MetaNode};
use crate::text::{first_nonblank, first_nonblank_line};
use crate::tika::title;

verus! {

/// The column width at which HTML is rendered to text.
pub const HTML_WIDTH: usize = 72;

/// What extraction yields for a file: its text (empty for media without text),
/// a title and an extra text.
#[derive(Debug)]
pub struct Extraction {
    pub content: String,
    pub title: String,
    pub extra: String,
}

impl Extraction {
    /// The extraction holds these three texts.
    pub open spec fn holds(&self, content: Seq<char>, title: Seq<char>, extra: Seq<char>) -> bool {
        &&& self.content@ == content
        &&& self.title@ == title
        &&& self.extra@ == extra
    }
}

/// The title of an extraction from the remote service: the metadata title
/// where it is not empty, else the first non-blank line of the text.
pub open spec fn remote_title(text: Seq<char>, meta: MetaNode) -> Seq<char> {
    if meta_title(meta).len() > 0 {
        meta_title(meta)
    } else {
        first_nonblank_line(text)
    }
}

/// The title that counts: the extracted one when guessing, else the caller's.
pub open spec fn chosen(extracted: Seq<char>, given: Seq<char>, guess: bool) -> Seq<char> {
    if guess {
        extracted
    } else {
        given
    }
}

/// What `html2text` renders an HTML document to at a given width, if it can.
pub uninterp spec fn rendered_html(html: Seq<u8>, width: usize) -> Option<Seq<char>>;

#[verifier::external_type_specification]
#[verifier::external_body]
pub struct ExHtmlError(html2text::Error);

/// Relies on `html2text::from_read`: reading from a byte slice, the rendering
/// depends on the document's bytes and the width alone.
#[verifier::external_body]
fn render_html(html: &[u8], width: usize) -> (r: Result<String, html2text::Error>)
    ensures
        match r {
            Ok(t) => rendered_html(html@, width) == Some(t@),
            Err(_) => rendered_html(html@, width) is None,
        },
{
    html2text::from_read(html, width)
}

/// The extraction of a text: the title is its first non-blank line.
pub fn extract_text(content: String) -> (r: Extraction)
    ensures
        r.holds(content@, first_nonblank_line(content@), Seq::empty()),
{
    let title = first_nonblank(content.as_str());
    Extraction { content, title, extra: String::new() }
}

/// The extraction of media without text: all three texts are empty.
pub fn extract_nothing() -> (r: Extraction)
    ensures
        r.holds(Seq::empty(), Seq::empty(), Seq::empty()),
{
    Extraction { content: String::new(), title: String::new(), extra: String::new() }
}

/// The extraction of an HTML document, rendered to text at `HTML_WIDTH` columns.
pub fn extract_html(html: &[u8]) -> (r: Result<Extraction, PipelineError>)
    ensures
        match rendered_html(html@, HTML_WIDTH) {
            Some(t) => r matches Ok(e) && e.holds(t, first_nonblank_line(t), Seq::empty()),
            None => r matches Err(PipelineError::HtmlRendering),
        },
{
    match render_html(html, HTML_WIDTH) {
        Ok(t) => Ok(extract_text(t)),
        Err(_) => Err(PipelineError::HtmlRendering),
    }
}

/// The extraction from the remote service's answers: the text it extracted
/// and the metadata tree it reported.
pub fn extract_tika(text: String, meta: &MetaNode) -> (r: Extraction)
    ensures
        r.holds(text@, remote_title(text@, *meta), Seq::empty()),
{
    let meta_title = title(meta);
    let title = if meta_title.as_str().unicode_len() > 0 {
        meta_title
    } else {
        first_nonblank(text.as_str())
    };
    Extraction { content: text, title, extra: String::new() }
}

/// With guessing and the remote backend, the title is the metadata title
/// where that is not empty, and otherwise the first non-blank line of the
/// extracted text; the caller's title plays no part.
pub proof fn lemma_guessed_title(text: Seq<char>, meta: MetaNode, given: Seq<char>)
    ensures
        meta_title(meta).len() > 0 ==> chosen(remote_title(text, meta), given, true) == meta_title(
            meta,
        ),
        meta_title(meta).len() == 0 ==> chosen(remote_title(text, meta), given, true)
            == first_nonblank_line(text),
{
}

/// Without guessing, the title is the caller's, whatever was extracted.
pub proof fn lemma_given_title(extracted: Seq<char>, given: Seq<char>)
    ensures
        chosen(extracted, given, false) == given,
{
}

} // verus!
