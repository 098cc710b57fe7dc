//! General media categories and their classification from a MIME type.

use vstd::prelude::*;

use crate::error::PipelineError;
use crate::text::{chars_of, index_of, lemma_index_of_is, same_text};

verus! {

/// MIME subtype of word-processing office documents.
pub const DOCX_SUBTYPE: &'static str = "vnd.openxmlformats-officedocument.wordprocessingml.document";

/// MIME subtype of spreadsheet office documents.
pub const XLSX_SUBTYPE: &'static str = "vnd.openxmlformats-officedocument.spreadsheetml.sheet";

/// MIME subtype of presentation office documents.
pub const PPTX_SUBTYPE: &'static str = "vnd.openxmlformats-officedocument.presentationml.presentation";

/// The four general media categories.
#[derive(Clone, Copy, Debug, PartialEq, Eq, Structural)]
pub enum Category {
    Text,
    Image,
    Audio,
    Video,
}

/// A file's general media type; the MIME subtype is kept with it.
#[derive(Debug)]
pub enum GeneralMediaType {
    Text(String),
    Image(String),
    Audio(String),
    Video(String),
}

/// How the text of a file is obtained in-process.
#[derive(Clone, Copy, Debug, PartialEq, Eq, Structural)]
pub enum Strategy {
    /// Read the whole file as text.
    Plain,
    /// Render the HTML document to text wrapped at a fixed width.
    Html,
    /// Word-processing office document.
    Docx,
    /// Spreadsheet office document.
    Xlsx,
    /// Presentation office document.
    Pptx,
    /// Any other text subtype: read the whole file as text.
    RawText,
    /// Images, audio and video: no text is extracted.
    NoText,
}

/// The type part of a MIME type: what precedes the first `'/'`.
pub open spec fn mime_top(m: Seq<char>) -> Seq<char> {
    m.subrange(0, index_of(m, '/') as int)
}

/// The subtype part of a MIME type: what follows the first `'/'`, up to the next.
pub open spec fn mime_sub(m: Seq<char>) -> Seq<char> {
    let rest = m.subrange(index_of(m, '/') as int + 1, m.len() as int);
    rest.subrange(0, index_of(rest, '/') as int)
}

/// The MIME type has a `'/'` that separates type and subtype.
pub open spec fn has_slash(m: Seq<char>) -> bool {
    index_of(m, '/') < m.len()
}

pub open spec fn is_office_subtype(sub: Seq<char>) -> bool {
    sub == DOCX_SUBTYPE@ || sub == XLSX_SUBTYPE@ || sub == PPTX_SUBTYPE@
}

/// The category that the MIME types `text/*`, `image/*`, `audio/*`, `video/*` name.
pub open spec fn category_of_top(top: Seq<char>) -> Option<Category> {
    if top == "text"@ {
        Some(Category::Text)
    } else if top == "image"@ {
        Some(Category::Image)
    } else if top == "audio"@ {
        Some(Category::Audio)
    } else if top == "video"@ {
        Some(Category::Video)
    } else {
        None
    }
}

/// Local classification: of `application/*` only the three office documents are text.
pub open spec fn local_category(top: Seq<char>, sub: Seq<char>) -> Option<Category> {
    if top == "application"@ {
        if is_office_subtype(sub) {
            Some(Category::Text)
        } else {
            None
        }
    } else {
        category_of_top(top)
    }
}

/// Remote classification: every `application/*` type is text.
pub open spec fn remote_category(top: Seq<char>) -> Option<Category> {
    if top == "application"@ {
        Some(Category::Text)
    } else {
        category_of_top(top)
    }
}

/// The name under which a category is reported.
pub open spec fn category_name(c: Category) -> Seq<char> {
    match c {
        Category::Text => "text"@,
        Category::Image => "image"@,
        Category::Audio => "audio"@,
        Category::Video => "video"@,
    }
}

impl GeneralMediaType {
    pub open spec fn category(&self) -> Category {
        match self {
            GeneralMediaType::Text(_) => Category::Text,
            GeneralMediaType::Image(_) => Category::Image,
            GeneralMediaType::Audio(_) => Category::Audio,
            GeneralMediaType::Video(_) => Category::Video,
        }
    }

    pub open spec fn subtype(&self) -> Seq<char> {
        match self {
            GeneralMediaType::Text(s) => s@,
            GeneralMediaType::Image(s) => s@,
            GeneralMediaType::Audio(s) => s@,
            GeneralMediaType::Video(s) => s@,
        }
    }

    /// The extraction strategy: a table from the text subtype, with a default.
    pub open spec fn strategy_spec(&self) -> Strategy {
        if self.category() != Category::Text {
            Strategy::NoText
        } else if self.subtype() == "plain"@ {
            Strategy::Plain
        } else if self.subtype() == "html"@ {
            Strategy::Html
        } else if self.subtype() == DOCX_SUBTYPE@ {
            Strategy::Docx
        } else if self.subtype() == XLSX_SUBTYPE@ {
            Strategy::Xlsx
        } else if self.subtype() == PPTX_SUBTYPE@ {
            Strategy::Pptx
        } else {
            Strategy::RawText
        }
    }

    /// The media type of category `c` with subtype `sub`.
    pub fn of_category(c: Category, sub: String) -> (r: GeneralMediaType)
        ensures
            r.category() == c,
            r.subtype() == sub@,
    {
        match c {
            Category::Text => GeneralMediaType::Text(sub),
            Category::Image => GeneralMediaType::Image(sub),
            Category::Audio => GeneralMediaType::Audio(sub),
            Category::Video => GeneralMediaType::Video(sub),
        }
    }

    /// The remote backend extracts text from text media only.
    pub fn is_tika_extract(&self) -> (r: bool)
        ensures
            r == (self.category() == Category::Text),
    {
        match self {
            GeneralMediaType::Text(_) => true,
            _ => false,
        }
    }

    /// The category's name: "text", "image", "audio" or "video".
    pub fn get_gmt_string(&self) -> (r: String)
        ensures
            r@ == category_name(self.category()),
    {
        match self {
            GeneralMediaType::Text(_) => "text".to_string(),
            GeneralMediaType::Image(_) => "image".to_string(),
            GeneralMediaType::Audio(_) => "audio".to_string(),
            GeneralMediaType::Video(_) => "video".to_string(),
        }
    }

    /// The in-process extraction strategy for this media type.
    pub fn strategy(&self) -> (r: Strategy)
        ensures
            r == self.strategy_spec(),
    {
        match self {
            GeneralMediaType::Text(sub) => {
                if same_text(sub.as_str(), "plain") {
                    Strategy::Plain
                } else if same_text(sub.as_str(), "html") {
                    Strategy::Html
                } else if same_text(sub.as_str(), DOCX_SUBTYPE) {
                    Strategy::Docx
                } else if same_text(sub.as_str(), XLSX_SUBTYPE) {
                    Strategy::Xlsx
                } else if same_text(sub.as_str(), PPTX_SUBTYPE) {
                    Strategy::Pptx
                } else {
                    Strategy::RawText
                }
            },
            _ => Strategy::NoText,
        }
    }
}

/// The local classification of a MIME type: its category and subtype, if any.
pub open spec fn local_media(m: Seq<char>) -> Option<(Category, Seq<char>)> {
    if has_slash(m) && local_category(mime_top(m), mime_sub(m)) is Some {
        Some((local_category(mime_top(m), mime_sub(m))->0, mime_sub(m)))
    } else {
        None
    }
}

/// The remote classification of a MIME type: its category and subtype, if any.
pub open spec fn remote_media(m: Seq<char>) -> Option<(Category, Seq<char>)> {
    if has_slash(m) && remote_category(mime_top(m)) is Some {
        Some((remote_category(mime_top(m))->0, mime_sub(m)))
    } else {
        None
    }
}

/// `r` is the media type that `expected` describes, or, where that is `None`,
/// the refusal of the MIME type `mime`.
pub open spec fn classified_as(
    r: Result<GeneralMediaType, PipelineError>,
    expected: Option<(Category, Seq<char>)>,
    mime: Seq<char>,
) -> bool {
    match expected {
        Some(e) => r matches Ok(g) && g.category() == e.0 && g.subtype() == e.1,
        None => r matches Err(PipelineError::UnsupportedMediaType(t)) && t@ == mime,
    }
}

/// Type and subtype of a MIME type, or `None` where it has no `'/'`.
pub fn split_mime(mime: &str) -> (r: Option<(String, String)>)
    ensures
        r is Some <==> has_slash(mime@),
        r matches Some(p) ==> p.0@ == mime_top(mime@) && p.1@ == mime_sub(mime@),
{
    let cs = chars_of(mime);
    let n = cs.len();
    let mut i: usize = 0;
    while i < n && cs[i] != '/'
        invariant
            i <= n == cs.len(),
            forall|j: int| 0 <= j < i ==> cs@[j] != '/',
        decreases n - i,
    {
        i = i + 1;
    }
    proof {
        lemma_index_of_is(mime@, '/', i as int);
    }
    if i == n {
        return None;
    }
    let mut k: usize = i + 1;
    while k < n && cs[k] != '/'
        invariant
            i < k <= n == cs.len(),
            forall|j: int| i < j < k ==> cs@[j] != '/',
        decreases n - k,
    {
        k = k + 1;
    }
    proof {
        let rest = mime@.subrange(i + 1, n as int);
        assert forall|j: int| 0 <= j < k - i - 1 implies rest[j] != '/' by {
            assert(cs@[i + 1 + j] != '/');
        }
        lemma_index_of_is(rest, '/', k - i - 1);
        assert(rest.subrange(0, k - i - 1) =~= mime@.subrange(i + 1, k as int));
    }
    let top = mime.substring_char(0, i).to_string();
    let sub = mime.substring_char(i + 1, k).to_string();
    Some((top, sub))
}

/// The category of `text/*`, `image/*`, `audio/*` and `video/*`.
fn top_category(top: &str) -> (r: Option<Category>)
    ensures
        r == category_of_top(top@),
{
    if same_text(top, "text") {
        Some(Category::Text)
    } else if same_text(top, "image") {
        Some(Category::Image)
    } else if same_text(top, "audio") {
        Some(Category::Audio)
    } else if same_text(top, "video") {
        Some(Category::Video)
    } else {
        None
    }
}

/// Classifies a MIME type found from a file's extension. Of the `application/*`
/// types only the three office documents are accepted, as text.
pub fn classify_local_mime(mime: &str) -> (r: Result<GeneralMediaType, PipelineError>)
    ensures
        classified_as(r, local_media(mime@), mime@),
{
    match split_mime(mime) {
        None => Err(PipelineError::UnsupportedMediaType(mime.to_string())),
        Some((top, sub)) => {
            let c = if same_text(top.as_str(), "application") {
                if same_text(sub.as_str(), DOCX_SUBTYPE) || same_text(sub.as_str(), XLSX_SUBTYPE)
                    || same_text(sub.as_str(), PPTX_SUBTYPE) {
                    Some(Category::Text)
                } else {
                    None
                }
            } else {
                top_category(top.as_str())
            };
            match c {
                Some(c) => Ok(GeneralMediaType::of_category(c, sub)),
                None => Err(PipelineError::UnsupportedMediaType(mime.to_string())),
            }
        },
    }
}

/// Classifies a MIME type that the remote detection service reported: every
/// `application/*` type is taken as text.
pub fn get_gmt_from_tika(mime: &str) -> (r: Result<GeneralMediaType, PipelineError>)
    ensures
        classified_as(r, remote_media(mime@), mime@),
{
    match split_mime(mime) {
        None => Err(PipelineError::UnsupportedMediaType(mime.to_string())),
        Some((top, sub)) => {
            let c = if same_text(top.as_str(), "application") {
                Some(Category::Text)
            } else {
                top_category(top.as_str())
            };
            match c {
                Some(c) => Ok(GeneralMediaType::of_category(c, sub)),
                None => Err(PipelineError::UnsupportedMediaType(mime.to_string())),
            }
        },
    }
}

/// What `mime_guess` maps a path to: the first MIME type registered for its
/// extension, if any.
pub uninterp spec fn guessed_mime(path: Seq<char>) -> Option<Seq<char>>;

/// Relies on `mime_guess::from_path` and `MimeGuess::first_raw`: the result is
/// looked up in a static table from the path's extension alone.
#[verifier::external_body]
fn guess_mime(path: &str) -> (r: Option<String>)
    ensures
        match r {
            Some(m) => guessed_mime(path@) == Some(m@),
            None => guessed_mime(path@) is None,
        },
{
    mime_guess::from_path(path).first_raw().map(String::from)
}

/// Classifies a file from its extension alone.
pub fn get_gmt_from_file(file: &str) -> (r: Result<GeneralMediaType, PipelineError>)
    ensures
        match guessed_mime(file@) {
            None => r matches Err(PipelineError::UnknownExtension(p)) && p@ == file@,
            Some(m) => classified_as(r, local_media(m), m),
        },
{
    match guess_mime(file) {
        None => Err(PipelineError::UnknownExtension(file.to_string())),
        Some(m) => classify_local_mime(m.as_str()),
    }
}

/// Local and remote classification part ways on `application/*` types other
/// than the three office documents: local classification refuses them, remote
/// classification takes them as text.
pub proof fn lemma_application_asymmetry(m: Seq<char>)
    requires
        has_slash(m),
        mime_top(m) == "application"@,
        !is_office_subtype(mime_sub(m)),
    ensures
        local_media(m) is None,
        remote_media(m) == Some((Category::Text, mime_sub(m))),
{
}

/// Classification yields exactly one of the four categories, and the name
/// reported for it is that category's own.
pub proof fn lemma_one_category(g: GeneralMediaType)
    ensures
        g is Text <==> g.category() == Category::Text,
        g is Image <==> g.category() == Category::Image,
        g is Audio <==> g.category() == Category::Audio,
        g is Video <==> g.category() == Category::Video,
        category_name(g.category()) == "text"@ || category_name(g.category()) == "image"@
            || category_name(g.category()) == "audio"@ || category_name(g.category())
            == "video"@,
{
}

} // verus!
