//! Assembly of the composite identifier from its four unit codes, which the
//! `iscc` crate computes.

use vstd::prelude::*;
use vstd::string::StringExecFns;

use crate::error::PipelineError;
use crate::extract::{chosen, Extraction};
use crate::media::{category_name, Category, GeneralMediaType};
use crate::text::{first_nonblank_line, same_text};
use crate::tika::opt_view;

verus! {

/// The length in bits of every unit code.
pub const CODE_BITS: u32 = 64;

/// The prefix that the code generator puts before each unit code.
pub const CODE_PREFIX: &'static str = "ISCC:";

/// A file's composite identifier with the details reported beside it.
#[derive(Debug)]
pub struct Iscc {
    pub mid: String,
    pub cid: String,
    pub did: String,
    pub iid: String,
    pub gmt: String,
    pub title: String,
    pub extra: String,
    pub tophash: String,
}

/// The texts of an `Iscc`.
pub struct IsccView {
    pub mid: Seq<char>,
    pub cid: Seq<char>,
    pub did: Seq<char>,
    pub iid: Seq<char>,
    pub gmt: Seq<char>,
    pub title: Seq<char>,
    pub extra: Seq<char>,
    pub tophash: Seq<char>,
}

impl View for Iscc {
    type V = IsccView;

    open spec fn view(&self) -> IsccView {
        IsccView {
            mid: self.mid@,
            cid: self.cid@,
            did: self.did@,
            iid: self.iid@,
            gmt: self.gmt@,
            title: self.title@,
            extra: self.extra@,
            tophash: self.tophash@,
        }
    }
}

/// Meta code, normalized name and normalized description that the code
/// generator derives from a name and a description.
pub uninterp spec fn meta_code(name: Seq<char>, description: Seq<char>, bits: u32) -> Option<
    (Seq<char>, Seq<char>, Option<Seq<char>>),
>;

/// The text code that the code generator derives from a text.
pub uninterp spec fn text_code(text: Seq<char>, bits: u32) -> Option<Seq<char>>;

/// The image code that the code generator derives from 32x32 grayscale pixels.
pub uninterp spec fn image_code(pixels: Seq<u8>, bits: u32) -> Option<Seq<char>>;

/// The data code that the code generator derives from a file's bytes.
pub uninterp spec fn data_code(data: Seq<u8>, bits: u32) -> Option<Seq<char>>;

/// The instance code and the digest of a file's bytes, from the code generator.
pub uninterp spec fn instance_code(data: Seq<u8>, bits: u32) -> Option<(Seq<char>, Seq<char>)>;

#[verifier::external_type_specification]
#[verifier::external_body]
pub struct ExIsccError(iscc::iscc_lib::IsccError);

/// Relies on `iscc_lib::gen_meta_code_v0` (through `iscc`), given no metadata
/// payload: code, name and description depend on its arguments alone.
#[verifier::external_body]
fn gen_meta(name: &str, description: &str, bits: u32) -> (r: Result<
    (String, String, Option<String>),
    iscc::iscc_lib::IsccError,
>)
    ensures
        match r {
            Ok(m) => meta_code(name@, description@, bits) == Some((m.0@, m.1@, opt_view(m.2))),
            Err(_) => meta_code(name@, description@, bits) is None,
        },
{
    iscc::iscc_lib::gen_meta_code_v0(name, Some(description), None, bits).map(
        |m| (m.iscc, m.name, m.description),
    )
}

/// Relies on `iscc_lib::gen_text_code_v0`: the code depends on the text alone.
#[verifier::external_body]
fn gen_text(text: &str, bits: u32) -> (r: Result<String, iscc::iscc_lib::IsccError>)
    ensures
        match r {
            Ok(c) => text_code(text@, bits) == Some(c@),
            Err(_) => text_code(text@, bits) is None,
        },
{
    iscc::iscc_lib::gen_text_code_v0(text, bits).map(|c| c.iscc)
}

/// Relies on `iscc_lib::gen_image_code_v0`: the code depends on the pixels alone.
#[verifier::external_body]
fn gen_image(pixels: &[u8], bits: u32) -> (r: Result<String, iscc::iscc_lib::IsccError>)
    ensures
        match r {
            Ok(c) => image_code(pixels@, bits) == Some(c@),
            Err(_) => image_code(pixels@, bits) is None,
        },
{
    iscc::iscc_lib::gen_image_code_v0(pixels, bits).map(|c| c.iscc)
}

/// Relies on `iscc_lib::gen_data_code_v0`: the code depends on the bytes alone.
#[verifier::external_body]
fn gen_data(data: &[u8], bits: u32) -> (r: Result<String, iscc::iscc_lib::IsccError>)
    ensures
        match r {
            Ok(c) => data_code(data@, bits) == Some(c@),
            Err(_) => data_code(data@, bits) is None,
        },
{
    iscc::iscc_lib::gen_data_code_v0(data, bits).map(|c| c.iscc)
}

/// Relies on `iscc_lib::gen_instance_code_v0`: code and digest depend on the
/// bytes alone.
#[verifier::external_body]
fn gen_instance(data: &[u8], bits: u32) -> (r: Result<(String, String), iscc::iscc_lib::IsccError>)
    ensures
        match r {
            Ok(c) => instance_code(data@, bits) == Some((c.0@, c.1@)),
            Err(_) => instance_code(data@, bits) is None,
        },
{
    iscc::iscc_lib::gen_instance_code_v0(data, bits).map(|c| (c.iscc, c.datahash))
}

/// A unit code without the generator's `ISCC:` prefix.
pub open spec fn unit_body(code: Seq<char>) -> Seq<char> {
    if code.len() >= 5 && code.subrange(0, 5) == CODE_PREFIX@ {
        code.subrange(5, code.len() as int)
    } else {
        code
    }
}

pub open spec fn or_empty(o: Option<Seq<char>>) -> Seq<char> {
    match o {
        Some(s) => s,
        None => Seq::empty(),
    }
}

pub open spec fn pixels_view(p: Option<&[u8]>) -> Option<Seq<u8>> {
    match p {
        Some(q) => Some(q@),
        None => None,
    }
}

/// The content code of a file: from the text for text media, from the pixels
/// for images; audio and video have none yet.
pub open spec fn content_code(
    c: Category,
    text: Seq<char>,
    pixels: Option<Seq<u8>>,
    partial: bool,
) -> Result<Seq<char>, PipelineError> {
    match c {
        Category::Text => if partial {
            Err(PipelineError::PartialUnsupported)
        } else {
            match text_code(text, CODE_BITS) {
                Some(code) => Ok(unit_body(code)),
                None => Err(PipelineError::ContentCode),
            }
        },
        Category::Image => if partial {
            Err(PipelineError::PartialUnsupported)
        } else {
            match pixels {
                None => Err(PipelineError::ImageUndecodable),
                Some(p) => match image_code(p, CODE_BITS) {
                    Some(code) => Ok(unit_body(code)),
                    None => Err(PipelineError::ContentCode),
                },
            }
        },
        Category::Audio => Err(PipelineError::AudioNotImplemented),
        Category::Video => Err(PipelineError::VideoNotImplemented),
    }
}

/// The identifier of a file of category `c`, from its text, the title and
/// extra text that count, its bytes and (for images) its pixels. Meta, data,
/// instance and content codes are computed in that order; the first that
/// fails decides the error.
pub open spec fn identifier(
    c: Category,
    text: Seq<char>,
    title: Seq<char>,
    extra: Seq<char>,
    data: Seq<u8>,
    pixels: Option<Seq<u8>>,
    partial: bool,
) -> Result<IsccView, PipelineError> {
    match meta_code(title, extra, CODE_BITS) {
        None => Err(PipelineError::MetaCode),
        Some(m) => match data_code(data, CODE_BITS) {
            None => Err(PipelineError::DataCode),
            Some(d) => match instance_code(data, CODE_BITS) {
                None => Err(PipelineError::InstanceCode),
                Some(i) => match content_code(c, text, pixels, partial) {
                    Err(e) => Err(e),
                    Ok(cid) => Ok(
                        IsccView {
                            mid: unit_body(m.0),
                            cid,
                            did: unit_body(d),
                            iid: unit_body(i.0),
                            gmt: category_name(c),
                            title: m.1,
                            extra: or_empty(m.2),
                            tophash: i.1,
                        },
                    ),
                },
            },
        },
    }
}

pub open spec fn result_view(r: Result<Iscc, PipelineError>) -> Result<IsccView, PipelineError> {
    match r {
        Ok(i) => Ok(i@),
        Err(e) => Err(e),
    }
}

/// `code` without the `ISCC:` prefix.
pub fn strip_prefix(code: &str) -> (r: String)
    ensures
        r@ == unit_body(code@),
{
    let n = code.unicode_len();
    if n >= 5 && same_text(code.substring_char(0, 5), CODE_PREFIX) {
        code.substring_char(5, n).to_string()
    } else {
        code.to_string()
    }
}

/// The content code; see `content_code`.
fn content_id(media: &GeneralMediaType, text: &str, pixels: Option<&[u8]>, partial: bool) -> (r:
    Result<String, PipelineError>)
    ensures
        match content_code(media.category(), text@, pixels_view(pixels), partial) {
            Ok(c) => r matches Ok(s) && s@ == c,
            Err(e) => r == Err::<String, PipelineError>(e),
        },
{
    match media {
        GeneralMediaType::Text(_) => {
            if partial {
                return Err(PipelineError::PartialUnsupported);
            }
            match gen_text(text, CODE_BITS) {
                Ok(c) => Ok(strip_prefix(c.as_str())),
                Err(_) => Err(PipelineError::ContentCode),
            }
        },
        GeneralMediaType::Image(_) => {
            if partial {
                return Err(PipelineError::PartialUnsupported);
            }
            match pixels {
                None => Err(PipelineError::ImageUndecodable),
                Some(p) => match gen_image(p, CODE_BITS) {
                    Ok(c) => Ok(strip_prefix(c.as_str())),
                    Err(_) => Err(PipelineError::ContentCode),
                },
            }
        },
        GeneralMediaType::Audio(_) => Err(PipelineError::AudioNotImplemented),
        GeneralMediaType::Video(_) => Err(PipelineError::VideoNotImplemented),
    }
}

/// The identifier of a file: `extracted` is what extraction gave, `title` and
/// `extra` what the caller gave (they count unless `guess` is set), `data` the
/// file's bytes and `pixels` its 32x32 grayscale pixels where it is an image
/// that could be read.
pub fn get_iscc_id(
    media: &GeneralMediaType,
    extracted: &Extraction,
    title: &str,
    extra: &str,
    guess: bool,
    data: &[u8],
    pixels: Option<&[u8]>,
    partial: bool,
) -> (r: Result<Iscc, PipelineError>)
    ensures
        result_view(r) == identifier(
            media.category(),
            extracted.content@,
            chosen(extracted.title@, title@, guess),
            chosen(extracted.extra@, extra@, guess),
            data@,
            pixels_view(pixels),
            partial,
        ),
{
    let (use_title, use_extra) = if guess {
        (extracted.title.as_str(), extracted.extra.as_str())
    } else {
        (title, extra)
    };
    let (mid, metatitle, metaextra) = match gen_meta(use_title, use_extra, CODE_BITS) {
        Ok(m) => m,
        Err(_) => return Err(PipelineError::MetaCode),
    };
    let did = match gen_data(data, CODE_BITS) {
        Ok(d) => d,
        Err(_) => return Err(PipelineError::DataCode),
    };
    let (iid, tophash) = match gen_instance(data, CODE_BITS) {
        Ok(i) => i,
        Err(_) => return Err(PipelineError::InstanceCode),
    };
    let cid = match content_id(media, extracted.content.as_str(), pixels, partial) {
        Ok(c) => c,
        Err(e) => return Err(e),
    };
    let extra_text = match metaextra {
        Some(x) => x,
        None => String::new(),
    };
    Ok(
        Iscc {
            mid: strip_prefix(mid.as_str()),
            cid,
            did: strip_prefix(did.as_str()),
            iid: strip_prefix(iid.as_str()),
            gmt: media.get_gmt_string(),
            title: metatitle,
            extra: extra_text,
            tophash,
        },
    )
}

/// The composite code of an identifier view: its four unit codes joined by `-`.
pub open spec fn joined(v: IsccView) -> Seq<char> {
    v.mid + "-"@ + v.cid + "-"@ + v.did + "-"@ + v.iid
}

impl Iscc {
    /// The composite code: the four unit codes joined by `-`.
    pub fn code(&self) -> (r: String)
        ensures
            r@ == joined(self@),
    {
        let mut s = self.mid.clone();
        s.append("-");
        s.append(self.cid.as_str());
        s.append("-");
        s.append(self.did.as_str());
        s.append("-");
        s.append(self.iid.as_str());
        s
    }

    /// The line reported for a single file: `ISCC:` and the composite code.
    pub fn code_line(&self) -> (r: String)
        ensures
            r@ == CODE_PREFIX@ + joined(self@),
    {
        let mut s = CODE_PREFIX.to_string();
        s.append(self.code().as_str());
        s
    }

    /// The detail line: composite code, digest, file name, category and title,
    /// separated by commas.
    pub fn detail_line(&self, filename: &str) -> (r: String)
        ensures
            r@ == CODE_PREFIX@ + joined(self@) + ","@ + self.tophash@ + ","@ + filename@ + ","@
                + self.gmt@ + ","@ + self.title@,
    {
        let mut s = self.code_line();
        s.append(",");
        s.append(self.tophash.as_str());
        s.append(",");
        s.append(filename);
        s.append(",");
        s.append(self.gmt.as_str());
        s.append(",");
        s.append(self.title.as_str());
        s
    }
}

/// The identifier of a plain-text file with text `text` and bytes `data`, as
/// in-process extraction and `get_iscc_id` give it.
pub open spec fn plain_text_identifier(
    text: Seq<char>,
    data: Seq<u8>,
    title: Seq<char>,
    extra: Seq<char>,
    guess: bool,
) -> Result<IsccView, PipelineError> {
    identifier(
        Category::Text,
        text,
        chosen(first_nonblank_line(text), title, guess),
        chosen(Seq::empty(), extra, guess),
        data,
        None,
        false,
    )
}

/// With the code generator fixed, the identifier of a plain-text file depends
/// on its content and the caller's inputs alone: repeated runs on the same file
/// give the same identifier.
pub proof fn lemma_reproducible(
    text: Seq<char>,
    data: Seq<u8>,
    text2: Seq<char>,
    data2: Seq<u8>,
    title: Seq<char>,
    extra: Seq<char>,
    guess: bool,
)
    requires
        text == text2,
        data == data2,
    ensures
        plain_text_identifier(text, data, title, extra, guess) == plain_text_identifier(
            text2,
            data2,
            title,
            extra,
            guess,
        ),
{
}

} // verus!
