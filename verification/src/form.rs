//! The parts of a multipart form, and the rendering of structured option
//! values as the JSON text that a form field carries.

use crate::cookie::{Cookie, CookieView};
use crate::error::{Error, ErrorView};
use crate::formats::{ImageFormat, MediaType, PDFFormat};
use crate::json::{
    json_error_text, number_array_text, numbers_to_json, strings_to_json, values_to_json,
};
use crate::page_range::{page_range_text, PageRange};
use crate::paper_format::{LinearDimention, Magnitude};
use crate::text::{decimal_string, decimal_text};
use std::collections::HashMap;
use vstd::prelude::*;
use vstd::utf8::encode_utf8;

verus! {

/// Whether `e` reports that a value named `kind` could not be rendered.
pub open spec fn is_render_error(e: ErrorView, kind: Seq<char>) -> bool {
    e matches ErrorView::ParseError(k, subject, _) && k == kind && subject == Seq::<char>::empty()
}

/// Turns a failure of `serde_json` into an error of this crate.
fn render_error(kind: &str, e: &serde_json::Error) -> (r: Error)
    ensures
        is_render_error(r@, kind@),
{
    let reason = json_error_text(e);
    proof {
        reveal_strlit("");
    }
    assert(""@ =~= Seq::<char>::empty());
    Error::parse_error(kind, "", reason)
}

/// Renders a list of HTTP status codes as a JSON array.
pub fn render_status_codes(codes: &Vec<u32>) -> (r: Result<String, Error>)
    ensures
        match r {
            Ok(text) => text@ == number_array_text(codes@),
            Err(e) => is_render_error(e@, "HttpStatusCodes"@),
        },
{
    render_outcome("HttpStatusCodes", numbers_to_json(codes))
}

/// Renders extra HTTP headers as a JSON object, as `serde_json` writes
/// it. Its entries stand in the order in which the map is walked, so
/// nothing is stated of the text here; [`render_outcome`] states what
/// becomes of whatever comes back.
pub fn render_http_headers(headers: &HashMap<String, String>) -> (r: Result<String, Error>)
    ensures
        r matches Err(e) ==> is_render_error(e@, "ExtraHttpHeaders"@),
{
    render_outcome("ExtraHttpHeaders", strings_to_json(headers))
}

/// Renders document metadata as a JSON object, as `serde_json` writes
/// it. Its entries stand in the order in which the map is walked, so
/// nothing is stated of the text here; [`render_outcome`] states what
/// becomes of whatever comes back.
pub fn render_metadata(metadata: &HashMap<String, serde_json::Value>) -> (r: Result<
    String,
    Error,
>)
    ensures
        r matches Err(e) ==> is_render_error(e@, "Metadata"@),
{
    render_outcome("Metadata", values_to_json(metadata))
}

/// What an attempt of `serde_json` to render a value named `kind` comes
/// to: the text, just as it came back, or else the error of this crate
/// that reports that the value could not be rendered.
pub fn render_outcome(kind: &str, outcome: Result<String, serde_json::Error>) -> (r: Result<
    String,
    Error,
>)
    ensures
        match outcome {
            Ok(text) => r == Ok::<String, Error>(text),
            Err(_) => r matches Err(e) && is_render_error(e@, kind@),
        },
{
    match outcome {
        Ok(text) => Ok(text),
        Err(e) => Err(render_error(kind, &e)),
    }
}

/// One part of a multipart form.
#[derive(Debug, Clone, PartialEq, Eq)]
pub enum FormPart {
    /// A field with a text value.
    Text { name: String, value: String },
    /// A file: the field's name, the file's name, its media type where one
    /// is declared, and its bytes.
    File { name: String, file_name: String, mime: Option<String>, content: Vec<u8> },
    /// A field whose value is the JSON array of the given cookies.
    Cookies { name: String, cookies: Vec<Cookie> },
}

/// The mathematical content of a [`FormPart`].
pub enum FormPartView {
    Text { name: Seq<char>, value: Seq<char> },
    File { name: Seq<char>, file_name: Seq<char>, mime: Option<Seq<char>>, content: Seq<u8> },
    Cookies { name: Seq<char>, cookies: Seq<CookieView> },
}

/// The content of an optional text.
pub open spec fn opt_text(text: Option<String>) -> Option<Seq<char>> {
    match text {
        Some(t) => Some(t@),
        None => None,
    }
}

impl View for FormPart {
    type V = FormPartView;

    open spec fn view(&self) -> FormPartView {
        match self {
            FormPart::Text { name, value } => FormPartView::Text { name: name@, value: value@ },
            FormPart::File { name, file_name, mime, content } => FormPartView::File {
                name: name@,
                file_name: file_name@,
                mime: opt_text(*mime),
                content: content@,
            },
            FormPart::Cookies { name, cookies } => FormPartView::Cookies {
                name: name@,
                cookies: cookies@.map_values(|c: Cookie| c@),
            },
        }
    }
}

/// The content of a list of parts, in order.
pub open spec fn parts_view(parts: Seq<FormPart>) -> Seq<FormPartView> {
    parts.map_values(|p: FormPart| p@)
}

/// The text field `name`, where it has a value.
pub open spec fn text_field(name: Seq<char>, value: Option<Seq<char>>) -> Seq<FormPartView> {
    match value {
        Some(v) => seq![FormPartView::Text { name, value: v }],
        None => Seq::empty(),
    }
}

/// The text that writes a truth value.
pub open spec fn bool_text(b: bool) -> Seq<char> {
    if b {
        "true"@
    } else {
        "false"@
    }
}

/// The file `name` of the given media type, where it has content. The
/// file is named like the field.
pub open spec fn file_field(name: Seq<char>, mime: Seq<char>, content: Option<Seq<u8>>) -> Seq<
    FormPartView,
> {
    match content {
        Some(bytes) => seq![
            FormPartView::File { name, file_name: name, mime: Some(mime), content: bytes },
        ],
        None => Seq::empty(),
    }
}

/// The field `name` that carries cookies, where there are any to carry.
pub open spec fn cookies_field(name: Seq<char>, cookies: Option<Vec<Cookie>>) -> Seq<
    FormPartView,
> {
    match cookies {
        Some(c) => seq![FormPartView::Cookies { name, cookies: c@.map_values(|c: Cookie| c@) }],
        None => Seq::empty(),
    }
}

/// Appends one part.
pub fn push_part(parts: &mut Vec<FormPart>, part: FormPart)
    ensures
        parts_view(final(parts)@) == parts_view(old(parts)@) + seq![part@],
{
    parts.push(part);
    assert(parts_view(parts@) =~= parts_view(old(parts)@) + seq![part@]);
}

/// Appends the text field `name`, where it has a value.
pub fn push_text(parts: &mut Vec<FormPart>, name: &str, value: Option<String>)
    ensures
        parts_view(final(parts)@) == parts_view(old(parts)@) + text_field(name@, opt_text(value)),
{
    match value {
        Some(v) => {
            push_part(parts, FormPart::Text { name: name.to_owned(), value: v });
        },
        None => {
            assert(parts_view(parts@) =~= parts_view(old(parts)@) + Seq::<FormPartView>::empty());
        },
    }
}

/// The text that writes a truth value.
pub fn bool_string(b: bool) -> (r: String)
    ensures
        r@ == bool_text(b),
{
    if b {
        "true".to_owned()
    } else {
        "false".to_owned()
    }
}

/// Appends the file `name` of the given media type with the bytes of
/// `text` as its content, where there is a text.
pub fn push_text_file(parts: &mut Vec<FormPart>, name: &str, mime: &str, text: Option<String>)
    ensures
        parts_view(final(parts)@) == parts_view(old(parts)@) + file_field(
            name@,
            mime@,
            match text {
                Some(t) => Some(encode_utf8(t@)),
                None => None,
            },
        ),
{
    match text {
        Some(t) => {
            let content = t.as_str().as_bytes_vec();
            push_part(
                parts,
                FormPart::File {
                    name: name.to_owned(),
                    file_name: name.to_owned(),
                    mime: Some(mime.to_owned()),
                    content,
                },
            );
        },
        None => {
            assert(parts_view(parts@) =~= parts_view(old(parts)@) + Seq::<FormPartView>::empty());
        },
    }
}

/// Appends the field `name` that carries cookies, where there are any to
/// carry.
pub fn push_cookies(parts: &mut Vec<FormPart>, name: &str, cookies: Option<Vec<Cookie>>)
    ensures
        parts_view(final(parts)@) == parts_view(old(parts)@) + cookies_field(name@, cookies),
{
    match cookies {
        Some(c) => {
            push_part(parts, FormPart::Cookies { name: name.to_owned(), cookies: c });
        },
        None => {
            assert(parts_view(parts@) =~= parts_view(old(parts)@) + Seq::<FormPartView>::empty());
        },
    }
}

/// The text field `name` that carries a truth value, where there is one.
pub open spec fn bool_field(name: Seq<char>, value: Option<bool>) -> Seq<FormPartView> {
    match value {
        Some(b) => text_field(name, Some(bool_text(b))),
        None => Seq::empty(),
    }
}

/// The text field `name` that carries a number, where there is one.
pub open spec fn number_field(name: Seq<char>, value: Option<nat>) -> Seq<FormPartView> {
    match value {
        Some(n) => text_field(name, Some(decimal_text(n))),
        None => Seq::empty(),
    }
}

/// The text field `name` that carries a small number, where there is one.
pub open spec fn u8_field(name: Seq<char>, value: Option<u8>) -> Seq<FormPartView> {
    match value {
        Some(n) => text_field(name, Some(decimal_text(n as nat))),
        None => Seq::empty(),
    }
}

/// The text field `name` that carries a number, where there is one.
pub open spec fn u32_field(name: Seq<char>, value: Option<u32>) -> Seq<FormPartView> {
    match value {
        Some(n) => text_field(name, Some(decimal_text(n as nat))),
        None => Seq::empty(),
    }
}

/// The text of a delay of so many milliseconds.
pub open spec fn delay_text(milliseconds: nat) -> Seq<char> {
    decimal_text(milliseconds) + "ms"@
}

/// The text field `name` that carries a delay in milliseconds, where
/// there is one.
pub open spec fn delay_field(name: Seq<char>, value: Option<u128>) -> Seq<FormPartView> {
    match value {
        Some(n) => text_field(name, Some(delay_text(n as nat))),
        None => Seq::empty(),
    }
}

/// The text field `name` that carries a page selection, where there is
/// one.
pub open spec fn page_range_field(name: Seq<char>, value: Option<PageRange>) -> Seq<
    FormPartView,
> {
    match value {
        Some(range) => text_field(name, Some(page_range_text(range@))),
        None => Seq::empty(),
    }
}

/// The text field `name` that carries a dimension, where there is one.
pub open spec fn dimension_field(name: Seq<char>, value: Option<LinearDimention>) -> Seq<
    FormPartView,
> {
    match value {
        Some(d) => text_field(name, Some(d@.text())),
        None => Seq::empty(),
    }
}

/// The text field `name` that carries a bare magnitude, where there is
/// one.
pub open spec fn magnitude_field(name: Seq<char>, value: Option<Magnitude>) -> Seq<
    FormPartView,
> {
    match value {
        Some(m) => text_field(name, Some(m@.text())),
        None => Seq::empty(),
    }
}

/// The text field `name` that carries a PDF format, where there is one.
pub open spec fn pdf_format_field(name: Seq<char>, value: Option<PDFFormat>) -> Seq<
    FormPartView,
> {
    match value {
        Some(f) => text_field(name, Some(f.name())),
        None => Seq::empty(),
    }
}

/// The text field `name` that carries an image format, where there is
/// one.
pub open spec fn image_format_field(name: Seq<char>, value: Option<ImageFormat>) -> Seq<
    FormPartView,
> {
    match value {
        Some(f) => text_field(name, Some(f.name())),
        None => Seq::empty(),
    }
}

/// The text field `name` that carries a media type, where there is one.
pub open spec fn media_type_field(name: Seq<char>, value: Option<MediaType>) -> Seq<
    FormPartView,
> {
    match value {
        Some(m) => text_field(name, Some(m.name())),
        None => Seq::empty(),
    }
}

/// The file `name` that holds a page of HTML, where there is one.
pub open spec fn html_field(name: Seq<char>, html: Option<String>) -> Seq<FormPartView> {
    match html {
        Some(page) => file_field(name, "text/html"@, Some(encode_utf8(page@))),
        None => Seq::empty(),
    }
}

/// Appends the text field `name` that carries a truth value, where there
/// is one.
pub fn push_bool(parts: &mut Vec<FormPart>, name: &str, value: Option<bool>)
    ensures
        parts_view(final(parts)@) == parts_view(old(parts)@) + bool_field(name@, value),
{
    let text = match value {
        Some(b) => Some(bool_string(b)),
        None => None,
    };
    push_text(parts, name, text);
}

/// Appends the text field `name` that carries a number, where there is
/// one.
pub fn push_number(parts: &mut Vec<FormPart>, name: &str, value: Option<u128>)
    ensures
        parts_view(final(parts)@) == parts_view(old(parts)@) + number_field(
            name@,
            match value {
                Some(n) => Some(n as nat),
                None => None,
            },
        ),
{
    let text = match value {
        Some(n) => Some(decimal_string(n)),
        None => None,
    };
    push_text(parts, name, text);
}

/// Appends the text field `name` that carries a small number, where there
/// is one.
pub fn push_u8(parts: &mut Vec<FormPart>, name: &str, value: Option<u8>)
    ensures
        parts_view(final(parts)@) == parts_view(old(parts)@) + u8_field(name@, value),
{
    let text = match value {
        Some(n) => Some(decimal_string(n as u128)),
        None => None,
    };
    push_text(parts, name, text);
}

/// Appends the text field `name` that carries a number, where there is
/// one.
pub fn push_u32(parts: &mut Vec<FormPart>, name: &str, value: Option<u32>)
    ensures
        parts_view(final(parts)@) == parts_view(old(parts)@) + u32_field(name@, value),
{
    let text = match value {
        Some(n) => Some(decimal_string(n as u128)),
        None => None,
    };
    push_text(parts, name, text);
}

/// Appends the text field `name` that carries a delay in milliseconds,
/// where there is one.
pub fn push_delay(parts: &mut Vec<FormPart>, name: &str, value: Option<u128>)
    ensures
        parts_view(final(parts)@) == parts_view(old(parts)@) + delay_field(name@, value),
{
    let text = match value {
        Some(n) => {
            let mut text = decimal_string(n);
            text.append("ms");
            Some(text)
        },
        None => None,
    };
    push_text(parts, name, text);
}

/// Appends the text field `name` that carries a page selection, where
/// there is one.
pub fn push_page_range(parts: &mut Vec<FormPart>, name: &str, value: Option<PageRange>)
    ensures
        parts_view(final(parts)@) == parts_view(old(parts)@) + page_range_field(name@, value),
{
    let text = match &value {
        Some(range) => Some(range.to_string()),
        None => None,
    };
    push_text(parts, name, text);
}

/// Appends the text field `name` that carries a dimension, where there is
/// one.
pub fn push_dimension(parts: &mut Vec<FormPart>, name: &str, value: Option<LinearDimention>)
    ensures
        parts_view(final(parts)@) == parts_view(old(parts)@) + dimension_field(name@, value),
{
    let text = match &value {
        Some(d) => Some(d.to_string()),
        None => None,
    };
    push_text(parts, name, text);
}

/// Appends the text field `name` that carries a bare magnitude, where
/// there is one.
pub fn push_magnitude(parts: &mut Vec<FormPart>, name: &str, value: Option<Magnitude>)
    ensures
        parts_view(final(parts)@) == parts_view(old(parts)@) + magnitude_field(name@, value),
{
    let text = match &value {
        Some(m) => Some(m.to_string()),
        None => None,
    };
    push_text(parts, name, text);
}

/// Appends the text field `name` that carries a PDF format, where there
/// is one.
pub fn push_pdf_format(parts: &mut Vec<FormPart>, name: &str, value: Option<PDFFormat>)
    ensures
        parts_view(final(parts)@) == parts_view(old(parts)@) + pdf_format_field(name@, value),
{
    let text = match value {
        Some(f) => Some(f.to_string()),
        None => None,
    };
    push_text(parts, name, text);
}

/// Appends the text field `name` that carries an image format, where
/// there is one.
pub fn push_image_format(parts: &mut Vec<FormPart>, name: &str, value: Option<ImageFormat>)
    ensures
        parts_view(final(parts)@) == parts_view(old(parts)@) + image_format_field(name@, value),
{
    let text = match value {
        Some(f) => Some(f.to_string()),
        None => None,
    };
    push_text(parts, name, text);
}

/// Appends the text field `name` that carries a media type, where there
/// is one.
pub fn push_media_type(parts: &mut Vec<FormPart>, name: &str, value: Option<MediaType>)
    ensures
        parts_view(final(parts)@) == parts_view(old(parts)@) + media_type_field(name@, value),
{
    let text = match value {
        Some(m) => Some(m.to_string()),
        None => None,
    };
    push_text(parts, name, text);
}

/// Appends the file `name` that holds a page of HTML, where there is one.
pub fn push_html(parts: &mut Vec<FormPart>, name: &str, html: Option<String>)
    ensures
        parts_view(final(parts)@) == parts_view(old(parts)@) + html_field(name@, html),
{
    push_text_file(parts, name, "text/html", html);
}

} // verus!
