//! What a conversion request holds before it is sent: the endpoint, the
//! trace and the parts of the form; and what the answer of the service
//! means.

use crate::error::{Error, ErrorView};
use crate::form::{
    bool_field, bool_string, file_field, is_render_error, opt_text, parts_view, pdf_format_field,
    push_part, push_pdf_format, push_text, render_metadata, text_field, FormPart, FormPartView,
};
use crate::formats::PDFFormat;
use crate::options::{DocumentOptions, RenderedOptions, ScreenshotOptions, WebOptions};
use crate::text::to_chars;
use std::collections::HashMap;
use vstd::prelude::*;
use vstd::utf8::encode_utf8;

verus! {

/// `s` without the `c`s that it ends with.
pub open spec fn strip_trailing(s: Seq<char>, c: char) -> Seq<char>
    decreases s.len(),
{
    if s.len() > 0 && s.last() == c {
        strip_trailing(s.drop_last(), c)
    } else {
        s
    }
}

/// The base URL of the service as the client keeps it: without trailing
/// slashes.
pub fn normalize_base_url(base_url: &str) -> (r: String)
    ensures
        r@ == strip_trailing(base_url@, '/'),
{
    let chars = to_chars(base_url);
    let mut end: usize = chars.len();
    assert(chars@.subrange(0, end as int) =~= base_url@);
    while end > 0 && chars[end - 1] == '/'
        invariant
            end <= chars.len(),
            chars@ == base_url@,
            strip_trailing(base_url@, '/') == strip_trailing(chars@.subrange(0, end as int), '/'),
        decreases end,
    {
        assert(chars@.subrange(0, end as int).drop_last() =~= chars@.subrange(0, end - 1));
        end -= 1;
    }
    base_url.substring_char(0, end).to_owned()
}

/// The URL of an endpoint of the service: the base URL, a slash, and the
/// path of the endpoint.
pub open spec fn endpoint_url_text(base_url: Seq<char>, endpoint: Seq<char>) -> Seq<char> {
    base_url + seq!['/'] + endpoint
}

/// The URL of an endpoint of the service.
pub fn endpoint_url(base_url: &str, endpoint: &str) -> (r: String)
    ensures
        r@ == endpoint_url_text(base_url@, endpoint@),
{
    let mut r = base_url.to_owned();
    proof {
        reveal_strlit("/");
    }
    r.append("/");
    r.append(endpoint);
    assert(r@ =~= endpoint_url_text(base_url@, endpoint@));
    r
}

/// The reason that a failed rendering is reported with.
pub open spec fn rendering_failure_text(status: Seq<char>, body: Seq<char>) -> Seq<char> {
    "Failed to render PDF: "@ + status + " - "@ + body
}

/// The error for an answer of the service whose status does not say
/// success: a rendering error that carries the status line and the body
/// of the answer.
pub fn rendering_failure(status: &str, body: &str) -> (e: Error)
    ensures
        e@ == ErrorView::RenderingError(rendering_failure_text(status@, body@)),
{
    let mut reason = "Failed to render PDF: ".to_owned();
    reason.append(status);
    reason.append(" - ");
    reason.append(body);
    Error::RenderingError(reason)
}

/// A request to the service, ready to be sent.
#[derive(Debug, Clone)]
pub struct Request {
    /// The path of the endpoint, below the base URL.
    pub endpoint: String,
    /// The trace to send in the `Gotenberg-Trace` header, if any.
    pub trace: Option<String>,
    /// The parts of the multipart form, in order.
    pub parts: Vec<FormPart>,
}

impl Request {
    /// Whether the request goes to `endpoint` with the given trace and
    /// form.
    pub open spec fn sends(
        &self,
        endpoint: Seq<char>,
        trace: Option<String>,
        form: Seq<FormPartView>,
    ) -> bool {
        &&& self.endpoint@ == endpoint
        &&& opt_text(self.trace) == opt_text(trace)
        &&& parts_view(self.parts@) == form
    }
}

/// A copy of an optional text.
fn copy_text(text: &Option<String>) -> (r: Option<String>)
    ensures
        opt_text(r) == opt_text(*text),
{
    match text {
        Some(t) => Some(t.clone()),
        None => None,
    }
}

/// The field that names the page to fetch.
pub open spec fn url_field(url: Seq<char>) -> Seq<FormPartView> {
    text_field("url"@, Some(url))
}

/// The file that holds the page to render.
pub open spec fn index_field(html: Seq<char>) -> Seq<FormPartView> {
    file_field("index.html"@, "text/html"@, Some(encode_utf8(html)))
}

/// Whether `name` is the name of a Markdown file: it ends in `.md`.
pub open spec fn is_markdown_name(name: Seq<char>) -> bool {
    name.len() >= 3 && name.subrange(name.len() - 3, name.len() as int) == seq!['.', 'm', 'd']
}

/// The file part that carries one Markdown file.
pub open spec fn markdown_part(file: (String, String)) -> FormPartView {
    FormPartView::File {
        name: file.0@,
        file_name: file.0@,
        mime: Some("text/markdown"@),
        content: encode_utf8(file.1@),
    }
}

/// The file parts that carry the Markdown files, in order.
pub open spec fn markdown_fields(files: Seq<(String, String)>) -> Seq<FormPartView> {
    files.map_values(|file: (String, String)| markdown_part(file))
}

/// Whether every file has the name of a Markdown file.
pub open spec fn all_markdown_names(files: Seq<(String, String)>) -> bool {
    forall|i: int| 0 <= i < files.len() ==> is_markdown_name((#[trigger] files[i]).0@)
}

/// The error for a Markdown file whose name does not end in `.md`.
pub open spec fn markdown_name_error() -> ErrorView {
    ErrorView::FilenameError("Markdown filename must end with '.md'"@)
}

/// Whether `name` ends in `.md`.
fn has_markdown_name(name: &str) -> (r: bool)
    ensures
        r == is_markdown_name(name@),
{
    let chars = to_chars(name);
    let len = chars.len();
    if len < 3 {
        return false;
    }
    let r = chars[len - 3] == '.' && chars[len - 2] == 'm' && chars[len - 1] == 'd';
    proof {
        let tail = name@.subrange(len - 3, len as int);
        assert(tail[0] == chars@[len - 3] && tail[1] == chars@[len - 2] && tail[2] == chars@[len
            - 1]);
        if r {
            assert(tail =~= seq!['.', 'm', 'd']);
        }
    }
    r
}

/// Appends one file part for each Markdown file, given as pairs of name
/// and content.
///
/// Fails with a file-name error where a name does not end in `.md`.
pub fn push_markdown(parts: &mut Vec<FormPart>, files: &Vec<(String, String)>) -> (r: Result<
    (),
    Error,
>)
    ensures
        match r {
            Ok(_) => all_markdown_names(files@) && parts_view(final(parts)@) == parts_view(
                old(parts)@,
            ) + markdown_fields(files@),
            Err(e) => !all_markdown_names(files@) && e@ == markdown_name_error(),
        },
{
    let mut i: usize = 0;
    assert(markdown_fields(files@).take(0) =~= Seq::<FormPartView>::empty());
    assert(parts_view(parts@) =~= parts_view(old(parts)@) + markdown_fields(files@).take(0));
    while i < files.len()
        invariant
            i <= files.len(),
            forall|j: int| 0 <= j < i ==> is_markdown_name((#[trigger] files@[j]).0@),
            parts_view(parts@) == parts_view(old(parts)@) + markdown_fields(files@).take(i as int),
        decreases files.len() - i,
    {
        let name = &files[i].0;
        let content = &files[i].1;
        if !has_markdown_name(name.as_str()) {
            return Err(
                Error::FilenameError("Markdown filename must end with '.md'".to_owned()),
            );
        }
        let ghost before = parts_view(parts@);
        push_part(
            parts,
            FormPart::File {
                name: name.clone(),
                file_name: name.clone(),
                mime: Some("text/markdown".to_owned()),
                content: content.as_str().as_bytes_vec(),
            },
        );
        proof {
            let all = markdown_fields(files@);
            assert(all.take(i + 1) =~= all.take(i as int) + seq![markdown_part(files@[i as int])]);
            assert(parts_view(parts@) =~= parts_view(old(parts)@) + all.take(i + 1));
        }
        i += 1;
    }
    assert(markdown_fields(files@).take(i as int) =~= markdown_fields(files@));
    Ok(())
}

/// Appends all of `more`.
fn push_all(parts: &mut Vec<FormPart>, more: Vec<FormPart>)
    ensures
        parts_view(final(parts)@) == parts_view(old(parts)@) + parts_view(more@),
{
    let ghost added = more@;
    let mut more = more;
    parts.append(&mut more);
    assert(parts_view(parts@) =~= parts_view(old(parts)@) + parts_view(added));
}

/// A file part without a declared media type.
pub open spec fn plain_file(name: Seq<char>, file_name: Seq<char>, content: Seq<u8>) -> Seq<
    FormPartView,
> {
    seq![FormPartView::File { name, file_name, mime: None, content }]
}

/// The file part that carries the PDF to work on.
pub open spec fn pdf_field(content: Seq<u8>) -> Seq<FormPartView> {
    plain_file("file.pdf"@, "file.pdf"@, content)
}

/// A request for the Chromium engine: the leading part, then the fields of
/// the options.
fn web_request(endpoint: &str, lead: FormPart, options: WebOptions) -> (r: Result<Request, Error>)
    ensures
        match r {
            Ok(request) => exists|json: RenderedOptions| #[trigger]
                options.rendered_as(json) && request.sends(
                    endpoint@,
                    options.trace_id,
                    seq![lead@] + options.form(json),
                ),
            Err(e) => options.is_render_failure(e@),
        },
        options.is_plain() ==> r is Ok,
{
    let trace = copy_text(&options.trace_id);
    let json = match options.render() {
        Ok(json) => json,
        Err(e) => {
            return Err(e);
        },
    };
    let ghost rendered = json;
    let mut parts: Vec<FormPart> = Vec::new();
    push_part(&mut parts, lead);
    push_all(&mut parts, options.form_parts_with(json));
    let request = Request { endpoint: endpoint.to_owned(), trace, parts };
    proof {
        assert(parts_view(Seq::<FormPart>::empty()) =~= Seq::<FormPartView>::empty());
        assert(parts_view(request.parts@) =~= seq![lead@] + options.form(rendered));
        assert(options.rendered_as(rendered) && request.sends(
            endpoint@,
            options.trace_id,
            seq![lead@] + options.form(rendered),
        ));
    }
    Ok(request)
}

/// A screenshot request for the Chromium engine: the leading part, then
/// the fields of the options.
fn screenshot_request(endpoint: &str, lead: FormPart, options: ScreenshotOptions) -> (r: Result<
    Request,
    Error,
>)
    ensures
        match r {
            Ok(request) => exists|json: RenderedOptions| #[trigger]
                options.rendered_as(json) && request.sends(
                    endpoint@,
                    options.trace_id,
                    seq![lead@] + options.form(json),
                ),
            Err(e) => options.is_render_failure(e@),
        },
        options.is_plain() ==> r is Ok,
{
    let trace = copy_text(&options.trace_id);
    let json = match options.render() {
        Ok(json) => json,
        Err(e) => {
            return Err(e);
        },
    };
    let ghost rendered = json;
    let mut parts: Vec<FormPart> = Vec::new();
    push_part(&mut parts, lead);
    push_all(&mut parts, options.form_parts_with(json));
    let request = Request { endpoint: endpoint.to_owned(), trace, parts };
    proof {
        assert(parts_view(Seq::<FormPart>::empty()) =~= Seq::<FormPartView>::empty());
        assert(parts_view(request.parts@) =~= seq![lead@] + options.form(rendered));
        assert(options.rendered_as(rendered) && request.sends(
            endpoint@,
            options.trace_id,
            seq![lead@] + options.form(rendered),
        ));
    }
    Ok(request)
}

/// The part that names the page to fetch.
fn url_part(url: &str) -> (r: FormPart)
    ensures
        seq![r@] == url_field(url@),
{
    let r = FormPart::Text { name: "url".to_owned(), value: url.to_owned() };
    assert(seq![r@] =~= url_field(url@));
    r
}

/// The part that holds the page to render.
fn index_part(html: &str) -> (r: FormPart)
    ensures
        seq![r@] == index_field(html@),
{
    let r = FormPart::File {
        name: "index.html".to_owned(),
        file_name: "index.html".to_owned(),
        mime: Some("text/html".to_owned()),
        content: html.as_bytes_vec(),
    };
    assert(seq![r@] =~= index_field(html@));
    r
}

/// The part that carries a file without a declared media type.
fn plain_file_part(name: &str, file_name: &str, content: Vec<u8>) -> (r: FormPart)
    ensures
        seq![r@] == plain_file(name@, file_name@, content@),
{
    let r = FormPart::File {
        name: name.to_owned(),
        file_name: file_name.to_owned(),
        mime: None,
        content,
    };
    assert(seq![r@] =~= plain_file(name@, file_name@, content@));
    r
}

/// The request that turns the page at `url` into a PDF: the field `url`,
/// then the fields of the options.
///
/// Succeeds where no structured option is set. Fails only where one of
/// those that are set cannot be rendered.
pub fn pdf_from_url(url: &str, options: WebOptions) -> (r: Result<Request, Error>)
    ensures
        match r {
            Ok(request) => exists|json: RenderedOptions| #[trigger]
                options.rendered_as(json) && request.sends(
                    "forms/chromium/convert/url"@,
                    options.trace_id,
                    url_field(url@) + options.form(json),
                ),
            Err(e) => options.is_render_failure(e@),
        },
        options.is_plain() ==> r is Ok,
{
    web_request("forms/chromium/convert/url", url_part(url), options)
}

/// The request that turns a page of HTML into a PDF: the file
/// `index.html`, then the fields of the options.
///
/// Succeeds where no structured option is set. Fails only where one of
/// those that are set cannot be rendered.
pub fn pdf_from_html(html: &str, options: WebOptions) -> (r: Result<Request, Error>)
    ensures
        match r {
            Ok(request) => exists|json: RenderedOptions| #[trigger]
                options.rendered_as(json) && request.sends(
                    "forms/chromium/convert/html"@,
                    options.trace_id,
                    index_field(html@) + options.form(json),
                ),
            Err(e) => options.is_render_failure(e@),
        },
        options.is_plain() ==> r is Ok,
{
    web_request("forms/chromium/convert/html", index_part(html), options)
}

/// The request that turns Markdown files into a PDF: the template as the
/// file `index.html`, the fields of the options, then one file for each
/// Markdown file, given as pairs of name and content.
///
/// Fails where a structured option that is set cannot be rendered, and
/// else, with a file-name error, where the name of a Markdown file does not
/// end in `.md`. With no structured option set, it succeeds exactly where
/// all names do.
pub fn pdf_from_markdown(
    html_template: &str,
    markdown: &Vec<(String, String)>,
    options: WebOptions,
) -> (r: Result<Request, Error>)
    ensures
        match r {
            Ok(request) => all_markdown_names(markdown@) && exists|json: RenderedOptions| #[trigger]
                options.rendered_as(json) && request.sends(
                    "forms/chromium/convert/markdown"@,
                    options.trace_id,
                    index_field(html_template@) + options.form(json) + markdown_fields(markdown@),
                ),
            Err(e) => options.is_render_failure(e@) || (!all_markdown_names(markdown@) && e@
                == markdown_name_error()),
        },
        options.is_plain() && all_markdown_names(markdown@) ==> r is Ok,
        options.is_plain() && !all_markdown_names(markdown@) ==> (r matches Err(e) && e@
            == markdown_name_error()),
{
    let mut request = match web_request(
        "forms/chromium/convert/markdown",
        index_part(html_template),
        options,
    ) {
        Ok(request) => request,
        Err(e) => {
            return Err(e);
        },
    };
    let ghost json = choose|json: RenderedOptions| #[trigger]
        options.rendered_as(json) && request.sends(
            "forms/chromium/convert/markdown"@,
            options.trace_id,
            index_field(html_template@) + options.form(json),
        );
    let mut parts = request.parts;
    match push_markdown(&mut parts, markdown) {
        Ok(_) => {},
        Err(e) => {
            return Err(e);
        },
    }
    let request = Request { endpoint: request.endpoint, trace: request.trace, parts };
    assert(options.rendered_as(json) && request.sends(
        "forms/chromium/convert/markdown"@,
        options.trace_id,
        index_field(html_template@) + options.form(json) + markdown_fields(markdown@),
    ));
    Ok(request)
}

/// The request that takes a screenshot of the page at `url`: the field
/// `url`, then the fields of the options.
///
/// Succeeds where no structured option is set. Fails only where one of
/// those that are set cannot be rendered.
pub fn screenshot_url(url: &str, options: ScreenshotOptions) -> (r: Result<Request, Error>)
    ensures
        match r {
            Ok(request) => exists|json: RenderedOptions| #[trigger]
                options.rendered_as(json) && request.sends(
                    "forms/chromium/screenshot/url"@,
                    options.trace_id,
                    url_field(url@) + options.form(json),
                ),
            Err(e) => options.is_render_failure(e@),
        },
        options.is_plain() ==> r is Ok,
{
    screenshot_request("forms/chromium/screenshot/url", url_part(url), options)
}

/// The request that takes a screenshot of a page of HTML: the file
/// `index.html`, then the fields of the options.
///
/// Succeeds where no structured option is set. Fails only where one of
/// those that are set cannot be rendered.
pub fn screenshot_html(html: &str, options: ScreenshotOptions) -> (r: Result<Request, Error>)
    ensures
        match r {
            Ok(request) => exists|json: RenderedOptions| #[trigger]
                options.rendered_as(json) && request.sends(
                    "forms/chromium/screenshot/html"@,
                    options.trace_id,
                    index_field(html@) + options.form(json),
                ),
            Err(e) => options.is_render_failure(e@),
        },
        options.is_plain() ==> r is Ok,
{
    screenshot_request("forms/chromium/screenshot/html", index_part(html), options)
}

/// The request that takes a screenshot of Markdown files: the template as
/// the file `index.html`, the fields of the options, then one file for
/// each Markdown file, given as pairs of name and content.
///
/// Fails where a structured option that is set cannot be rendered, and
/// else, with a file-name error, where the name of a Markdown file does not
/// end in `.md`. With no structured option set, it succeeds exactly where
/// all names do.
pub fn screenshot_markdown(
    html_template: &str,
    markdown: &Vec<(String, String)>,
    options: ScreenshotOptions,
) -> (r: Result<Request, Error>)
    ensures
        match r {
            Ok(request) => all_markdown_names(markdown@) && exists|json: RenderedOptions| #[trigger]
                options.rendered_as(json) && request.sends(
                    "forms/chromium/screenshot/markdown"@,
                    options.trace_id,
                    index_field(html_template@) + options.form(json) + markdown_fields(markdown@),
                ),
            Err(e) => options.is_render_failure(e@) || (!all_markdown_names(markdown@) && e@
                == markdown_name_error()),
        },
        options.is_plain() && all_markdown_names(markdown@) ==> r is Ok,
        options.is_plain() && !all_markdown_names(markdown@) ==> (r matches Err(e) && e@
            == markdown_name_error()),
{
    let mut request = match screenshot_request(
        "forms/chromium/screenshot/markdown",
        index_part(html_template),
        options,
    ) {
        Ok(request) => request,
        Err(e) => {
            return Err(e);
        },
    };
    let ghost json = choose|json: RenderedOptions| #[trigger]
        options.rendered_as(json) && request.sends(
            "forms/chromium/screenshot/markdown"@,
            options.trace_id,
            index_field(html_template@) + options.form(json),
        );
    let mut parts = request.parts;
    match push_markdown(&mut parts, markdown) {
        Ok(_) => {},
        Err(e) => {
            return Err(e);
        },
    }
    let request = Request { endpoint: request.endpoint, trace: request.trace, parts };
    assert(options.rendered_as(json) && request.sends(
        "forms/chromium/screenshot/markdown"@,
        options.trace_id,
        index_field(html_template@) + options.form(json) + markdown_fields(markdown@),
    ));
    Ok(request)
}

/// The request that turns an office document into a PDF: the document as
/// the file part `files` under its own file name, then the fields of the
/// options.
pub fn pdf_from_doc(filename: &str, bytes: Vec<u8>, options: DocumentOptions) -> (r: Request)
    ensures
        r.sends(
            "forms/libreoffice/convert"@,
            options.trace_id,
            plain_file("files"@, filename@, bytes@) + options.form(),
        ),
{
    let trace = copy_text(&options.trace_id);
    let mut parts: Vec<FormPart> = Vec::new();
    assert(parts_view(parts@) =~= Seq::<FormPartView>::empty());
    push_part(&mut parts, plain_file_part("files", filename, bytes));
    push_all(&mut parts, options.form_parts());
    assert(parts_view(parts@) =~= plain_file("files"@, filename@, bytes@) + options.form());
    Request { endpoint: "forms/libreoffice/convert".to_owned(), trace, parts }
}

/// The request that transforms a PDF into a PDF/A format, PDF/UA, or
/// both: the PDF, the field `pdfa` where a format is asked for, and the
/// field `pdfua`. It carries no trace.
pub fn convert_pdf(pdf_bytes: Vec<u8>, pdfa: Option<PDFFormat>, pdfua: bool) -> (r: Request)
    ensures
        r.sends(
            "forms/pdfengines/convert"@,
            None,
            pdf_field(pdf_bytes@) + pdf_format_field("pdfa"@, pdfa) + bool_field(
                "pdfua"@,
                Some(pdfua),
            ),
        ),
{
    let mut parts: Vec<FormPart> = Vec::new();
    assert(parts_view(parts@) =~= Seq::<FormPartView>::empty());
    push_part(&mut parts, plain_file_part("file.pdf", "file.pdf", pdf_bytes));
    assert(parts_view(parts@) =~= pdf_field(pdf_bytes@));
    push_pdf_format(&mut parts, "pdfa", pdfa);
    push_text(&mut parts, "pdfua", Some(bool_string(pdfua)));
    Request { endpoint: "forms/pdfengines/convert".to_owned(), trace: None, parts }
}

/// The request that reads the metadata of a PDF: the PDF alone. It
/// carries no trace.
pub fn read_metadata(pdf_bytes: Vec<u8>) -> (r: Request)
    ensures
        r.sends("forms/pdfengines/metadata/read"@, None, pdf_field(pdf_bytes@)),
{
    let mut parts: Vec<FormPart> = Vec::new();
    assert(parts_view(parts@) =~= Seq::<FormPartView>::empty());
    push_part(&mut parts, plain_file_part("file.pdf", "file.pdf", pdf_bytes));
    assert(parts_view(parts@) =~= pdf_field(pdf_bytes@));
    Request { endpoint: "forms/pdfengines/metadata/read".to_owned(), trace: None, parts }
}

/// The request that writes metadata, given as JSON text, to a PDF: the
/// PDF, then the field `metadata`. It carries no trace.
pub fn write_metadata_text(pdf_bytes: Vec<u8>, metadata: String) -> (r: Request)
    ensures
        r.sends(
            "forms/pdfengines/metadata/write"@,
            None,
            pdf_field(pdf_bytes@) + text_field("metadata"@, Some(metadata@)),
        ),
{
    let mut parts: Vec<FormPart> = Vec::new();
    assert(parts_view(parts@) =~= Seq::<FormPartView>::empty());
    push_part(&mut parts, plain_file_part("file.pdf", "file.pdf", pdf_bytes));
    assert(parts_view(parts@) =~= pdf_field(pdf_bytes@));
    push_text(&mut parts, "metadata", Some(metadata));
    Request { endpoint: "forms/pdfengines/metadata/write".to_owned(), trace: None, parts }
}

/// The request that writes metadata to a PDF: the PDF, then the field
/// `metadata` with the metadata as a JSON object. It carries no trace.
///
/// Fails only where the metadata cannot be rendered.
pub fn write_metadata(pdf_bytes: Vec<u8>, metadata: &HashMap<String, serde_json::Value>) -> (r:
    Result<Request, Error>)
    ensures
        match r {
            Ok(request) => exists|text: Seq<char>|
                request.sends(
                    "forms/pdfengines/metadata/write"@,
                    None,
                    pdf_field(pdf_bytes@) + #[trigger] text_field("metadata"@, Some(text)),
                ),
            Err(e) => is_render_error(e@, "Metadata"@),
        },
{
    match render_metadata(metadata) {
        Ok(text) => {
            let ghost rendered = text@;
            let request = write_metadata_text(pdf_bytes, text);
            assert(request.sends(
                "forms/pdfengines/metadata/write"@,
                None,
                pdf_field(pdf_bytes@) + text_field("metadata"@, Some(rendered)),
            ));
            Ok(request)
        },
        Err(e) => Err(e),
    }
}

} // verus!
