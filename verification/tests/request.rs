use gotenberg_pdf::request::{
    convert_pdf, endpoint_url, normalize_base_url, pdf_from_doc, pdf_from_html, pdf_from_markdown,
    pdf_from_url, read_metadata, rendering_failure, screenshot_html, screenshot_markdown,
    screenshot_url, write_metadata, write_metadata_text,
};
use gotenberg_pdf::{
    DocumentOptions, Error, FormPart, PDFFormat, ScreenshotOptions, WebOptions,
};
use std::collections::HashMap;

fn text(name: &str, value: &str) -> FormPart {
    FormPart::Text {
        name: name.to_string(),
        value: value.to_string(),
    }
}

fn file(name: &str, file_name: &str, mime: Option<&str>, content: &[u8]) -> FormPart {
    FormPart::File {
        name: name.to_string(),
        file_name: file_name.to_string(),
        mime: mime.map(str::to_string),
        content: content.to_vec(),
    }
}

fn web() -> WebOptions {
    WebOptions {
        trace_id: Some("trace-1".to_string()),
        landscape: Some(true),
        fail_on_http_status_codes: Some(vec![499, 599]),
        ..WebOptions::default()
    }
}

fn shot() -> ScreenshotOptions {
    ScreenshotOptions {
        width: Some(800),
        ..ScreenshotOptions::default()
    }
}

fn markdown(names: &[&str]) -> Vec<(String, String)> {
    names
        .iter()
        .map(|name| (name.to_string(), format!("# {}", name)))
        .collect()
}

#[test]
fn base_urls_lose_their_trailing_slashes() {
    assert_eq!(normalize_base_url("http://localhost:3000"), "http://localhost:3000");
    assert_eq!(normalize_base_url("http://localhost:3000/"), "http://localhost:3000");
    assert_eq!(normalize_base_url("http://localhost:3000///"), "http://localhost:3000");
    assert_eq!(normalize_base_url("http://host/path/"), "http://host/path");
    assert_eq!(normalize_base_url("///"), "");
    assert_eq!(normalize_base_url(""), "");
    assert_eq!(normalize_base_url("/a"), "/a");
}

#[test]
fn endpoint_urls() {
    assert_eq!(
        endpoint_url("http://localhost:3000", "forms/chromium/convert/url"),
        "http://localhost:3000/forms/chromium/convert/url"
    );
    assert_eq!(endpoint_url("http://h", "health"), "http://h/health");
    assert_eq!(endpoint_url("", ""), "/");
}

#[test]
fn answers_of_the_service() {
    assert_eq!(
        rendering_failure("503 Service Unavailable", "busy"),
        Error::RenderingError("Failed to render PDF: 503 Service Unavailable - busy".to_string())
    );
    assert_eq!(
        rendering_failure("", ""),
        Error::RenderingError("Failed to render PDF:  - ".to_string())
    );
    assert_eq!(
        rendering_failure("404 Not Found", "no such page").to_string(),
        "gotenberg_pdf: PDF / Image Rendering Error: Failed to render PDF: 404 Not Found - no such page"
    );
}

#[test]
fn url_requests() {
    let request = pdf_from_url("https://example.com", web()).unwrap();
    assert_eq!(request.endpoint, "forms/chromium/convert/url");
    assert_eq!(request.trace.as_deref(), Some("trace-1"));
    assert_eq!(
        request.parts,
        vec![
            text("url", "https://example.com"),
            text("landscape", "true"),
            text("failOnHttpStatusCodes", "[499,599]"),
        ]
    );
    let request = screenshot_url("https://example.com", shot()).unwrap();
    assert_eq!(request.endpoint, "forms/chromium/screenshot/url");
    assert_eq!(request.trace, None);
    assert_eq!(
        request.parts,
        vec![text("url", "https://example.com"), text("width", "800")]
    );
}

#[test]
fn html_requests() {
    let page = "<h1>\u{fc}ber</h1>";
    let request = pdf_from_html(page, web()).unwrap();
    assert_eq!(request.endpoint, "forms/chromium/convert/html");
    assert_eq!(request.trace.as_deref(), Some("trace-1"));
    assert_eq!(
        request.parts,
        vec![
            file("index.html", "index.html", Some("text/html"), page.as_bytes()),
            text("landscape", "true"),
            text("failOnHttpStatusCodes", "[499,599]"),
        ]
    );
    let request = screenshot_html(page, shot()).unwrap();
    assert_eq!(request.endpoint, "forms/chromium/screenshot/html");
    assert_eq!(
        request.parts,
        vec![
            file("index.html", "index.html", Some("text/html"), page.as_bytes()),
            text("width", "800"),
        ]
    );
}

#[test]
fn markdown_requests() {
    let files = markdown(&["b.md", "a.md"]);
    let request = pdf_from_markdown("<html></html>", &files, web()).unwrap();
    assert_eq!(request.endpoint, "forms/chromium/convert/markdown");
    assert_eq!(request.trace.as_deref(), Some("trace-1"));
    assert_eq!(
        request.parts,
        vec![
            file("index.html", "index.html", Some("text/html"), b"<html></html>"),
            text("landscape", "true"),
            text("failOnHttpStatusCodes", "[499,599]"),
            file("b.md", "b.md", Some("text/markdown"), b"# b.md"),
            file("a.md", "a.md", Some("text/markdown"), b"# a.md"),
        ]
    );
    let request = screenshot_markdown("<html></html>", &files, shot()).unwrap();
    assert_eq!(request.endpoint, "forms/chromium/screenshot/markdown");
    assert_eq!(
        request.parts,
        vec![
            file("index.html", "index.html", Some("text/html"), b"<html></html>"),
            text("width", "800"),
            file("b.md", "b.md", Some("text/markdown"), b"# b.md"),
            file("a.md", "a.md", Some("text/markdown"), b"# a.md"),
        ]
    );
    let request = pdf_from_markdown("t", &markdown(&[]), WebOptions::default()).unwrap();
    assert_eq!(
        request.parts,
        vec![file("index.html", "index.html", Some("text/html"), b"t")]
    );
}

#[test]
fn markdown_files_must_be_named_so() {
    let error = Error::FilenameError("Markdown filename must end with '.md'".to_string());
    for name in ["a.txt", "md", ".m", "", "a.MD", "a.md ", "a.mdx", "amd"] {
        let files = markdown(&["ok.md", name]);
        assert_eq!(
            pdf_from_markdown("t", &files, web()).unwrap_err(),
            error,
            "{}",
            name
        );
        assert_eq!(
            screenshot_markdown("t", &files, shot()).unwrap_err(),
            error,
            "{}",
            name
        );
    }
    for name in [".md", "a.md", "a.b.md", "\u{e9}.md", "a b.md"] {
        let files = markdown(&[name]);
        assert!(pdf_from_markdown("t", &files, web()).is_ok(), "{}", name);
        assert!(screenshot_markdown("t", &files, shot()).is_ok(), "{}", name);
    }
}

#[test]
fn document_requests() {
    let options = DocumentOptions {
        trace_id: Some("t".to_string()),
        landscape: Some(false),
        ..DocumentOptions::default()
    };
    let request = pdf_from_doc("report.docx", vec![1, 2, 3], options);
    assert_eq!(request.endpoint, "forms/libreoffice/convert");
    assert_eq!(request.trace.as_deref(), Some("t"));
    assert_eq!(
        request.parts,
        vec![
            file("files", "report.docx", None, &[1, 2, 3]),
            text("landscape", "false"),
        ]
    );
}

#[test]
fn pdf_engine_requests() {
    let request = convert_pdf(vec![37, 80], Some(PDFFormat::A3b), true);
    assert_eq!(request.endpoint, "forms/pdfengines/convert");
    assert_eq!(request.trace, None);
    assert_eq!(
        request.parts,
        vec![
            file("file.pdf", "file.pdf", None, &[37, 80]),
            text("pdfa", "PDF/A-3b"),
            text("pdfua", "true"),
        ]
    );
    let request = convert_pdf(vec![], None, false);
    assert_eq!(
        request.parts,
        vec![file("file.pdf", "file.pdf", None, &[]), text("pdfua", "false")]
    );
    let request = read_metadata(vec![9]);
    assert_eq!(request.endpoint, "forms/pdfengines/metadata/read");
    assert_eq!(request.trace, None);
    assert_eq!(request.parts, vec![file("file.pdf", "file.pdf", None, &[9])]);
}

#[test]
fn metadata_requests() {
    let request = write_metadata_text(vec![9], "{}".to_string());
    assert_eq!(request.endpoint, "forms/pdfengines/metadata/write");
    assert_eq!(request.trace, None);
    assert_eq!(
        request.parts,
        vec![file("file.pdf", "file.pdf", None, &[9]), text("metadata", "{}")]
    );
    let mut metadata = HashMap::new();
    metadata.insert("Title".to_string(), serde_json::Value::from("T"));
    let request = write_metadata(vec![9], &metadata).unwrap();
    assert_eq!(request.endpoint, "forms/pdfengines/metadata/write");
    assert_eq!(
        request.parts,
        vec![
            file("file.pdf", "file.pdf", None, &[9]),
            text("metadata", "{\"Title\":\"T\"}"),
        ]
    );
}
