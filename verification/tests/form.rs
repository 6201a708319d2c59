use gotenberg_pdf::form::{
    render_http_headers, render_metadata, render_outcome, render_status_codes,
};
use gotenberg_pdf::{
    Cookie, DocumentOptions, FormPart, ImageFormat, MediaType, PDFFormat, PaperFormat,
    RenderedOptions, SameSite, ScreenshotOptions, Unit, WebOptions,
};
use std::collections::HashMap;

fn text(name: &str, value: &str) -> FormPart {
    FormPart::Text {
        name: name.to_string(),
        value: value.to_string(),
    }
}

fn html(name: &str, content: &str) -> FormPart {
    FormPart::File {
        name: name.to_string(),
        file_name: name.to_string(),
        mime: Some("text/html".to_string()),
        content: content.as_bytes().to_vec(),
    }
}

#[test]
fn status_codes_are_rendered_as_a_json_array() {
    assert_eq!(render_status_codes(&vec![499, 599]).unwrap(), "[499,599]");
    assert_eq!(render_status_codes(&vec![]).unwrap(), "[]");
    assert_eq!(render_status_codes(&vec![0]).unwrap(), "[0]");
    assert_eq!(
        render_status_codes(&vec![404, 404, u32::MAX]).unwrap(),
        "[404,404,4294967295]"
    );
}

#[test]
fn headers_are_rendered_as_a_json_object() {
    let mut headers = HashMap::new();
    assert_eq!(render_http_headers(&headers).unwrap(), "{}");
    headers.insert("X-Test".to_string(), "a \"b\"".to_string());
    assert_eq!(
        render_http_headers(&headers).unwrap(),
        "{\"X-Test\":\"a \\\"b\\\"\"}"
    );
    headers.insert("Accept".to_string(), "*/*".to_string());
    let rendered = render_http_headers(&headers).unwrap();
    let read: HashMap<String, String> = serde_json::from_str(&rendered).unwrap();
    assert_eq!(read, headers);
}

#[test]
fn metadata_is_rendered_as_a_json_object() {
    let mut metadata = HashMap::new();
    assert_eq!(render_metadata(&metadata).unwrap(), "{}");
    metadata.insert("Author".to_string(), serde_json::Value::from("Ada"));
    assert_eq!(render_metadata(&metadata).unwrap(), "{\"Author\":\"Ada\"}");
    metadata.insert("Copies".to_string(), serde_json::Value::from(3));
    metadata.insert("Draft".to_string(), serde_json::Value::from(true));
    let rendered = render_metadata(&metadata).unwrap();
    let read: HashMap<String, serde_json::Value> = serde_json::from_str(&rendered).unwrap();
    assert_eq!(read, metadata);
}

#[test]
fn options_that_are_not_set_give_no_field() {
    assert_eq!(DocumentOptions::default().form_parts(), vec![]);
    assert_eq!(WebOptions::default().form_parts().unwrap(), vec![]);
    assert_eq!(ScreenshotOptions::default().form_parts().unwrap(), vec![]);
    let with_trace = DocumentOptions {
        trace_id: Some("trace".to_string()),
        ..DocumentOptions::default()
    };
    assert_eq!(with_trace.form_parts(), vec![]);
}

#[test]
fn document_options_fields() {
    let options = DocumentOptions {
        trace_id: Some("trace".to_string()),
        password: Some("secret".to_string()),
        landscape: Some(true),
        native_page_ranges: Some("1-4".parse().unwrap()),
        export_form_fields: Some(false),
        allow_duplicate_field_names: Some(true),
        export_bookmarks: Some(false),
        export_bookmarks_to_pdf_destination: Some(true),
        export_placeholders: Some(false),
        export_notes: Some(true),
        export_notes_pages: Some(false),
        export_only_notes_pages: Some(true),
        export_notes_in_margin: Some(false),
        convert_ooo_target_to_pdf_target: Some(true),
        export_links_relative_fsys: Some(false),
        export_hidden_slides: Some(true),
        skip_empty_pages: Some(false),
        add_original_document_as_stream: Some(true),
        single_page_sheets: Some(false),
        lossless_image_compression: Some(true),
        quality: Some(90),
        reduce_image_resolution: Some(false),
        max_image_resolution: Some(1200),
        pdfa: Some(PDFFormat::A2b),
        pdfua: Some(true),
    };
    assert_eq!(
        options.form_parts(),
        vec![
            text("password", "secret"),
            text("landscape", "true"),
            text("nativePageRanges", "1-4"),
            text("exportFormFields", "false"),
            text("allowDuplicateFieldNames", "true"),
            text("exportBookmarks", "false"),
            text("exportBookmarksToPdfDestination", "true"),
            text("exportPlaceholders", "false"),
            text("exportNotes", "true"),
            text("exportNotesPages", "false"),
            text("exportOnlyNotesPages", "true"),
            text("exportNotesInMargin", "false"),
            text("convertOooTargetToPdfTarget", "true"),
            text("exportLinksRelativeFsys", "false"),
            text("exportHiddenSlides", "true"),
            text("skipEmptyPages", "false"),
            text("addOriginalDocumentAsStream", "true"),
            text("singlePageSheets", "false"),
            text("losslessImageCompression", "true"),
            text("quality", "90"),
            text("reduceImageResolution", "false"),
            text("maxImageResolution", "1200"),
            text("pdfa", "PDF/A-2b"),
            text("pdfua", "true"),
        ]
    );
}

#[test]
fn a_page_range_without_chunks_is_an_empty_field() {
    let options = DocumentOptions {
        native_page_ranges: Some("".parse().unwrap()),
        quality: Some(0),
        ..DocumentOptions::default()
    };
    assert_eq!(
        options.form_parts(),
        vec![text("nativePageRanges", ""), text("quality", "0")]
    );
}

fn cookies() -> Vec<Cookie> {
    vec![
        Cookie::new("a", "1", "example.com"),
        Cookie {
            name: "b".to_string(),
            value: "2".to_string(),
            domain: "example.org".to_string(),
            path: Some("/".to_string()),
            secure: Some(true),
            http_only: Some(false),
            same_site: Some(SameSite::Lax),
        },
    ]
}

#[test]
fn screenshot_options_fields() {
    let mut headers = HashMap::new();
    headers.insert("X-Test".to_string(), "1".to_string());
    let options = ScreenshotOptions {
        trace_id: Some("trace".to_string()),
        width: Some(1280),
        height: Some(720),
        clip: Some(true),
        format: Some(ImageFormat::Jpeg),
        quality: Some(80),
        omit_background: Some(false),
        optimize_for_speed: Some(true),
        wait_delay: Some(1500),
        wait_for_expression: Some("window.ready === true".to_string()),
        emulated_media_type: Some(MediaType::Screen),
        cookies: Some(cookies()),
        skip_network_idle_events: Some(false),
        user_agent: Some("agent/1.0".to_string()),
        extra_http_headers: Some(headers),
        fail_on_http_status_codes: Some(vec![499, 599]),
        fail_on_resource_http_status_codes: Some(vec![]),
        fail_on_resource_loading_failed: Some(true),
        fail_on_console_exceptions: Some(false),
    };
    assert_eq!(
        options.form_parts().unwrap(),
        vec![
            text("width", "1280"),
            text("height", "720"),
            text("clip", "true"),
            text("format", "jpeg"),
            text("quality", "80"),
            text("omitBackground", "false"),
            text("optimizeForSpeed", "true"),
            text("waitDelay", "1500ms"),
            text("waitForExpression", "window.ready === true"),
            text("emulatedMediaType", "screen"),
            FormPart::Cookies {
                name: "cookies".to_string(),
                cookies: cookies()
            },
            text("skipNetworkIdleEvents", "false"),
            text("userAgent", "agent/1.0"),
            text("extraHttpHeaders", "{\"X-Test\":\"1\"}"),
            text("failOnHttpStatusCodes", "[499,599]"),
            text("failOnResourceHttpStatusCodes", "[]"),
            text("failOnResourceLoadingFailed", "true"),
            text("failOnConsoleExceptions", "false"),
        ]
    );
}

fn all_web_options() -> WebOptions {
    let mut headers = HashMap::new();
    headers.insert("X-Test".to_string(), "1".to_string());
    let mut metadata = HashMap::new();
    metadata.insert("Author".to_string(), serde_json::Value::from("Ada"));
    WebOptions {
        trace_id: Some("trace".to_string()),
        single_page: Some(true),
        paper_width: Some("210mm".parse().unwrap()),
        paper_height: Some("29.7cm".parse().unwrap()),
        margin_top: Some("0.39".parse().unwrap()),
        margin_bottom: Some("1in".parse().unwrap()),
        margin_left: Some("72pt".parse().unwrap()),
        margin_right: Some("6pc".parse().unwrap()),
        prefer_css_page_size: Some(false),
        generate_document_outline: Some(true),
        print_background: Some(false),
        omit_background: Some(true),
        landscape: Some(false),
        scale: Some(gotenberg_pdf::parse_magnitude("1.5").unwrap()),
        native_page_ranges: Some("1-5, 8, 11-13".parse().unwrap()),
        header_html: Some("<p>head \u{e9}</p>".to_string()),
        footer_html: Some("<p>foot</p>".to_string()),
        wait_delay: Some(0),
        wait_for_expression: Some("true".to_string()),
        emulated_media_type: Some(MediaType::Print),
        cookies: Some(cookies()),
        skip_network_idle_events: Some(true),
        user_agent: Some("agent".to_string()),
        extra_http_headers: Some(headers),
        pdfa: Some(PDFFormat::A1b),
        pdfua: Some(false),
        metadata: Some(metadata),
        fail_on_http_status_codes: Some(vec![404]),
        fail_on_resource_http_status_codes: Some(vec![500, 503]),
        fail_on_resource_loading_failed: Some(false),
        fail_on_console_exceptions: Some(true),
    }
}

fn all_web_fields() -> Vec<FormPart> {
    vec![
        text("singlePage", "true"),
        text("paperWidth", "210mm"),
        text("paperHeight", "29.7cm"),
        text("marginTop", "0.39"),
        text("marginBottom", "1in"),
        text("marginLeft", "72pt"),
        text("marginRight", "6pc"),
        text("preferCssPageSize", "false"),
        text("generateDocumentOutline", "true"),
        text("printBackground", "false"),
        text("omitBackground", "true"),
        text("landscape", "false"),
        text("scale", "1.5"),
        text("nativePageRanges", "1-5,8,11-13"),
        html("header.html", "<p>head \u{e9}</p>"),
        html("footer.html", "<p>foot</p>"),
        text("waitDelay", "0ms"),
        text("waitForExpression", "true"),
        text("emulatedMediaType", "print"),
        FormPart::Cookies {
            name: "cookies".to_string(),
            cookies: cookies(),
        },
        text("skipNetworkIdleEvents", "true"),
        text("userAgent", "agent"),
        text("extraHttpHeaders", "{\"X-Test\":\"1\"}"),
        text("pdfa", "PDF/A-1b"),
        text("pdfua", "false"),
        text("metadata", "{\"Author\":\"Ada\"}"),
        text("failOnHttpStatusCodes", "[404]"),
        text("failOnResourceHttpStatusCodes", "[500,503]"),
        text("failOnResourceLoadingFailed", "false"),
        text("failOnConsoleExceptions", "true"),
    ]
}

#[test]
fn web_options_fields() {
    assert_eq!(all_web_options().form_parts().unwrap(), all_web_fields());
}

#[test]
fn web_options_render_their_structured_values() {
    let json = all_web_options().render().unwrap();
    assert_eq!(json.extra_http_headers.as_deref(), Some("{\"X-Test\":\"1\"}"));
    assert_eq!(json.metadata.as_deref(), Some("{\"Author\":\"Ada\"}"));
    assert_eq!(json.fail_on_http_status_codes.as_deref(), Some("[404]"));
    assert_eq!(
        json.fail_on_resource_http_status_codes.as_deref(),
        Some("[500,503]")
    );
    let json = WebOptions::default().render().unwrap();
    assert_eq!(json.extra_http_headers, None);
    assert_eq!(json.metadata, None);
    assert_eq!(json.fail_on_http_status_codes, None);
    assert_eq!(json.fail_on_resource_http_status_codes, None);
}

#[test]
fn structured_fields_carry_the_texts_that_are_handed_in() {
    let json = RenderedOptions {
        extra_http_headers: Some("H".to_string()),
        metadata: Some("M".to_string()),
        fail_on_http_status_codes: None,
        fail_on_resource_http_status_codes: Some("R".to_string()),
    };
    let options = WebOptions {
        landscape: Some(true),
        fail_on_http_status_codes: Some(vec![1]),
        ..WebOptions::default()
    };
    assert_eq!(
        options.form_parts_with(json.clone()),
        vec![
            text("landscape", "true"),
            text("extraHttpHeaders", "H"),
            text("metadata", "M"),
            text("failOnResourceHttpStatusCodes", "R"),
        ]
    );
    let options = ScreenshotOptions {
        clip: Some(false),
        ..ScreenshotOptions::default()
    };
    assert_eq!(
        options.form_parts_with(json),
        vec![
            text("clip", "false"),
            text("extraHttpHeaders", "H"),
            text("failOnResourceHttpStatusCodes", "R"),
        ]
    );
}

#[test]
fn a_paper_format_sets_width_and_height() {
    let mut options = WebOptions {
        landscape: Some(true),
        paper_width: Some("1mm".parse().unwrap()),
        ..WebOptions::default()
    };
    options.set_paper_format(PaperFormat::A4);
    assert_eq!(options.paper_width, Some(PaperFormat::A4.width()));
    assert_eq!(options.paper_height, Some(PaperFormat::A4.height()));
    assert_eq!(options.paper_width.as_ref().unwrap().unit(), Some(Unit::In));
    assert_eq!(
        options.form_parts().unwrap(),
        vec![
            text("paperWidth", "8.27in"),
            text("paperHeight", "11.7in"),
            text("landscape", "true"),
        ]
    );
}

#[test]
fn what_comes_back_from_rendering_is_handed_on() {
    assert_eq!(
        render_outcome("Metadata", Ok("{\"a\":1}".to_string())),
        Ok("{\"a\":1}".to_string())
    );
    assert_eq!(render_outcome("Metadata", Ok(String::new())), Ok(String::new()));
    let failure = serde_json::from_str::<u32>("x").unwrap_err();
    let message = failure.to_string();
    assert_eq!(
        render_outcome("ExtraHttpHeaders", Err(failure)),
        Err(gotenberg_pdf::Error::ParseError(
            "ExtraHttpHeaders".to_string(),
            String::new(),
            message
        ))
    );
}
