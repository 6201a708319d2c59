//! The options of a conversion request, and the form fields that carry
//! them to the service.

use crate::cookie::Cookie;
use crate::error::{Error, ErrorView};
use crate::form::{
    bool_field, cookies_field, delay_field, dimension_field, html_field, image_format_field,
    is_render_error, magnitude_field, media_type_field, opt_text, page_range_field, parts_view,
    pdf_format_field, push_bool, push_cookies, push_delay, push_dimension, push_html,
    push_image_format, push_magnitude, push_media_type, push_page_range, push_pdf_format,
    push_text, push_u32, push_u8, render_http_headers, render_metadata, render_status_codes,
    text_field, u32_field, u8_field, FormPart, FormPartView,
};
use crate::formats::{ImageFormat, MediaType, PDFFormat};
use crate::json::number_array_text;
use crate::page_range::PageRange;
use crate::paper_format::{LinearDimention, Magnitude, PaperFormat};
use std::collections::HashMap;
use vstd::prelude::*;

verus! {

/// The JSON texts of the structured options of a request: each is present
/// where the option is set.
#[derive(Debug, Clone)]
pub struct RenderedOptions {
    /// The extra HTTP headers, as a JSON object.
    pub extra_http_headers: Option<String>,
    /// The metadata, as a JSON object.
    pub metadata: Option<String>,
    /// The status codes on which to fail, as a JSON array.
    pub fail_on_http_status_codes: Option<String>,
    /// The status codes of resources on which to fail, as a JSON array.
    pub fail_on_resource_http_status_codes: Option<String>,
}

impl Default for RenderedOptions {
    /// No text at all.
    fn default() -> (r: Self)
        ensures
            r.extra_http_headers is None,
            r.metadata is None,
            r.fail_on_http_status_codes is None,
            r.fail_on_resource_http_status_codes is None,
    {
        RenderedOptions {
            extra_http_headers: None,
            metadata: None,
            fail_on_http_status_codes: None,
            fail_on_resource_http_status_codes: None,
        }
    }
}

/// Whether `text` is the JSON array of `codes`, or both are absent.
pub open spec fn rendered_codes(codes: Option<Vec<u32>>, text: Option<String>) -> bool {
    match codes {
        Some(c) => text matches Some(t) && t@ == number_array_text(c@),
        None => text is None,
    }
}

/// Configuration for rendering PDF from web content using the Chromium
/// engine.
#[derive(Debug, Clone)]
pub struct WebOptions {
    /// The trace that the request carries in its `Gotenberg-Trace` header;
    /// the service assigns one where none is given.
    pub trace_id: Option<String>,
    /// Print the entire content on one single page. Default: false.
    pub single_page: Option<bool>,
    /// Paper width, with a unit as in 72pt, 96px, 1in, 25.4mm, 2.54cm or 6pc.
    /// Default: 8.5 inches.
    pub paper_width: Option<LinearDimention>,
    /// Paper height, with a unit as in 72pt, 96px, 1in, 25.4mm, 2.54cm or
    /// 6pc. Default: 11 inches.
    pub paper_height: Option<LinearDimention>,
    /// Top margin. Default: 0.39 inches.
    pub margin_top: Option<LinearDimention>,
    /// Bottom margin. Default: 0.39 inches.
    pub margin_bottom: Option<LinearDimention>,
    /// Left margin. Default: 0.39 inches.
    pub margin_left: Option<LinearDimention>,
    /// Right margin. Default: 0.39 inches.
    pub margin_right: Option<LinearDimention>,
    /// Prefer the page size that CSS defines. Default: false.
    pub prefer_css_page_size: Option<bool>,
    /// Embed the document outline into the PDF. Default: false.
    pub generate_document_outline: Option<bool>,
    /// Print the background graphics. Default: false.
    pub print_background: Option<bool>,
    /// Hide the default white background and allow transparency. Default:
    /// false.
    pub omit_background: Option<bool>,
    /// Set the page orientation to landscape. Default: false.
    pub landscape: Option<bool>,
    /// The scale of the page rendering. Default: 1.
    pub scale: Option<Magnitude>,
    /// Page ranges to print, e.g. `1-5, 8, 11-13`; empty means all pages.
    /// Default: all pages.
    pub native_page_ranges: Option<PageRange>,
    /// HTML content of the header. Elements of the classes `date`, `title`,
    /// `url`, `pageNumber` and `totalPages` are filled in when printing. No
    /// JavaScript, no external resources.
    pub header_html: Option<String>,
    /// HTML content of the footer, with the same classes and limits as the
    /// header.
    pub footer_html: Option<String>,
    /// How long to wait, in milliseconds, after the page has loaded and
    /// before it is converted.
    pub wait_delay: Option<u128>,
    /// A JavaScript expression; the page is converted once it evaluates to
    /// true.
    pub wait_for_expression: Option<String>,
    /// The media type to emulate, either "screen" or "print". Default:
    /// "print".
    pub emulated_media_type: Option<MediaType>,
    /// Cookies to store in the Chromium cookie jar.
    pub cookies: Option<Vec<Cookie>>,
    /// Do not wait for the Chromium network to be idle. Default: true.
    pub skip_network_idle_events: Option<bool>,
    /// Override the default User-Agent HTTP header.
    pub user_agent: Option<String>,
    /// Extra HTTP headers to send by Chromium.
    pub extra_http_headers: Option<HashMap<String, String>>,
    /// Convert the resulting PDF into the given PDF/A format.
    pub pdfa: Option<PDFFormat>,
    /// Enable PDF for Universal Access for optimal accessibility.
    pub pdfua: Option<bool>,
    /// Metadata to write into the PDF. Not every entry is writable, and
    /// writing metadata may break PDF/A compliance.
    pub metadata: Option<HashMap<String, serde_json::Value>>,
    /// Fail if the HTTP status code from the main page is one of these. An
    /// X99 entry stands for every code from X00 to X99. Default: `[499,599]`.
    pub fail_on_http_status_codes: Option<Vec<u32>>,
    /// Fail if the HTTP status code of a resource that the page loads is one
    /// of these. An X99 entry stands for every code from X00 to X99. Default:
    /// none.
    pub fail_on_resource_http_status_codes: Option<Vec<u32>>,
    /// Fail if Chromium fails to load at least one resource. Default: false.
    pub fail_on_resource_loading_failed: Option<bool>,
    /// Fail if there are exceptions in the Chromium console.
    pub fail_on_console_exceptions: Option<bool>,
}

impl WebOptions {
    /// The options with none of them set.
    pub open spec fn unset() -> Self {
        WebOptions {
            trace_id: None,
            single_page: None,
            paper_width: None,
            paper_height: None,
            margin_top: None,
            margin_bottom: None,
            margin_left: None,
            margin_right: None,
            prefer_css_page_size: None,
            generate_document_outline: None,
            print_background: None,
            omit_background: None,
            landscape: None,
            scale: None,
            native_page_ranges: None,
            header_html: None,
            footer_html: None,
            wait_delay: None,
            wait_for_expression: None,
            emulated_media_type: None,
            cookies: None,
            skip_network_idle_events: None,
            user_agent: None,
            extra_http_headers: None,
            pdfa: None,
            pdfua: None,
            metadata: None,
            fail_on_http_status_codes: None,
            fail_on_resource_http_status_codes: None,
            fail_on_resource_loading_failed: None,
            fail_on_console_exceptions: None,
        }
    }
}

impl Default for WebOptions {
    /// The options with none of them set.
    fn default() -> (r: Self)
        ensures
            r == Self::unset(),
    {
        WebOptions {
            trace_id: None,
            single_page: None,
            paper_width: None,
            paper_height: None,
            margin_top: None,
            margin_bottom: None,
            margin_left: None,
            margin_right: None,
            prefer_css_page_size: None,
            generate_document_outline: None,
            print_background: None,
            omit_background: None,
            landscape: None,
            scale: None,
            native_page_ranges: None,
            header_html: None,
            footer_html: None,
            wait_delay: None,
            wait_for_expression: None,
            emulated_media_type: None,
            cookies: None,
            skip_network_idle_events: None,
            user_agent: None,
            extra_http_headers: None,
            pdfa: None,
            pdfua: None,
            metadata: None,
            fail_on_http_status_codes: None,
            fail_on_resource_http_status_codes: None,
            fail_on_resource_loading_failed: None,
            fail_on_console_exceptions: None,
        }
    }
}

impl WebOptions {
    /// Sets the paper width and height to those of a named paper size.
    pub fn set_paper_format(&mut self, format: PaperFormat)
        ensures
            final(self).paper_width matches Some(w) && w@ == format.width_view(),
            final(self).paper_height matches Some(h) && h@ == format.height_view(),
            final(self).same_but_paper(*old(self)),
    {
        self.paper_width = Some(format.width());
        self.paper_height = Some(format.height());
    }

    /// Whether the options agree with `other` in everything but the paper
    /// width and height.
    pub open spec fn same_but_paper(&self, other: Self) -> bool {
        *self == (WebOptions {
            paper_width: self.paper_width,
            paper_height: self.paper_height,
            ..other
        })
    }
}

impl WebOptions {
    /// Whether `json` holds the JSON text of each structured option that
    /// is set, and nothing for the others. The text of a list of status
    /// codes is fixed; of the other texts only their presence is.
    pub open spec fn rendered_as(&self, json: RenderedOptions) -> bool {
        &&& json.extra_http_headers is Some <==> self.extra_http_headers is Some
        &&& json.metadata is Some <==> self.metadata is Some
        &&& rendered_codes(self.fail_on_http_status_codes, json.fail_on_http_status_codes)
        &&& rendered_codes(
                self.fail_on_resource_http_status_codes,
                json.fail_on_resource_http_status_codes,
            )
    }

    /// Whether no structured option is set, so that nothing is left to
    /// render.
    pub open spec fn is_plain(&self) -> bool {
        self.extra_http_headers is None
            && self.metadata is None
            && self.fail_on_http_status_codes is None
            && self.fail_on_resource_http_status_codes is None
    }

    /// Whether `e` reports that one of the structured options that are set
    /// could not be rendered.
    pub open spec fn is_render_failure(&self, e: ErrorView) -> bool {
        ||| self.extra_http_headers is Some && is_render_error(e, "ExtraHttpHeaders"@)
        ||| self.metadata is Some && is_render_error(e, "Metadata"@)
        ||| self.fail_on_http_status_codes is Some && is_render_error(e, "HttpStatusCodes"@)
        ||| self.fail_on_resource_http_status_codes is Some && is_render_error(
            e,
            "HttpStatusCodes"@,
        )
    }

    /// The form fields that carry the options, given the JSON texts of
    /// the structured ones: one field for each option that is set, in the
    /// order of the declaration. The trace is no field of the form.
    pub open spec fn form(&self, json: RenderedOptions) -> Seq<FormPartView> {
        bool_field("singlePage"@, self.single_page)
            + dimension_field("paperWidth"@, self.paper_width)
            + dimension_field("paperHeight"@, self.paper_height)
            + dimension_field("marginTop"@, self.margin_top)
            + dimension_field("marginBottom"@, self.margin_bottom)
            + dimension_field("marginLeft"@, self.margin_left)
            + dimension_field("marginRight"@, self.margin_right)
            + bool_field("preferCssPageSize"@, self.prefer_css_page_size)
            + bool_field("generateDocumentOutline"@, self.generate_document_outline)
            + bool_field("printBackground"@, self.print_background)
            + bool_field("omitBackground"@, self.omit_background)
            + bool_field("landscape"@, self.landscape)
            + magnitude_field("scale"@, self.scale)
            + page_range_field("nativePageRanges"@, self.native_page_ranges)
            + html_field("header.html"@, self.header_html)
            + html_field("footer.html"@, self.footer_html)
            + delay_field("waitDelay"@, self.wait_delay)
            + text_field("waitForExpression"@, opt_text(self.wait_for_expression))
            + media_type_field("emulatedMediaType"@, self.emulated_media_type)
            + cookies_field("cookies"@, self.cookies)
            + bool_field("skipNetworkIdleEvents"@, self.skip_network_idle_events)
            + text_field("userAgent"@, opt_text(self.user_agent))
            + text_field("extraHttpHeaders"@, opt_text(json.extra_http_headers))
            + pdf_format_field("pdfa"@, self.pdfa)
            + bool_field("pdfua"@, self.pdfua)
            + text_field("metadata"@, opt_text(json.metadata))
            + text_field("failOnHttpStatusCodes"@, opt_text(json.fail_on_http_status_codes))
            + text_field(
                  "failOnResourceHttpStatusCodes"@,
                  opt_text(json.fail_on_resource_http_status_codes),
              )
            + bool_field("failOnResourceLoadingFailed"@, self.fail_on_resource_loading_failed)
            + bool_field("failOnConsoleExceptions"@, self.fail_on_console_exceptions)
    }

    /// Renders the structured options as JSON text.
    ///
    /// Succeeds where no structured option is set. Fails only where one
    /// of those that are set cannot be rendered.
    pub fn render(&self) -> (r: Result<RenderedOptions, Error>)
        ensures
            match r {
                Ok(json) => self.rendered_as(json),
                Err(e) => self.is_render_failure(e@),
            },
            self.is_plain() ==> r is Ok,
    {
        let extra_http_headers = match &self.extra_http_headers {
            Some(value) => match render_http_headers(value) {
                Ok(text) => Some(text),
                Err(e) => {
                    return Err(e);
                },
            },
            None => None,
        };
        let metadata = match &self.metadata {
            Some(value) => match render_metadata(value) {
                Ok(text) => Some(text),
                Err(e) => {
                    return Err(e);
                },
            },
            None => None,
        };
        let fail_on_http_status_codes = match &self.fail_on_http_status_codes {
            Some(value) => match render_status_codes(value) {
                Ok(text) => Some(text),
                Err(e) => {
                    return Err(e);
                },
            },
            None => None,
        };
        let fail_on_resource_http_status_codes = match &self.fail_on_resource_http_status_codes {
            Some(value) => match render_status_codes(value) {
                Ok(text) => Some(text),
                Err(e) => {
                    return Err(e);
                },
            },
            None => None,
        };
        Ok(
            RenderedOptions {
                extra_http_headers,
                metadata,
                fail_on_http_status_codes,
                fail_on_resource_http_status_codes,
            },
        )
    }

    /// The form fields that carry the options, given the JSON texts of
    /// the structured ones.
    pub fn form_parts_with(self, json: RenderedOptions) -> (r: Vec<FormPart>)
        ensures
            parts_view(r@) == self.form(json),
    {
        let mut parts: Vec<FormPart> = Vec::new();
        assert(parts_view(parts@) =~= Seq::<FormPartView>::empty());
        push_bool(&mut parts, "singlePage", self.single_page);
        assert(parts_view(parts@) =~= bool_field("singlePage"@, self.single_page));
        push_dimension(&mut parts, "paperWidth", self.paper_width);
        push_dimension(&mut parts, "paperHeight", self.paper_height);
        push_dimension(&mut parts, "marginTop", self.margin_top);
        push_dimension(&mut parts, "marginBottom", self.margin_bottom);
        push_dimension(&mut parts, "marginLeft", self.margin_left);
        push_dimension(&mut parts, "marginRight", self.margin_right);
        push_bool(&mut parts, "preferCssPageSize", self.prefer_css_page_size);
        push_bool(&mut parts, "generateDocumentOutline", self.generate_document_outline);
        push_bool(&mut parts, "printBackground", self.print_background);
        push_bool(&mut parts, "omitBackground", self.omit_background);
        push_bool(&mut parts, "landscape", self.landscape);
        push_magnitude(&mut parts, "scale", self.scale);
        push_page_range(&mut parts, "nativePageRanges", self.native_page_ranges);
        push_html(&mut parts, "header.html", self.header_html);
        push_html(&mut parts, "footer.html", self.footer_html);
        push_delay(&mut parts, "waitDelay", self.wait_delay);
        push_text(&mut parts, "waitForExpression", self.wait_for_expression);
        push_media_type(&mut parts, "emulatedMediaType", self.emulated_media_type);
        push_cookies(&mut parts, "cookies", self.cookies);
        push_bool(&mut parts, "skipNetworkIdleEvents", self.skip_network_idle_events);
        push_text(&mut parts, "userAgent", self.user_agent);
        push_text(&mut parts, "extraHttpHeaders", json.extra_http_headers);
        push_pdf_format(&mut parts, "pdfa", self.pdfa);
        push_bool(&mut parts, "pdfua", self.pdfua);
        push_text(&mut parts, "metadata", json.metadata);
        push_text(&mut parts, "failOnHttpStatusCodes", json.fail_on_http_status_codes);
        push_text(
            &mut parts,
            "failOnResourceHttpStatusCodes",
            json.fail_on_resource_http_status_codes,
        );
        push_bool(&mut parts, "failOnResourceLoadingFailed", self.fail_on_resource_loading_failed);
        push_bool(&mut parts, "failOnConsoleExceptions", self.fail_on_console_exceptions);
        parts
    }

    /// The form fields that carry the options.
    ///
    /// Succeeds where no structured option is set. Fails only where one
    /// of those that are set cannot be rendered.
    pub fn form_parts(self) -> (r: Result<Vec<FormPart>, Error>)
        ensures
            match r {
                Ok(parts) => exists|json: RenderedOptions| #[trigger]
                    self.rendered_as(json) && parts_view(parts@) == self.form(json),
                Err(e) => self.is_render_failure(e@),
            },
            self.is_plain() ==> r is Ok,
    {
        match self.render() {
            Ok(json) => {
                let ghost rendered = json;
                let parts = self.form_parts_with(json);
                assert(self.rendered_as(rendered) && parts_view(parts@) == self.form(rendered));
                Ok(parts)
            },
            Err(e) => Err(e),
        }
    }
}

/// Options for taking a screenshot of a webpage.
#[derive(Debug, Clone)]
pub struct ScreenshotOptions {
    /// The trace that the request carries in its `Gotenberg-Trace` header;
    /// the service assigns one where none is given.
    pub trace_id: Option<String>,
    /// The device screen width in pixels. Default: 800.
    pub width: Option<u32>,
    /// The device screen height in pixels. Default: 600.
    pub height: Option<u32>,
    /// Clip the screenshot according to the device dimensions. Default:
    /// false.
    pub clip: Option<bool>,
    /// The image format, either "png", "jpeg" or "webp". Default: png.
    pub format: Option<ImageFormat>,
    /// The compression quality from 0 to 100; jpeg only. Default: 100.
    pub quality: Option<u8>,
    /// Hide the default white background and allow transparency. Default:
    /// false.
    pub omit_background: Option<bool>,
    /// Optimize image encoding for speed, not for resulting size. Default:
    /// false.
    pub optimize_for_speed: Option<bool>,
    /// How long to wait, in milliseconds, after the page has loaded and
    /// before it is converted.
    pub wait_delay: Option<u128>,
    /// A JavaScript expression; the page is converted once it evaluates to
    /// true.
    pub wait_for_expression: Option<String>,
    /// The media type to emulate, either "screen" or "print". Default:
    /// "print".
    pub emulated_media_type: Option<MediaType>,
    /// Cookies to store in the Chromium cookie jar.
    pub cookies: Option<Vec<Cookie>>,
    /// Do not wait for the Chromium network to be idle. Default: true.
    pub skip_network_idle_events: Option<bool>,
    /// Override the default User-Agent HTTP header.
    pub user_agent: Option<String>,
    /// Extra HTTP headers to send by Chromium.
    pub extra_http_headers: Option<HashMap<String, String>>,
    /// Fail if the HTTP status code from the main page is one of these. An
    /// X99 entry stands for every code from X00 to X99. Default: `[499,599]`.
    pub fail_on_http_status_codes: Option<Vec<u32>>,
    /// Fail if the HTTP status code of a resource that the page loads is one
    /// of these. An X99 entry stands for every code from X00 to X99. Default:
    /// none.
    pub fail_on_resource_http_status_codes: Option<Vec<u32>>,
    /// Fail if Chromium fails to load at least one resource. Default: false.
    pub fail_on_resource_loading_failed: Option<bool>,
    /// Fail if there are exceptions in the Chromium console.
    pub fail_on_console_exceptions: Option<bool>,
}

impl ScreenshotOptions {
    /// The options with none of them set.
    pub open spec fn unset() -> Self {
        ScreenshotOptions {
            trace_id: None,
            width: None,
            height: None,
            clip: None,
            format: None,
            quality: None,
            omit_background: None,
            optimize_for_speed: None,
            wait_delay: None,
            wait_for_expression: None,
            emulated_media_type: None,
            cookies: None,
            skip_network_idle_events: None,
            user_agent: None,
            extra_http_headers: None,
            fail_on_http_status_codes: None,
            fail_on_resource_http_status_codes: None,
            fail_on_resource_loading_failed: None,
            fail_on_console_exceptions: None,
        }
    }
}

impl Default for ScreenshotOptions {
    /// The options with none of them set.
    fn default() -> (r: Self)
        ensures
            r == Self::unset(),
    {
        ScreenshotOptions {
            trace_id: None,
            width: None,
            height: None,
            clip: None,
            format: None,
            quality: None,
            omit_background: None,
            optimize_for_speed: None,
            wait_delay: None,
            wait_for_expression: None,
            emulated_media_type: None,
            cookies: None,
            skip_network_idle_events: None,
            user_agent: None,
            extra_http_headers: None,
            fail_on_http_status_codes: None,
            fail_on_resource_http_status_codes: None,
            fail_on_resource_loading_failed: None,
            fail_on_console_exceptions: None,
        }
    }
}

impl ScreenshotOptions {
    /// Whether `json` holds the JSON text of each structured option that
    /// is set, and nothing for the others. The text of a list of status
    /// codes is fixed; of the other texts only their presence is.
    pub open spec fn rendered_as(&self, json: RenderedOptions) -> bool {
        &&& json.extra_http_headers is Some <==> self.extra_http_headers is Some
        &&& rendered_codes(self.fail_on_http_status_codes, json.fail_on_http_status_codes)
        &&& rendered_codes(
                self.fail_on_resource_http_status_codes,
                json.fail_on_resource_http_status_codes,
            )
        &&& json.metadata is None
    }

    /// Whether no structured option is set, so that nothing is left to
    /// render.
    pub open spec fn is_plain(&self) -> bool {
        self.extra_http_headers is None
            && self.fail_on_http_status_codes is None
            && self.fail_on_resource_http_status_codes is None
    }

    /// Whether `e` reports that one of the structured options that are set
    /// could not be rendered.
    pub open spec fn is_render_failure(&self, e: ErrorView) -> bool {
        ||| self.extra_http_headers is Some && is_render_error(e, "ExtraHttpHeaders"@)
        ||| self.fail_on_http_status_codes is Some && is_render_error(e, "HttpStatusCodes"@)
        ||| self.fail_on_resource_http_status_codes is Some && is_render_error(
            e,
            "HttpStatusCodes"@,
        )
    }

    /// The form fields that carry the options, given the JSON texts of
    /// the structured ones: one field for each option that is set, in the
    /// order of the declaration. The trace is no field of the form.
    pub open spec fn form(&self, json: RenderedOptions) -> Seq<FormPartView> {
        u32_field("width"@, self.width)
            + u32_field("height"@, self.height)
            + bool_field("clip"@, self.clip)
            + image_format_field("format"@, self.format)
            + u8_field("quality"@, self.quality)
            + bool_field("omitBackground"@, self.omit_background)
            + bool_field("optimizeForSpeed"@, self.optimize_for_speed)
            + delay_field("waitDelay"@, self.wait_delay)
            + text_field("waitForExpression"@, opt_text(self.wait_for_expression))
            + media_type_field("emulatedMediaType"@, self.emulated_media_type)
            + cookies_field("cookies"@, self.cookies)
            + bool_field("skipNetworkIdleEvents"@, self.skip_network_idle_events)
            + text_field("userAgent"@, opt_text(self.user_agent))
            + text_field("extraHttpHeaders"@, opt_text(json.extra_http_headers))
            + text_field("failOnHttpStatusCodes"@, opt_text(json.fail_on_http_status_codes))
            + text_field(
                  "failOnResourceHttpStatusCodes"@,
                  opt_text(json.fail_on_resource_http_status_codes),
              )
            + bool_field("failOnResourceLoadingFailed"@, self.fail_on_resource_loading_failed)
            + bool_field("failOnConsoleExceptions"@, self.fail_on_console_exceptions)
    }

    /// Renders the structured options as JSON text.
    ///
    /// Succeeds where no structured option is set. Fails only where one
    /// of those that are set cannot be rendered.
    pub fn render(&self) -> (r: Result<RenderedOptions, Error>)
        ensures
            match r {
                Ok(json) => self.rendered_as(json),
                Err(e) => self.is_render_failure(e@),
            },
            self.is_plain() ==> r is Ok,
    {
        let extra_http_headers = match &self.extra_http_headers {
            Some(value) => match render_http_headers(value) {
                Ok(text) => Some(text),
                Err(e) => {
                    return Err(e);
                },
            },
            None => None,
        };
        let fail_on_http_status_codes = match &self.fail_on_http_status_codes {
            Some(value) => match render_status_codes(value) {
                Ok(text) => Some(text),
                Err(e) => {
                    return Err(e);
                },
            },
            None => None,
        };
        let fail_on_resource_http_status_codes = match &self.fail_on_resource_http_status_codes {
            Some(value) => match render_status_codes(value) {
                Ok(text) => Some(text),
                Err(e) => {
                    return Err(e);
                },
            },
            None => None,
        };
        Ok(
            RenderedOptions {
                extra_http_headers,
                metadata: None,
                fail_on_http_status_codes,
                fail_on_resource_http_status_codes,
            },
        )
    }

    /// The form fields that carry the options, given the JSON texts of
    /// the structured ones.
    pub fn form_parts_with(self, json: RenderedOptions) -> (r: Vec<FormPart>)
        ensures
            parts_view(r@) == self.form(json),
    {
        let mut parts: Vec<FormPart> = Vec::new();
        assert(parts_view(parts@) =~= Seq::<FormPartView>::empty());
        push_u32(&mut parts, "width", self.width);
        assert(parts_view(parts@) =~= u32_field("width"@, self.width));
        push_u32(&mut parts, "height", self.height);
        push_bool(&mut parts, "clip", self.clip);
        push_image_format(&mut parts, "format", self.format);
        push_u8(&mut parts, "quality", self.quality);
        push_bool(&mut parts, "omitBackground", self.omit_background);
        push_bool(&mut parts, "optimizeForSpeed", self.optimize_for_speed);
        push_delay(&mut parts, "waitDelay", self.wait_delay);
        push_text(&mut parts, "waitForExpression", self.wait_for_expression);
        push_media_type(&mut parts, "emulatedMediaType", self.emulated_media_type);
        push_cookies(&mut parts, "cookies", self.cookies);
        push_bool(&mut parts, "skipNetworkIdleEvents", self.skip_network_idle_events);
        push_text(&mut parts, "userAgent", self.user_agent);
        push_text(&mut parts, "extraHttpHeaders", json.extra_http_headers);
        push_text(&mut parts, "failOnHttpStatusCodes", json.fail_on_http_status_codes);
        push_text(
            &mut parts,
            "failOnResourceHttpStatusCodes",
            json.fail_on_resource_http_status_codes,
        );
        push_bool(&mut parts, "failOnResourceLoadingFailed", self.fail_on_resource_loading_failed);
        push_bool(&mut parts, "failOnConsoleExceptions", self.fail_on_console_exceptions);
        parts
    }

    /// The form fields that carry the options.
    ///
    /// Succeeds where no structured option is set. Fails only where one
    /// of those that are set cannot be rendered.
    pub fn form_parts(self) -> (r: Result<Vec<FormPart>, Error>)
        ensures
            match r {
                Ok(parts) => exists|json: RenderedOptions| #[trigger]
                    self.rendered_as(json) && parts_view(parts@) == self.form(json),
                Err(e) => self.is_render_failure(e@),
            },
            self.is_plain() ==> r is Ok,
    {
        match self.render() {
            Ok(json) => {
                let ghost rendered = json;
                let parts = self.form_parts_with(json);
                assert(self.rendered_as(rendered) && parts_view(parts@) == self.form(rendered));
                Ok(parts)
            },
            Err(e) => Err(e),
        }
    }
}

/// Options for converting a document to a PDF using the LibreOffice engine.
#[derive(Debug, Clone)]
pub struct DocumentOptions {
    /// The trace that the request carries in its `Gotenberg-Trace` header;
    /// the service assigns one where none is given.
    pub trace_id: Option<String>,
    /// Set the password for opening the source file.
    pub password: Option<String>,
    /// Set the paper orientation to landscape. Default: false.
    pub landscape: Option<bool>,
    /// Page ranges to print, e.g. `1-4`; empty means all pages. Default: all
    /// pages.
    pub native_page_ranges: Option<PageRange>,
    /// Export form fields as widgets, rather than only their fixed print
    /// representation. Default: true.
    pub export_form_fields: Option<bool>,
    /// Allow several exported form fields to have the same field name.
    /// Default: false.
    pub allow_duplicate_field_names: Option<bool>,
    /// Export bookmarks to PDF. Default: true.
    pub export_bookmarks: Option<bool>,
    /// Export the bookmarks of the source file as named destinations.
    /// Default: false.
    pub export_bookmarks_to_pdf_destination: Option<bool>,
    /// Export the visual markings of placeholder fields only. Default: false.
    pub export_placeholders: Option<bool>,
    /// Export notes to PDF. Default: false.
    pub export_notes: Option<bool>,
    /// Export notes pages to PDF; Impress documents only. Default: false.
    pub export_notes_pages: Option<bool>,
    /// Where notes pages are exported, export only them. Default: false.
    pub export_only_notes_pages: Option<bool>,
    /// Export notes in the margin to PDF. Default: false.
    pub export_notes_in_margin: Option<bool>,
    /// Change links to `.od[tpgs]` documents so that they point to `.pdf`.
    /// Default: false.
    pub convert_ooo_target_to_pdf_target: Option<bool>,
    /// Export `file://` links relative to the source document. Default:
    /// false.
    pub export_links_relative_fsys: Option<bool>,
    /// Export, for Impress, slides that are not included in slide shows.
    /// Default: false.
    pub export_hidden_slides: Option<bool>,
    /// Suppress automatically inserted empty pages; Writer documents only.
    /// Default: false.
    pub skip_empty_pages: Option<bool>,
    /// Insert the source document into the PDF as a stream, for archiving.
    /// Default: false.
    pub add_original_document_as_stream: Option<bool>,
    /// Put every sheet, hidden ones too, on exactly one page. Default: false.
    pub single_page_sheets: Option<bool>,
    /// Export images with a lossless format rather than JPEG. Default: false.
    pub lossless_image_compression: Option<bool>,
    /// The quality of the JPG export, between 1 and 100. Default: 90.
    pub quality: Option<u8>,
    /// Reduce the resolution of each image to `max_image_resolution`.
    /// Default: false.
    pub reduce_image_resolution: Option<bool>,
    /// The resolution, in DPI, to which images are reduced: 75, 150, 300, 600
    /// or 1200. Default: 300.
    pub max_image_resolution: Option<u32>,
    /// Convert the resulting PDF into the given PDF/A format.
    pub pdfa: Option<PDFFormat>,
    /// Enable PDF for Universal Access for optimal accessibility.
    pub pdfua: Option<bool>,
}

impl DocumentOptions {
    /// The options with none of them set.
    pub open spec fn unset() -> Self {
        DocumentOptions {
            trace_id: None,
            password: None,
            landscape: None,
            native_page_ranges: None,
            export_form_fields: None,
            allow_duplicate_field_names: None,
            export_bookmarks: None,
            export_bookmarks_to_pdf_destination: None,
            export_placeholders: None,
            export_notes: None,
            export_notes_pages: None,
            export_only_notes_pages: None,
            export_notes_in_margin: None,
            convert_ooo_target_to_pdf_target: None,
            export_links_relative_fsys: None,
            export_hidden_slides: None,
            skip_empty_pages: None,
            add_original_document_as_stream: None,
            single_page_sheets: None,
            lossless_image_compression: None,
            quality: None,
            reduce_image_resolution: None,
            max_image_resolution: None,
            pdfa: None,
            pdfua: None,
        }
    }
}

impl Default for DocumentOptions {
    /// The options with none of them set.
    fn default() -> (r: Self)
        ensures
            r == Self::unset(),
    {
        DocumentOptions {
            trace_id: None,
            password: None,
            landscape: None,
            native_page_ranges: None,
            export_form_fields: None,
            allow_duplicate_field_names: None,
            export_bookmarks: None,
            export_bookmarks_to_pdf_destination: None,
            export_placeholders: None,
            export_notes: None,
            export_notes_pages: None,
            export_only_notes_pages: None,
            export_notes_in_margin: None,
            convert_ooo_target_to_pdf_target: None,
            export_links_relative_fsys: None,
            export_hidden_slides: None,
            skip_empty_pages: None,
            add_original_document_as_stream: None,
            single_page_sheets: None,
            lossless_image_compression: None,
            quality: None,
            reduce_image_resolution: None,
            max_image_resolution: None,
            pdfa: None,
            pdfua: None,
        }
    }
}

impl DocumentOptions {
    /// The form fields that carry the options: one text field for each
    /// option that is set, in the order of the declaration. The trace is
    /// no field of the form.
    pub open spec fn form(&self) -> Seq<FormPartView> {
        text_field("password"@, opt_text(self.password))
            + bool_field("landscape"@, self.landscape)
            + page_range_field("nativePageRanges"@, self.native_page_ranges)
            + bool_field("exportFormFields"@, self.export_form_fields)
            + bool_field("allowDuplicateFieldNames"@, self.allow_duplicate_field_names)
            + bool_field("exportBookmarks"@, self.export_bookmarks)
            + bool_field(
                  "exportBookmarksToPdfDestination"@,
                  self.export_bookmarks_to_pdf_destination,
              )
            + bool_field("exportPlaceholders"@, self.export_placeholders)
            + bool_field("exportNotes"@, self.export_notes)
            + bool_field("exportNotesPages"@, self.export_notes_pages)
            + bool_field("exportOnlyNotesPages"@, self.export_only_notes_pages)
            + bool_field("exportNotesInMargin"@, self.export_notes_in_margin)
            + bool_field("convertOooTargetToPdfTarget"@, self.convert_ooo_target_to_pdf_target)
            + bool_field("exportLinksRelativeFsys"@, self.export_links_relative_fsys)
            + bool_field("exportHiddenSlides"@, self.export_hidden_slides)
            + bool_field("skipEmptyPages"@, self.skip_empty_pages)
            + bool_field("addOriginalDocumentAsStream"@, self.add_original_document_as_stream)
            + bool_field("singlePageSheets"@, self.single_page_sheets)
            + bool_field("losslessImageCompression"@, self.lossless_image_compression)
            + u8_field("quality"@, self.quality)
            + bool_field("reduceImageResolution"@, self.reduce_image_resolution)
            + u32_field("maxImageResolution"@, self.max_image_resolution)
            + pdf_format_field("pdfa"@, self.pdfa)
            + bool_field("pdfua"@, self.pdfua)
    }

    /// The form fields that carry the options.
    pub fn form_parts(self) -> (r: Vec<FormPart>)
        ensures
            parts_view(r@) == self.form(),
    {
        let mut parts: Vec<FormPart> = Vec::new();
        assert(parts_view(parts@) =~= Seq::<FormPartView>::empty());
        push_text(&mut parts, "password", self.password);
        assert(parts_view(parts@) =~= text_field("password"@, opt_text(self.password)));
        push_bool(&mut parts, "landscape", self.landscape);
        push_page_range(&mut parts, "nativePageRanges", self.native_page_ranges);
        push_bool(&mut parts, "exportFormFields", self.export_form_fields);
        push_bool(&mut parts, "allowDuplicateFieldNames", self.allow_duplicate_field_names);
        push_bool(&mut parts, "exportBookmarks", self.export_bookmarks);
        push_bool(
            &mut parts,
            "exportBookmarksToPdfDestination",
            self.export_bookmarks_to_pdf_destination,
        );
        push_bool(&mut parts, "exportPlaceholders", self.export_placeholders);
        push_bool(&mut parts, "exportNotes", self.export_notes);
        push_bool(&mut parts, "exportNotesPages", self.export_notes_pages);
        push_bool(&mut parts, "exportOnlyNotesPages", self.export_only_notes_pages);
        push_bool(&mut parts, "exportNotesInMargin", self.export_notes_in_margin);
        push_bool(&mut parts, "convertOooTargetToPdfTarget", self.convert_ooo_target_to_pdf_target);
        push_bool(&mut parts, "exportLinksRelativeFsys", self.export_links_relative_fsys);
        push_bool(&mut parts, "exportHiddenSlides", self.export_hidden_slides);
        push_bool(&mut parts, "skipEmptyPages", self.skip_empty_pages);
        push_bool(&mut parts, "addOriginalDocumentAsStream", self.add_original_document_as_stream);
        push_bool(&mut parts, "singlePageSheets", self.single_page_sheets);
        push_bool(&mut parts, "losslessImageCompression", self.lossless_image_compression);
        push_u8(&mut parts, "quality", self.quality);
        push_bool(&mut parts, "reduceImageResolution", self.reduce_image_resolution);
        push_u32(&mut parts, "maxImageResolution", self.max_image_resolution);
        push_pdf_format(&mut parts, "pdfa", self.pdfa);
        push_bool(&mut parts, "pdfua", self.pdfua);
        parts
    }
}

} // verus!
