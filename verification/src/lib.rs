//! Typed values for a document-conversion service: page ranges, paper
//! dimensions, the options of a request, the form that carries them, and
//! the errors that all of these report.

pub mod cookie;
pub mod error;
pub mod form;
pub mod formats;
pub mod json;
pub mod options;
pub mod page_range;
pub mod paper_format;
pub mod request;
pub mod text;

pub use crate::cookie::{Cookie, CookieView, SameSite};
pub use crate::error::{Error, ErrorView};
pub use crate::form::{FormPart, FormPartView};
pub use crate::formats::{
    parse_image_format, parse_media_type, parse_pdf_format, ImageFormat, MediaType, PDFFormat,
};
pub use crate::options::{DocumentOptions, RenderedOptions, ScreenshotOptions, WebOptions};
pub use crate::page_range::{parse_page_range, parse_page_range_chunk, PageRange, PageRangeChunk};
pub use crate::paper_format::{
    parse_linear_dimension, parse_magnitude, parse_paper_format, LinearDimention,
    LinearDimentionView, Magnitude, MagnitudeView, PaperFormat, Unit,
};
pub use crate::request::Request;
