//! The closed sets of names that the service understands for PDF
//! conformance levels, image formats and media types.

use crate::error::{Error, ErrorView};
use crate::text::{chars_are, to_chars};
use std::str::FromStr;
use vstd::prelude::*;

verus! {

/// Supported PDF binary formats.
#[derive(Debug, Clone, Copy, PartialEq, Eq, Structural)]
pub enum PDFFormat {
    /// PDF/A-1: (ISO 19005-1:2005)
    A1b,
    /// PDF/A-2: (ISO 19005-2:2011)
    A2b,
    /// PDF/A-3 (ISO 19005-3:2012)
    A3b,
}

impl PDFFormat {
    /// The name under which the service knows the format.
    pub open spec fn name(self) -> Seq<char> {
        match self {
            PDFFormat::A1b => "PDF/A-1b"@,
            PDFFormat::A2b => "PDF/A-2b"@,
            PDFFormat::A3b => "PDF/A-3b"@,
        }
    }

    /// The name under which the service knows the format.
    pub fn as_str(&self) -> (r: &'static str)
        ensures
            r@ == self.name(),
    {
        match self {
            PDFFormat::A1b => "PDF/A-1b",
            PDFFormat::A2b => "PDF/A-2b",
            PDFFormat::A3b => "PDF/A-3b",
        }
    }

    /// The name under which the service knows the format.
    pub fn to_string(&self) -> (r: String)
        ensures
            r@ == self.name(),
    {
        self.as_str().to_owned()
    }
}

/// The PDF format that a text names, letter for letter.
pub open spec fn pdf_format_of_text(s: Seq<char>) -> Option<PDFFormat> {
    if s == PDFFormat::A1b.name() {
        Some(PDFFormat::A1b)
    } else if s == PDFFormat::A2b.name() {
        Some(PDFFormat::A2b)
    } else if s == PDFFormat::A3b.name() {
        Some(PDFFormat::A3b)
    } else {
        None
    }
}

/// Reads the name of a PDF format.
///
/// Fails, for any text that is not one of the three names, with a parse
/// error that carries the text.
pub fn parse_pdf_format(text: &str) -> (r: Result<PDFFormat, Error>)
    ensures
        match r {
            Ok(format) => pdf_format_of_text(text@) == Some(format),
            Err(e) => pdf_format_of_text(text@) is None && e@ == ErrorView::ParseError(
                "PDFFormat"@,
                text@,
                "Invalid PDF format"@,
            ),
        },
{
    let chars = to_chars(text);
    if chars_are(&chars, "PDF/A-1b") {
        Ok(PDFFormat::A1b)
    } else if chars_are(&chars, "PDF/A-2b") {
        Ok(PDFFormat::A2b)
    } else if chars_are(&chars, "PDF/A-3b") {
        Ok(PDFFormat::A3b)
    } else {
        Err(Error::parse_error("PDFFormat", text, "Invalid PDF format".to_owned()))
    }
}

impl FromStr for PDFFormat {
    type Err = Error;

    fn from_str(s: &str) -> (r: Result<Self, Error>)
        ensures
            match r {
                Ok(format) => pdf_format_of_text(s@) == Some(format),
                Err(e) => pdf_format_of_text(s@) is None && e@ == ErrorView::ParseError(
                    "PDFFormat"@,
                    s@,
                    "Invalid PDF format"@,
                ),
            },
    {
        parse_pdf_format(s)
    }
}

/// Image format to use when taking a screenshot.
#[derive(Debug, Clone, Copy, PartialEq, Eq, Structural)]
pub enum ImageFormat {
    /// Portable Network Graphics (PNG)
    Png,
    /// JPEG Image, best for photographs.
    Jpeg,
    /// WebP Image, best quality and compression, but not as widely supported.
    Webp,
}

impl ImageFormat {
    /// The name under which the service knows the format.
    pub open spec fn name(self) -> Seq<char> {
        match self {
            ImageFormat::Png => "png"@,
            ImageFormat::Jpeg => "jpeg"@,
            ImageFormat::Webp => "webp"@,
        }
    }

    /// The name under which the service knows the format.
    pub fn as_str(&self) -> (r: &'static str)
        ensures
            r@ == self.name(),
    {
        match self {
            ImageFormat::Png => "png",
            ImageFormat::Jpeg => "jpeg",
            ImageFormat::Webp => "webp",
        }
    }

    /// The name under which the service knows the format.
    pub fn to_string(&self) -> (r: String)
        ensures
            r@ == self.name(),
    {
        self.as_str().to_owned()
    }
}

/// The image format that a text names, letter for letter.
pub open spec fn image_format_of_text(s: Seq<char>) -> Option<ImageFormat> {
    if s == ImageFormat::Png.name() {
        Some(ImageFormat::Png)
    } else if s == ImageFormat::Jpeg.name() {
        Some(ImageFormat::Jpeg)
    } else if s == ImageFormat::Webp.name() {
        Some(ImageFormat::Webp)
    } else {
        None
    }
}

/// Reads the name of an image format.
///
/// Fails, for any text that is not one of the three names, with a parse
/// error that carries the text.
pub fn parse_image_format(text: &str) -> (r: Result<ImageFormat, Error>)
    ensures
        match r {
            Ok(format) => image_format_of_text(text@) == Some(format),
            Err(e) => image_format_of_text(text@) is None && e@ == ErrorView::ParseError(
                "ImageFormat"@,
                text@,
                "Invalid image format"@,
            ),
        },
{
    let chars = to_chars(text);
    if chars_are(&chars, "png") {
        Ok(ImageFormat::Png)
    } else if chars_are(&chars, "jpeg") {
        Ok(ImageFormat::Jpeg)
    } else if chars_are(&chars, "webp") {
        Ok(ImageFormat::Webp)
    } else {
        Err(Error::parse_error("ImageFormat", text, "Invalid image format".to_owned()))
    }
}

impl FromStr for ImageFormat {
    type Err = Error;

    fn from_str(s: &str) -> (r: Result<Self, Error>)
        ensures
            match r {
                Ok(format) => image_format_of_text(s@) == Some(format),
                Err(e) => image_format_of_text(s@) is None && e@ == ErrorView::ParseError(
                    "ImageFormat"@,
                    s@,
                    "Invalid image format"@,
                ),
            },
    {
        parse_image_format(s)
    }
}

/// Media type, either "print" or "screen".
#[derive(Debug, Clone, Copy, PartialEq, Eq, Structural)]
pub enum MediaType {
    /// Screen media type.
    Screen,
    /// Print media type.
    Print,
}

impl MediaType {
    /// The name under which the service knows the media type.
    pub open spec fn name(self) -> Seq<char> {
        match self {
            MediaType::Screen => "screen"@,
            MediaType::Print => "print"@,
        }
    }

    /// The name under which the service knows the media type.
    pub fn as_str(&self) -> (r: &'static str)
        ensures
            r@ == self.name(),
    {
        match self {
            MediaType::Screen => "screen",
            MediaType::Print => "print",
        }
    }

    /// The name under which the service knows the media type.
    pub fn to_string(&self) -> (r: String)
        ensures
            r@ == self.name(),
    {
        self.as_str().to_owned()
    }
}

/// The media type that a text names, letter for letter.
pub open spec fn media_type_of_text(s: Seq<char>) -> Option<MediaType> {
    if s == MediaType::Screen.name() {
        Some(MediaType::Screen)
    } else if s == MediaType::Print.name() {
        Some(MediaType::Print)
    } else {
        None
    }
}

/// Reads the name of a media type.
///
/// Fails, for any text that is not one of the two names, with a parse
/// error that carries the text.
pub fn parse_media_type(text: &str) -> (r: Result<MediaType, Error>)
    ensures
        match r {
            Ok(media) => media_type_of_text(text@) == Some(media),
            Err(e) => media_type_of_text(text@) is None && e@ == ErrorView::ParseError(
                "MediaType"@,
                text@,
                "Invalid media type"@,
            ),
        },
{
    let chars = to_chars(text);
    if chars_are(&chars, "screen") {
        Ok(MediaType::Screen)
    } else if chars_are(&chars, "print") {
        Ok(MediaType::Print)
    } else {
        Err(Error::parse_error("MediaType", text, "Invalid media type".to_owned()))
    }
}

impl FromStr for MediaType {
    type Err = Error;

    fn from_str(s: &str) -> (r: Result<Self, Error>)
        ensures
            match r {
                Ok(media) => media_type_of_text(s@) == Some(media),
                Err(e) => media_type_of_text(s@) is None && e@ == ErrorView::ParseError(
                    "MediaType"@,
                    s@,
                    "Invalid media type"@,
                ),
            },
    {
        parse_media_type(s)
    }
}

/// Each name of a PDF format, an image format or a media type reads back
/// as the value it names.
pub proof fn lemma_format_names_round_trip(pdf: PDFFormat, image: ImageFormat, media: MediaType)
    ensures
        pdf_format_of_text(pdf.name()) == Some(pdf),
        image_format_of_text(image.name()) == Some(image),
        media_type_of_text(media.name()) == Some(media),
{
    reveal_strlit("PDF/A-1b");
    reveal_strlit("PDF/A-2b");
    reveal_strlit("PDF/A-3b");
    reveal_strlit("png");
    reveal_strlit("jpeg");
    reveal_strlit("webp");
    reveal_strlit("screen");
    reveal_strlit("print");
    assert("PDF/A-1b"@[6] == '1' && "PDF/A-2b"@[6] == '2' && "PDF/A-3b"@[6] == '3');
    assert("png"@.len() == 3 && "jpeg"@[0] == 'j' && "webp"@[0] == 'w');
    assert("screen"@.len() == 6 && "print"@.len() == 5);
}

} // verus!
