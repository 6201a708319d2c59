use gotenberg_pdf::{parse_magnitude, LinearDimention, Magnitude, PaperFormat, Unit};

fn magnitude(size: f64) -> Magnitude {
    parse_magnitude(&size.to_string()).unwrap()
}

#[test]
fn test_paper_size_from_str_valid() {
    assert_eq!(
        "11.7in".parse::<LinearDimention>().unwrap(),
        LinearDimention::new(magnitude(11.7), Unit::In)
    );
    assert_eq!(
        "33.1cm".parse::<LinearDimention>().unwrap(),
        LinearDimention::new(magnitude(33.1), Unit::Cm)
    );
    assert_eq!(
        "5.83in".parse::<LinearDimention>().unwrap(),
        LinearDimention::new(magnitude(5.83), Unit::In)
    );
    assert_eq!(
        "5in".parse::<LinearDimention>().unwrap(),
        LinearDimention::new(magnitude(5.0), Unit::In)
    );
}

#[test]
fn test_paper_size_from_str_invalid() {
    assert!("abc".parse::<LinearDimention>().is_err());
    assert!("11.7invalid".parse::<LinearDimention>().is_err());
}

#[test]
fn test_paper_size_to_string() {
    let size = LinearDimention::new(magnitude(11.7), Unit::In);
    assert_eq!(size.to_string(), "11.7in");

    let size = LinearDimention::new(magnitude(33.1), Unit::Cm);
    assert_eq!(size.to_string(), "33.1cm");
}

#[test]
fn test_paper_format_from_str_valid() {
    assert_eq!("A4".parse::<PaperFormat>().unwrap(), PaperFormat::A4);
    assert_eq!(
        "Ledger".parse::<PaperFormat>().unwrap(),
        PaperFormat::Ledger
    );
}

#[test]
fn test_paper_format_from_str_invalid() {
    assert!("Invalid".parse::<PaperFormat>().is_err());
    assert!("".parse::<PaperFormat>().is_err());
}

#[test]
fn test_paper_format_dimensions() {
    let a4 = PaperFormat::A4;
    assert_eq!(a4.height(), LinearDimention::new(magnitude(11.7), Unit::In));
    assert_eq!(a4.width(), LinearDimention::new(magnitude(8.27), Unit::In));
}

#[test]
fn test_paper_format_display() {
    assert_eq!(PaperFormat::A4.to_string(), "A4");
    assert_eq!(PaperFormat::Ledger.to_string(), "Ledger");
}

use gotenberg_pdf::{parse_linear_dimension, parse_paper_format, Error};

fn dimension_error(subject: &str, reason: &str) -> Error {
    Error::ParseError(
        "LinearDimention".to_string(),
        subject.to_string(),
        reason.to_string(),
    )
}

#[test]
fn unit_parse_table() {
    let d = parse_linear_dimension("11.7in").unwrap();
    assert_eq!(d.size().to_string(), "11.7");
    assert_eq!(d.unit(), Some(Unit::In));
    let d = parse_linear_dimension("33.1cm").unwrap();
    assert_eq!(d.size().to_string(), "33.1");
    assert_eq!(d.unit(), Some(Unit::Cm));
    let d = parse_linear_dimension("5in").unwrap();
    assert_eq!(d.size(), &magnitude(5.0));
    assert_eq!(d.unit(), Some(Unit::In));
    assert_eq!(
        parse_linear_dimension("11.7invalid"),
        Err(dimension_error("11.7invalid", "Invalid Unit"))
    );
    assert_eq!(
        parse_linear_dimension("abc"),
        Err(dimension_error(
            "abc",
            "cannot parse float from empty string"
        ))
    );
}

#[test]
fn every_unit_is_read_and_written() {
    let units = [
        ("mm", Unit::Mm),
        ("cm", Unit::Cm),
        ("in", Unit::In),
        ("px", Unit::Px),
        ("pt", Unit::Pt),
        ("pc", Unit::Pc),
    ];
    for (suffix, unit) in units {
        let text = format!("210{}", suffix);
        let d = parse_linear_dimension(&text).unwrap();
        assert_eq!(d.unit(), Some(unit));
        assert_eq!(d, LinearDimention::new(magnitude(210.0), unit));
        assert_eq!(d.to_string(), text);
        assert_eq!(unit.as_str(), suffix);
    }
}

#[test]
fn a_bare_magnitude_has_no_unit() {
    let d = parse_linear_dimension("8.5").unwrap();
    assert_eq!(d.unit(), None);
    assert_eq!(d.to_string(), "8.5");
    assert_ne!(d, parse_linear_dimension("8.5in").unwrap());
}

#[test]
fn units_are_not_converted() {
    assert_ne!(
        parse_linear_dimension("1in").unwrap(),
        parse_linear_dimension("2.54cm").unwrap()
    );
    assert_ne!(
        parse_linear_dimension("1in").unwrap(),
        parse_linear_dimension("1cm").unwrap()
    );
    assert_eq!(
        parse_linear_dimension("1in").unwrap(),
        parse_linear_dimension("1in").unwrap()
    );
}

#[test]
fn needless_zeros_do_not_tell_magnitudes_apart() {
    assert_eq!(
        parse_linear_dimension("5in").unwrap(),
        parse_linear_dimension("5.0in").unwrap()
    );
    assert_eq!(
        parse_linear_dimension("005.500in").unwrap(),
        parse_linear_dimension("5.5in").unwrap()
    );
    assert_eq!(parse_linear_dimension("5.in").unwrap().to_string(), "5in");
    assert_eq!(parse_linear_dimension(".5in").unwrap().to_string(), "0.5in");
    assert_eq!(parse_linear_dimension("0.50in").unwrap().to_string(), "0.5in");
    assert_eq!(parse_linear_dimension("000").unwrap().to_string(), "0");
    assert_eq!(parse_linear_dimension("0.0mm").unwrap().to_string(), "0mm");
    assert_eq!(parse_linear_dimension("100pt").unwrap().to_string(), "100pt");
    assert_eq!(parse_linear_dimension("10.01pt").unwrap().to_string(), "10.01pt");
}

#[test]
fn text_is_written_as_the_default_conversion_of_the_number_writes_it() {
    for size in [11.7, 33.1, 8.27, 5.83, 4.13, 16.54, 23.4, 46.8, 17.0, 8.5, 0.39, 0.0, 1200.0] {
        for unit in [Unit::Mm, Unit::In] {
            let d = LinearDimention::new(magnitude(size), unit);
            assert_eq!(d.to_string(), format!("{}{}", size, unit.as_str()));
            assert_eq!(d.to_string().parse::<LinearDimention>().unwrap(), d);
            let back: f64 = d.size().to_string().parse().unwrap();
            assert_eq!(back, size);
        }
    }
}

#[test]
fn magnitudes_without_a_digit_are_rejected() {
    assert_eq!(
        parse_linear_dimension(""),
        Err(dimension_error("", "cannot parse float from empty string"))
    );
    assert_eq!(
        parse_linear_dimension("in"),
        Err(dimension_error(
            "in",
            "cannot parse float from empty string"
        ))
    );
    assert_eq!(
        parse_linear_dimension("."),
        Err(dimension_error(".", "invalid float literal"))
    );
    assert_eq!(
        parse_linear_dimension(".mm"),
        Err(dimension_error(".mm", "invalid float literal"))
    );
}

#[test]
fn the_numeric_prefix_holds_at_most_one_point() {
    assert_eq!(
        parse_linear_dimension("1.2.3mm"),
        Err(dimension_error("1.2.3mm", "Invalid Unit"))
    );
    assert_eq!(
        parse_linear_dimension("1..mm"),
        Err(dimension_error("1..mm", "Invalid Unit"))
    );
}

#[test]
fn suffixes_that_are_no_unit_are_rejected() {
    for text in [
        "5 in", "5IN", "5m", "5mmm", "5in ", "5e3", "5in5", "5-", "5\u{b5}m", "5inch", "5%",
    ] {
        assert_eq!(
            parse_linear_dimension(text),
            Err(dimension_error(text, "Invalid Unit")),
            "{}",
            text
        );
    }
    assert!(parse_linear_dimension("-5in").is_err());
    assert!(parse_linear_dimension(" 5in").is_err());
    assert!(parse_linear_dimension("+5in").is_err());
}

#[test]
fn long_magnitudes_are_kept_digit_for_digit() {
    let text = "123456789012345678901234567890.000000000000000000012345pt";
    let d = parse_linear_dimension(text).unwrap();
    assert_eq!(d.to_string(), text);
    assert_ne!(
        parse_linear_dimension("0.1").unwrap(),
        parse_linear_dimension("0.10000000000000000001").unwrap()
    );
}

#[test]
fn magnitudes_read_whole_numerals_only() {
    assert_eq!(parse_magnitude("8.27").unwrap().to_string(), "8.27");
    assert_eq!(parse_magnitude("0017.0").unwrap().to_string(), "17");
    assert_eq!(parse_magnitude(".25").unwrap().to_string(), "0.25");
    assert!(parse_magnitude("").is_none());
    assert!(parse_magnitude(".").is_none());
    assert!(parse_magnitude("8.27in").is_none());
    assert!(parse_magnitude("1.2.3").is_none());
    assert!(parse_magnitude("-1").is_none());
    assert!(parse_magnitude("1e3").is_none());
    assert!(parse_magnitude("NaN").is_none());
    assert!(parse_magnitude("inf").is_none());
}

#[test]
fn magnitudes_from_hundredths() {
    assert_eq!(Magnitude::from_hundredths(827).to_string(), "8.27");
    assert_eq!(Magnitude::from_hundredths(1170).to_string(), "11.7");
    assert_eq!(Magnitude::from_hundredths(1700).to_string(), "17");
    assert_eq!(Magnitude::from_hundredths(5).to_string(), "0.05");
    assert_eq!(Magnitude::from_hundredths(50).to_string(), "0.5");
    assert_eq!(Magnitude::from_hundredths(0).to_string(), "0");
    assert_eq!(Magnitude::from_hundredths(100).to_string(), "1");
    assert_eq!(Magnitude::from_hundredths(1001).to_string(), "10.01");
    assert_eq!(
        Magnitude::from_hundredths(u64::MAX).to_string(),
        "184467440737095516.15"
    );
    assert_eq!(Magnitude::from_hundredths(1170), magnitude(11.7));
    assert_eq!(Magnitude::from_hundredths(1170).clone(), magnitude(11.70));
    assert_ne!(Magnitude::from_hundredths(1170), magnitude(1.17));
    assert_ne!(Magnitude::from_hundredths(1170), magnitude(117.0));
}

#[test]
fn preset_derivation() {
    assert_eq!(PaperFormat::A4.width().to_string(), "8.27in");
    assert_eq!(PaperFormat::A4.height().to_string(), "11.7in");
}

#[test]
fn paper_size_table() {
    let table = [
        (PaperFormat::A0, "33.1cm", "46.8cm"),
        (PaperFormat::A1, "23.4cm", "33.1cm"),
        (PaperFormat::A2, "16.54cm", "23.4cm"),
        (PaperFormat::A3, "11.7cm", "16.54cm"),
        (PaperFormat::A4, "8.27in", "11.7in"),
        (PaperFormat::A5, "5.83in", "8.27in"),
        (PaperFormat::A6, "4.13in", "5.83in"),
        (PaperFormat::Ledger, "17in", "11in"),
        (PaperFormat::Legal, "8.5in", "14in"),
        (PaperFormat::Letter, "8.5in", "11in"),
        (PaperFormat::Tabloid, "11in", "17in"),
    ];
    for (format, width, height) in table {
        assert_eq!(format.width().to_string(), width, "{:?}", format);
        assert_eq!(format.height().to_string(), height, "{:?}", format);
        assert_eq!(format.width(), width.parse::<LinearDimention>().unwrap());
        assert_eq!(format.height(), height.parse::<LinearDimention>().unwrap());
    }
    assert_eq!(
        PaperFormat::Ledger.width(),
        LinearDimention::new(magnitude(17.0), Unit::In)
    );
    assert_eq!(
        PaperFormat::A0.height(),
        LinearDimention::new(magnitude(46.8), Unit::Cm)
    );
}

#[test]
fn paper_format_names_read_back() {
    let names = [
        (PaperFormat::A0, "A0"),
        (PaperFormat::A1, "A1"),
        (PaperFormat::A2, "A2"),
        (PaperFormat::A3, "A3"),
        (PaperFormat::A4, "A4"),
        (PaperFormat::A5, "A5"),
        (PaperFormat::A6, "A6"),
        (PaperFormat::Ledger, "Ledger"),
        (PaperFormat::Legal, "Legal"),
        (PaperFormat::Letter, "Letter"),
        (PaperFormat::Tabloid, "Tabloid"),
    ];
    for (format, name) in names {
        assert_eq!(format.to_string(), name);
        assert_eq!(format.as_str(), name);
        assert_eq!(parse_paper_format(name), Ok(format));
        assert_eq!(parse_paper_format(&format.to_string()), Ok(format));
    }
}

#[test]
fn other_names_are_no_paper_format() {
    for name in ["Invalid", "", "a4", "A7", "A", "A44", " A4", "A4 ", "ledger", "LETTER", "Legall"] {
        assert_eq!(
            parse_paper_format(name),
            Err(Error::ParseError(
                "PaperFormat".to_string(),
                name.to_string(),
                "Invalid Paper Format".to_string()
            )),
            "{}",
            name
        );
    }
}
