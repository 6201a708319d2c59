use gotenberg_pdf::{PageRange, PageRangeChunk};

#[test]
fn test_from_str() {
    "1".parse::<PageRangeChunk>().unwrap();
    "2-5".parse::<PageRangeChunk>().unwrap();
    assert!("10-7".parse::<PageRangeChunk>().is_err());
    assert!("abc".parse::<PageRangeChunk>().is_err());
}

#[test]
fn test_in_range() {
    let single = PageRangeChunk::SingleValue(3);
    assert!(single.in_range(3));
    assert!(!single.in_range(2));
    assert!(!single.in_range(4));

    let range = PageRangeChunk::StartEnd(2, 5);
    assert!(range.in_range(2));
    assert!(range.in_range(3));
    assert!(range.in_range(5));
    assert!(!range.in_range(1));
    assert!(!range.in_range(6));
}

#[test]
fn test_to_string() {
    assert_eq!(PageRangeChunk::SingleValue(3).to_string(), "3");
    assert_eq!(PageRangeChunk::StartEnd(1, 4).to_string(), "1-4");
}

#[test]
fn test_page_range_from_str() {
    let range: PageRange = "1, 3-5, 7".parse().unwrap();
    assert_eq!(
        range.chunks(),
        &vec![
            PageRangeChunk::SingleValue(1),
            PageRangeChunk::StartEnd(3, 5),
            PageRangeChunk::SingleValue(7)
        ]
    );

    let invalid: Result<PageRange, _> = "1,abc,5-".parse();
    assert!(invalid.is_err());
}

#[test]
fn test_page_range_to_string() {
    let range = PageRange::new(vec![
        PageRangeChunk::SingleValue(1),
        PageRangeChunk::StartEnd(3, 5),
        PageRangeChunk::SingleValue(7),
    ]);
    assert_eq!(range.to_string(), "1,3-5,7");
}

#[test]
fn test_page_range_in_range() {
    let range: PageRange = "1,3-5,7".parse().unwrap();
    assert!(range.in_range(3)); // Matches PageRangeChunk::StartEnd(3, 5)
    assert!(range.in_range(7)); // Matches PageRangeChunk::SingleValue(7)
    assert!(!range.in_range(6)); // No match
    assert!(!range.in_range(0)); // Out of bounds
}

#[test]
fn test_empty_page_range() {
    let range: PageRange = "".parse().unwrap();
    assert!(range.in_range(0)); // Empty range includes all pages
    assert!(range.in_range(1));
    assert!(range.in_range(2));

    assert_eq!(range.to_string(), "");
}

fn parse_error(kind: &str, subject: &str, reason: &str) -> gotenberg_pdf::Error {
    gotenberg_pdf::Error::ParseError(kind.to_string(), subject.to_string(), reason.to_string())
}

#[test]
fn chunk_membership_of_a_mixed_selection() {
    let range = gotenberg_pdf::parse_page_range("1,3-5,7").unwrap();
    assert!(range.in_range(1));
    assert!(range.in_range(3));
    assert!(range.in_range(4));
    assert!(range.in_range(5));
    assert!(!range.in_range(6));
    assert!(range.in_range(7));
    assert!(!range.in_range(0));
    assert!(!range.in_range(2));
    assert!(!range.in_range(8));
}

#[test]
fn empty_text_selects_every_page() {
    let range = gotenberg_pdf::parse_page_range("").unwrap();
    assert!(range.chunks().is_empty());
    assert!(range.in_range(0));
    assert!(range.in_range(1));
    assert!(range.in_range(999999));
    assert!(range.in_range(usize::MAX));
}

#[test]
fn selection_without_chunks_built_by_hand_selects_every_page() {
    let range = PageRange::new(vec![]);
    assert!(range.in_range(42));
    assert_eq!(range.to_string(), "");
}

#[test]
fn rejected_ranges() {
    assert_eq!(
        gotenberg_pdf::parse_page_range("10-7"),
        Err(parse_error(
            "PageRangeChunk",
            "10-7",
            "start cannot be greater than end"
        ))
    );
    assert_eq!(
        gotenberg_pdf::parse_page_range("abc"),
        Err(parse_error("PageRangeChunk", "abc", "Invalid integer: abc"))
    );
}

#[test]
fn a_range_may_start_where_it_ends() {
    assert_eq!(
        "4-4".parse::<PageRangeChunk>(),
        Ok(PageRangeChunk::StartEnd(4, 4))
    );
    assert!(PageRangeChunk::StartEnd(4, 4).in_range(4));
    assert!(!PageRangeChunk::StartEnd(4, 4).in_range(5));
}

#[test]
fn zero_is_a_page_number() {
    assert_eq!(
        "0".parse::<PageRangeChunk>(),
        Ok(PageRangeChunk::SingleValue(0))
    );
    assert_eq!(
        "0-0".parse::<PageRangeChunk>(),
        Ok(PageRangeChunk::StartEnd(0, 0))
    );
    assert_eq!(PageRangeChunk::SingleValue(0).to_string(), "0");
}

#[test]
fn white_space_around_chunks_and_dashes_is_ignored() {
    let range = gotenberg_pdf::parse_page_range(" 1 ,\t3 - 5 , 7\n").unwrap();
    assert_eq!(
        range.chunks(),
        &vec![
            PageRangeChunk::SingleValue(1),
            PageRangeChunk::StartEnd(3, 5),
            PageRangeChunk::SingleValue(7)
        ]
    );
    assert_eq!(range.to_string(), "1,3-5,7");
    assert_eq!(
        " 12 ".parse::<PageRangeChunk>(),
        Ok(PageRangeChunk::SingleValue(12))
    );
    assert_eq!(
        "\u{a0}2\u{2003}-\u{3000}9 ".parse::<PageRangeChunk>(),
        Ok(PageRangeChunk::StartEnd(2, 9))
    );
}

#[test]
fn white_space_inside_a_number_is_an_error() {
    assert_eq!(
        gotenberg_pdf::parse_page_range_chunk("1 2"),
        Err(parse_error("PageRangeChunk", "1 2", "Invalid integer: 1 2"))
    );
}

#[test]
fn numerals_may_have_a_plus_sign_and_leading_zeros() {
    assert_eq!(
        "+5".parse::<PageRangeChunk>(),
        Ok(PageRangeChunk::SingleValue(5))
    );
    assert_eq!(
        "007".parse::<PageRangeChunk>(),
        Ok(PageRangeChunk::SingleValue(7))
    );
    assert_eq!(
        "1-+5".parse::<PageRangeChunk>(),
        Ok(PageRangeChunk::StartEnd(1, 5))
    );
    assert!("+".parse::<PageRangeChunk>().is_err());
    assert!("++5".parse::<PageRangeChunk>().is_err());
}

#[test]
fn the_first_dash_parts_a_range() {
    assert_eq!(
        gotenberg_pdf::parse_page_range_chunk("1-2-3"),
        Err(parse_error("PageRangeChunk", "1-2-3", "Invalid integer: 2-3"))
    );
    assert_eq!(
        gotenberg_pdf::parse_page_range_chunk("-5"),
        Err(parse_error("PageRangeChunk", "-5", "Invalid integer: "))
    );
    assert_eq!(
        gotenberg_pdf::parse_page_range_chunk("5-"),
        Err(parse_error("PageRangeChunk", "5-", "Invalid integer: "))
    );
    assert_eq!(
        gotenberg_pdf::parse_page_range_chunk("a -5"),
        Err(parse_error("PageRangeChunk", "a -5", "Invalid integer: a "))
    );
}

#[test]
fn numbers_beyond_the_word_size_are_rejected() {
    let max = usize::MAX.to_string();
    assert_eq!(
        max.parse::<PageRangeChunk>(),
        Ok(PageRangeChunk::SingleValue(usize::MAX))
    );
    let beyond = format!("{}0", max);
    assert_eq!(
        gotenberg_pdf::parse_page_range_chunk(&beyond),
        Err(parse_error(
            "PageRangeChunk",
            &beyond,
            &format!("Invalid integer: {}", beyond)
        ))
    );
    assert!("340282366920938463463374607431768211456"
        .parse::<PageRangeChunk>()
        .is_err());
    let last_digit_too_much = format!("{}6", &max[..max.len() - 1]);
    assert!(last_digit_too_much.parse::<PageRangeChunk>().is_err());
}

#[test]
fn other_digits_than_ascii_are_rejected() {
    assert!("\u{0663}".parse::<PageRangeChunk>().is_err());
    assert!("1\u{ff10}".parse::<PageRangeChunk>().is_err());
}

#[test]
fn the_first_bad_chunk_from_the_left_is_reported() {
    assert_eq!(
        gotenberg_pdf::parse_page_range("1, x ,9-2"),
        Err(parse_error("PageRangeChunk", "x", "Invalid integer: x"))
    );
    assert_eq!(
        gotenberg_pdf::parse_page_range("1,9-2,x"),
        Err(parse_error(
            "PageRangeChunk",
            "9-2",
            "start cannot be greater than end"
        ))
    );
}

#[test]
fn empty_chunks_are_errors() {
    assert_eq!(
        gotenberg_pdf::parse_page_range("1,,2"),
        Err(parse_error("PageRangeChunk", "", "Invalid integer: "))
    );
    assert!(gotenberg_pdf::parse_page_range("1,").is_err());
    assert!(gotenberg_pdf::parse_page_range(",1").is_err());
    assert!(gotenberg_pdf::parse_page_range(",").is_err());
    assert!(gotenberg_pdf::parse_page_range(" ").is_err());
}

#[test]
fn written_selections_read_back() {
    let selections = vec![
        vec![],
        vec![PageRangeChunk::SingleValue(0)],
        vec![PageRangeChunk::StartEnd(2, 2)],
        vec![
            PageRangeChunk::SingleValue(10),
            PageRangeChunk::StartEnd(0, 100),
            PageRangeChunk::SingleValue(10),
            PageRangeChunk::StartEnd(7, usize::MAX),
        ],
    ];
    for chunks in selections {
        let range = PageRange::new(chunks.clone());
        let read: PageRange = range.to_string().parse().unwrap();
        assert_eq!(read, range);
        assert_eq!(read.chunks(), &chunks);
    }
}

#[test]
fn chunks_keep_the_order_of_the_text() {
    let range = gotenberg_pdf::parse_page_range("7,3-5,1").unwrap();
    assert_eq!(range.to_string(), "7,3-5,1");
    assert_eq!(
        PageRangeChunk::StartEnd(12, 345).to_string(),
        "12-345"
    );
    assert_eq!(
        PageRangeChunk::SingleValue(usize::MAX).to_string(),
        usize::MAX.to_string()
    );
}

#[test]
fn selections_are_built_from_valid_chunks_only() {
    let chunks = vec![
        PageRangeChunk::StartEnd(3, 5),
        PageRangeChunk::SingleValue(1),
        PageRangeChunk::StartEnd(9, 9),
    ];
    let range = PageRange::try_new(chunks.clone()).unwrap();
    assert_eq!(range.chunks(), &chunks);
    assert_eq!(range, PageRange::new(chunks));
    assert_eq!(PageRange::try_new(vec![]).unwrap().to_string(), "");
    assert_eq!(
        PageRange::try_new(vec![
            PageRangeChunk::SingleValue(1),
            PageRangeChunk::StartEnd(10, 7),
            PageRangeChunk::StartEnd(2, 1),
        ]),
        Err(parse_error(
            "PageRangeChunk",
            "10-7",
            "start cannot be greater than end"
        ))
    );
    assert_eq!(
        PageRange::try_new(vec![PageRangeChunk::StartEnd(1, 0)]),
        "1-0".parse::<PageRange>()
    );
}

#[test]
fn a_copy_of_a_selection_is_the_same_selection() {
    let range: PageRange = "2-3,9".parse().unwrap();
    let copy = range.clone();
    assert_eq!(copy, range);
    assert_eq!(copy.to_string(), "2-3,9");
}
