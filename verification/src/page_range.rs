//! Page selections such as `1,3-5,7`: reading them, writing them, and
//! asking whether a page is selected.

use crate::error::{Error, ErrorView};
use crate::text::{
    append_decimal, decimal_string, decimal_text, find_char, first_index, has_char, is_digit,
    is_whitespace, join, lemma_decimal_text, lemma_first_index, lemma_split_join,
    lemma_trim_is_identity, parse_usize, split, to_chars, trim, trim_bounds, usize_of_text,
};
use std::str::FromStr;
use vstd::prelude::*;

verus! {

/// One comma-separated unit of a page selection.
#[derive(Debug, PartialEq, Eq, Clone, Copy, Structural)]
pub enum PageRangeChunk {
    /// A single page number.
    SingleValue(usize),
    /// The pages from the first number to the second, both included.
    StartEnd(usize, usize),
}

impl PageRangeChunk {
    /// Whether the chunk selects `page`.
    pub open spec fn selects(self, page: int) -> bool {
        match self {
            PageRangeChunk::SingleValue(value) => page == value,
            PageRangeChunk::StartEnd(start, end) => start <= page <= end,
        }
    }

    /// Whether the chunk is one that parsing can yield: a range does not
    /// start after its end.
    pub open spec fn is_valid(self) -> bool {
        match self {
            PageRangeChunk::SingleValue(_) => true,
            PageRangeChunk::StartEnd(start, end) => start <= end,
        }
    }

    /// The canonical text of the chunk: `N`, or `S-E`.
    pub open spec fn text(self) -> Seq<char> {
        match self {
            PageRangeChunk::SingleValue(value) => decimal_text(value as nat),
            PageRangeChunk::StartEnd(start, end) => decimal_text(start as nat) + seq!['-']
                + decimal_text(end as nat),
        }
    }

    /// Whether the chunk selects `number`.
    pub fn in_range(&self, number: usize) -> (r: bool)
        ensures
            r == self.selects(number as int),
    {
        match self {
            PageRangeChunk::SingleValue(value) => *value == number,
            PageRangeChunk::StartEnd(start, end) => *start <= number && number <= *end,
        }
    }

    /// The canonical text of the chunk. The text of a valid chunk reads
    /// back as the chunk.
    pub fn to_string(&self) -> (r: String)
        ensures
            r@ == self.text(),
            self.is_valid() ==> chunk_of_text(r@) == Ok::<PageRangeChunk, Seq<char>>(*self),
    {
        proof {
            if self.is_valid() {
                lemma_chunk_round_trip(*self);
            }
        }
        match self {
            PageRangeChunk::SingleValue(value) => decimal_string(*value as u128),
            PageRangeChunk::StartEnd(start, end) => {
                let mut r = decimal_string(*start as u128);
                proof {
                    reveal_strlit("-");
                }
                r.append("-");
                append_decimal(&mut r, *end as u128);
                assert(r@ =~= self.text());
                r
            },
        }
    }
}

/// The reason given for a token that is no unsigned numeral.
pub open spec fn invalid_integer(token: Seq<char>) -> Seq<char> {
    "Invalid integer: "@ + token
}

/// What a text means as a chunk, or the reason why it means none.
///
/// The text is trimmed. With a `-` in it, the parts before and after the
/// first `-` are trimmed and read as the two ends of a range, which must
/// not start after its end; without one, the whole is read as a single page.
pub open spec fn chunk_of_text(s: Seq<char>) -> Result<PageRangeChunk, Seq<char>> {
    let t = trim(s);
    let dash = first_index(t, '-');
    if 0 <= dash < t.len() {
        let start = t.take(dash);
        let end = t.skip(dash + 1);
        match usize_of_text(trim(start)) {
            None => Err(invalid_integer(start)),
            Some(a) => match usize_of_text(trim(end)) {
                None => Err(invalid_integer(end)),
                Some(b) => if a > b {
                    Err("start cannot be greater than end"@)
                } else {
                    Ok(PageRangeChunk::StartEnd(a, b))
                },
            },
        }
    } else {
        match usize_of_text(t) {
            Some(value) => Ok(PageRangeChunk::SingleValue(value)),
            None => Err(invalid_integer(s)),
        }
    }
}

/// The outcome of reading `s` as a chunk: the chunk, or a parse error that
/// names the text and the reason.
pub open spec fn chunk_outcome(s: Seq<char>) -> Result<PageRangeChunk, ErrorView> {
    match chunk_of_text(s) {
        Ok(chunk) => Ok(chunk),
        Err(reason) => Err(ErrorView::ParseError("PageRangeChunk"@, s, reason)),
    }
}

/// Whether an executable outcome is the one that the model gives.
pub open spec fn chunk_outcome_is(
    r: Result<PageRangeChunk, Error>,
    model: Result<PageRangeChunk, ErrorView>,
) -> bool {
    match r {
        Ok(chunk) => model == Ok::<PageRangeChunk, ErrorView>(chunk),
        Err(e) => model == Err::<PageRangeChunk, ErrorView>(e@),
    }
}

/// The reason text for a token that is no unsigned numeral.
fn invalid_integer_reason(token: &str) -> (r: String)
    ensures
        r@ == invalid_integer(token@),
{
    let mut r = "Invalid integer: ".to_owned();
    r.append(token);
    r
}

/// Reads `text[from..to]` as a chunk; `chars` holds the characters of
/// `text`.
fn parse_chunk_between(text: &str, chars: &Vec<char>, from: usize, to: usize) -> (r: Result<
    PageRangeChunk,
    Error,
>)
    requires
        chars@ == text@,
        from <= to <= chars.len(),
    ensures
        chunk_outcome_is(r, chunk_outcome(chars@.subrange(from as int, to as int))),
{
    let ghost s = chars@.subrange(from as int, to as int);
    let (a, b) = trim_bounds(chars, from, to);
    let ghost t = chars@.subrange(a as int, b as int);
    let dash = find_char(chars, a, b, '-');
    if dash < b {
        let ghost start = t.take(dash - a);
        let ghost end = t.skip(dash - a + 1);
        assert(start =~= chars@.subrange(a as int, dash as int));
        assert(end =~= chars@.subrange(dash + 1, b as int));
        let (sa, sb) = trim_bounds(chars, a, dash);
        let low = match parse_usize(chars, sa, sb) {
            Some(low) => low,
            None => {
                let token = text.substring_char(a, dash);
                return Err(
                    Error::parse_error(
                        "PageRangeChunk",
                        text.substring_char(from, to),
                        invalid_integer_reason(token),
                    ),
                );
            },
        };
        let (ea, eb) = trim_bounds(chars, dash + 1, b);
        let high = match parse_usize(chars, ea, eb) {
            Some(high) => high,
            None => {
                let token = text.substring_char(dash + 1, b);
                return Err(
                    Error::parse_error(
                        "PageRangeChunk",
                        text.substring_char(from, to),
                        invalid_integer_reason(token),
                    ),
                );
            },
        };
        if low > high {
            Err(
                Error::parse_error(
                    "PageRangeChunk",
                    text.substring_char(from, to),
                    "start cannot be greater than end".to_owned(),
                ),
            )
        } else {
            Ok(PageRangeChunk::StartEnd(low, high))
        }
    } else {
        match parse_usize(chars, a, b) {
            Some(value) => Ok(PageRangeChunk::SingleValue(value)),
            None => {
                let token = text.substring_char(from, to);
                Err(
                    Error::parse_error(
                        "PageRangeChunk",
                        text.substring_char(from, to),
                        invalid_integer_reason(token),
                    ),
                )
            },
        }
    }
}

/// Reads a chunk: a single page `N`, or a range `S-E` with `S` not above
/// `E`. White space around the chunk and around the `-` is ignored. A
/// number is written in decimal digits, which a `+` may precede, and must
/// fit the machine word.
///
/// Fails with a parse error that carries the text as given and the reason.
pub fn parse_page_range_chunk(text: &str) -> (r: Result<PageRangeChunk, Error>)
    ensures
        chunk_outcome_is(r, chunk_outcome(text@)),
        r matches Ok(chunk) ==> chunk.is_valid(),
{
    let chars = to_chars(text);
    assert(chars@.subrange(0, chars@.len() as int) =~= text@);
    parse_chunk_between(text, &chars, 0, chars.len())
}

impl FromStr for PageRangeChunk {
    type Err = Error;

    fn from_str(s: &str) -> (r: Result<Self, Error>)
        ensures
            chunk_outcome_is(r, chunk_outcome(s@)),
            r matches Ok(chunk) ==> chunk.is_valid(),
    {
        parse_page_range_chunk(s)
    }
}

/// A selection of pages: valid chunks in the order in which they were
/// written. A selection without chunks selects every page.
#[derive(Debug, PartialEq, Eq)]
pub struct PageRange {
    chunks: Vec<PageRangeChunk>,
}

impl View for PageRange {
    type V = Seq<PageRangeChunk>;

    closed spec fn view(&self) -> Seq<PageRangeChunk> {
        self.chunks@
    }
}

/// Whether the chunks select `page`: no chunks select every page, otherwise
/// some chunk must select it.
pub open spec fn selects(chunks: Seq<PageRangeChunk>, page: int) -> bool {
    chunks.len() == 0 || exists|i: int|
        0 <= i < chunks.len() && (#[trigger] chunks[i]).selects(page)
}

/// Whether every chunk is valid.
pub open spec fn all_valid(chunks: Seq<PageRangeChunk>) -> bool {
    forall|i: int| 0 <= i < chunks.len() ==> (#[trigger] chunks[i]).is_valid()
}

/// The canonical text of a selection: the texts of its chunks with commas
/// between them.
pub open spec fn page_range_text(chunks: Seq<PageRangeChunk>) -> Seq<char> {
    join(chunks.map_values(|c: PageRangeChunk| c.text()), ',')
}

/// The outcome of reading the pieces of a selection from left to right:
/// all their chunks, or the error of the first piece that is no chunk.
pub open spec fn chunks_of_parts(parts: Seq<Seq<char>>) -> Result<Seq<PageRangeChunk>, ErrorView>
    decreases parts.len(),
{
    if parts.len() == 0 {
        Ok(Seq::empty())
    } else {
        match chunk_outcome(trim(parts[0])) {
            Err(e) => Err(e),
            Ok(chunk) => match chunks_of_parts(parts.drop_first()) {
                Err(e) => Err(e),
                Ok(chunks) => Ok(seq![chunk] + chunks),
            },
        }
    }
}

/// The outcome of reading `s` as a selection. The empty text is the
/// selection without chunks; any other text is split at its commas.
pub open spec fn page_range_of_text(s: Seq<char>) -> Result<Seq<PageRangeChunk>, ErrorView> {
    if s.len() == 0 {
        Ok(Seq::empty())
    } else {
        chunks_of_parts(split(s, ','))
    }
}

/// Whether an executable outcome is the one that the model gives.
pub open spec fn page_range_outcome_is(
    r: Result<PageRange, Error>,
    model: Result<Seq<PageRangeChunk>, ErrorView>,
) -> bool {
    match r {
        Ok(range) => model == Ok::<Seq<PageRangeChunk>, ErrorView>(range@),
        Err(e) => model == Err::<Seq<PageRangeChunk>, ErrorView>(e@),
    }
}

/// The chunks read so far, followed by the outcome for the rest.
spec fn after(done: Seq<PageRangeChunk>, rest: Result<Seq<PageRangeChunk>, ErrorView>) -> Result<
    Seq<PageRangeChunk>,
    ErrorView,
> {
    match rest {
        Ok(chunks) => Ok(done + chunks),
        Err(e) => Err(e),
    }
}

/// Joining one more piece puts it behind a separator, unless it is the
/// first.
pub proof fn lemma_join_push(parts: Seq<Seq<char>>, sep: char, last: Seq<char>)
    ensures
        join(parts.push(last), sep) == if parts.len() == 0 {
            last
        } else {
            join(parts, sep) + seq![sep] + last
        },
    decreases parts.len(),
{
    let all = parts.push(last);
    if parts.len() == 0 {
    } else {
        let rest = parts.drop_first();
        assert(all.drop_first() =~= rest.push(last));
        lemma_join_push(rest, sep, last);
        if parts.len() == 1 {
            assert(rest.len() == 0);
            assert(join(all, sep) =~= parts[0] + seq![sep] + last);
        } else {
            assert(join(all, sep) =~= join(parts, sep) + seq![sep] + last);
        }
    }
}

impl PageRange {
    #[verifier::type_invariant]
    closed spec fn inv(&self) -> bool {
        all_valid(self.chunks@)
    }

    /// A selection made of the given chunks, each of which is valid.
    pub fn new(chunks: Vec<PageRangeChunk>) -> (r: Self)
        requires
            all_valid(chunks@),
        ensures
            r@ == chunks@,
    {
        Self { chunks }
    }

    /// A selection made of the given chunks, where each of them is valid.
    ///
    /// Fails, where a range starts after its end, with the parse error that
    /// reading the text of the first such range gives.
    pub fn try_new(chunks: Vec<PageRangeChunk>) -> (r: Result<Self, Error>)
        ensures
            match r {
                Ok(range) => all_valid(chunks@) && range@ == chunks@,
                Err(e) => exists|i: int|
                    {
                        &&& 0 <= i < chunks.len()
                        &&& !(#[trigger] chunks[i]).is_valid()
                        &&& all_valid(chunks@.take(i))
                        &&& e@ == ErrorView::ParseError(
                            "PageRangeChunk"@,
                            chunks[i].text(),
                            "start cannot be greater than end"@,
                        )
                    },
            },
    {
        let mut i: usize = 0;
        while i < chunks.len()
            invariant
                i <= chunks.len(),
                all_valid(chunks@.take(i as int)),
            decreases chunks.len() - i,
        {
            let chunk = chunks[i];
            match chunk {
                PageRangeChunk::SingleValue(_) => {},
                PageRangeChunk::StartEnd(start, end) => {
                    if start > end {
                        let subject = chunk.to_string();
                        return Err(
                            Error::parse_error(
                                "PageRangeChunk",
                                subject.as_str(),
                                "start cannot be greater than end".to_owned(),
                            ),
                        );
                    }
                },
            }
            assert forall|j: int| 0 <= j < i + 1 implies (#[trigger] chunks@.take(
                i + 1,
            )[j]).is_valid() by {
                if j < i {
                    assert(chunks@.take(i as int)[j].is_valid());
                }
            }
            i += 1;
        }
        assert(chunks@.take(i as int) =~= chunks@);
        Ok(Self { chunks })
    }

    /// The chunks of the selection, in order. Each of them is valid.
    pub fn chunks(&self) -> (r: &Vec<PageRangeChunk>)
        ensures
            r@ == self@,
            all_valid(self@),
    {
        proof {
            use_type_invariant(self);
        }
        &self.chunks
    }

    /// Whether the selection holds `page`.
    pub fn in_range(&self, page: usize) -> (r: bool)
        ensures
            r == selects(self@, page as int),
    {
        if self.chunks.len() == 0 {
            return true;
        }
        let mut i: usize = 0;
        while i < self.chunks.len()
            invariant
                i <= self.chunks.len(),
                forall|j: int| 0 <= j < i ==> !(#[trigger] self.chunks@[j]).selects(page as int),
            decreases self.chunks.len() - i,
        {
            if self.chunks[i].in_range(page) {
                return true;
            }
            i += 1;
        }
        false
    }

    /// The canonical text of the selection; the selection without chunks
    /// is written as the empty text. The text reads back as the selection.
    pub fn to_string(&self) -> (r: String)
        ensures
            r@ == page_range_text(self@),
            all_valid(self@),
            page_range_of_text(r@) == Ok::<Seq<PageRangeChunk>, ErrorView>(self@),
    {
        proof {
            use_type_invariant(self);
            lemma_page_range_round_trip(self@);
        }
        let ghost texts = self@.map_values(|c: PageRangeChunk| c.text());
        let mut r = String::new();
        let mut i: usize = 0;
        assert(texts.take(0) =~= Seq::<Seq<char>>::empty());
        assert(r@ =~= join(texts.take(0), ','));
        while i < self.chunks.len()
            invariant
                i <= self.chunks.len(),
                texts == self@.map_values(|c: PageRangeChunk| c.text()),
                r@ == join(texts.take(i as int), ','),
            decreases self.chunks.len() - i,
        {
            proof {
                reveal_strlit(",");
                lemma_join_push(texts.take(i as int), ',', texts[i as int]);
                assert(texts.take(i as int).push(texts[i as int]) =~= texts.take(i + 1));
            }
            if i > 0 {
                r.append(",");
            }
            let piece = self.chunks[i].to_string();
            r.append(piece.as_str());
            assert(r@ =~= join(texts.take(i + 1), ','));
            i += 1;
        }
        assert(texts.take(i as int) =~= texts);
        r
    }
}

/// Reads a selection of pages: chunks separated by commas, each a single
/// page `N` or a range `S-E`, with white space allowed around each chunk
/// and around the `-`. The empty text selects every page.
///
/// Fails with the error of the first chunk, from the left, that cannot be
/// read; that error carries the chunk without the white space around it.
pub fn parse_page_range(text: &str) -> (r: Result<PageRange, Error>)
    ensures
        page_range_outcome_is(r, page_range_of_text(text@)),
        r matches Ok(range) ==> all_valid(range@),
{
    let chars = to_chars(text);
    let len = chars.len();
    if len == 0 {
        return Ok(PageRange { chunks: Vec::new() });
    }
    let mut chunks: Vec<PageRangeChunk> = Vec::new();
    let mut pos: usize = 0;
    proof {
        assert(chars@.skip(0) =~= chars@);
        match chunks_of_parts(split(chars@, ',')) {
            Ok(all) => {
                assert(chunks@ + all =~= all);
            },
            Err(_) => {},
        }
    }
    loop
        invariant
            chars@ == text@,
            len == chars.len(),
            pos <= len,
            all_valid(chunks@),
            page_range_of_text(text@) == after(
                chunks@,
                chunks_of_parts(split(chars@.skip(pos as int), ',')),
            ),
        decreases len - pos,
    {
        let ghost rest = chars@.skip(pos as int);
        assert(rest =~= chars@.subrange(pos as int, len as int));
        let comma = find_char(&chars, pos, len, ',');
        let ghost part = chars@.subrange(pos as int, comma as int);
        assert(rest.take(comma - pos) =~= part);
        let (a, b) = trim_bounds(&chars, pos, comma);
        let ghost parts = split(rest, ',');
        assert(parts[0] == part);
        let chunk = match parse_chunk_between(text, &chars, a, b) {
            Ok(chunk) => chunk,
            Err(e) => {
                return Err(e);
            },
        };
        let ghost done = chunks@;
        chunks.push(chunk);
        if comma == len {
            proof {
                assert(parts =~= seq![part]);
                assert(parts.drop_first() =~= Seq::<Seq<char>>::empty());
                assert(chunks_of_parts(parts.drop_first()) == Ok::<
                    Seq<PageRangeChunk>,
                    ErrorView,
                >(Seq::empty()));
                assert(done + (seq![chunk] + Seq::<PageRangeChunk>::empty()) =~= chunks@);
            }
            return Ok(PageRange { chunks });
        }
        proof {
            let tail = split(chars@.skip(comma + 1), ',');
            assert(rest.skip(comma - pos + 1) =~= chars@.skip(comma + 1));
            assert(parts.drop_first() =~= tail);
            match chunks_of_parts(tail) {
                Ok(more) => {
                    assert(done + (seq![chunk] + more) =~= chunks@ + more);
                },
                Err(_) => {},
            }
        }
        pos = comma + 1;
    }
}

impl Clone for PageRange {
    fn clone(&self) -> (r: Self)
        ensures
            r@ == self@,
    {
        proof {
            use_type_invariant(self);
        }
        let chunks = self.chunks.clone();
        assert(chunks@ =~= self.chunks@);
        PageRange { chunks }
    }
}

impl FromStr for PageRange {
    type Err = Error;

    fn from_str(s: &str) -> (r: Result<Self, Error>)
        ensures
            page_range_outcome_is(r, page_range_of_text(s@)),
            r matches Ok(range) ==> all_valid(range@),
    {
        parse_page_range(s)
    }
}

/// A decimal digit is neither white space nor one of the marks of the
/// page-range syntax.
proof fn lemma_digit_is_plain(c: char)
    requires
        is_digit(c),
    ensures
        !is_whitespace(c),
        c != '-',
        c != ',',
        c != '+',
{
}

/// The canonical text of a valid chunk reads back as that chunk, holds no
/// comma and is not empty.
pub proof fn lemma_chunk_round_trip(chunk: PageRangeChunk)
    requires
        chunk.is_valid(),
    ensures
        chunk_of_text(chunk.text()) == Ok::<PageRangeChunk, Seq<char>>(chunk),
        trim(chunk.text()) == chunk.text(),
        !has_char(chunk.text(), ','),
        chunk.text().len() >= 1,
{
    let t = chunk.text();
    match chunk {
        PageRangeChunk::SingleValue(value) => {
            lemma_decimal_text(value as nat);
            assert forall|j: int| 0 <= j < t.len() implies t[j] != '-' && t[j] != ',' && t[j] != '+'
                && !is_whitespace(t[j]) by {
                lemma_digit_is_plain(t[j]);
            }
            lemma_trim_is_identity(t);
            lemma_first_index(t, '-', t.len() as int);
        },
        PageRangeChunk::StartEnd(start, end) => {
            let low = decimal_text(start as nat);
            let high = decimal_text(end as nat);
            lemma_decimal_text(start as nat);
            lemma_decimal_text(end as nat);
            assert forall|j: int| 0 <= j < low.len() implies low[j] != '-' && low[j] != ','
                && low[j] != '+' && !is_whitespace(low[j]) by {
                lemma_digit_is_plain(low[j]);
            }
            assert forall|j: int| 0 <= j < high.len() implies high[j] != '-' && high[j] != ','
                && high[j] != '+' && !is_whitespace(high[j]) by {
                lemma_digit_is_plain(high[j]);
            }
            assert(t[0] == low[0]);
            assert(t.last() == high.last());
            lemma_trim_is_identity(t);
            lemma_trim_is_identity(low);
            lemma_trim_is_identity(high);
            assert forall|j: int| 0 <= j < low.len() implies t[j] != '-' by {
                assert(t[j] == low[j]);
            }
            assert(t[low.len() as int] == '-');
            lemma_first_index(t, '-', low.len() as int);
            assert(t.take(low.len() as int) =~= low);
            assert(t.skip(low.len() as int + 1) =~= high);
            assert forall|j: int| 0 <= j < t.len() implies t[j] != ',' by {
                if j < low.len() {
                    assert(t[j] == low[j]);
                } else if j > low.len() {
                    assert(t[j] == high[j - low.len() - 1]);
                }
            }
        },
    }
}

/// The canonical texts of valid chunks read back, piece by piece, as those
/// chunks.
proof fn lemma_chunks_of_texts(chunks: Seq<PageRangeChunk>)
    requires
        all_valid(chunks),
    ensures
        chunks_of_parts(chunks.map_values(|c: PageRangeChunk| c.text())) == Ok::<
            Seq<PageRangeChunk>,
            ErrorView,
        >(chunks),
    decreases chunks.len(),
{
    let parts = chunks.map_values(|c: PageRangeChunk| c.text());
    if chunks.len() == 0 {
        assert(chunks =~= Seq::empty());
    } else {
        let rest = chunks.drop_first();
        assert(chunks[0].is_valid());
        assert forall|i: int| 0 <= i < rest.len() implies (#[trigger] rest[i]).is_valid() by {
            assert(rest[i] == chunks[i + 1]);
        }
        lemma_chunk_round_trip(chunks[0]);
        lemma_chunks_of_texts(rest);
        assert(parts.drop_first() =~= rest.map_values(|c: PageRangeChunk| c.text()));
        assert(parts[0] == chunks[0].text());
        assert(seq![chunks[0]] + rest =~= chunks);
    }
}

/// Writing a selection of valid chunks and reading the text back gives
/// the same chunks in the same order.
pub proof fn lemma_page_range_round_trip(chunks: Seq<PageRangeChunk>)
    requires
        all_valid(chunks),
    ensures
        page_range_of_text(page_range_text(chunks)) == Ok::<Seq<PageRangeChunk>, ErrorView>(
            chunks,
        ),
{
    let parts = chunks.map_values(|c: PageRangeChunk| c.text());
    let written = page_range_text(chunks);
    if chunks.len() == 0 {
        assert(chunks =~= Seq::empty());
    } else {
        assert forall|i: int| 0 <= i < parts.len() implies !has_char(#[trigger] parts[i], ',')
            && parts[i].len() >= 1 by {
            assert(chunks[i].is_valid());
            lemma_chunk_round_trip(chunks[i]);
        }
        assert(parts[0].len() >= 1);
        assert(written.len() >= 1);
        lemma_split_join(parts, ',');
        lemma_chunks_of_texts(chunks);
    }
}

/// The empty text selects every page.
pub proof fn lemma_empty_text_selects_every_page(page: int)
    ensures
        page_range_of_text(""@) == Ok::<Seq<PageRangeChunk>, ErrorView>(Seq::empty()),
        selects(Seq::empty(), page),
{
    reveal_strlit("");
}

} // verus!
