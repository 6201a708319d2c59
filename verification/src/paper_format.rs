//! Paper dimensions such as `8.27in`: a decimal magnitude with an optional
//! unit, and the named paper sizes that stand for a pair of them.

use crate::error::{Error, ErrorView};
use crate::text::{
    all_digits, chars_are, decimal_string, decimal_text, digit_char, digit_text, is_digit,
    lemma_decimal_text, to_chars,
};
use std::str::FromStr;
use vstd::prelude::*;

verus! {

/// The unit of a linear dimension.
#[derive(Debug, Clone, Copy, PartialEq, Eq, Structural)]
pub enum Unit {
    /// Millimeter
    Mm,
    /// Centimeter
    Cm,
    /// Inch
    In,
    /// Pixel
    Px,
    /// Point
    Pt,
    /// Pica
    Pc,
}

impl Unit {
    /// The two letters that write the unit.
    pub open spec fn suffix(self) -> Seq<char> {
        match self {
            Unit::Mm => seq!['m', 'm'],
            Unit::Cm => seq!['c', 'm'],
            Unit::In => seq!['i', 'n'],
            Unit::Px => seq!['p', 'x'],
            Unit::Pt => seq!['p', 't'],
            Unit::Pc => seq!['p', 'c'],
        }
    }

    /// The two letters that write the unit.
    pub fn as_str(&self) -> (r: &'static str)
        ensures
            r@ == self.suffix(),
    {
        proof {
            reveal_strlit("mm");
            reveal_strlit("cm");
            reveal_strlit("in");
            reveal_strlit("px");
            reveal_strlit("pt");
            reveal_strlit("pc");
        }
        let r = match self {
            Unit::Mm => "mm",
            Unit::Cm => "cm",
            Unit::In => "in",
            Unit::Px => "px",
            Unit::Pt => "pt",
            Unit::Pc => "pc",
        };
        assert(r@ =~= self.suffix());
        r
    }
}

/// The text that writes an optional unit: its two letters, or nothing.
pub open spec fn unit_text(unit: Option<Unit>) -> Seq<char> {
    match unit {
        Some(u) => u.suffix(),
        None => Seq::empty(),
    }
}

/// The unit that a suffix names: none for the empty suffix, one of the six
/// units for its two letters. Any other suffix names nothing.
pub open spec fn unit_of_suffix(s: Seq<char>) -> Option<Option<Unit>> {
    if s.len() == 0 {
        Some(None)
    } else if s == Unit::Mm.suffix() {
        Some(Some(Unit::Mm))
    } else if s == Unit::Cm.suffix() {
        Some(Some(Unit::Cm))
    } else if s == Unit::In.suffix() {
        Some(Some(Unit::In))
    } else if s == Unit::Px.suffix() {
        Some(Some(Unit::Px))
    } else if s == Unit::Pt.suffix() {
        Some(Some(Unit::Pt))
    } else if s == Unit::Pc.suffix() {
        Some(Some(Unit::Pc))
    } else {
        None
    }
}

/// Reads `chars[from..]` as a unit suffix.
fn parse_unit_suffix(chars: &Vec<char>, from: usize) -> (r: Option<Option<Unit>>)
    requires
        from <= chars.len(),
    ensures
        r == unit_of_suffix(chars@.skip(from as int)),
{
    let ghost s = chars@.skip(from as int);
    let len = chars.len() - from;
    if len == 0 {
        return Some(None);
    }
    if len != 2 {
        return None;
    }
    let first = chars[from];
    let second = chars[from + 1];
    assert(s =~= seq![first, second]);
    let r = if first == 'm' && second == 'm' {
        Some(Some(Unit::Mm))
    } else if first == 'c' && second == 'm' {
        Some(Some(Unit::Cm))
    } else if first == 'i' && second == 'n' {
        Some(Some(Unit::In))
    } else if first == 'p' && second == 'x' {
        Some(Some(Unit::Px))
    } else if first == 'p' && second == 't' {
        Some(Some(Unit::Pt))
    } else if first == 'p' && second == 'c' {
        Some(Some(Unit::Pc))
    } else {
        None
    };
    proof {
        assert(Unit::Mm.suffix()[0] == 'm' && Unit::Mm.suffix()[1] == 'm');
        assert(Unit::Cm.suffix()[0] == 'c' && Unit::Cm.suffix()[1] == 'm');
        assert(Unit::In.suffix()[0] == 'i' && Unit::In.suffix()[1] == 'n');
        assert(Unit::Px.suffix()[0] == 'p' && Unit::Px.suffix()[1] == 'x');
        assert(Unit::Pt.suffix()[0] == 'p' && Unit::Pt.suffix()[1] == 't');
        assert(Unit::Pc.suffix()[0] == 'p' && Unit::Pc.suffix()[1] == 'c');
    }
    r
}

/// The mathematical content of a [`Magnitude`]: the digits before and
/// after the decimal point.
pub struct MagnitudeView {
    pub whole: Seq<char>,
    pub fraction: Seq<char>,
}

impl MagnitudeView {
    /// Whether the digits are in canonical form: at least one digit before
    /// the point and no needless zero at either end, so that equal numbers
    /// have equal digits.
    pub open spec fn is_canonical(self) -> bool {
        &&& self.whole.len() >= 1
        &&& all_digits(self.whole)
        &&& (self.whole.len() > 1 ==> self.whole[0] != '0')
        &&& all_digits(self.fraction)
        &&& (self.fraction.len() > 0 ==> self.fraction.last() != '0')
    }

    /// The text of the number: the whole part, then a point and the
    /// fraction where there is one.
    pub open spec fn text(self) -> Seq<char> {
        if self.fraction.len() == 0 {
            self.whole
        } else {
            self.whole + seq!['.'] + self.fraction
        }
    }
}

/// The length of the run of digits that `s` starts with.
pub open spec fn digit_run_len(s: Seq<char>) -> int
    decreases s.len(),
{
    if s.len() > 0 && is_digit(s[0]) {
        1 + digit_run_len(s.drop_first())
    } else {
        0
    }
}

/// The length of the numeric prefix of `s`: the longest prefix made of
/// digits and at most one point.
pub open spec fn numeric_prefix_len(s: Seq<char>) -> int {
    let whole = digit_run_len(s);
    if 0 <= whole < s.len() && s[whole] == '.' {
        whole + 1 + digit_run_len(s.skip(whole + 1))
    } else {
        whole
    }
}

/// `s` without its leading zeros, but for the last digit.
pub open spec fn strip_leading_zeros(s: Seq<char>) -> Seq<char>
    decreases s.len(),
{
    if s.len() > 1 && s[0] == '0' {
        strip_leading_zeros(s.drop_first())
    } else {
        s
    }
}

/// `s` without its trailing zeros.
pub open spec fn strip_trailing_zeros(s: Seq<char>) -> Seq<char>
    decreases s.len(),
{
    if s.len() > 0 && s.last() == '0' {
        strip_trailing_zeros(s.drop_last())
    } else {
        s
    }
}

/// The number that a numeral writes: digits, then optionally a point and
/// more digits, with at least one digit in all. A missing whole part
/// counts as zero. A numeral without any digit writes no number.
pub open spec fn magnitude_of_numeral(p: Seq<char>) -> Option<MagnitudeView> {
    let point = digit_run_len(p);
    let whole = p.take(point);
    let fraction = if point < p.len() {
        p.skip(point + 1)
    } else {
        Seq::empty()
    };
    if whole.len() + fraction.len() == 0 {
        None
    } else {
        Some(
            MagnitudeView {
                whole: if whole.len() == 0 {
                    seq!['0']
                } else {
                    strip_leading_zeros(whole)
                },
                fraction: strip_trailing_zeros(fraction),
            },
        )
    }
}

/// The number that a whole text writes: the text must be a numeral from
/// its first character to its last.
pub open spec fn magnitude_of_text(s: Seq<char>) -> Option<MagnitudeView> {
    if numeric_prefix_len(s) == s.len() {
        magnitude_of_numeral(s)
    } else {
        None
    }
}

/// The number that is `n` hundredths.
pub open spec fn magnitude_of_hundredths(n: nat) -> MagnitudeView {
    MagnitudeView {
        whole: decimal_text(n / 100),
        fraction: strip_trailing_zeros(seq![digit_char((n / 10) % 10), digit_char(n % 10)]),
    }
}

/// `digit_run_len` is the position of the first character that is no digit.
pub proof fn lemma_digit_run(s: Seq<char>, k: int)
    requires
        0 <= k <= s.len(),
        forall|j: int| 0 <= j < k ==> is_digit(s[j]),
        k < s.len() ==> !is_digit(s[k]),
    ensures
        digit_run_len(s) == k,
    decreases s.len(),
{
    if k > 0 {
        let rest = s.drop_first();
        assert forall|j: int| 0 <= j < k - 1 implies is_digit(rest[j]) by {
            assert(rest[j] == s[j + 1]);
        }
        lemma_digit_run(rest, k - 1);
    }
}

/// Finds the end of the run of digits that starts at `from`.
fn digit_run_end(chars: &Vec<char>, from: usize) -> (r: usize)
    requires
        from <= chars.len(),
    ensures
        from <= r <= chars.len(),
        r - from == digit_run_len(chars@.skip(from as int)),
        forall|j: int| from <= j < r ==> is_digit(chars@[j]),
        r < chars.len() ==> !is_digit(chars@[r as int]),
{
    let mut i: usize = from;
    while i < chars.len() && '0' <= chars[i] && chars[i] <= '9'
        invariant
            from <= i <= chars.len(),
            forall|j: int| from <= j < i ==> is_digit(chars@[j]),
        decreases chars.len() - i,
    {
        i += 1;
    }
    proof {
        lemma_digit_run(chars@.skip(from as int), i - from);
    }
    i
}

/// A non-negative decimal number, held exactly as its digits.
///
/// Two magnitudes are equal when they are the same number: the digits are
/// kept without needless zeros, so `5`, `5.0` and `05` are one value.
#[derive(Debug)]
pub struct Magnitude {
    whole: String,
    fraction: String,
}

impl View for Magnitude {
    type V = MagnitudeView;

    closed spec fn view(&self) -> MagnitudeView {
        MagnitudeView { whole: self.whole@, fraction: self.fraction@ }
    }
}

impl Magnitude {
    #[verifier::type_invariant]
    closed spec fn inv(&self) -> bool {
        self@.is_canonical()
    }

    /// Builds the number from the digits of a numeral. The whole part is
    /// `chars[..point]`; the fraction is `chars[point + 1..end]` where the
    /// numeral has a point, and empty where `point == end`.
    fn from_numeral(text: &str, chars: &Vec<char>, point: usize, end: usize) -> (r: Self)
        requires
            chars@ == text@,
            point <= end <= chars.len(),
            forall|j: int| 0 <= j < point ==> is_digit(chars@[j]),
            point < end ==> chars@[point as int] == '.',
            forall|j: int| point < j < end ==> is_digit(chars@[j]),
            point > 0 || point + 1 < end,
        ensures
            Some(r@) == magnitude_of_numeral(chars@.take(end as int)),
            r@.is_canonical(),
    {
        let ghost p = chars@.take(end as int);
        proof {
            assert forall|j: int| 0 <= j < point implies is_digit(p[j]) by {}
            lemma_digit_run(p, point as int);
        }
        let ghost whole = p.take(point as int);
        let mut a: usize = 0;
        assert(chars@.subrange(0, point as int) =~= whole);
        while a + 1 < point && chars[a] == '0'
            invariant
                a <= point <= chars.len(),
                point > 0 ==> a < point,
                strip_leading_zeros(whole) == strip_leading_zeros(
                    chars@.subrange(a as int, point as int),
                ),
            decreases point - a,
        {
            assert(chars@.subrange(a as int, point as int).drop_first() =~= chars@.subrange(
                a + 1,
                point as int,
            ));
            a += 1;
        }
        let whole_text = if point == 0 {
            proof {
                reveal_strlit("0");
            }
            assert("0"@ =~= seq!['0']);
            "0".to_owned()
        } else {
            text.substring_char(a, point).to_owned()
        };
        let start: usize = if point < end {
            point + 1
        } else {
            end
        };
        let ghost fraction = chars@.subrange(start as int, end as int);
        assert(point < end ==> p.skip(point + 1) =~= fraction);
        assert(point == end ==> fraction =~= Seq::<char>::empty());
        let mut b: usize = end;
        while start < b && chars[b - 1] == '0'
            invariant
                start <= b <= end <= chars.len(),
                strip_trailing_zeros(fraction) == strip_trailing_zeros(
                    chars@.subrange(start as int, b as int),
                ),
            decreases b - start,
        {
            assert(chars@.subrange(start as int, b as int).drop_last() =~= chars@.subrange(
                start as int,
                b - 1,
            ));
            b -= 1;
        }
        let fraction_text = text.substring_char(start, b).to_owned();
        Magnitude { whole: whole_text, fraction: fraction_text }
    }

    /// The number that is `n` hundredths: `from_hundredths(827)` is 8.27.
    pub fn from_hundredths(n: u64) -> (r: Self)
        ensures
            r@ == magnitude_of_hundredths(n as nat),
            r@.is_canonical(),
    {
        let whole = decimal_string((n / 100) as u128);
        let tenths: u8 = ((n / 10) % 10) as u8;
        let hundredths: u8 = (n % 10) as u8;
        let ghost both = seq![digit_char(tenths as nat), digit_char(hundredths as nat)];
        let mut fraction = String::new();
        proof {
            let one = seq![digit_char(tenths as nat)];
            lemma_decimal_text((n / 100) as nat);
            assert(both.drop_last() =~= one);
            assert(one.drop_last() =~= Seq::<char>::empty());
            assert(strip_trailing_zeros(Seq::<char>::empty()) == Seq::<char>::empty());
            assert(strip_trailing_zeros(one) == if tenths == 0 {
                Seq::<char>::empty()
            } else {
                one
            });
            assert(strip_trailing_zeros(both) == if hundredths == 0 {
                strip_trailing_zeros(one)
            } else {
                both
            });
        }
        if hundredths != 0 {
            fraction.append(digit_text(tenths));
            fraction.append(digit_text(hundredths));
            assert(fraction@ =~= both);
        } else if tenths != 0 {
            fraction.append(digit_text(tenths));
            assert(fraction@ =~= seq![digit_char(tenths as nat)]);
        }
        Magnitude { whole, fraction }
    }

    /// The text of the number: `8.27`, `17`, `0.5`. It reads back as the
    /// number.
    pub fn to_string(&self) -> (r: String)
        ensures
            r@ == self@.text(),
            self@.is_canonical(),
            magnitude_of_text(r@) == Some(self@),
    {
        proof {
            use_type_invariant(self);
            lemma_magnitude_round_trip(self@);
        }
        let mut r = self.whole.clone();
        if self.fraction.as_str().unicode_len() > 0 {
            proof {
                reveal_strlit(".");
            }
            r.append(".");
            r.append(self.fraction.as_str());
            assert(r@ =~= self@.text());
        }
        r
    }
}

impl Clone for Magnitude {
    fn clone(&self) -> (r: Self)
        ensures
            r@ == self@,
    {
        proof {
            use_type_invariant(self);
        }
        Magnitude { whole: self.whole.clone(), fraction: self.fraction.clone() }
    }
}

/// Reads a decimal number: digits, then optionally a point and more
/// digits, with at least one digit in all. Nothing may come before or
/// after the numeral.
pub fn parse_magnitude(text: &str) -> (r: Option<Magnitude>)
    ensures
        match r {
            Some(m) => magnitude_of_text(text@) == Some(m@),
            None => magnitude_of_text(text@) is None,
        },
{
    let chars = to_chars(text);
    let len = chars.len();
    assert(chars@.skip(0) =~= chars@);
    let point = digit_run_end(&chars, 0);
    let end = if point < len && chars[point] == '.' {
        digit_run_end(&chars, point + 1)
    } else {
        point
    };
    assert(end == numeric_prefix_len(chars@));
    if end != len {
        return None;
    }
    assert(chars@.take(end as int) =~= chars@);
    if point == 0 && point + 1 >= end {
        proof {
            let p = chars@;
            let fraction = if point < p.len() {
                p.skip(point + 1)
            } else {
                Seq::empty()
            };
            assert(fraction.len() == 0);
        }
        return None;
    }
    Some(Magnitude::from_numeral(text, &chars, point, end))
}

impl PartialEq for Magnitude {
    fn eq(&self, other: &Self) -> (r: bool) {
        self.whole == other.whole && self.fraction == other.fraction
    }
}

impl vstd::std_specs::cmp::PartialEqSpecImpl for Magnitude {
    open spec fn obeys_eq_spec() -> bool {
        true
    }

    open spec fn eq_spec(&self, other: &Self) -> bool {
        self@ == other@
    }
}

/// The mathematical content of a [`LinearDimention`].
pub struct LinearDimentionView {
    pub size: MagnitudeView,
    pub unit: Option<Unit>,
}

impl LinearDimentionView {
    /// The text of the dimension: the magnitude, then the unit where
    /// there is one, with nothing between them.
    pub open spec fn text(self) -> Seq<char> {
        self.size.text() + unit_text(self.unit)
    }
}

/// A length: a magnitude with a unit, or a bare magnitude.
///
/// Two dimensions are equal when magnitude and unit are both equal; no
/// unit is converted into another.
#[derive(Debug)]
pub struct LinearDimention {
    size: Magnitude,
    unit: Option<Unit>,
}

impl View for LinearDimention {
    type V = LinearDimentionView;

    closed spec fn view(&self) -> LinearDimentionView {
        LinearDimentionView { size: self.size@, unit: self.unit }
    }
}

impl Clone for LinearDimention {
    fn clone(&self) -> (r: Self)
        ensures
            r@ == self@,
    {
        LinearDimention { size: self.size.clone(), unit: self.unit }
    }
}

impl PartialEq for LinearDimention {
    fn eq(&self, other: &Self) -> (r: bool) {
        let same_unit = match (self.unit, other.unit) {
            (Some(a), Some(b)) => a == b,
            (None, None) => true,
            _ => false,
        };
        self.size == other.size && same_unit
    }
}

impl vstd::std_specs::cmp::PartialEqSpecImpl for LinearDimention {
    open spec fn obeys_eq_spec() -> bool {
        true
    }

    open spec fn eq_spec(&self, other: &Self) -> bool {
        self@ == other@
    }
}

impl LinearDimention {
    /// The dimension of the given magnitude and unit.
    pub fn new(size: Magnitude, unit: Unit) -> (r: Self)
        ensures
            r@ == (LinearDimentionView { size: size@, unit: Some(unit) }),
    {
        LinearDimention { size, unit: Some(unit) }
    }

    /// The magnitude of the dimension.
    pub fn size(&self) -> (r: &Magnitude)
        ensures
            r@ == self@.size,
    {
        &self.size
    }

    /// The unit of the dimension, if it has one.
    pub fn unit(&self) -> (r: Option<Unit>)
        ensures
            r == self@.unit,
    {
        self.unit
    }

    /// The text of the dimension: `8.27in`, `210mm`, `11`. It reads back
    /// as the dimension.
    pub fn to_string(&self) -> (r: String)
        ensures
            r@ == self@.text(),
            self@.size.is_canonical(),
            dimension_of_text(r@) == Ok::<LinearDimentionView, Seq<char>>(self@),
    {
        let mut r = self.size.to_string();
        proof {
            lemma_linear_dimension_round_trip(self@);
        }
        match self.unit {
            Some(unit) => {
                r.append(unit.as_str());
            },
            None => {
                assert(r@ =~= self@.text());
            },
        }
        r
    }
}

/// What a text means as a dimension, or the reason why it means none.
///
/// The text is parted into its numeric prefix and the rest. The prefix
/// must hold a digit; the rest must be the empty suffix or one of the six
/// unit suffixes.
pub open spec fn dimension_of_text(s: Seq<char>) -> Result<LinearDimentionView, Seq<char>> {
    let n = numeric_prefix_len(s);
    let prefix = s.take(n);
    let suffix = s.skip(n);
    match magnitude_of_numeral(prefix) {
        None => Err(
            if prefix.len() == 0 {
                "cannot parse float from empty string"@
            } else {
                "invalid float literal"@
            },
        ),
        Some(size) => match unit_of_suffix(suffix) {
            None => Err("Invalid Unit"@),
            Some(unit) => Ok(LinearDimentionView { size, unit }),
        },
    }
}

/// The outcome of reading `s` as a dimension: the dimension, or a parse
/// error that names the text and the reason.
pub open spec fn dimension_outcome(s: Seq<char>) -> Result<LinearDimentionView, ErrorView> {
    match dimension_of_text(s) {
        Ok(d) => Ok(d),
        Err(reason) => Err(ErrorView::ParseError("LinearDimention"@, s, reason)),
    }
}

/// Whether an executable outcome is the one that the model gives.
pub open spec fn dimension_outcome_is(
    r: Result<LinearDimention, Error>,
    model: Result<LinearDimentionView, ErrorView>,
) -> bool {
    match r {
        Ok(d) => model == Ok::<LinearDimentionView, ErrorView>(d@),
        Err(e) => model == Err::<LinearDimentionView, ErrorView>(e@),
    }
}

/// Reads a dimension: a decimal magnitude directly followed by `mm`, `cm`,
/// `in`, `px`, `pt`, `pc` or nothing. No unit is supplied where the text has
/// none.
///
/// Fails with a parse error that carries the text and the reason: the
/// magnitude has no digit, or the suffix is no unit.
pub fn parse_linear_dimension(text: &str) -> (r: Result<LinearDimention, Error>)
    ensures
        dimension_outcome_is(r, dimension_outcome(text@)),
        r matches Ok(d) ==> d@.size.is_canonical(),
{
    let chars = to_chars(text);
    let len = chars.len();
    assert(chars@.skip(0) =~= chars@);
    let point = digit_run_end(&chars, 0);
    let end = if point < len && chars[point] == '.' {
        digit_run_end(&chars, point + 1)
    } else {
        point
    };
    assert(end == numeric_prefix_len(chars@));
    let ghost prefix = chars@.take(end as int);
    if point == 0 && point + 1 >= end {
        proof {
            lemma_digit_run(prefix, 0);
            let fraction = if point < prefix.len() {
                prefix.skip(point + 1)
            } else {
                Seq::empty()
            };
            assert(fraction.len() == 0);
            assert(magnitude_of_numeral(prefix) is None);
        }
        let reason = if end == 0 {
            "cannot parse float from empty string".to_owned()
        } else {
            "invalid float literal".to_owned()
        };
        return Err(Error::parse_error("LinearDimention", text, reason));
    }
    let size = Magnitude::from_numeral(text, &chars, point, end);
    match parse_unit_suffix(&chars, end) {
        Some(unit) => Ok(LinearDimention { size, unit }),
        None => Err(Error::parse_error("LinearDimention", text, "Invalid Unit".to_owned())),
    }
}

impl FromStr for LinearDimention {
    type Err = Error;

    fn from_str(s: &str) -> (r: Result<Self, Error>)
        ensures
            dimension_outcome_is(r, dimension_outcome(s@)),
    {
        parse_linear_dimension(s)
    }
}

/// A named paper size.
#[derive(Debug, Clone, Copy, PartialEq, Eq, Structural)]
pub enum PaperFormat {
    A0,
    A1,
    A2,
    A3,
    A4,
    A5,
    A6,
    Ledger,
    Legal,
    Letter,
    Tabloid,
}

impl PaperFormat {
    /// The name of the paper size.
    pub open spec fn name(self) -> Seq<char> {
        match self {
            PaperFormat::A0 => "A0"@,
            PaperFormat::A1 => "A1"@,
            PaperFormat::A2 => "A2"@,
            PaperFormat::A3 => "A3"@,
            PaperFormat::A4 => "A4"@,
            PaperFormat::A5 => "A5"@,
            PaperFormat::A6 => "A6"@,
            PaperFormat::Ledger => "Ledger"@,
            PaperFormat::Legal => "Legal"@,
            PaperFormat::Letter => "Letter"@,
            PaperFormat::Tabloid => "Tabloid"@,
        }
    }

    /// The unit in which the paper size is given.
    pub open spec fn measured_in(self) -> Unit {
        match self {
            PaperFormat::A0 | PaperFormat::A1 | PaperFormat::A2 | PaperFormat::A3 => Unit::Cm,
            _ => Unit::In,
        }
    }

    /// The width of the paper size, in hundredths of its unit.
    pub open spec fn width_hundredths(self) -> nat {
        match self {
            PaperFormat::A0 => 3310,
            PaperFormat::A1 => 2340,
            PaperFormat::A2 => 1654,
            PaperFormat::A3 => 1170,
            PaperFormat::A4 => 827,
            PaperFormat::A5 => 583,
            PaperFormat::A6 => 413,
            PaperFormat::Ledger => 1700,
            PaperFormat::Legal => 850,
            PaperFormat::Letter => 850,
            PaperFormat::Tabloid => 1100,
        }
    }

    /// The height of the paper size, in hundredths of its unit.
    pub open spec fn height_hundredths(self) -> nat {
        match self {
            PaperFormat::A0 => 4680,
            PaperFormat::A1 => 3310,
            PaperFormat::A2 => 2340,
            PaperFormat::A3 => 1654,
            PaperFormat::A4 => 1170,
            PaperFormat::A5 => 827,
            PaperFormat::A6 => 583,
            PaperFormat::Ledger => 1100,
            PaperFormat::Legal => 1400,
            PaperFormat::Letter => 1100,
            PaperFormat::Tabloid => 1700,
        }
    }

    /// The width of the paper size.
    pub open spec fn width_view(self) -> LinearDimentionView {
        LinearDimentionView {
            size: magnitude_of_hundredths(self.width_hundredths()),
            unit: Some(self.measured_in()),
        }
    }

    /// The height of the paper size.
    pub open spec fn height_view(self) -> LinearDimentionView {
        LinearDimentionView {
            size: magnitude_of_hundredths(self.height_hundredths()),
            unit: Some(self.measured_in()),
        }
    }

    /// The unit in which the paper size is given.
    fn unit(&self) -> (r: Unit)
        ensures
            r == self.measured_in(),
    {
        match self {
            PaperFormat::A0 | PaperFormat::A1 | PaperFormat::A2 | PaperFormat::A3 => Unit::Cm,
            _ => Unit::In,
        }
    }

    /// The height of the paper size.
    pub fn height(&self) -> (r: LinearDimention)
        ensures
            r@ == self.height_view(),
            r@.size.is_canonical(),
    {
        let hundredths: u64 = match self {
            PaperFormat::A0 => 4680,
            PaperFormat::A1 => 3310,
            PaperFormat::A2 => 2340,
            PaperFormat::A3 => 1654,
            PaperFormat::A4 => 1170,
            PaperFormat::A5 => 827,
            PaperFormat::A6 => 583,
            PaperFormat::Ledger => 1100,
            PaperFormat::Legal => 1400,
            PaperFormat::Letter => 1100,
            PaperFormat::Tabloid => 1700,
        };
        LinearDimention::new(Magnitude::from_hundredths(hundredths), self.unit())
    }

    /// The width of the paper size.
    pub fn width(&self) -> (r: LinearDimention)
        ensures
            r@ == self.width_view(),
            r@.size.is_canonical(),
    {
        let hundredths: u64 = match self {
            PaperFormat::A0 => 3310,
            PaperFormat::A1 => 2340,
            PaperFormat::A2 => 1654,
            PaperFormat::A3 => 1170,
            PaperFormat::A4 => 827,
            PaperFormat::A5 => 583,
            PaperFormat::A6 => 413,
            PaperFormat::Ledger => 1700,
            PaperFormat::Legal => 850,
            PaperFormat::Letter => 850,
            PaperFormat::Tabloid => 1100,
        };
        LinearDimention::new(Magnitude::from_hundredths(hundredths), self.unit())
    }

    /// The name of the paper size. It reads back as the paper size.
    pub fn as_str(&self) -> (r: &'static str)
        ensures
            r@ == self.name(),
            paper_format_of_text(r@) == Some(*self),
    {
        proof {
            lemma_paper_format_name_round_trip(*self);
        }
        match self {
            PaperFormat::A0 => "A0",
            PaperFormat::A1 => "A1",
            PaperFormat::A2 => "A2",
            PaperFormat::A3 => "A3",
            PaperFormat::A4 => "A4",
            PaperFormat::A5 => "A5",
            PaperFormat::A6 => "A6",
            PaperFormat::Ledger => "Ledger",
            PaperFormat::Legal => "Legal",
            PaperFormat::Letter => "Letter",
            PaperFormat::Tabloid => "Tabloid",
        }
    }

    /// The name of the paper size as an owned string. It reads back as
    /// the paper size.
    pub fn to_string(&self) -> (r: String)
        ensures
            r@ == self.name(),
            paper_format_of_text(r@) == Some(*self),
    {
        self.as_str().to_owned()
    }
}

/// The paper size that a text names, letter for letter.
pub open spec fn paper_format_of_text(s: Seq<char>) -> Option<PaperFormat> {
    if s == PaperFormat::A0.name() {
        Some(PaperFormat::A0)
    } else if s == PaperFormat::A1.name() {
        Some(PaperFormat::A1)
    } else if s == PaperFormat::A2.name() {
        Some(PaperFormat::A2)
    } else if s == PaperFormat::A3.name() {
        Some(PaperFormat::A3)
    } else if s == PaperFormat::A4.name() {
        Some(PaperFormat::A4)
    } else if s == PaperFormat::A5.name() {
        Some(PaperFormat::A5)
    } else if s == PaperFormat::A6.name() {
        Some(PaperFormat::A6)
    } else if s == PaperFormat::Ledger.name() {
        Some(PaperFormat::Ledger)
    } else if s == PaperFormat::Legal.name() {
        Some(PaperFormat::Legal)
    } else if s == PaperFormat::Letter.name() {
        Some(PaperFormat::Letter)
    } else if s == PaperFormat::Tabloid.name() {
        Some(PaperFormat::Tabloid)
    } else {
        None
    }
}

/// Reads the name of a paper size. Upper and lower case are told apart.
///
/// Fails, for any text that is not one of the eleven names, with a parse
/// error that carries the text.
pub fn parse_paper_format(text: &str) -> (r: Result<PaperFormat, Error>)
    ensures
        match r {
            Ok(format) => paper_format_of_text(text@) == Some(format),
            Err(e) => paper_format_of_text(text@) is None && e@ == ErrorView::ParseError(
                "PaperFormat"@,
                text@,
                "Invalid Paper Format"@,
            ),
        },
{
    let chars = to_chars(text);
    if chars_are(&chars, "A0") {
        Ok(PaperFormat::A0)
    } else if chars_are(&chars, "A1") {
        Ok(PaperFormat::A1)
    } else if chars_are(&chars, "A2") {
        Ok(PaperFormat::A2)
    } else if chars_are(&chars, "A3") {
        Ok(PaperFormat::A3)
    } else if chars_are(&chars, "A4") {
        Ok(PaperFormat::A4)
    } else if chars_are(&chars, "A5") {
        Ok(PaperFormat::A5)
    } else if chars_are(&chars, "A6") {
        Ok(PaperFormat::A6)
    } else if chars_are(&chars, "Ledger") {
        Ok(PaperFormat::Ledger)
    } else if chars_are(&chars, "Legal") {
        Ok(PaperFormat::Legal)
    } else if chars_are(&chars, "Letter") {
        Ok(PaperFormat::Letter)
    } else if chars_are(&chars, "Tabloid") {
        Ok(PaperFormat::Tabloid)
    } else {
        Err(Error::parse_error("PaperFormat", text, "Invalid Paper Format".to_owned()))
    }
}

impl FromStr for PaperFormat {
    type Err = Error;

    fn from_str(s: &str) -> (r: Result<Self, Error>)
        ensures
            match r {
                Ok(format) => paper_format_of_text(s@) == Some(format),
                Err(e) => paper_format_of_text(s@) is None && e@ == ErrorView::ParseError(
                    "PaperFormat"@,
                    s@,
                    "Invalid Paper Format"@,
                ),
            },
    {
        parse_paper_format(s)
    }
}

/// The name of every paper size reads back as that paper size.
pub proof fn lemma_paper_format_name_round_trip(format: PaperFormat)
    ensures
        paper_format_of_text(format.name()) == Some(format),
{
    reveal_strlit("A0");
    reveal_strlit("A1");
    reveal_strlit("A2");
    reveal_strlit("A3");
    reveal_strlit("A4");
    reveal_strlit("A5");
    reveal_strlit("A6");
    reveal_strlit("Ledger");
    reveal_strlit("Legal");
    reveal_strlit("Letter");
    reveal_strlit("Tabloid");
    assert("A0"@[1] == '0' && "A1"@[1] == '1' && "A2"@[1] == '2' && "A3"@[1] == '3');
    assert("A4"@[1] == '4' && "A5"@[1] == '5' && "A6"@[1] == '6');
    assert("Ledger"@[2] == 'd' && "Letter"@[2] == 't');
    assert("A0"@.len() == 2 && "A1"@.len() == 2 && "A2"@.len() == 2 && "A3"@.len() == 2);
    assert("A4"@.len() == 2 && "A5"@.len() == 2 && "A6"@.len() == 2);
    assert("Ledger"@.len() == 6 && "Legal"@.len() == 5 && "Letter"@.len() == 6);
    assert("Tabloid"@.len() == 7);
}

/// The text of a canonical magnitude, with anything behind it that does
/// not go on like a numeral, has that text as its numeric prefix, and the
/// prefix writes the magnitude.
pub proof fn lemma_magnitude_text_round_trip(m: MagnitudeView, rest: Seq<char>)
    requires
        m.is_canonical(),
        rest.len() > 0 ==> !is_digit(rest[0]) && rest[0] != '.',
    ensures
        numeric_prefix_len(m.text() + rest) == m.text().len(),
        magnitude_of_numeral(m.text()) == Some(m),
{
    let t = m.text();
    let s = t + rest;
    let w = m.whole.len() as int;
    assert forall|j: int| 0 <= j < w implies is_digit(s[j]) && is_digit(t[j]) by {
        assert(s[j] == m.whole[j]);
        assert(t[j] == m.whole[j]);
    }
    if m.fraction.len() == 0 {
        lemma_digit_run(t, w);
        lemma_digit_run(s, w);
        assert(t.take(w) =~= m.whole);
    } else {
        assert(t[w] == '.');
        assert(s[w] == '.');
        lemma_digit_run(t, w);
        lemma_digit_run(s, w);
        let after = s.skip(w + 1);
        assert forall|j: int| 0 <= j < m.fraction.len() implies is_digit(after[j]) by {
            assert(after[j] == m.fraction[j]);
        }
        lemma_digit_run(after, m.fraction.len() as int);
        assert(t.take(w) =~= m.whole);
        assert(t.skip(w + 1) =~= m.fraction);
    }
    assert(strip_leading_zeros(m.whole) == m.whole);
    assert(strip_trailing_zeros(m.fraction) == m.fraction);
    assert(strip_trailing_zeros(Seq::<char>::empty()) == Seq::<char>::empty());
    let read = magnitude_of_numeral(t)->0;
    assert(read.whole == m.whole);
    assert(read.fraction =~= m.fraction);
}

/// Every optional unit is named by its own text.
pub proof fn lemma_unit_text_round_trip(unit: Option<Unit>)
    ensures
        unit_of_suffix(unit_text(unit)) == Some(unit),
        unit_text(unit).len() > 0 ==> !is_digit(unit_text(unit)[0]) && unit_text(unit)[0] != '.',
{
    assert(Unit::Mm.suffix()[0] == 'm' && Unit::Mm.suffix()[1] == 'm');
    assert(Unit::Cm.suffix()[0] == 'c' && Unit::Cm.suffix()[1] == 'm');
    assert(Unit::In.suffix()[0] == 'i' && Unit::In.suffix()[1] == 'n');
    assert(Unit::Px.suffix()[0] == 'p' && Unit::Px.suffix()[1] == 'x');
    assert(Unit::Pt.suffix()[0] == 'p' && Unit::Pt.suffix()[1] == 't');
    assert(Unit::Pc.suffix()[0] == 'p' && Unit::Pc.suffix()[1] == 'c');
}

/// Writing a magnitude and reading the text back gives the same
/// magnitude.
pub proof fn lemma_magnitude_round_trip(m: MagnitudeView)
    requires
        m.is_canonical(),
    ensures
        magnitude_of_text(m.text()) == Some(m),
{
    lemma_magnitude_text_round_trip(m, Seq::empty());
    assert(m.text() + Seq::<char>::empty() =~= m.text());
}

/// Writing a dimension and reading the text back gives the same
/// dimension: the same magnitude and the same unit, or the same lack of
/// one.
pub proof fn lemma_linear_dimension_round_trip(d: LinearDimentionView)
    requires
        d.size.is_canonical(),
    ensures
        dimension_of_text(d.text()) == Ok::<LinearDimentionView, Seq<char>>(d),
{
    let t = d.size.text();
    let u = unit_text(d.unit);
    let s = d.text();
    lemma_unit_text_round_trip(d.unit);
    lemma_magnitude_text_round_trip(d.size, u);
    assert(s.take(t.len() as int) =~= t);
    assert(s.skip(t.len() as int) =~= u);
}

} // verus!
