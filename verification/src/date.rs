//! Calendar dates as the forms handle them.

use vstd::prelude::*;
use crate::text::{
    all_digits,
    ascii_bytes,
    bytes_of,
    digits_value,
    is_digit,
    lemma_leading_zeros,
    lemma_nat_text_reads_back,
    nat_text,
    numeral_within,
    parse_numeral,
    DIGIT_ZERO,
    MINUS_SIGN,
};

verus! {

/// A calendar date. The fields are not checked against the calendar: a date
/// is whatever the date picker or the server handed over.
#[derive(Clone, Copy, Debug, PartialEq, Eq, Structural)]
pub struct Date {
    pub year: i32,
    pub month: u32,
    pub day: u32,
}

/// A run of zeros.
pub open spec fn zeros(count: nat) -> Seq<char> {
    Seq::new(count, |i: int| '0')
}

/// A natural number in decimal notation, with zeros in front of it where it
/// has fewer than `width` digits.
pub open spec fn padded(n: nat, width: nat) -> Seq<char> {
    if nat_text(n).len() >= width {
        nat_text(n)
    } else {
        zeros((width - nat_text(n).len()) as nat) + nat_text(n)
    }
}

/// A year in at least four places, of which a minus sign takes one.
pub open spec fn year_text(year: int) -> Seq<char> {
    if year < 0 {
        seq!['-'] + padded((-year) as nat, 3)
    } else {
        padded(year as nat, 4)
    }
}

/// The text that the date picker's own `Date` shows for a date: the year in
/// at least four places, the month and the day in at least two, with hyphens
/// between them.
pub open spec fn date_display(year: int, month: int, day: int) -> Seq<char> {
    year_text(year) + seq!['-'] + padded(month as nat, 2) + seq!['-'] + padded(day as nat, 2)
}

/// `iced_aw::date_picker::Date::today`: the current local date, which the
/// crate takes from chrono's `NaiveDate`. Which date it is depends on the
/// clock; what holds of every one is that the month lies between 1 and 12 and
/// the day between 1 and 31, as the crate documents of the two fields and
/// chrono of `month` and `day`.
#[verifier::external_body]
pub(crate) fn picker_today() -> (r: Date)
    ensures
        r.on_calendar(),
{
    let now = iced_aw::date_picker::Date::today();
    Date { year: now.year, month: now.month, day: now.day }
}

/// The `Display` form of `iced_aw::date_picker::Date`, built with
/// `Date::from_ymd` from the three fields. The crate writes them with the
/// format `{:04}-{:02}-{:02}`, for which the standard library documents
/// padding with zeros up to the width, after the sign where there is one.
#[verifier::external_body]
pub(crate) fn picker_text(year: i32, month: u32, day: u32) -> (r: String)
    ensures
        r@ == date_display(year as int, month as int, day as int),
{
    iced_aw::date_picker::Date::from_ymd(year, month, day).to_string()
}

/// The first position at or after `from` that holds a hyphen, or the length
/// of `s` where there is none.
pub open spec fn next_hyphen(s: Seq<u8>, from: int) -> int
    decreases s.len() - from,
{
    if from < 0 || from >= s.len() {
        s.len() as int
    } else if s[from] == MINUS_SIGN {
        from
    } else {
        next_hyphen(s, from + 1)
    }
}

/// The value of one part of a date's text, zero where the part is no numeral
/// of its type.
pub open spec fn part_value(part: Seq<u8>, signed: bool, low: int, high: int) -> int {
    match numeral_within(part, signed, low, high) {
        Some(v) => v,
        None => 0,
    }
}

impl Date {
    /// The date that stands in for a text that is no date.
    pub open spec fn fallback() -> Date {
        Date { year: 2024, month: 1, day: 1 }
    }

    /// Whether the month and the day lie in the ranges of a calendar. How
    /// many days the month has is not looked at.
    pub open spec fn on_calendar(self) -> bool {
        1 <= self.month <= 12 && 1 <= self.day <= 31
    }

    /// Whether `self` lies strictly after `other`.
    pub open spec fn is_after(self, other: Date) -> bool {
        self.year > other.year || (self.year == other.year && self.month > other.month) || (
        self.year == other.year && self.month == other.month && self.day > other.day)
    }

    /// The date that a text of the form `year-month-day` stands for. A text
    /// that is not three parts divided by hyphens stands for the fallback
    /// date; a part that is no number counts as zero.
    pub open spec fn of_text(text: Seq<char>) -> Date {
        let s = bytes_of(text);
        let first = next_hyphen(s, 0);
        let second = next_hyphen(s, first + 1);
        if first < s.len() && second < s.len() && next_hyphen(s, second + 1) == s.len() {
            Date {
                year: part_value(s.subrange(0, first), true, i32::MIN as int, i32::MAX as int) as i32,
                month: part_value(s.subrange(first + 1, second), false, 0, u32::MAX as int) as u32,
                day: part_value(s.subrange(second + 1, s.len() as int), false, 0, u32::MAX as int) as u32,
            }
        } else {
            Date::fallback()
        }
    }

    /// The text of this date.
    pub open spec fn text(self) -> Seq<char> {
        date_display(self.year as int, self.month as int, self.day as int)
    }

    pub fn from_ymd(year: i32, month: u32, day: u32) -> (r: Date)
        ensures
            r == (Date { year, month, day }),
    {
        Date { year, month, day }
    }

    /// The current local date. Which date it is depends on the clock; its
    /// month and day lie in the ranges of a calendar.
    pub fn today() -> (r: Date)
        ensures
            r.on_calendar(),
    {
        picker_today()
    }

    /// Whether this date lies strictly after `other`.
    pub fn after(&self, other: &Date) -> (r: bool)
        ensures
            r == self.is_after(*other),
    {
        self.year > other.year || (self.year == other.year && self.month > other.month) || (
        self.year == other.year && self.month == other.month && self.day > other.day)
    }

    /// This date as text, year first.
    pub fn to_text(&self) -> (r: String)
        ensures
            r@ == self.text(),
    {
        picker_text(self.year, self.month, self.day)
    }
}

impl Default for Date {
    fn default() -> (r: Date)
        ensures
            r == Date::fallback(),
    {
        Date { year: 2024, month: 1, day: 1 }
    }
}

/// A padded number is a run of digits that denotes the number.
pub proof fn lemma_padded_reads_back(n: nat, width: nat)
    ensures
        padded(n, width).len() >= 1,
        vstd::utf8::is_ascii_chars(padded(n, width)),
        all_digits(ascii_bytes(padded(n, width))),
        digits_value(ascii_bytes(padded(n, width))) == n,
{
    lemma_nat_text_reads_back(n);
    let digits = nat_text(n);
    if digits.len() < width {
        let count = (width - digits.len()) as nat;
        lemma_leading_zeros(count, ascii_bytes(digits));
        assert(ascii_bytes(padded(n, width)) =~= Seq::new(count, |i: int| DIGIT_ZERO) + ascii_bytes(
            digits,
        ));
        assert forall|i: int| 0 <= i < padded(n, width).len() implies '\0' <= #[trigger] padded(
            n,
            width,
        )[i] <= '\u{7f}' by {
            if i >= count {
                assert(padded(n, width)[i] == digits[i - count]);
            }
        }
    }
}

/// Where no hyphen stands from `from` up to `stop`, and `stop` is a hyphen
/// or the end, the next hyphen from `from` on is at `stop`.
pub proof fn lemma_next_hyphen(s: Seq<u8>, from: int, stop: int)
    requires
        0 <= from <= stop <= s.len(),
        forall|k: int| from <= k < stop ==> s[k] != MINUS_SIGN,
        stop == s.len() || s[stop] == MINUS_SIGN,
    ensures
        next_hyphen(s, from) == stop,
    decreases stop - from,
{
    if from < stop {
        lemma_next_hyphen(s, from + 1, stop);
    }
}

/// A date whose year is not negative, written out as text and read back, is
/// the same date.
pub proof fn lemma_text_reads_back(date: Date)
    requires
        date.year >= 0,
    ensures
        Date::of_text(date.text()) == date,
{
    let y = padded(date.year as nat, 4);
    let m = padded(date.month as nat, 2);
    let d = padded(date.day as nat, 2);
    lemma_padded_reads_back(date.year as nat, 4);
    lemma_padded_reads_back(date.month as nat, 2);
    lemma_padded_reads_back(date.day as nat, 2);
    let text = date.text();
    assert(text =~= y + seq!['-'] + m + seq!['-'] + d);
    let first = y.len() as int;
    let second = first + 1 + m.len();
    assert forall|i: int| 0 <= i < text.len() implies '\0' <= #[trigger] text[i] <= '\u{7f}' by {
        if i < first {
            assert(text[i] == y[i]);
        } else if i == first {
        } else if i < second {
            assert(text[i] == m[i - first - 1]);
        } else if i == second {
        } else {
            assert(text[i] == d[i - second - 1]);
        }
    }
    vstd::utf8::is_ascii_chars_encode_utf8(text);
    let s = bytes_of(text);
    assert(s =~= ascii_bytes(text));
    let yb = ascii_bytes(y);
    let mb = ascii_bytes(m);
    let db = ascii_bytes(d);
    assert(s =~= yb + seq![MINUS_SIGN] + mb + seq![MINUS_SIGN] + db);
    assert forall|k: int| 0 <= k < first implies s[k] != MINUS_SIGN by {
        assert(s[k] == yb[k]);
    }
    assert forall|k: int| first + 1 <= k < second implies s[k] != MINUS_SIGN by {
        assert(s[k] == mb[k - first - 1]);
    }
    assert forall|k: int| second + 1 <= k < s.len() implies s[k] != MINUS_SIGN by {
        assert(s[k] == db[k - second - 1]);
    }
    lemma_next_hyphen(s, 0, first);
    lemma_next_hyphen(s, first + 1, second);
    lemma_next_hyphen(s, second + 1, s.len() as int);
    assert(s.subrange(0, first) =~= yb);
    assert(s.subrange(first + 1, second) =~= mb);
    assert(s.subrange(second + 1, s.len() as int) =~= db);
    assert(is_digit(yb[0]) && is_digit(mb[0]) && is_digit(db[0]));
}

/// Finds the first hyphen at or after `from`.
fn find_hyphen(bytes: &[u8], from: usize) -> (r: usize)
    requires
        from <= bytes.len(),
    ensures
        r == next_hyphen(bytes@, from as int),
        from <= r <= bytes.len(),
{
    let mut i: usize = from;
    while i < bytes.len()
        invariant
            from <= i <= bytes.len(),
            next_hyphen(bytes@, from as int) == next_hyphen(bytes@, i as int),
        decreases bytes.len() - i,
    {
        if bytes[i] == MINUS_SIGN {
            return i;
        }
        i = i + 1;
    }
    i
}

/// Reads one part of a date, zero where it is no numeral within the bounds.
fn parse_part(bytes: &[u8], start: usize, end: usize, signed: bool, low: i64, high: i64) -> (r: i64)
    requires
        start <= end <= bytes.len(),
        -1_000_000_000_000_000_000 <= low <= 0 <= high <= 1_000_000_000_000_000_000,
    ensures
        r == part_value(bytes@.subrange(start as int, end as int), signed, low as int, high as int),
        low <= r <= high,
{
    match parse_numeral(bytes, start, end, signed, low, high) {
        Some(v) => v,
        None => 0,
    }
}

/// Reads a date written as `year-month-day`.
pub fn string_to_date(date_string: &str) -> (r: Date)
    ensures
        r == Date::of_text(date_string@),
{
    let bytes = date_string.as_bytes();
    let first = find_hyphen(bytes, 0);
    if first >= bytes.len() {
        return Date::default();
    }
    let second = find_hyphen(bytes, first + 1);
    if second >= bytes.len() {
        return Date::default();
    }
    let third = find_hyphen(bytes, second + 1);
    if third < bytes.len() {
        return Date::default();
    }
    let year = parse_part(bytes, 0, first, true, -2147483648, 2147483647);
    let month = parse_part(bytes, first + 1, second, false, 0, 4294967295);
    let day = parse_part(bytes, second + 1, bytes.len(), false, 0, 4294967295);
    Date { year: year as i32, month: month as u32, day: day as u32 }
}

} // verus!
