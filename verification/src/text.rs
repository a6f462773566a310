//! Text helpers: byte lengths, equality, upper-casing and decimal numerals.

use vstd::prelude::*;
use vstd::string::StringExecFns;

verus! {

/// Equality of string slices, as `str`'s `PartialEq` documents it: two slices
/// are equal exactly when they hold the same characters.
pub assume_specification[ <str as PartialEq>::eq ](a: &str, b: &str) -> (r: bool)
    ensures
        r == (a@ == b@),
;

/// The UTF-8 encoding of a text.
pub open spec fn bytes_of(text: Seq<char>) -> Seq<u8> {
    vstd::utf8::encode_utf8(text)
}

/// The length of a text in bytes, which is what length limits count.
pub open spec fn byte_len(text: Seq<char>) -> nat {
    bytes_of(text).len()
}

/// The number of bytes that `text` takes.
pub fn byte_length(text: &str) -> (n: usize)
    ensures
        n == byte_len(text@),
{
    text.as_bytes().len()
}

/// The upper-case form of a text under Unicode's rules.
pub uninterp spec fn uppercase(text: Seq<char>) -> Seq<char>;

/// `str::to_uppercase`: a new string holding the upper-case equivalent of
/// `text`. The mapping follows Unicode's tables, so the result is only named.
#[verifier::external_body]
pub(crate) fn to_uppercase(text: &str) -> (r: String)
    ensures
        r@ == uppercase(text@),
{
    text.to_uppercase()
}

/// The characters of an optional text.
pub open spec fn opt_text(text: Option<String>) -> Option<Seq<char>> {
    match text {
        Some(t) => Some(t@),
        None => None,
    }
}

/// A result with the characters of its error text.
pub open spec fn result_text<T>(r: Result<T, String>) -> Result<T, Seq<char>> {
    match r {
        Ok(v) => Ok(v),
        Err(e) => Err(e@),
    }
}

/// A copy of an optional text.
pub fn clone_opt_text(text: &Option<String>) -> (r: Option<String>)
    ensures
        opt_text(r) == opt_text(*text),
{
    match text {
        Some(t) => Some(t.clone()),
        None => None,
    }
}

/// A text without the white space at its two ends, white space being what
/// Unicode calls so.
pub uninterp spec fn trimmed(text: Seq<char>) -> Seq<char>;

/// `str::trim`: the slice of `text` that is left when leading and trailing
/// white space is taken away.
#[verifier::external_body]
pub(crate) fn trim(text: &str) -> (r: &str)
    ensures
        r@ == trimmed(text@),
{
    text.trim()
}

/// The character of a decimal digit.
pub open spec fn digit_char(d: int) -> char {
    if d == 0 {
        '0'
    } else if d == 1 {
        '1'
    } else if d == 2 {
        '2'
    } else if d == 3 {
        '3'
    } else if d == 4 {
        '4'
    } else if d == 5 {
        '5'
    } else if d == 6 {
        '6'
    } else if d == 7 {
        '7'
    } else if d == 8 {
        '8'
    } else {
        '9'
    }
}

/// A natural number in decimal notation, without leading zeros.
pub open spec fn nat_text(n: nat) -> Seq<char>
    decreases n,
{
    if n < 10 {
        seq![digit_char(n as int)]
    } else {
        nat_text(n / 10).push(digit_char((n % 10) as int))
    }
}

/// An integer in decimal notation, with a minus sign where it is negative.
pub open spec fn int_text(v: int) -> Seq<char> {
    if v < 0 {
        seq!['-'] + nat_text((-v) as nat)
    } else {
        nat_text(v as nat)
    }
}

/// The text of one decimal digit.
fn digit_str(d: u64) -> (r: &'static str)
    requires
        d < 10,
    ensures
        r@ == seq![digit_char(d as int)],
{
    proof {
        reveal_strlit("0");
        reveal_strlit("1");
        reveal_strlit("2");
        reveal_strlit("3");
        reveal_strlit("4");
        reveal_strlit("5");
        reveal_strlit("6");
        reveal_strlit("7");
        reveal_strlit("8");
        reveal_strlit("9");
    }
    let r = if d == 0 {
        "0"
    } else if d == 1 {
        "1"
    } else if d == 2 {
        "2"
    } else if d == 3 {
        "3"
    } else if d == 4 {
        "4"
    } else if d == 5 {
        "5"
    } else if d == 6 {
        "6"
    } else if d == 7 {
        "7"
    } else if d == 8 {
        "8"
    } else {
        "9"
    };
    assert(r@ =~= seq![digit_char(d as int)]);
    r
}

/// A natural number in decimal notation.
pub fn nat_to_string(n: u64) -> (r: String)
    ensures
        r@ == nat_text(n as nat),
    decreases n,
{
    if n < 10 {
        digit_str(n).to_owned()
    } else {
        let r = nat_to_string(n / 10).concat(digit_str(n % 10));
        assert(r@ =~= nat_text((n / 10) as nat).push(digit_char((n % 10) as int)));
        r
    }
}

/// A 16-bit integer in decimal notation.
pub fn i16_to_string(value: i16) -> (r: String)
    ensures
        r@ == int_text(value as int),
{
    if value < 0 {
        proof {
            reveal_strlit("-");
        }
        let digits = nat_to_string((0 - (value as i64)) as u64);
        let r = "-".to_owned().concat(digits.as_str());
        assert(r@ =~= seq!['-'] + nat_text((-value) as nat));
        r
    } else {
        nat_to_string(value as u64)
    }
}

pub const DIGIT_ZERO: u8 = 48;

pub const DIGIT_NINE: u8 = 57;

pub const PLUS_SIGN: u8 = 43;

pub const MINUS_SIGN: u8 = 45;

pub const FULL_STOP: u8 = 46;

/// Whether a byte is one of the ASCII digits `0` to `9`.
pub open spec fn is_digit(b: u8) -> bool {
    DIGIT_ZERO <= b <= DIGIT_NINE
}

/// Whether every byte is an ASCII digit.
pub open spec fn all_digits(s: Seq<u8>) -> bool {
    forall|i: int| 0 <= i < s.len() ==> is_digit(#[trigger] s[i])
}

/// The number that a run of ASCII digits denotes in base ten; zero for the
/// empty run.
pub open spec fn digits_value(s: Seq<u8>) -> nat
    decreases s.len(),
{
    if s.len() == 0 {
        0
    } else {
        digits_value(s.drop_last()) * 10 + (s.last() - DIGIT_ZERO) as nat
    }
}

/// The number denoted by a non-empty run of digits.
pub open spec fn unsigned_numeral(s: Seq<u8>) -> Option<int> {
    if s.len() > 0 && all_digits(s) {
        Some(digits_value(s) as int)
    } else {
        None
    }
}

/// The integer that a decimal numeral denotes: an optional sign followed by
/// one or more digits. A minus sign is a numeral's sign only where `signed`
/// holds.
pub open spec fn numeral(s: Seq<u8>, signed: bool) -> Option<int> {
    if s.len() > 0 && s[0] == MINUS_SIGN && signed {
        match unsigned_numeral(s.skip(1)) {
            Some(v) => Some(-v),
            None => None,
        }
    } else if s.len() > 0 && s[0] == PLUS_SIGN {
        unsigned_numeral(s.skip(1))
    } else {
        unsigned_numeral(s)
    }
}

/// The numeral's value where it lies between `low` and `high`.
pub open spec fn numeral_within(s: Seq<u8>, signed: bool, low: int, high: int) -> Option<int> {
    match numeral(s, signed) {
        Some(v) => if low <= v <= high {
            Some(v)
        } else {
            None
        },
        None => None,
    }
}

/// The bytes of a text of ASCII characters: the code of each character.
pub open spec fn ascii_bytes(text: Seq<char>) -> Seq<u8> {
    Seq::new(text.len(), |i: int| text[i] as u8)
}

/// A number written in decimal notation is a run of digits that denotes the
/// number.
pub proof fn lemma_nat_text_reads_back(n: nat)
    ensures
        nat_text(n).len() >= 1,
        vstd::utf8::is_ascii_chars(nat_text(n)),
        all_digits(ascii_bytes(nat_text(n))),
        digits_value(ascii_bytes(nat_text(n))) == n,
    decreases n,
{
    let text = nat_text(n);
    let bytes = ascii_bytes(text);
    if n < 10 {
        assert(text =~= seq![digit_char(n as int)]);
        assert(bytes.drop_last() =~= Seq::<u8>::empty());
        assert(bytes.last() == DIGIT_ZERO + n);
        assert(digits_value(bytes.drop_last()) == 0);
        assert(digits_value(bytes) == digits_value(bytes.drop_last()) * 10 + (bytes.last()
            - DIGIT_ZERO));
    } else {
        lemma_nat_text_reads_back(n / 10);
        let front = nat_text(n / 10);
        assert(text =~= front.push(digit_char((n % 10) as int)));
        assert(bytes.drop_last() =~= ascii_bytes(front));
        assert(bytes.last() == DIGIT_ZERO + n % 10);
        assert(digits_value(bytes) == digits_value(bytes.drop_last()) * 10 + (bytes.last()
            - DIGIT_ZERO));
        assert forall|i: int| 0 <= i < bytes.len() implies is_digit(#[trigger] bytes[i]) by {
            if i < front.len() {
                assert(bytes[i] == ascii_bytes(front)[i]);
            }
        }
        assert forall|i: int| 0 <= i < text.len() implies '\0' <= #[trigger] text[i]
            <= '\u{7f}' by {
            if i < front.len() {
                assert(text[i] == front[i]);
            }
        }
    }
}

/// Zeros in front of a run of digits change neither that it is a run of
/// digits nor what it denotes.
pub proof fn lemma_leading_zeros(count: nat, s: Seq<u8>)
    requires
        all_digits(s),
    ensures
        all_digits(Seq::new(count, |i: int| DIGIT_ZERO) + s),
        digits_value(Seq::new(count, |i: int| DIGIT_ZERO) + s) == digits_value(s),
    decreases s.len(),
{
    let zeros = Seq::new(count, |i: int| DIGIT_ZERO);
    let all = zeros + s;
    assert forall|i: int| 0 <= i < all.len() implies is_digit(#[trigger] all[i]) by {
        if i >= count {
            assert(all[i] == s[i - count]);
        }
    }
    if s.len() == 0 {
        assert(all =~= zeros);
        lemma_zeros_denote_nothing(count);
    } else {
        assert(all.drop_last() =~= zeros + s.drop_last());
        assert(all.last() == s.last());
        assert forall|i: int| 0 <= i < s.drop_last().len() implies is_digit(
            #[trigger] s.drop_last()[i],
        ) by {
            assert(s.drop_last()[i] == s[i]);
        }
        lemma_leading_zeros(count, s.drop_last());
    }
}

/// A run of zeros denotes zero.
pub proof fn lemma_zeros_denote_nothing(count: nat)
    ensures
        digits_value(Seq::new(count, |i: int| DIGIT_ZERO)) == 0,
    decreases count,
{
    let zeros = Seq::new(count, |i: int| DIGIT_ZERO);
    if count > 0 {
        assert(zeros.drop_last() =~= Seq::new((count - 1) as nat, |i: int| DIGIT_ZERO));
        lemma_zeros_denote_nothing((count - 1) as nat);
    }
}

/// A longer run of digits never denotes less than one of its prefixes.
pub proof fn lemma_digits_value_prefix(s: Seq<u8>, k: int)
    requires
        0 <= k <= s.len(),
        all_digits(s),
    ensures
        digits_value(s.take(k)) <= digits_value(s),
    decreases s.len(),
{
    if k == s.len() {
        assert(s.take(k) =~= s);
    } else {
        assert(s.drop_last().take(k) =~= s.take(k));
        lemma_digits_value_prefix(s.drop_last(), k);
    }
}

/// Reads the digits `bytes[start..end]`. The result is their value, or `None`
/// where a byte is no digit or the value is above `limit`.
pub(crate) fn parse_digits(bytes: &[u8], start: usize, end: usize, limit: u64) -> (r: Option<u64>)
    requires
        start <= end <= bytes.len(),
        limit <= 1_000_000_000_000_000_000,
    ensures
        r == (if all_digits(bytes@.subrange(start as int, end as int)) && digits_value(
            bytes@.subrange(start as int, end as int),
        ) <= limit {
            Some(digits_value(bytes@.subrange(start as int, end as int)) as u64)
        } else {
            None
        }),
{
    let ghost run = bytes@.subrange(start as int, end as int);
    let mut acc: u64 = 0;
    let mut i: usize = start;
    while i < end
        invariant
            start <= i <= end <= bytes.len(),
            limit <= 1_000_000_000_000_000_000,
            run == bytes@.subrange(start as int, end as int),
            all_digits(run.take(i - start)),
            acc == digits_value(run.take(i - start)),
            acc <= limit,
        decreases end - i,
    {
        let b: u8 = bytes[i];
        assert(run[i - start] == b);
        if b < DIGIT_ZERO || b > DIGIT_NINE {
            return None;
        }
        proof {
            let longer = run.take(i - start + 1);
            assert(longer.drop_last() =~= run.take(i - start));
        }
        let next: u64 = acc * 10 + (b - DIGIT_ZERO) as u64;
        if next > limit {
            proof {
                if all_digits(run) {
                    lemma_digits_value_prefix(run, i - start + 1);
                }
            }
            return None;
        }
        acc = next;
        i = i + 1;
    }
    assert(run.take(i - start) =~= run);
    Some(acc)
}

/// Reads the decimal numeral `bytes[start..end]` and returns its value where
/// that lies between `low` and `high`.
pub(crate) fn parse_numeral(bytes: &[u8], start: usize, end: usize, signed: bool, low: i64, high: i64) -> (r:
    Option<i64>)
    requires
        start <= end <= bytes.len(),
        -1_000_000_000_000_000_000 <= low <= 0 <= high <= 1_000_000_000_000_000_000,
    ensures
        r == match numeral_within(
            bytes@.subrange(start as int, end as int),
            signed,
            low as int,
            high as int,
        ) {
            Some(v) => Some(v as i64),
            None => None,
        },
{
    let ghost s = bytes@.subrange(start as int, end as int);
    if start == end {
        return None;
    }
    let first: u8 = bytes[start];
    if first == MINUS_SIGN && signed {
        assert(s.skip(1) =~= bytes@.subrange(start + 1, end as int));
        if start + 1 == end {
            return None;
        }
        match parse_digits(bytes, start + 1, end, (0 - low) as u64) {
            Some(v) => Some(0 - (v as i64)),
            None => None,
        }
    } else if first == PLUS_SIGN {
        assert(s.skip(1) =~= bytes@.subrange(start + 1, end as int));
        if start + 1 == end {
            return None;
        }
        match parse_digits(bytes, start + 1, end, high as u64) {
            Some(v) => Some(v as i64),
            None => None,
        }
    } else {
        match parse_digits(bytes, start, end, high as u64) {
            Some(v) => Some(v as i64),
            None => None,
        }
    }
}

/// The value of a 16-bit signed decimal numeral.
pub open spec fn numeral_i16(text: Seq<char>) -> Option<i16> {
    match numeral_within(bytes_of(text), true, i16::MIN as int, i16::MAX as int) {
        Some(v) => Some(v as i16),
        None => None,
    }
}

/// Reads a 16-bit signed integer in decimal notation: an optional sign and
/// then digits, nothing else.
pub fn parse_i16(text: &str) -> (r: Option<i16>)
    ensures
        r == numeral_i16(text@),
{
    let bytes = text.as_bytes();
    assert(bytes@.subrange(0, bytes@.len() as int) =~= bytes@);
    match parse_numeral(bytes, 0, bytes.len(), true, -32768, 32767) {
        Some(v) => Some(v as i16),
        None => None,
    }
}

/// The first position at or after `from` that holds a full stop, or the
/// length of `s` where there is none.
pub open spec fn next_full_stop(s: Seq<u8>, from: int) -> int
    decreases s.len() - from,
{
    if from < 0 || from >= s.len() {
        s.len() as int
    } else if s[from] == FULL_STOP {
        from
    } else {
        next_full_stop(s, from + 1)
    }
}

/// The most that the whole part of an amount may be.
pub const MAX_WHOLE_AMOUNT: u64 = 1_000_000_000_000_000;

/// The hundredths that the digits after the point stand for: none, tenths,
/// or hundredths.
pub open spec fn hundredths(fraction: Seq<u8>) -> int {
    if fraction.len() == 1 {
        (digits_value(fraction) * 10) as int
    } else {
        digits_value(fraction) as int
    }
}

/// An amount of money in hundredths. The amount is written as digits with at
/// most one point and at most two digits after it, and with a digit
/// somewhere; its whole part is at most `MAX_WHOLE_AMOUNT`. Any other text
/// is no amount.
pub open spec fn amount_in_hundredths(s: Seq<u8>) -> Option<int> {
    let point = next_full_stop(s, 0);
    let whole = s.subrange(0, point);
    let fraction = if point < s.len() {
        s.subrange(point + 1, s.len() as int)
    } else {
        Seq::empty()
    };
    if all_digits(whole) && all_digits(fraction) && fraction.len() <= 2 && whole.len()
        + fraction.len() > 0 && digits_value(whole) <= MAX_WHOLE_AMOUNT {
        Some(digits_value(whole) * 100 + hundredths(fraction))
    } else {
        None
    }
}

/// The price that a text stands for, in the currency's minor unit.
pub open spec fn price_of(text: Seq<char>) -> Option<i64> {
    match amount_in_hundredths(bytes_of(text)) {
        Some(v) => Some(v as i64),
        None => None,
    }
}

/// The digits of a run of at most two digits denote less than a hundred.
pub proof fn lemma_two_digits(s: Seq<u8>)
    requires
        all_digits(s),
        s.len() <= 2,
    ensures
        s.len() == 0 ==> digits_value(s) == 0,
        s.len() == 1 ==> digits_value(s) <= 9,
        digits_value(s) <= 99,
{
    if s.len() >= 1 {
        let rest = s.drop_last();
        if rest.len() >= 1 {
            assert(digits_value(rest.drop_last()) == 0);
        }
        assert(digits_value(rest) <= 9);
    }
}

/// Reads a price written with at most two digits after the point and gives
/// it in the currency's minor unit.
pub fn parse_price(text: &str) -> (r: Option<i64>)
    ensures
        r == price_of(text@),
{
    let bytes = text.as_bytes();
    let mut point: usize = 0;
    while point < bytes.len() && bytes[point] != FULL_STOP
        invariant
            point <= bytes.len(),
            next_full_stop(bytes@, 0) == next_full_stop(bytes@, point as int),
        decreases bytes.len() - point,
    {
        point = point + 1;
    }
    let fraction_start: usize = if point < bytes.len() {
        point + 1
    } else {
        point
    };
    let ghost fraction = bytes@.subrange(fraction_start as int, bytes@.len() as int);
    let fraction_length: usize = bytes.len() - fraction_start;
    if fraction_length > 2 || point + fraction_length == 0 {
        return None;
    }
    let units = match parse_digits(bytes, 0, point, MAX_WHOLE_AMOUNT) {
        Some(v) => v,
        None => {
            return None;
        },
    };
    let parts = match parse_digits(bytes, fraction_start, bytes.len(), 99) {
        Some(v) => v,
        None => {
            proof {
                if all_digits(fraction) {
                    lemma_two_digits(fraction);
                }
            }
            return None;
        },
    };
    proof {
        lemma_two_digits(fraction);
    }
    let cents: u64 = if fraction_length == 1 {
        parts * 10
    } else {
        parts
    };
    Some((units * 100 + cents) as i64)
}

} // verus!
