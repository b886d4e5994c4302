//! The temperature sensor's text format.

use vstd::prelude::*;
use vstd::std_specs::iter::IteratorSpec;

verus! {

/// Why a sample could not be taken.
#[derive(Clone, Copy, Debug, PartialEq, Eq, Structural)]
pub enum SensorError {
    /// The sensor could not be read at all.
    Unreadable,
    /// What was read is not a temperature.
    Malformed,
}

impl SensorError {
    /// What failed, in words.
    pub open spec fn description(self) -> Seq<char> {
        match self {
            SensorError::Unreadable => "the temperature could not be read"@,
            SensorError::Malformed => "the temperature read is not a valid integer"@,
        }
    }

    /// What failed, in words.
    pub fn describe(&self) -> (text: &'static str)
        ensures
            text@ == self.description(),
    {
        match self {
            SensorError::Unreadable => "the temperature could not be read",
            SensorError::Malformed => "the temperature read is not a valid integer",
        }
    }
}

/// The characters with Unicode's `White_Space` property.
pub open spec fn is_whitespace(c: char) -> bool {
    let p = c as u32;
    ||| 0x09 <= p <= 0x0D
    ||| p == 0x20
    ||| p == 0x85
    ||| p == 0xA0
    ||| p == 0x1680
    ||| 0x2000 <= p <= 0x200A
    ||| p == 0x2028
    ||| p == 0x2029
    ||| p == 0x202F
    ||| p == 0x205F
    ||| p == 0x3000
}

/// The decimal digits `0` to `9`.
pub open spec fn is_digit(c: char) -> bool {
    '0' <= c <= '9'
}

/// What a digit counts for.
pub open spec fn digit_value(c: char) -> int {
    c as int - '0' as int
}

/// `s` without the whitespace it starts with.
pub open spec fn trim_start(s: Seq<char>) -> Seq<char>
    decreases s.len(),
{
    if s.len() > 0 && is_whitespace(s.first()) {
        trim_start(s.drop_first())
    } else {
        s
    }
}

/// `s` without the whitespace it ends with.
pub open spec fn trim_end(s: Seq<char>) -> Seq<char>
    decreases s.len(),
{
    if s.len() > 0 && is_whitespace(s.last()) {
        trim_end(s.drop_last())
    } else {
        s
    }
}

/// `s` without the whitespace around it.
pub open spec fn trim(s: Seq<char>) -> Seq<char> {
    trim_end(trim_start(s))
}

/// Every character of `s` is a decimal digit.
pub open spec fn all_digits(s: Seq<char>) -> bool {
    forall|i: int| 0 <= i < s.len() ==> is_digit(#[trigger] s[i])
}

/// The number that a run of digits writes in base ten; leading zeros count for nothing.
pub open spec fn decimal_value(digits: Seq<char>) -> int
    decreases digits.len(),
{
    if digits.len() == 0 {
        0
    } else {
        10 * decimal_value(digits.drop_last()) + digit_value(digits.last())
    }
}

/// The number that `s` writes if it is one or more digits and nothing else.
pub open spec fn unsigned_decimal(s: Seq<char>) -> Option<int> {
    if s.len() > 0 && all_digits(s) {
        Some(decimal_value(s))
    } else {
        None
    }
}

/// The integer that `s` writes: an optional `+` or `-`, then one or more digits.
pub open spec fn signed_decimal(s: Seq<char>) -> Option<int> {
    if s.len() > 0 && s.first() == '-' {
        match unsigned_decimal(s.drop_first()) {
            Some(v) => Some(-v),
            None => None,
        }
    } else if s.len() > 0 && s.first() == '+' {
        unsigned_decimal(s.drop_first())
    } else {
        unsigned_decimal(s)
    }
}

/// The temperature, in thousandths of a degree Celsius, that the sensor's
/// text holds: a signed decimal integer that fits in an `i32`, with any
/// whitespace around it. `None` where the text is anything else.
pub open spec fn reading(text: Seq<char>) -> Option<i32> {
    match signed_decimal(trim(text)) {
        Some(v) => if i32::MIN <= v <= i32::MAX {
            Some(v as i32)
        } else {
            None
        },
        None => None,
    }
}

/// What a sample is worth, given what reading the sensor brought back:
/// its text, or nothing where it could not be read.
pub open spec fn sample_of(contents: Option<Seq<char>>) -> Result<i32, SensorError> {
    match contents {
        None => Err(SensorError::Unreadable),
        Some(text) => match reading(text) {
            Some(t) => Ok(t),
            None => Err(SensorError::Malformed),
        },
    }
}

/// Where the first `k` characters of `s` are whitespace and the next one, if
/// there is one, is not, what follows them is `s` trimmed at its start.
proof fn lemma_trim_start(s: Seq<char>, k: int)
    requires
        0 <= k <= s.len(),
        forall|i: int| 0 <= i < k ==> is_whitespace(#[trigger] s[i]),
        k == s.len() || !is_whitespace(s[k]),
    ensures
        trim_start(s) == s.subrange(k, s.len() as int),
    decreases k,
{
    if k == 0 {
        assert(s.subrange(0, s.len() as int) =~= s);
    } else {
        assert(is_whitespace(s[0]));
        let rest = s.drop_first();
        assert forall|i: int| 0 <= i < k - 1 implies is_whitespace(#[trigger] rest[i]) by {
            assert(rest[i] == s[i + 1]);
        }
        lemma_trim_start(rest, k - 1);
        assert(rest.subrange(k - 1, rest.len() as int) =~= s.subrange(k, s.len() as int));
    }
}

/// Where the characters of `s` from `k` on are whitespace and the one before
/// them, if there is one, is not, the first `k` are `s` trimmed at its end.
proof fn lemma_trim_end(s: Seq<char>, k: int)
    requires
        0 <= k <= s.len(),
        forall|i: int| k <= i < s.len() ==> is_whitespace(#[trigger] s[i]),
        k == 0 || !is_whitespace(s[k - 1]),
    ensures
        trim_end(s) == s.subrange(0, k),
    decreases s.len() - k,
{
    if k == s.len() {
        assert(s.subrange(0, k) =~= s);
    } else {
        assert(is_whitespace(s[s.len() - 1]));
        let rest = s.drop_last();
        assert forall|i: int| k <= i < rest.len() implies is_whitespace(#[trigger] rest[i]) by {
            assert(rest[i] == s[i]);
        }
        lemma_trim_end(rest, k);
        assert(rest.subrange(0, k) =~= s.subrange(0, k));
    }
}

/// A run of digits is worth at least as much as any run it starts with.
proof fn lemma_decimal_value_prefix(s: Seq<char>, k: int)
    requires
        all_digits(s),
        0 <= k <= s.len(),
    ensures
        0 <= decimal_value(s.take(k)) <= decimal_value(s),
    decreases s.len(),
{
    if s.len() == 0 {
        assert(s.take(k) =~= s);
    } else if k == s.len() {
        assert(s.take(k) =~= s);
        lemma_decimal_value_prefix(s.drop_last(), k - 1);
        assert(is_digit(s[s.len() - 1]));
    } else {
        let front = s.drop_last();
        assert(is_digit(s[s.len() - 1]));
        lemma_decimal_value_prefix(front, k);
        lemma_decimal_value_prefix(front, front.len() as int);
        assert(front.take(front.len() as int) =~= front);
        assert(front.take(k) =~= s.take(k));
    }
}

/// Whether `c` is whitespace.
fn whitespace(c: char) -> (r: bool)
    ensures
        r == is_whitespace(c),
{
    let p: u32 = c as u32;
    (0x09 <= p && p <= 0x0D) || p == 0x20 || p == 0x85 || p == 0xA0 || p == 0x1680 || (0x2000 <= p
        && p <= 0x200A) || p == 0x2028 || p == 0x2029 || p == 0x202F || p == 0x205F || p == 0x3000
}

/// The characters of `text`, one by one.
fn chars_of(text: &str) -> (v: Vec<char>)
    ensures
        v@ == text@,
{
    let mut v: Vec<char> = Vec::new();
    for c in it: text.chars()
        invariant
            it.seq() == text@,
            v@ == it.seq().take(it.index()),
    {
        v.push(c);
    }
    v
}

/// Where the text starts and ends once the whitespace around it is left out.
fn trim_bounds(v: &Vec<char>) -> (b: (usize, usize))
    ensures
        b.0 <= b.1 <= v.len(),
        trim(v@) == v@.subrange(b.0 as int, b.1 as int),
{
    let n = v.len();
    let mut start: usize = 0;
    while start < n && whitespace(v[start])
        invariant
            start <= n == v.len(),
            forall|i: int| 0 <= i < start ==> is_whitespace(#[trigger] v@[i]),
        decreases n - start,
    {
        start += 1;
    }
    let mut end: usize = n;
    while end > start && whitespace(v[end - 1])
        invariant
            start <= end <= n == v.len(),
            forall|i: int| end <= i < n ==> is_whitespace(#[trigger] v@[i]),
        decreases end,
    {
        end -= 1;
    }
    proof {
        lemma_trim_start(v@, start as int);
        let rest = v@.subrange(start as int, n as int);
        assert forall|i: int| end - start <= i < rest.len() implies is_whitespace(
            #[trigger] rest[i],
        ) by {
            assert(rest[i] == v@[start + i]);
        }
        lemma_trim_end(rest, end - start);
        assert(rest.subrange(0, end - start) =~= v@.subrange(start as int, end as int));
    }
    (start, end)
}

/// The largest magnitude that a reading can have: that of `i32::MIN`.
const MAGNITUDE_LIMIT: i64 = 0x8000_0000;

/// The number that the digits from `from` up to `to` write, as far as it
/// does not exceed `MAGNITUDE_LIMIT`.
fn parse_digits(v: &Vec<char>, from: usize, to: usize) -> (r: Option<i64>)
    requires
        from <= to <= v.len(),
    ensures
        match r {
            Some(m) => 0 <= m <= MAGNITUDE_LIMIT && unsigned_decimal(
                v@.subrange(from as int, to as int),
            ) == Some(m as int),
            None => match unsigned_decimal(v@.subrange(from as int, to as int)) {
                Some(m) => m > MAGNITUDE_LIMIT,
                None => true,
            },
        },
{
    let ghost digits = v@.subrange(from as int, to as int);
    if from == to {
        return None;
    }
    let mut acc: i64 = 0;
    let mut i: usize = from;
    while i < to
        invariant
            from <= i <= to <= v.len(),
            digits == v@.subrange(from as int, to as int),
            all_digits(digits.take(i - from)),
            acc == decimal_value(digits.take(i - from)),
            0 <= acc <= MAGNITUDE_LIMIT,
        decreases to - i,
    {
        let c = v[i];
        let ghost seen = digits.take(i - from);
        let ghost more = digits.take(i - from + 1);
        proof {
            assert(digits[i - from] == c);
            assert(more.drop_last() =~= seen);
            assert(more.last() == c);
        }
        if !('0' <= c && c <= '9') {
            return None;
        }
        let d: i64 = (c as u32 - '0' as u32) as i64;
        let next: i64 = acc * 10 + d;
        proof {
            assert(next == decimal_value(more));
            assert forall|j: int| 0 <= j < more.len() implies is_digit(#[trigger] more[j]) by {
                if j < seen.len() {
                    assert(more[j] == seen[j]);
                }
            }
        }
        if next > MAGNITUDE_LIMIT {
            proof {
                if all_digits(digits) {
                    lemma_decimal_value_prefix(digits, i - from + 1);
                }
            }
            return None;
        }
        acc = next;
        i += 1;
    }
    proof {
        assert(digits.take(to - from) =~= digits);
    }
    Some(acc)
}

/// Reads the temperature that the sensor's text holds.
///
/// The text is a decimal integer in thousandths of a degree Celsius, with an
/// optional sign and any whitespace around it. Anything else, or a number
/// that does not fit in an `i32`, is `SensorError::Malformed`.
pub fn parse_temperature(text: &str) -> (r: Result<i32, SensorError>)
    ensures
        r == sample_of(Some(text@)),
{
    let v = chars_of(text);
    let (start, end) = trim_bounds(&v);
    let ghost trimmed = v@.subrange(start as int, end as int);
    if start == end {
        return Err(SensorError::Malformed);
    }
    let first = v[start];
    let signed = first == '-' || first == '+';
    let digits_from = if signed {
        start + 1
    } else {
        start
    };
    proof {
        assert(trimmed.first() == first);
        assert(trimmed.drop_first() =~= v@.subrange(start + 1, end as int));
    }
    match parse_digits(&v, digits_from, end) {
        None => Err(SensorError::Malformed),
        Some(m) => {
            if first == '-' {
                Ok((-m) as i32)
            } else if m < MAGNITUDE_LIMIT {
                Ok(m as i32)
            } else {
                Err(SensorError::Malformed)
            }
        },
    }
}

/// Makes a sample of what reading the sensor brought back: `contents` is the
/// sensor's text, or `None` where the sensor could not be read.
pub fn sample(contents: Option<&str>) -> (r: Result<i32, SensorError>)
    ensures
        r == sample_of(
            match contents {
                Some(text) => Some(text@),
                None => None,
            },
        ),
{
    match contents {
        Some(text) => parse_temperature(text),
        None => Err(SensorError::Unreadable),
    }
}

} // verus!
