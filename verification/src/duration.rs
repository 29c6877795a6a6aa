//! The duration resolver: reads the total duration of a media file from the
//! one line that the inspection tool prints for it.
//!
//! The line is a decimal number of seconds, such as `120.045000`, with or
//! without an exponent, as in `1.2e2`. Durations are kept as whole
//! nanoseconds; what a number holds below one nanosecond is checked and then
//! dropped. A duration of zero is an error, never "unknown".

use vstd::prelude::*;
use crate::text::{
    all_digits, ascii_digit_value, chars_of, digit_value, digits_value, is_ascii_digit, is_digit,
};

verus! {

/// The total duration of a media file: a positive number of nanoseconds.
#[derive(Clone, Copy, Debug, PartialEq, Eq)]
pub struct MediaDuration {
    nanos: u64,
}

/// How many decimal places of a number of seconds make a nanosecond.
pub const NANO_PLACES: usize = 9;

/// The magnitude from which on an exponent is out of every range that
/// matters: ten to the power thirty.
pub const EXPONENT_LIMIT: u128 = 1_000_000_000_000_000_000_000_000_000_000;

/// Why a line states no duration.
#[derive(Clone, Copy, Debug, PartialEq, Eq, Structural)]
pub enum DurationFault {
    /// The line is empty but for white space.
    Empty,
    /// The line is not a decimal number.
    NotANumber,
    /// The number is zero, and a duration of zero is none.
    Zero,
    /// The number does not fit the 64 bits that hold a duration.
    TooLarge,
}

/// `c` has the Unicode property White_Space, which is what trimming a line
/// removes from its ends.
pub open spec fn is_space(c: char) -> bool {
    let v = c as u32;
    ||| 0x09 <= v <= 0x0D
    ||| v == 0x20
    ||| v == 0x85
    ||| v == 0xA0
    ||| v == 0x1680
    ||| 0x2000 <= v <= 0x200A
    ||| v == 0x2028
    ||| v == 0x2029
    ||| v == 0x202F
    ||| v == 0x205F
    ||| v == 0x3000
}

/// The first position at or after `from` that holds no white space, or the
/// length of `s` if there is none.
pub open spec fn content_start(s: Seq<char>, from: int) -> int
    decreases s.len() - from,
{
    if 0 <= from < s.len() && is_space(s[from]) {
        content_start(s, from + 1)
    } else {
        from
    }
}

/// The end of the last run of non-space characters that ends at or before
/// `to`, or zero if there is none.
pub open spec fn content_end(s: Seq<char>, to: int) -> int
    decreases to,
{
    if 0 < to <= s.len() && is_space(s[to - 1]) {
        content_end(s, to - 1)
    } else {
        to
    }
}

/// `s` without the white space at its two ends.
pub open spec fn trimmed(s: Seq<char>) -> Seq<char> {
    let start = content_start(s, 0);
    let end = content_end(s, s.len() as int);
    if start < end {
        s.subrange(start, end)
    } else {
        Seq::empty()
    }
}

/// The first position at or after `from` that holds no ASCII digit, or the
/// length of `s` if there is none.
pub open spec fn digits_end(s: Seq<char>, from: int) -> int
    decreases s.len() - from,
{
    if 0 <= from < s.len() && is_digit(s[from]) {
        digits_end(s, from + 1)
    } else {
        from
    }
}

/// `s` without a leading plus sign.
pub open spec fn unsigned_part(s: Seq<char>) -> Seq<char> {
    if s.len() > 0 && s[0] == '+' {
        s.drop_first()
    } else {
        s
    }
}

/// Ten to the power `e`.
pub open spec fn pow10(e: nat) -> nat
    decreases e,
{
    if e == 0 {
        1
    } else {
        10 * pow10((e - 1) as nat)
    }
}

/// A run of `count` zeros.
pub open spec fn zeros(count: nat) -> Seq<char> {
    Seq::new(count, |i: int| '0')
}

/// The first `length` of the digits `digits`, which zeros follow without
/// end; nothing where `length` is not positive.
pub open spec fn scaled_digits(digits: Seq<char>, length: int) -> Seq<char> {
    if length <= 0 {
        Seq::empty()
    } else if length <= digits.len() {
        digits.take(length)
    } else {
        digits + zeros((length - digits.len()) as nat)
    }
}

/// Where the mantissa of an unsigned number text ends: after the digits
/// before the point and, if a point follows them, after the digits behind
/// it.
pub open spec fn mantissa_end(body: Seq<char>) -> int {
    let point = digits_end(body, 0);
    if point < body.len() && body[point] == '.' {
        digits_end(body, point + 1)
    } else {
        point
    }
}

/// The digits before the decimal point of an unsigned number text.
pub open spec fn whole_digits(body: Seq<char>) -> Seq<char> {
    body.take(digits_end(body, 0))
}

/// The digits after the decimal point of an unsigned number text; empty if
/// it has no point.
pub open spec fn fraction_digits(body: Seq<char>) -> Seq<char> {
    let point = digits_end(body, 0);
    if point < body.len() && body[point] == '.' {
        body.subrange(point + 1, mantissa_end(body))
    } else {
        Seq::empty()
    }
}

/// Where the digits of the exponent start, if the text has an exponent:
/// behind the marker and the sign, if there is one.
pub open spec fn exponent_start(body: Seq<char>) -> int {
    let sign = mantissa_end(body) + 1;
    if sign < body.len() && (body[sign] == '+' || body[sign] == '-') {
        sign + 1
    } else {
        sign
    }
}

/// The digits of the exponent of an unsigned number text; empty if it has
/// none.
pub open spec fn exponent_digits(body: Seq<char>) -> Seq<char> {
    if exponent_start(body) <= body.len() {
        body.skip(exponent_start(body))
    } else {
        Seq::empty()
    }
}

/// The exponent of an unsigned number text; zero if it has none.
pub open spec fn exponent(body: Seq<char>) -> int {
    let sign = mantissa_end(body) + 1;
    if sign < body.len() && body[sign] == '-' {
        -(digits_value(exponent_digits(body)) as int)
    } else {
        digits_value(exponent_digits(body)) as int
    }
}

/// `body` is a decimal number: digits, optionally followed by a point and
/// more digits, with at least one digit in all; then, optionally, the
/// letter `e` in either case, a sign or none, and at least one digit.
pub open spec fn is_decimal_number(body: Seq<char>) -> bool {
    let end = mantissa_end(body);
    &&& whole_digits(body).len() + fraction_digits(body).len() > 0
    &&& end < body.len() ==> {
        &&& body[end] == 'e' || body[end] == 'E'
        &&& exponent_digits(body).len() > 0
        &&& all_digits(exponent_digits(body))
    }
}

/// The value of a decimal number text in whole nanoseconds: what its
/// digits read as once the point has moved nine places to the right and as
/// many more as the exponent says, with all behind the point dropped.
pub open spec fn decimal_nanos(body: Seq<char>) -> nat
    recommends
        is_decimal_number(body),
{
    digits_value(
        scaled_digits(
            whole_digits(body) + fraction_digits(body),
            whole_digits(body).len() + NANO_PLACES + exponent(body),
        ),
    )
}

/// What a line of the inspection tool resolves to: the nanoseconds it
/// states, if it is a decimal number, optionally signed with a plus and
/// surrounded by white space, whose value is positive and fits 64 bits.
/// Everything else, the empty line included, resolves to nothing.
pub open spec fn parsed_duration(text: Seq<char>) -> Option<nat> {
    let body = unsigned_part(trimmed(text));
    if is_decimal_number(body) && 0 < decimal_nanos(body) <= u64::MAX {
        Some(decimal_nanos(body))
    } else {
        None
    }
}

/// Why a line that resolves to nothing does so.
pub open spec fn duration_fault(text: Seq<char>) -> DurationFault
    recommends
        parsed_duration(text) is None,
{
    let body = unsigned_part(trimmed(text));
    if trimmed(text).len() == 0 {
        DurationFault::Empty
    } else if !is_decimal_number(body) {
        DurationFault::NotANumber
    } else if decimal_nanos(body) == 0 {
        DurationFault::Zero
    } else {
        DurationFault::TooLarge
    }
}

/// What a line of the inspection tool comes to: its duration in
/// nanoseconds, or the reason why it states none.
pub open spec fn text_duration(text: Seq<char>) -> Result<nat, DurationFault> {
    match parsed_duration(text) {
        Some(nanos) => Ok(nanos),
        None => Err(duration_fault(text)),
    }
}

/// The reason why a line states no duration, in words.
pub open spec fn fault_text(fault: DurationFault) -> Seq<char> {
    match fault {
        DurationFault::Empty => "cannot parse float from empty string"@,
        DurationFault::NotANumber => "invalid float literal"@,
        DurationFault::Zero => "duration is zero"@,
        DurationFault::TooLarge => "duration is out of range"@,
    }
}

impl DurationFault {
    /// The fault in words.
    pub fn reason(&self) -> (text: &'static str)
        ensures
            text@ == fault_text(*self),
    {
        match self {
            DurationFault::Empty => "cannot parse float from empty string",
            DurationFault::NotANumber => "invalid float literal",
            DurationFault::Zero => "duration is zero",
            DurationFault::TooLarge => "duration is out of range",
        }
    }
}

impl MediaDuration {
    #[verifier::type_invariant]
    spec fn positive(self) -> bool {
        self.nanos > 0
    }

    /// The duration in nanoseconds.
    pub closed spec fn nanos(self) -> nat {
        self.nanos as nat
    }

    /// A duration of `nanos` nanoseconds; zero is no duration.
    pub fn from_nanos(nanos: u64) -> (r: Option<MediaDuration>)
        ensures
            nanos == 0 <==> r is None,
            r matches Some(d) ==> d.nanos() == nanos,
    {
        if nanos == 0 {
            None
        } else {
            Some(MediaDuration { nanos })
        }
    }

    /// The duration in nanoseconds, which is never zero.
    pub fn as_nanos(&self) -> (n: u64)
        ensures
            n == self.nanos(),
            n > 0,
    {
        proof {
            use_type_invariant(self);
        }
        self.nanos
    }
}

/// What `digits_end` finds: only digits from `from` up to it, none at it.
proof fn lemma_digits_end(s: Seq<char>, from: int)
    requires
        0 <= from <= s.len(),
    ensures
        from <= digits_end(s, from) <= s.len(),
        forall|i: int| from <= i < digits_end(s, from) ==> is_digit(#[trigger] s[i]),
        digits_end(s, from) < s.len() ==> !is_digit(s[digits_end(s, from)]),
    decreases s.len() - from,
{
    if from < s.len() && is_digit(s[from]) {
        lemma_digits_end(s, from + 1);
    }
}

/// A run of digits is worth at least as much as any of its prefixes.
proof fn lemma_prefix_value(s: Seq<char>, k: int)
    requires
        0 <= k <= s.len(),
    ensures
        digits_value(s.take(k)) <= digits_value(s),
    decreases s.len(),
{
    if k == s.len() {
        assert(s.take(k) == s);
    } else {
        lemma_prefix_value(s.drop_last(), k);
        assert(s.drop_last().take(k) == s.take(k));
    }
}

/// Every zero appended to a run of digits multiplies its worth by ten.
proof fn lemma_padded_value(digits: Seq<char>, count: nat)
    ensures
        digits_value(digits + zeros(count)) == digits_value(digits) * pow10(count),
    decreases count,
{
    let worth = digits_value(digits);
    if count == 0 {
        assert(digits + zeros(0) == digits);
        assert(pow10(0) == 1);
        assert(worth * 1 == worth);
    } else {
        let less = pow10((count - 1) as nat);
        let shorter = digits + zeros((count - 1) as nat);
        let padded = digits + zeros(count);
        lemma_padded_value(digits, (count - 1) as nat);
        assert(padded.drop_last() == shorter);
        assert(padded.last() == '0');
        assert(digits_value(padded) == digits_value(shorter) * 10);
        assert(pow10(count) == 10 * less);
        assert(worth * less * 10 == worth * (10 * less)) by (nonlinear_arith);
    }
}

/// Twenty zeros and more carry any digits but zero beyond 64 bits.
proof fn lemma_far_padding(digits: Seq<char>, length: int)
    requires
        length >= digits.len() + 20,
    ensures
        digits_value(digits) == 0 ==> digits_value(scaled_digits(digits, length)) == 0,
        digits_value(digits) > 0 ==> digits_value(scaled_digits(digits, length)) > u64::MAX,
    decreases length,
{
    let count = (length - digits.len()) as nat;
    lemma_padded_value(digits, count);
    lemma_power_of_twenty(count);
    assert(digits_value(digits) > 0 ==> digits_value(digits) * pow10(count) >= pow10(count))
        by (nonlinear_arith);
    assert(digits_value(digits) == 0 ==> digits_value(digits) * pow10(count) == 0)
        by (nonlinear_arith);
}

/// Ten to the power twenty or more does not fit 64 bits.
proof fn lemma_power_of_twenty(e: nat)
    requires
        e >= 20,
    ensures
        pow10(e) > u64::MAX,
    decreases e,
{
    if e == 20 {
        reveal_with_fuel(pow10, 21);
    } else {
        lemma_power_of_twenty((e - 1) as nat);
    }
}

/// Tells whether `c` is white space.
pub fn is_white_space(c: char) -> (r: bool)
    ensures
        r == is_space(c),
{
    let v: u32 = c as u32;
    (0x09 <= v && v <= 0x0D) || v == 0x20 || v == 0x85 || v == 0xA0 || v == 0x1680 || (0x2000 <= v
        && v <= 0x200A) || v == 0x2028 || v == 0x2029 || v == 0x202F || v == 0x205F || v == 0x3000
}

/// Copies out the text between the white space at the two ends of `s`.
fn trimmed_text(s: &Vec<char>) -> (inner: Vec<char>)
    ensures
        inner@ == trimmed(s@),
{
    let n = s.len();
    let mut start: usize = 0;
    while start < n && is_white_space(s[start])
        invariant
            start <= n,
            n == s.len(),
            content_start(s@, 0) == content_start(s@, start as int),
        decreases n - start,
    {
        start += 1;
    }
    let mut end: usize = n;
    while end > 0 && is_white_space(s[end - 1])
        invariant
            end <= n,
            n == s.len(),
            content_end(s@, n as int) == content_end(s@, end as int),
        decreases end,
    {
        end -= 1;
    }
    if start < end {
        copy_range(s, start, end)
    } else {
        Vec::new()
    }
}

/// Copies out the characters of `s` from `from` up to `to`.
fn copy_range(s: &Vec<char>, from: usize, to: usize) -> (part: Vec<char>)
    requires
        from <= to <= s.len(),
    ensures
        part@ == s@.subrange(from as int, to as int),
{
    let mut part: Vec<char> = Vec::new();
    let mut i: usize = from;
    while i < to
        invariant
            from <= i <= to <= s.len(),
            part@ == s@.subrange(from as int, i as int),
        decreases to - i,
    {
        part.push(s[i]);
        i += 1;
    }
    part
}

/// Copies out `s` without a leading plus sign.
fn without_sign(s: &Vec<char>) -> (body: Vec<char>)
    ensures
        body@ == unsigned_part(s@),
{
    let first: usize = if s.len() > 0 && s[0] == '+' { 1 } else { 0 };
    let body = copy_range(s, first, s.len());
    assert(s@.subrange(0, s@.len() as int) == s@);
    body
}

/// Finds where the run of digits that starts at `from` ends.
fn scan_digits(body: &Vec<char>, from: usize) -> (e: usize)
    requires
        from <= body.len(),
    ensures
        e == digits_end(body@, from as int),
        from <= e <= body.len(),
{
    let mut e: usize = from;
    while e < body.len() && is_ascii_digit(body[e])
        invariant
            from <= e <= body.len(),
            digits_end(body@, from as int) == digits_end(body@, e as int),
        decreases body.len() - e,
    {
        e += 1;
    }
    e
}

/// The worth of the digits of an exponent, or `None` where it reaches the
/// limit from which on exponents are all alike.
fn exponent_value(digits: &Vec<char>) -> (r: Option<u128>)
    requires
        all_digits(digits@),
    ensures
        match r {
            Some(v) => v == digits_value(digits@) && v < EXPONENT_LIMIT,
            None => digits_value(digits@) >= EXPONENT_LIMIT,
        },
{
    let mut acc: u128 = 0;
    let mut i: usize = 0;
    while i < digits.len()
        invariant
            i <= digits.len(),
            all_digits(digits@),
            acc == digits_value(digits@.take(i as int)),
            acc < EXPONENT_LIMIT,
        decreases digits.len() - i,
    {
        let d: u128 = ascii_digit_value(digits[i]) as u128;
        proof {
            assert(digits@.take(i + 1).drop_last() == digits@.take(i as int));
            lemma_prefix_value(digits@, i + 1);
        }
        let next: u128 = acc * 10 + d;
        if next >= EXPONENT_LIMIT {
            return None;
        }
        acc = next;
        i += 1;
    }
    assert(digits@.take(digits@.len() as int) == digits@);
    Some(acc)
}

/// The worth of the first `length` of `digits` and the zeros that follow
/// them, or `None` where it does not fit 64 bits.
fn scaled_value(digits: &Vec<char>, length: i128) -> (r: Option<u64>)
    requires
        all_digits(digits@),
    ensures
        match r {
            Some(v) => v == digits_value(scaled_digits(digits@, length as int)),
            None => digits_value(scaled_digits(digits@, length as int)) > u64::MAX,
        },
{
    let ghost scaled = scaled_digits(digits@, length as int);
    if length <= 0 {
        return Some(0);
    }
    let taken: usize = if length <= digits.len() as i128 { length as usize } else { digits.len() };
    let mut acc: u64 = 0;
    let mut i: usize = 0;
    while i < taken
        invariant
            i <= taken <= digits.len(),
            taken <= length,
            all_digits(digits@),
            scaled == scaled_digits(digits@, length as int),
            acc == digits_value(digits@.take(i as int)),
        decreases taken - i,
    {
        let d: u64 = ascii_digit_value(digits[i]) as u64;
        proof {
            assert(digits@.take(i + 1).drop_last() == digits@.take(i as int));
            assert(scaled.take(i + 1) == digits@.take(i + 1));
            lemma_prefix_value(scaled, i + 1);
        }
        let next = match acc.checked_mul(10) {
            Some(t) => t.checked_add(d),
            None => None,
        };
        match next {
            Some(v) => {
                acc = v;
            },
            None => {
                return None;
            },
        }
        i += 1;
    }
    if length <= digits.len() as i128 {
        return Some(acc);
    }
    assert(digits@.take(digits@.len() as int) == digits@);
    let missing: i128 = length - digits.len() as i128;
    if acc == 0 {
        proof {
            lemma_padded_value(digits@, missing as nat);
            assert(digits_value(digits@) * pow10(missing as nat) == 0) by (nonlinear_arith)
                requires
                    digits_value(digits@) == 0,
            ;
        }
        return Some(0);
    }
    let mut j: i128 = 0;
    assert(digits@ + zeros(0) == digits@);
    while j < missing
        invariant
            0 <= j <= missing,
            missing == length - digits.len(),
            scaled == digits@ + zeros(missing as nat),
            acc == digits_value(digits@ + zeros(j as nat)),
        decreases missing - j,
    {
        proof {
            let longer = digits@ + zeros((j + 1) as nat);
            assert(longer.drop_last() == digits@ + zeros(j as nat));
            assert(longer.last() == '0');
            assert(scaled.take(digits@.len() + j + 1) == longer);
            lemma_prefix_value(scaled, digits@.len() + j + 1);
        }
        match acc.checked_mul(10) {
            Some(v) => {
                acc = v;
            },
            None => {
                return None;
            },
        }
        j += 1;
    }
    Some(acc)
}

/// Resolves the duration that a line of the inspection tool states. The
/// line may carry white space at its ends, as a trailing newline; it must
/// hold a decimal number of seconds greater than zero, with or without an
/// exponent. Where it does not, the reason is returned.
pub fn parse_duration(text: &str) -> (r: Result<MediaDuration, DurationFault>)
    ensures
        match text_duration(text@) {
            Ok(nanos) => r matches Ok(d) && d.nanos() == nanos,
            Err(fault) => r == Err::<MediaDuration, DurationFault>(fault),
        },
{
    let s = chars_of(text);
    let inner = trimmed_text(&s);
    if inner.len() == 0 {
        return Err(DurationFault::Empty);
    }
    let body = without_sign(&inner);
    let n = body.len();
    let point = scan_digits(&body, 0);
    proof {
        lemma_digits_end(body@, 0);
    }
    let pointed = point < n && body[point] == '.';
    let behind: usize = if pointed { point + 1 } else { point };
    let end = if pointed { scan_digits(&body, behind) } else { point };
    proof {
        lemma_digits_end(body@, behind as int);
        assert(end == mantissa_end(body@));
    }
    if point + (end - behind) == 0 {
        return Err(DurationFault::NotANumber);
    }
    let mut digits = copy_range(&body, 0, point);
    let mut fraction = copy_range(&body, behind, end);
    assert(digits@ == whole_digits(body@));
    assert(fraction@ == fraction_digits(body@));
    digits.append(&mut fraction);
    assert(all_digits(digits@));
    let mut negative = false;
    let mut magnitude: Option<u128> = Some(0);
    if end < n {
        if body[end] != 'e' && body[end] != 'E' {
            return Err(DurationFault::NotANumber);
        }
        let sign = end + 1;
        let signed = sign < n && (body[sign] == '+' || body[sign] == '-');
        negative = sign < n && body[sign] == '-';
        let start: usize = if signed { sign + 1 } else { sign };
        assert(start == exponent_start(body@));
        let stop = scan_digits(&body, start);
        proof {
            lemma_digits_end(body@, start as int);
        }
        if stop < n {
            assert(!is_digit(body@.skip(start as int)[stop - start]));
            return Err(DurationFault::NotANumber);
        }
        if start == n {
            return Err(DurationFault::NotANumber);
        }
        let places = copy_range(&body, start, n);
        assert(places@ == exponent_digits(body@));
        magnitude = exponent_value(&places);
    } else {
        assert(exponent_digits(body@).len() == 0);
    }
    assert(is_decimal_number(body@));
    let ghost length = whole_digits(body@).len() + NANO_PLACES + exponent(body@);
    let value = match magnitude {
        Some(shift) => {
            let base: i128 = point as i128 + NANO_PLACES as i128;
            let target: i128 = if negative { base - shift as i128 } else { base + shift as i128 };
            assert(target == length);
            scaled_value(&digits, target)
        },
        None => {
            if negative {
                assert(length <= 0);
                Some(0)
            } else {
                let far: i128 = digits.len() as i128 + 20;
                proof {
                    lemma_far_padding(digits@, far as int);
                    lemma_far_padding(digits@, length);
                }
                scaled_value(&digits, far)
            }
        },
    };
    match value {
        Some(nanos) => match MediaDuration::from_nanos(nanos) {
            Some(duration) => Ok(duration),
            None => Err(DurationFault::Zero),
        },
        None => Err(DurationFault::TooLarge),
    }
}

} // verus!
