//! Timestamps, time spans, and the two text parsers.
//!
//! An [`Instant`] is an absolute point in time (UTC), a [`Span`] a signed
//! duration; both are held as whole nanoseconds in an `i128`, wide enough
//! for every value the underlying calendar crates can produce, with room
//! left for interval arithmetic.

use vstd::prelude::*;

verus! {

/// Nanoseconds in one second.
pub const NANOS_PER_SEC: i128 = 1000000000;

/// The largest magnitude a parsed [`Span`] may have, in nanoseconds:
/// `i64::MAX` milliseconds, the bound the chrono crate puts on a duration
/// converted from `std::time::Duration`.
pub const SPAN_ABS_MAX_NANOS: i128 = 9223372036854775807 * 1000000;

/// An absolute point in time with UTC offset zero, as nanoseconds from the
/// Unix epoch. Immutable once created; produced by [`parse_time`] or
/// supplied by the caller as "now".
#[derive(Clone, Copy, PartialEq, Eq, Structural, Debug)]
pub struct Instant {
    pub nanos: i128,
}

/// A signed time span, as nanoseconds. The duration parser only yields
/// non-negative spans, but the resolver never assumes non-negativity.
#[derive(Clone, Copy, PartialEq, Eq, Structural, Debug)]
pub struct Span {
    pub nanos: i128,
}

impl View for Instant {
    type V = int;

    open spec fn view(&self) -> int {
        self.nanos as int
    }
}

impl View for Span {
    type V = int;

    open spec fn view(&self) -> int {
        self.nanos as int
    }
}

/// The smallest instant a parse can produce: `i64::MIN` seconds.
pub open spec fn parsed_instant_min() -> int {
    -9223372036854775808 * 1000000000
}

/// The largest instant a parse can produce: `i64::MAX` seconds plus the
/// largest sub-second nanosecond count chrono reports (a leap second).
pub open spec fn parsed_instant_max() -> int {
    9223372036854775807int * 1000000000 + 1999999999
}

/// The largest magnitude of a parsed span, in nanoseconds.
pub open spec fn span_abs_max() -> int {
    SPAN_ABS_MAX_NANOS as int
}

impl Instant {
    /// Holds of every instant that parsing text or reading a clock can
    /// yield.
    pub open spec fn in_parse_range(self) -> bool {
        parsed_instant_min() <= self@ <= parsed_instant_max()
    }

    /// Holds of every endpoint the resolver can produce: a parsed instant
    /// shifted by at most one maximal span.
    pub open spec fn in_resolved_range(self) -> bool {
        parsed_instant_min() - span_abs_max() <= self@ <= parsed_instant_max() + span_abs_max()
    }

    /// Builds an instant from whole seconds and a sub-second nanosecond
    /// count, as the calendar crates report them.
    pub fn from_unix_parts(secs: i64, subsec_nanos: u32) -> (r: Instant)
        requires
            subsec_nanos < 2000000000,
        ensures
            r@ == secs * 1000000000 + subsec_nanos,
            r.in_parse_range(),
    {
        Instant { nanos: secs as i128 * NANOS_PER_SEC + subsec_nanos as i128 }
    }

    /// Builds an instant from whole seconds.
    pub fn from_unix_seconds(secs: i64) -> (r: Instant)
        ensures
            r@ == secs * 1000000000,
            r.in_parse_range(),
    {
        Instant { nanos: secs as i128 * NANOS_PER_SEC }
    }
}

impl Span {
    /// Holds of every span the duration parser can yield (and of the
    /// default one-hour span).
    pub open spec fn in_range(self) -> bool {
        -span_abs_max() <= self@ <= span_abs_max()
    }
}

/// Malformed date/time text: neither the natural parse nor the strict
/// minute pattern recognized it.
#[derive(Clone, Copy, PartialEq, Eq, Structural, Debug)]
pub struct TimeParseError {}

impl TimeParseError {
    /// The formats a caller should be told to use.
    pub fn message(&self) -> (m: &'static str)
        ensures
            m@ == "Invalid time format. Please use ISO 8601 or RFC 3339 format."@,
    {
        "Invalid time format. Please use ISO 8601 or RFC 3339 format."
    }
}

/// Malformed duration text.
#[derive(Clone, Copy, PartialEq, Eq, Structural, Debug)]
pub enum DurationParseError {
    /// The duration grammar did not recognize the text.
    Syntax,
    /// The text parsed, but the value is too large to hold as a `Span`.
    TooLarge,
}

/// A decimal digit.
pub open spec fn is_digit_char(c: char) -> bool {
    '0' <= c && c <= '9'
}

/// The value of a decimal digit.
pub open spec fn digit_val(c: char) -> int {
    c as int - '0' as int
}

/// A numeric UTC offset of a day or more ("+2500", "-25:00") starting at
/// position `i` in the last six characters of the text: a sign, an hour
/// pair of at least 24, and a minute pair (tens digit 0 to 5), directly or
/// after a colon. Only such a tail can reach the outside timezone parser
/// as an offset — its captures are suffixes of at most six characters —
/// and only an offset of a day or more makes it fail fatally. Text holding
/// one is kept away from the natural parse (see [`natural_parse`]).
pub open spec fn huge_offset_at(s: Seq<char>, i: int) -> bool {
    &&& 0 <= i && i + 2 < s.len() && s.len() <= i + 6
    &&& (s[i] == '+' || s[i] == '-')
    &&& is_digit_char(s[i + 1]) && is_digit_char(s[i + 2])
    &&& digit_val(s[i + 1]) * 10 + digit_val(s[i + 2]) >= 24
    &&& {
        ||| (i + 4 < s.len() && '0' <= s[i + 3] && s[i + 3] <= '5' && is_digit_char(s[i + 4]))
        ||| (i + 5 < s.len() && s[i + 3] == ':' && '0' <= s[i + 4] && s[i + 4] <= '5'
            && is_digit_char(s[i + 5]))
    }
}

/// Whether the text holds a numeric UTC offset of a day or more anywhere.
pub open spec fn has_huge_offset(s: Seq<char>) -> bool {
    exists|i: int| huge_offset_at(s, i)
}

/// A white-space character, exactly the Unicode White_Space set that
/// `char::is_whitespace` accepts — what the outside duration grammar skips
/// inside a number without ending it.
pub open spec fn is_space_char(c: char) -> bool {
    ||| c == ' '
    ||| ('\u{0009}' <= c && c <= '\u{000D}')
    ||| c == '\u{0085}'
    ||| c == '\u{00A0}'
    ||| c == '\u{1680}'
    ||| ('\u{2000}' <= c && c <= '\u{200A}')
    ||| c == '\u{2028}'
    ||| c == '\u{2029}'
    ||| c == '\u{202F}'
    ||| c == '\u{205F}'
    ||| c == '\u{3000}'
}

/// The count of digits in the number still open at position `p`, reading
/// leftward: digits count, white space is transparent (the outside grammar
/// keeps accumulating the same number across it), anything else starts a
/// new number.
pub open spec fn open_number_digits(s: Seq<char>, p: int) -> int
    decreases p,
{
    if p <= 0 || p > s.len() {
        0
    } else if is_digit_char(s[p - 1]) {
        1 + open_number_digits(s, p - 1)
    } else if is_space_char(s[p - 1]) {
        open_number_digits(s, p - 1)
    } else {
        0
    }
}

/// The largest digit count of any one number in the first `p` characters,
/// with white space transparent as the outside grammar reads it.
pub open spec fn max_number_digits(s: Seq<char>, p: int) -> int
    decreases p,
{
    if p <= 0 || p > s.len() {
        0
    } else if max_number_digits(s, p - 1) >= open_number_digits(s, p) {
        max_number_digits(s, p - 1)
    } else {
        open_number_digits(s, p)
    }
}

/// Duration text the library hands to the outside grammar: at most 256
/// characters, with no number of more than ten digits — counted as the
/// grammar counts, across white space. Within these bounds no combination
/// of spans the grammar can build comes near the seconds counter's limit,
/// where the outside crate's carry normalization fails (see
/// [`human_parse_duration`]). Ten digits still express every span the
/// library can hold, through the larger units; longer numbers or text are
/// rejected as unrecognized.
pub open spec fn tame_duration_text(s: Seq<char>) -> bool {
    s.len() <= 256 && max_number_digits(s, s.len() as int) <= 10
}

/// Whether the text holds any decimal digit. Every date/time form either
/// stage accepts has one.
pub open spec fn has_digit(s: Seq<char>) -> bool {
    exists|i: int| 0 <= i < s.len() && is_digit_char(s[i])
}

/// Text of decimal digits only, at least one.
pub open spec fn all_digits(s: Seq<char>) -> bool {
    s.len() > 0 && forall|i: int| 0 <= i < s.len() ==> is_digit_char(s[i])
}

/// How the natural stage's unix-timestamp branch reads all-digit text:
/// length 10 as epoch seconds, 13 as milliseconds, 19 as nanoseconds when
/// the value fits an `i64`.
pub open spec fn unix_digits_reading(s: Seq<char>, r: Option<(i64, u32)>) -> bool {
    &&& (all_digits(s) && s.len() == 10 ==> (r matches Some((secs, nanos)) && secs
        == digits_value(s) && nanos == 0))
    &&& (all_digits(s) && s.len() == 13 ==> (r matches Some((secs, nanos)) && secs
        == digits_value(s) / 1000 && nanos == (digits_value(s) % 1000) * 1000000))
    &&& (all_digits(s) && s.len() == 19 && digits_value(s) <= 0x7fffffffffffffff ==> (
    r matches Some((secs, nanos)) && secs == digits_value(s) / 1000000000 && nanos
        == digits_value(s) % 1000000000))
}

/// The number a digit string denotes.
pub open spec fn digits_value(s: Seq<char>) -> int
    decreases s.len(),
{
    if s.len() == 0 {
        0
    } else {
        digits_value(s.drop_last()) * 10 + digit_val(s.last())
    }
}

/// What the strict fallback pattern `YYYY-MM-DDTHH:MM` yields on a given
/// text, as whole seconds from the Unix epoch (UTC), or nothing when the
/// text does not match the pattern. A pure function of the text alone,
/// realized by the chrono crate.
pub uninterp spec fn strict_minute_parse_of(s: Seq<char>) -> Option<i64>;

/// What the RFC 3339 reading of a given text is, as whole seconds from the
/// Unix epoch and sub-second nanoseconds, or nothing when the text is not
/// an RFC 3339 date-time. A pure function of the text alone, realized by
/// the chrono crate.
pub uninterp spec fn rfc3339_parse_of(s: Seq<char>) -> Option<(i64, u32)>;

/// What the duration grammar yields on a given text: whole seconds and
/// sub-second nanoseconds, or nothing when the grammar rejects the text. A
/// pure function of the text alone, realized by the humantime crate.
pub uninterp spec fn human_duration_of(s: Seq<char>) -> Option<(u64, u32)>;

/// The total nanosecond count of a parsed duration.
pub open spec fn human_total_nanos(secs: u64, nanos: u32) -> int {
    secs * 1000000000 + nanos
}

/// Holds when the library accepts the text as a duration: it is tame (see
/// [`tame_duration_text`]) and the grammar accepts it with a value small
/// enough to hold as a `Span`.
pub open spec fn duration_text_ok(s: Seq<char>) -> bool {
    &&& tame_duration_text(s)
    &&& match human_duration_of(s) {
        Some((secs, nanos)) => human_total_nanos(secs, nanos) <= span_abs_max(),
        None => false,
    }
}

/// Relies on `str::chars`: the characters of the text, in order — exactly
/// the text's view.
#[verifier::external_body]
fn chars_of(text: &str) -> (v: Vec<char>)
    ensures
        v@ == text@,
{
    text.chars().collect()
}

fn is_digit_exec(c: char) -> (r: bool)
    ensures
        r == is_digit_char(c),
{
    '0' <= c && c <= '9'
}

fn scan_huge_offset(v: &Vec<char>) -> (r: bool)
    ensures
        r == has_huge_offset(v@),
{
    let n = v.len();
    let mut i: usize = 0;
    while i < n
        invariant
            i <= n,
            n == v@.len(),
            forall|k: int| 0 <= k < i ==> !huge_offset_at(v@, k),
        decreases n - i,
    {
        if n - i > 2 && n - i <= 6 {
            let c = v[i];
            if c == '+' || c == '-' {
                let d1 = v[i + 1];
                let d2 = v[i + 2];
                if is_digit_exec(d1) && is_digit_exec(d2) {
                    let hours: u32 = (d1 as u32 - 48) * 10 + (d2 as u32 - 48);
                    if hours >= 24 {
                        let direct = n - i > 4 && ('0' <= v[i + 3] && v[i + 3] <= '5')
                            && is_digit_exec(v[i + 4]);
                        let coloned = n - i > 5 && v[i + 3] == ':' && ('0' <= v[i + 4] && v[i + 4]
                            <= '5') && is_digit_exec(v[i + 5]);
                        if direct || coloned {
                            proof {
                                assert(huge_offset_at(v@, i as int));
                            }
                            return true;
                        }
                    }
                }
            }
        }
        i = i + 1;
    }
    proof {
        assert(forall|k: int| !huge_offset_at(v@, k));
    }
    false
}

fn is_space_exec(c: char) -> (r: bool)
    ensures
        r == is_space_char(c),
{
    c == ' ' || ('\u{0009}' <= c && c <= '\u{000D}') || c == '\u{0085}' || c == '\u{00A0}' || c
        == '\u{1680}' || ('\u{2000}' <= c && c <= '\u{200A}') || c == '\u{2028}' || c == '\u{2029}'
        || c == '\u{202F}' || c == '\u{205F}' || c == '\u{3000}'
}

fn scan_number_digits(v: &Vec<char>) -> (r: bool)
    ensures
        r == (max_number_digits(v@, v@.len() as int) <= 10),
{
    let n = v.len();
    let mut i: usize = 0;
    let mut run: usize = 0;
    let mut best: usize = 0;
    while i < n
        invariant
            i <= n,
            n == v@.len(),
            run <= i,
            run == open_number_digits(v@, i as int),
            best == max_number_digits(v@, i as int),
        decreases n - i,
    {
        let c = v[i];
        if is_digit_exec(c) {
            run = run + 1;
        } else if !is_space_exec(c) {
            run = 0;
        }
        if run > best {
            best = run;
        }
        i = i + 1;
    }
    best <= 10
}

/// Relies on `dateparser::parse_with_timezone` with `chrono::Utc`: a
/// flexible parse accepting ISO 8601, RFC 3339, unix timestamps and a broad
/// set of common human date/time forms; text without an explicit offset is
/// interpreted as UTC. Some accepted forms (a bare time of day, for one)
/// are completed from the current clock reading, so nothing is assumed
/// beyond the range of the reported values: seconds from
/// `chrono::DateTime::timestamp` (an `i64`) and the sub-second part from
/// `chrono::DateTime::timestamp_subsec_nanos`, which chrono documents as at
/// most 1,999,999,999 (the excess marking a leap second).
///
/// The text must hold no numeric UTC offset of a day or more: on one,
/// dateparser's timezone parser (its `timezone::parse`, hours 00–99) builds
/// a `chrono::FixedOffset` through the deprecated `east`, which aborts at
/// 24 hours. Every caller screens the text first.
///
/// Text that the strict minute pattern accepts is declined: dateparser's
/// only branches for `T`-separated text are RFC 3339, which demands seconds
/// and an offset, and its `ymd_z` form, which captures the `Thh:mm` tail as
/// a timezone, fails to read it as one, and ends the parse with an error.
///
/// Three of dateparser's branches are deterministic and are stated exactly.
/// Text with an RFC 3339 reading reaches that branch first (its earlier
/// branches — unix timestamps, RFC 2822 — cannot match such text) and
/// returns that reading. All-digit text of length 10, 13 or 19 is read by
/// the unix-timestamp branch as epoch seconds, milliseconds or nanoseconds
/// (a 19-digit value beyond `i64` fails to parse). And every branch's
/// pattern demands a digit, so digit-free text is never accepted.
#[verifier::external_body]
fn natural_parse(text: &str) -> (r: Option<(i64, u32)>)
    requires
        !has_huge_offset(text@),
    ensures
        r matches Some((secs, nanos)) ==> nanos < 2000000000,
        strict_minute_parse_of(text@) is Some ==> r is None,
        rfc3339_parse_of(text@) matches Some(p) ==> r == Some(p),
        !has_digit(text@) ==> r is None,
        unix_digits_reading(text@, r),
{
    match dateparser::parse_with_timezone(text, &chrono::Utc) {
        Ok(dt) => Some((dt.timestamp(), dt.timestamp_subsec_nanos())),
        Err(_) => None,
    }
}

/// Relies on `chrono::NaiveDateTime::parse_from_str` with the fixed pattern
/// `%Y-%m-%dT%H:%M` (seconds default to zero), the result read as UTC
/// through `NaiveDateTime::and_utc` and reported as whole epoch seconds by
/// `chrono::DateTime::timestamp`: a deterministic function of the text
/// alone, named by [`strict_minute_parse_of`]. The pattern's numeric fields
/// need digits, so digit-free text never matches.
#[verifier::external_body]
fn strict_minute_parse(text: &str) -> (r: Option<i64>)
    ensures
        r == strict_minute_parse_of(text@),
        !has_digit(text@) ==> r is None,
{
    match chrono::NaiveDateTime::parse_from_str(text, "%Y-%m-%dT%H:%M") {
        Ok(ndt) => Some(ndt.and_utc().timestamp()),
        Err(_) => None,
    }
}

/// Relies on `chrono::DateTime::parse_from_rfc3339`: the RFC 3339 reading
/// of the text, a deterministic, total and panic-free function of the text
/// alone, named by [`rfc3339_parse_of`] and reported as epoch seconds and
/// sub-second nanoseconds (at most 1,999,999,999, chrono's bound). RFC 3339
/// demands seconds and an offset and its numeric fields demand digits, so
/// text the strict minute pattern accepts, and digit-free text, are
/// declined.
#[verifier::external_body]
fn rfc3339_parse(text: &str) -> (r: Option<(i64, u32)>)
    ensures
        r == rfc3339_parse_of(text@),
        r matches Some((secs, nanos)) ==> nanos < 2000000000,
        strict_minute_parse_of(text@) is Some ==> r is None,
        !has_digit(text@) ==> r is None,
{
    match chrono::DateTime::parse_from_rfc3339(text) {
        Ok(dt) => Some((dt.timestamp(), dt.timestamp_subsec_nanos())),
        Err(_) => None,
    }
}

/// Relies on `humantime::parse_duration`: a deterministic grammar of
/// magnitude+unit spans ("1h30m", "90m", "3 days"), returned as a
/// `std::time::Duration` and reported here as its whole seconds
/// (`Duration::as_secs`) and sub-second nanoseconds
/// (`Duration::subsec_nanos`, documented as less than 1,000,000,000). The
/// result is a pure function of the text alone, named by
/// [`human_duration_of`].
///
/// The text must be tame (see [`tame_duration_text`]): when an accumulated
/// span reaches exactly `u64::MAX` seconds with a full second of
/// nanoseconds, the grammar's carry normalization (its `add_current`, which
/// only normalizes a nanosecond count above one second, not equal to it)
/// overflows the seconds counter and aborts. A tame text cannot reach that
/// counter: each of its numbers is at most 10^10 - 1, so one segment is at
/// most that times the seconds of a year, and at most 23 segments fit in
/// 256 characters — under half the counter's range in all. Every caller
/// screens the text first.
#[verifier::external_body]
fn human_parse_duration(text: &str) -> (r: Option<(u64, u32)>)
    requires
        tame_duration_text(text@),
    ensures
        r == human_duration_of(text@),
        r matches Some((secs, nanos)) ==> nanos < 1000000000,
{
    match humantime::parse_duration(text) {
        Ok(d) => Some((d.as_secs(), d.subsec_nanos())),
        Err(_) => None,
    }
}

/// Parses free-form date/time text into an [`Instant`], trying the flexible
/// natural parse first and falling back to the strict `YYYY-MM-DDTHH:MM`
/// pattern (read as UTC). Fails only when both stages reject the text, and
/// always fails on digit-free text. Where a stage's reading is
/// deterministic, the result is pinned: RFC 3339 text yields its RFC 3339
/// reading; all-digit text of length 10, 13 or 19 is read as epoch seconds,
/// milliseconds or nanoseconds; text the strict pattern accepts (which the
/// natural stage declines) yields exactly the strict reading. Text holding
/// a numeric UTC offset of a day or more cannot be given to the flexible
/// stage; only its RFC 3339 branch and the strict pattern are tried on it.
pub fn parse_time(text: &str) -> (r: Result<Instant, TimeParseError>)
    ensures
        r matches Ok(i) ==> i.in_parse_range(),
        strict_minute_parse_of(text@) is Some ==> r is Ok,
        r is Err ==> strict_minute_parse_of(text@) is None,
        strict_minute_parse_of(text@) matches Some(secs) ==> (r matches Ok(i) && i@ == secs
            * 1000000000),
        rfc3339_parse_of(text@) matches Some((secs, nanos)) ==> (r matches Ok(i) && i@ == secs
            * 1000000000 + nanos),
        !has_digit(text@) ==> r is Err,
        all_digits(text@) && text@.len() == 10 ==> (r matches Ok(i) && i@ == digits_value(text@)
            * 1000000000),
        all_digits(text@) && text@.len() == 13 ==> (r matches Ok(i) && i@ == digits_value(text@)
            * 1000000),
        all_digits(text@) && text@.len() == 19 && digits_value(text@) <= 0x7fffffffffffffff ==> (
        r matches Ok(i) && i@ == digits_value(text@)),
{
    let chars = chars_of(text);
    let natural = if scan_huge_offset(&chars) {
        proof {
            if all_digits(text@) {
                let k = choose|k: int| huge_offset_at(text@, k);
                assert(is_digit_char(text@[k]));
                assert(false);
            }
        }
        rfc3339_parse(text)
    } else {
        natural_parse(text)
    };
    match natural {
        Some((secs, nanos)) => Ok(Instant::from_unix_parts(secs, nanos)),
        None => match strict_minute_parse(text) {
            Some(secs) => Ok(Instant::from_unix_seconds(secs)),
            None => Err(TimeParseError {}),
        },
    }
}

/// Parses duration text into a [`Span`]. Text that is not tame (see
/// [`tame_duration_text`]) is rejected as unrecognized without the grammar
/// being consulted; tame text succeeds exactly when the grammar accepts it
/// and the value fits a `Span`, the two failure modes told apart in the
/// error.
pub fn parse_duration(text: &str) -> (r: Result<Span, DurationParseError>)
    ensures
        !tame_duration_text(text@) ==> r == Err::<Span, DurationParseError>(
            DurationParseError::Syntax,
        ),
        tame_duration_text(text@) ==> match human_duration_of(text@) {
            Some((secs, nanos)) => {
                if human_total_nanos(secs, nanos) <= span_abs_max() {
                    r matches Ok(sp) && sp@ == human_total_nanos(secs, nanos) && sp.in_range()
                        && sp@ >= 0
                } else {
                    r == Err::<Span, DurationParseError>(DurationParseError::TooLarge)
                }
            },
            None => r == Err::<Span, DurationParseError>(DurationParseError::Syntax),
        },
        r is Ok ==> duration_text_ok(text@),
{
    let chars = chars_of(text);
    if chars.len() > 256 || !scan_number_digits(&chars) {
        return Err(DurationParseError::Syntax);
    }
    match human_parse_duration(text) {
        Some((secs, nanos)) => {
            let total: i128 = secs as i128 * NANOS_PER_SEC + nanos as i128;
            if total <= SPAN_ABS_MAX_NANOS {
                Ok(Span { nanos: total })
            } else {
                Err(DurationParseError::TooLarge)
            }
        },
        None => Err(DurationParseError::Syntax),
    }
}

/// Holds when an optional raw field is actually provided: present with
/// non-empty text. An absent field and one holding the empty string are
/// treated alike throughout.
pub open spec fn provided(t: Option<&String>) -> bool {
    t matches Some(s) && s@.len() > 0
}

/// Parses an optional start/end field. Absent or empty text is "not
/// provided" and yields `Ok(None)` without any parse being attempted.
pub fn parse_opt_time(time: Option<&String>) -> (r: Result<Option<Instant>, TimeParseError>)
    ensures
        !provided(time) ==> r == Ok::<Option<Instant>, TimeParseError>(None),
        r matches Ok(Some(i)) ==> provided(time) && i.in_parse_range(),
        r matches Ok(None) ==> !provided(time),
        r is Err ==> provided(time) && strict_minute_parse_of(time.unwrap()@) is None
            && rfc3339_parse_of(time.unwrap()@) is None,
        provided(time) && strict_minute_parse_of(time.unwrap()@) is Some ==> r matches Ok(Some(_)),
        provided(time) && rfc3339_parse_of(time.unwrap()@) is Some ==> r matches Ok(Some(_)),
        provided(time) ==> (strict_minute_parse_of(time.unwrap()@) matches Some(secs) ==> (
        r matches Ok(Some(i)) && i@ == secs * 1000000000)),
        provided(time) ==> (rfc3339_parse_of(time.unwrap()@) matches Some((secs, nanos)) ==> (
        r matches Ok(Some(i)) && i@ == secs * 1000000000 + nanos)),
{
    match time {
        Some(s) => {
            if s.as_str().is_empty() {
                Ok(None)
            } else {
                match parse_time(s.as_str()) {
                    Ok(i) => Ok(Some(i)),
                    Err(e) => Err(e),
                }
            }
        },
        None => Ok(None),
    }
}

/// Parses an optional duration field. Absent or empty text is "not
/// provided" and yields `Ok(None)` without the grammar being consulted.
pub fn parse_opt_duration(text: Option<&String>) -> (r: Result<Option<Span>, DurationParseError>)
    ensures
        !provided(text) ==> r == Ok::<Option<Span>, DurationParseError>(None),
        r matches Ok(Some(sp)) ==> provided(text) && sp.in_range() && sp@ >= 0
            && duration_text_ok(text.unwrap()@) && (human_duration_of(
            text.unwrap()@,
        ) matches Some((secs, nanos)) && sp@ == human_total_nanos(secs, nanos)),
        r matches Ok(None) ==> !provided(text),
        r matches Err(e) ==> provided(text) && (if !tame_duration_text(text.unwrap()@) {
            e == DurationParseError::Syntax
        } else {
            match human_duration_of(text.unwrap()@) {
                Some((secs, nanos)) => human_total_nanos(secs, nanos) > span_abs_max() && e
                    == DurationParseError::TooLarge,
                None => e == DurationParseError::Syntax,
            }
        }),
        provided(text) && duration_text_ok(text.unwrap()@) ==> r matches Ok(Some(_)),
{
    match text {
        Some(s) => {
            if s.as_str().is_empty() {
                Ok(None)
            } else {
                match parse_duration(s.as_str()) {
                    Ok(sp) => Ok(Some(sp)),
                    Err(e) => Err(e),
                }
            }
        },
        None => Ok(None),
    }
}

} // verus!
