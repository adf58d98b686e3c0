//! The event time resolver and the event assembler.

use vstd::prelude::*;

use crate::time::{
    duration_text_ok, human_duration_of, human_total_nanos, parse_opt_duration, parse_opt_time,
    provided, rfc3339_parse_of, span_abs_max, strict_minute_parse_of, tame_duration_text,
    DurationParseError, Instant, Span, TimeParseError,
};

verus! {

/// The default span between the endpoints when no duration is provided:
/// one hour.
pub const DEFAULT_EVENT_DURATION_NANOS: i128 = 3600 * 1000000000;

/// The default span, as a mathematical value.
pub open spec fn default_duration_nanos() -> int {
    DEFAULT_EVENT_DURATION_NANOS as int
}

/// A resolved `(start, end)` pair. Both fields are always present and
/// well-defined after resolution; `end` is not required to be at or after
/// `start` (an explicit inverted pair is passed through unchanged).
#[derive(Clone, Copy, PartialEq, Eq, Structural, Debug)]
pub struct ResolvedInterval {
    pub start: Instant,
    pub end: Instant,
}

/// A parse failure during resolution, tagged with the field that caused it.
#[derive(Clone, Copy, PartialEq, Eq, Structural, Debug)]
pub enum ResolveError {
    /// The start field was provided and failed to parse.
    InvalidStart(TimeParseError),
    /// The end field was provided and failed to parse.
    InvalidEnd(TimeParseError),
    /// The duration field was provided and failed to parse.
    InvalidDuration(DurationParseError),
}

/// The duration to apply: the parsed one when present, the one-hour
/// default otherwise.
pub open spec fn dur_or_default(duration: Option<Span>) -> int {
    match duration {
        Some(sp) => sp@,
        None => default_duration_nanos(),
    }
}

/// Resolves a definite interval from the parsed inputs. Total over the
/// whole presence lattice:
///
/// * both endpoints given: returned exactly as they are, the duration
///   ignored and the ordering of the endpoints not validated;
/// * one endpoint given: the other is placed one duration away (the
///   default when no duration is given);
/// * neither endpoint given: the event starts at `now` and lasts one
///   duration.
pub fn resolve_parsed(
    start: Option<Instant>,
    end: Option<Instant>,
    duration: Option<Span>,
    now: Instant,
) -> (r: ResolvedInterval)
    requires
        start matches Some(i) ==> i.in_parse_range(),
        end matches Some(i) ==> i.in_parse_range(),
        duration matches Some(sp) ==> sp.in_range(),
        now.in_parse_range(),
    ensures
        match (start, end) {
            (Some(s), Some(e)) => r.start == s && r.end == e,
            (Some(s), None) => r.start == s && r.end@ == s@ + dur_or_default(duration),
            (None, Some(e)) => r.start@ == e@ - dur_or_default(duration) && r.end == e,
            (None, None) => r.start == now && r.end@ == now@ + dur_or_default(duration),
        },
        r.start.in_resolved_range(),
        r.end.in_resolved_range(),
{
    let dur: i128 = match duration {
        Some(sp) => sp.nanos,
        None => DEFAULT_EVENT_DURATION_NANOS,
    };
    match (start, end) {
        (Some(s), Some(e)) => ResolvedInterval { start: s, end: e },
        (Some(s), None) => ResolvedInterval {
            start: s,
            end: Instant { nanos: s.nanos + dur },
        },
        (None, Some(e)) => ResolvedInterval {
            start: Instant { nanos: e.nanos - dur },
            end: e,
        },
        (None, None) => ResolvedInterval {
            start: now,
            end: Instant { nanos: now.nanos + dur },
        },
    }
}

/// Whether an optional field text, taken as a sequence of characters, is
/// actually provided: present and non-empty.
pub open spec fn text_provided(t: Option<Seq<char>>) -> bool {
    t matches Some(s) && s.len() > 0
}

/// The text a field effectively carries: empty text is dropped, as if the
/// field were absent.
pub open spec fn effective_text(t: Option<Seq<char>>) -> Option<Seq<char>> {
    if text_provided(t) {
        t
    } else {
        None
    }
}

/// The view of an optional borrowed field.
pub open spec fn otext(t: Option<&String>) -> Option<Seq<char>> {
    match t {
        Some(s) => Some(s@),
        None => None,
    }
}

/// The view of an optional owned field.
pub open spec fn oview(t: Option<String>) -> Option<Seq<char>> {
    match t {
        Some(s) => Some(s@),
        None => None,
    }
}

/// The span the resolver applies between the endpoints, given the duration
/// field's text: the parsed duration when the field is provided (on every
/// success path the grammar has accepted it), the one-hour default
/// otherwise.
pub open spec fn applied_duration(dt: Option<Seq<char>>) -> int
    recommends
        text_provided(dt) ==> human_duration_of(dt.unwrap()) is Some,
{
    if text_provided(dt) {
        let parsed = human_duration_of(dt.unwrap()).unwrap();
        human_total_nanos(parsed.0, parsed.1)
    } else {
        default_duration_nanos()
    }
}

/// Everything that holds of a successfully resolved interval, whatever the
/// natural time parse made of the endpoint texts:
///
/// * a provided duration was accepted by the grammar with a value that fits
///   a span — a bad duration is never silently defaulted;
/// * with neither endpoint provided, the interval starts at `now`;
/// * with no end provided, the end is one applied duration after the start;
/// * with an end but no start, the start is one applied duration before the
///   end;
/// * an endpoint whose text the strict minute pattern accepts, or is an
///   RFC 3339 date-time, is exactly that reading — the fields keep their
///   roles;
/// * both endpoints stay within one maximal span of the parseable range.
///
/// Every field is read only through [`text_provided`] and, when provided,
/// its text: an empty field changes nothing.
pub open spec fn interval_consistent(
    st: Option<Seq<char>>,
    et: Option<Seq<char>>,
    dt: Option<Seq<char>>,
    now: int,
    iv: ResolvedInterval,
) -> bool {
    &&& iv.start.in_resolved_range()
    &&& iv.end.in_resolved_range()
    &&& (text_provided(dt) ==> duration_text_ok(dt.unwrap()))
    &&& (!text_provided(st) && !text_provided(et) ==> iv.start@ == now)
    &&& (!text_provided(et) ==> iv.end@ == iv.start@ + applied_duration(dt))
    &&& (!text_provided(st) && text_provided(et) ==> iv.start@ == iv.end@ - applied_duration(dt))
    &&& (text_provided(st) ==> (strict_minute_parse_of(st.unwrap()) matches Some(secs)
        ==> iv.start@ == secs * 1000000000))
    &&& (text_provided(et) ==> (strict_minute_parse_of(et.unwrap()) matches Some(secs)
        ==> iv.end@ == secs * 1000000000))
    &&& (text_provided(st) ==> (rfc3339_parse_of(st.unwrap()) matches Some((secs, nanos))
        ==> iv.start@ == secs * 1000000000 + nanos))
    &&& (text_provided(et) ==> (rfc3339_parse_of(et.unwrap()) matches Some((secs, nanos))
        ==> iv.end@ == secs * 1000000000 + nanos))
}

/// Every resolution error names a field that was provided and whose text
/// the corresponding parser rejects: time fields must at least fail the
/// strict minute pattern, and a duration error tells grammar rejection
/// apart from an oversized value.
pub open spec fn error_justified(
    st: Option<Seq<char>>,
    et: Option<Seq<char>>,
    dt: Option<Seq<char>>,
    e: ResolveError,
) -> bool {
    match e {
        ResolveError::InvalidStart(_) => text_provided(st) && strict_minute_parse_of(
            st.unwrap(),
        ) is None && rfc3339_parse_of(st.unwrap()) is None,
        ResolveError::InvalidEnd(_) => text_provided(et) && strict_minute_parse_of(
            et.unwrap(),
        ) is None && rfc3339_parse_of(et.unwrap()) is None,
        ResolveError::InvalidDuration(de) => text_provided(dt) && (if !tame_duration_text(
            dt.unwrap(),
        ) {
            de == DurationParseError::Syntax
        } else {
            match human_duration_of(dt.unwrap()) {
                Some((secs, nanos)) => human_total_nanos(secs, nanos) > span_abs_max() && de
                    == DurationParseError::TooLarge,
                None => de == DurationParseError::Syntax,
            }
        }),
    }
}

/// The inputs on which the resolver owes success: every provided field is
/// deterministically parseable — the time fields match the strict minute
/// pattern or are RFC 3339 date-times, and the duration text is accepted by
/// the grammar with a value that fits a span. (The flexible natural parse
/// can only widen the set of accepted time texts.)
pub open spec fn success_owed(
    st: Option<Seq<char>>,
    et: Option<Seq<char>>,
    dt: Option<Seq<char>>,
) -> bool {
    &&& (text_provided(st) ==> strict_minute_parse_of(st.unwrap()) is Some || rfc3339_parse_of(
        st.unwrap(),
    ) is Some)
    &&& (text_provided(et) ==> strict_minute_parse_of(et.unwrap()) is Some || rfc3339_parse_of(
        et.unwrap(),
    ) is Some)
    &&& (text_provided(dt) ==> duration_text_ok(dt.unwrap()))
}

/// Resolves a definite `(start, end)` pair from the three raw optional
/// texts and a caller-sampled `now`. A present and non-empty field that
/// fails to parse aborts resolution with a field-tagged error; absent or
/// empty fields are never attempted. With nothing provided the result is
/// exactly `(now, now + 1h)`, for any `now`.
pub fn resolve(
    start_text: Option<&String>,
    end_text: Option<&String>,
    duration_text: Option<&String>,
    now: Instant,
) -> (r: Result<ResolvedInterval, ResolveError>)
    requires
        now.in_parse_range(),
    ensures
        r matches Ok(iv) ==> interval_consistent(
            otext(start_text),
            otext(end_text),
            otext(duration_text),
            now@,
            iv,
        ),
        r matches Err(e) ==> error_justified(
            otext(start_text),
            otext(end_text),
            otext(duration_text),
            e,
        ),
        success_owed(otext(start_text), otext(end_text), otext(duration_text)) ==> r is Ok,
        !provided(start_text) && !provided(end_text) && !provided(duration_text) ==> (
        r matches Ok(iv) && iv.start == now && iv.end@ == now@ + default_duration_nanos()),
{
    let start = match parse_opt_time(start_text) {
        Ok(v) => v,
        Err(e) => {
            return Err(ResolveError::InvalidStart(e));
        },
    };
    let end = match parse_opt_time(end_text) {
        Ok(v) => v,
        Err(e) => {
            return Err(ResolveError::InvalidEnd(e));
        },
    };
    let duration = match parse_opt_duration(duration_text) {
        Ok(v) => v,
        Err(e) => {
            return Err(ResolveError::InvalidDuration(e));
        },
    };
    Ok(resolve_parsed(start, end, duration, now))
}

/// Law: a field holding the empty string behaves exactly like an absent
/// field. Any two field triples that agree once empty text is dropped are
/// interchangeable in every clause of the resolver's contract: they admit
/// the same intervals, justify the same errors, and owe success together.
pub proof fn lemma_empty_field_is_absent(
    st1: Option<Seq<char>>,
    et1: Option<Seq<char>>,
    dt1: Option<Seq<char>>,
    st2: Option<Seq<char>>,
    et2: Option<Seq<char>>,
    dt2: Option<Seq<char>>,
    now: int,
    iv: ResolvedInterval,
    e: ResolveError,
)
    requires
        effective_text(st1) == effective_text(st2),
        effective_text(et1) == effective_text(et2),
        effective_text(dt1) == effective_text(dt2),
    ensures
        interval_consistent(st1, et1, dt1, now, iv) == interval_consistent(st2, et2, dt2, now, iv),
        error_justified(st1, et1, dt1, e) == error_justified(st2, et2, dt2, e),
        success_owed(st1, et1, dt1) == success_owed(st2, et2, dt2),
{
}

/// Law: dropping empty text turns a field holding the empty string into an
/// absent one — the two are the same input to the resolver's contract.
pub proof fn lemma_empty_text_is_absent()
    ensures
        effective_text(Some(Seq::<char>::empty())) == effective_text(None::<Seq<char>>),
{
}

/// The raw text fields of one request, one slot per recognized field name
/// (`title`, `desc`, `location`, `start`, `end`, `duration`). Keys the core
/// does not recognize are ignored and have no place here. Read-only to the
/// core; an absent field is `None`.
pub struct RawFieldMap {
    pub title: Option<String>,
    pub desc: Option<String>,
    pub location: Option<String>,
    pub start: Option<String>,
    pub end: Option<String>,
    pub duration: Option<String>,
}

impl RawFieldMap {
    /// A map with every field absent.
    pub fn empty() -> (r: RawFieldMap)
        ensures
            r.title is None,
            r.desc is None,
            r.location is None,
            r.start is None,
            r.end is None,
            r.duration is None,
    {
        RawFieldMap {
            title: None,
            desc: None,
            location: None,
            start: None,
            end: None,
            duration: None,
        }
    }
}

/// A fully assembled event: the copied text fields and the resolved
/// interval. Created once per request and never mutated.
pub struct EventDraft {
    pub title: String,
    pub description: String,
    pub location: Option<String>,
    pub interval: ResolvedInterval,
}

/// The title given to an event whose title field is absent.
pub open spec fn default_title() -> Seq<char> {
    "New Calendar Event"@
}

/// The description given to an event whose description field is absent: a
/// fixed attribution string.
pub open spec fn default_description() -> Seq<char> {
    "Powered by zerocal.shuttleapp.rs"@
}

/// The title an assembled event carries: the raw one when the field is
/// present (even when empty), the default otherwise.
pub open spec fn title_of(fields: RawFieldMap) -> Seq<char> {
    match fields.title {
        Some(t) => t@,
        None => default_title(),
    }
}

/// The description an assembled event carries, with the same defaulting
/// rule as the title.
pub open spec fn description_of(fields: RawFieldMap) -> Seq<char> {
    match fields.desc {
        Some(d) => d@,
        None => default_description(),
    }
}

/// Whether an assembled location matches the raw field: present exactly
/// when the field is, with the same text. There is no default location.
pub open spec fn location_matches(got: Option<String>, want: Option<String>) -> bool {
    match (got, want) {
        (Some(a), Some(b)) => a@ == b@,
        (None, None) => true,
        _ => false,
    }
}

/// The default event title, as a value.
pub fn default_event_title() -> (r: String)
    ensures
        r@ == default_title(),
{
    "New Calendar Event".to_owned()
}

/// The default event description, as a value.
pub fn default_event_description() -> (r: String)
    ensures
        r@ == default_description(),
{
    "Powered by zerocal.shuttleapp.rs".to_owned()
}

/// Assembles an event draft from the raw fields: title and description are
/// copied (with defaults when absent), the location passed through
/// unchanged, and the three time fields resolved against `now`. `now` must
/// be sampled exactly once by the caller and threaded in — the core never
/// reads a clock — so one request is internally consistent.
pub fn create_event(fields: &RawFieldMap, now: Instant) -> (r: Result<EventDraft, ResolveError>)
    requires
        now.in_parse_range(),
    ensures
        r matches Ok(ev) ==> {
            &&& ev.title@ == title_of(*fields)
            &&& ev.description@ == description_of(*fields)
            &&& location_matches(ev.location, fields.location)
            &&& interval_consistent(
                oview(fields.start),
                oview(fields.end),
                oview(fields.duration),
                now@,
                ev.interval,
            )
        },
        r matches Err(e) ==> error_justified(
            oview(fields.start),
            oview(fields.end),
            oview(fields.duration),
            e,
        ),
        success_owed(oview(fields.start), oview(fields.end), oview(fields.duration)) ==> r is Ok,
        !text_provided(oview(fields.start)) && !text_provided(oview(fields.end))
            && !text_provided(oview(fields.duration)) ==> (
        r matches Ok(ev) && ev.interval.start == now && ev.interval.end@ == now@
            + default_duration_nanos()),
{
    let title: String = match &fields.title {
        Some(t) => t.clone(),
        None => default_event_title(),
    };
    let description: String = match &fields.desc {
        Some(d) => d.clone(),
        None => default_event_description(),
    };
    let location: Option<String> = match &fields.location {
        Some(l) => Some(l.clone()),
        None => None,
    };
    let interval = match resolve(
        fields.start.as_ref(),
        fields.end.as_ref(),
        fields.duration.as_ref(),
        now,
    ) {
        Ok(iv) => iv,
        Err(e) => {
            return Err(e);
        },
    };
    Ok(EventDraft { title, description, location, interval })
}

} // verus!
