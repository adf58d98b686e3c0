use zerocal::cal::{create_event, resolve, resolve_parsed, RawFieldMap, ResolveError};
use zerocal::time::{Instant, Span};

const NANOS_PER_SEC: i128 = 1_000_000_000;

fn at_secs(s: i64) -> Instant {
    Instant { nanos: s as i128 * NANOS_PER_SEC }
}

fn now() -> Instant {
    at_secs(1_700_000_000)
}

fn some(s: &str) -> Option<String> {
    Some(s.to_string())
}

#[test]
fn basic_defaults() {
    let mut fields = RawFieldMap::empty();
    fields.start = some("1511648546");
    fields.end = some("1511648547");
    let ev = create_event(&fields, now()).unwrap();

    assert_eq!(ev.interval.start, at_secs(1511648546));
    assert_eq!(ev.interval.end, at_secs(1511648547));
    assert_eq!(ev.description, "Powered by zerocal.shuttleapp.rs");
    assert_eq!(ev.title, "New Calendar Event");
    assert!(ev.location.is_none());
}

#[test]
fn default_duration_with_start() {
    let mut fields = RawFieldMap::empty();
    fields.start = some("1511648546");
    let ev = create_event(&fields, now()).unwrap();

    assert_eq!(ev.interval.end, at_secs(1511648546 + 3600));
}

#[test]
fn default_duration_with_end() {
    let mut fields = RawFieldMap::empty();
    fields.end = some("1511648546");
    let ev = create_event(&fields, now()).unwrap();

    assert_eq!(ev.interval.start, at_secs(1511648546 - 3600));
}

#[test]
fn description_summary_location() {
    let mut fields = RawFieldMap::empty();
    fields.desc = some("description");
    fields.title = some("summary");
    fields.location = some("location");
    let ev = create_event(&fields, now()).unwrap();

    assert_eq!(ev.description, "description");
    assert_eq!(ev.location.as_deref(), Some("location"));
    assert_eq!(ev.title, "summary");
}

#[test]
fn defaulting_idempotence() {
    for n in [at_secs(0), at_secs(-1_000), now(), at_secs(4_102_444_800)] {
        let iv = resolve(None, None, None, n).unwrap();
        assert_eq!(iv.start, n);
        assert_eq!(iv.end.nanos, n.nanos + 3600 * NANOS_PER_SEC);
    }
}

#[test]
fn duration_precedence() {
    let start = "2023-01-01T10:00".to_string();
    let dur = "30m".to_string();
    let iv = resolve(Some(&start), None, Some(&dur), now()).unwrap();
    assert_eq!(iv.start, at_secs(1672567200));
    assert_eq!(iv.end, at_secs(1672567200 + 30 * 60));
}

#[test]
fn end_minus_duration() {
    let end = "2023-01-01T10:00".to_string();
    let dur = "2h".to_string();
    let iv = resolve(None, Some(&end), Some(&dur), now()).unwrap();
    assert_eq!(iv.start, at_secs(1672567200 - 2 * 3600));
    assert_eq!(iv.end, at_secs(1672567200));
}

#[test]
fn explicit_pair_ignores_duration() {
    let start = "2023-01-01T09:00".to_string();
    let end = "2023-01-01T09:05".to_string();
    let dur = "5h".to_string();
    let iv = resolve(Some(&start), Some(&end), Some(&dur), now()).unwrap();
    assert_eq!(iv.start, at_secs(1672563600));
    assert_eq!(iv.end, at_secs(1672563900));
}

#[test]
fn explicit_pair_keeps_inverted_order() {
    let start = "2023-01-01T09:05".to_string();
    let end = "2023-01-01T09:00".to_string();
    let iv = resolve(Some(&start), Some(&end), None, now()).unwrap();
    assert_eq!(iv.start, at_secs(1672563900));
    assert_eq!(iv.end, at_secs(1672563600));
}

#[test]
fn empty_start_is_absent() {
    let empty = String::new();
    let with_empty = resolve(Some(&empty), None, None, now()).unwrap();
    let with_none = resolve(None, None, None, now()).unwrap();
    assert_eq!(with_empty, with_none);
    assert_eq!(with_empty.start, now());
}

#[test]
fn empty_end_is_absent() {
    let start = "1511648546".to_string();
    let empty = String::new();
    let with_empty = resolve(Some(&start), Some(&empty), None, now()).unwrap();
    let with_none = resolve(Some(&start), None, None, now()).unwrap();
    assert_eq!(with_empty, with_none);
    assert_eq!(with_empty.end, at_secs(1511648546 + 3600));
}

#[test]
fn empty_duration_is_absent() {
    let start = "1511648546".to_string();
    let empty = String::new();
    let with_empty = resolve(Some(&start), None, Some(&empty), now()).unwrap();
    let with_none = resolve(Some(&start), None, None, now()).unwrap();
    assert_eq!(with_empty, with_none);
    assert_eq!(with_empty.end, at_secs(1511648546 + 3600));
}

#[test]
fn invalid_start_is_tagged() {
    let bad = "not-a-date".to_string();
    let r = resolve(Some(&bad), None, None, now());
    assert!(matches!(r, Err(ResolveError::InvalidStart(_))));
}

#[test]
fn invalid_end_is_tagged() {
    let start = "1511648546".to_string();
    let bad = "not-a-date".to_string();
    let r = resolve(Some(&start), Some(&bad), None, now());
    assert!(matches!(r, Err(ResolveError::InvalidEnd(_))));
}

#[test]
fn invalid_duration_is_tagged() {
    let bad = "one hour".to_string();
    let r = resolve(None, None, Some(&bad), now());
    assert!(matches!(r, Err(ResolveError::InvalidDuration(_))));
}

#[test]
fn resolve_parsed_table() {
    let s = at_secs(1_000_000);
    let e = at_secs(2_000_000);
    let d = Span { nanos: 900 * NANOS_PER_SEC };
    let n = now();

    let both = resolve_parsed(Some(s), Some(e), Some(d), n);
    assert_eq!((both.start, both.end), (s, e));

    let from_start = resolve_parsed(Some(s), None, Some(d), n);
    assert_eq!(from_start.start, s);
    assert_eq!(from_start.end.nanos, s.nanos + d.nanos);

    let from_end = resolve_parsed(None, Some(e), Some(d), n);
    assert_eq!(from_end.start.nanos, e.nanos - d.nanos);
    assert_eq!(from_end.end, e);

    let nothing = resolve_parsed(None, None, None, n);
    assert_eq!(nothing.start, n);
    assert_eq!(nothing.end.nanos, n.nanos + 3600 * NANOS_PER_SEC);
}

#[test]
fn resolve_parsed_negative_duration() {
    let e = at_secs(2_000_000);
    let d = Span { nanos: -600 * NANOS_PER_SEC };
    let iv = resolve_parsed(None, Some(e), Some(d), now());
    assert_eq!(iv.start, at_secs(2_000_000 + 600));
    assert_eq!(iv.end, e);
}

#[test]
fn assembler_defaults_with_empty_map() {
    let ev = create_event(&RawFieldMap::empty(), now()).unwrap();
    assert_eq!(ev.title, "New Calendar Event");
    assert_eq!(ev.description, "Powered by zerocal.shuttleapp.rs");
    assert!(ev.location.is_none());
    assert_eq!(ev.interval.start, now());
    assert_eq!(ev.interval.end.nanos, now().nanos + 3600 * NANOS_PER_SEC);
}

#[test]
fn assembler_keeps_empty_title_text() {
    let mut fields = RawFieldMap::empty();
    fields.title = some("");
    let ev = create_event(&fields, now()).unwrap();
    assert_eq!(ev.title, "");
}
