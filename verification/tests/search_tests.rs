use chainsaw::file::{Document, Record};
use chainsaw::search::Searcher;
use chainsaw::value::FieldValue;
use chainsaw::Error;

const SYSTEM_TIME: &str = "Event.System.TimeCreated_attributes.SystemTime";

fn search_ts_micros(s: &str) -> i64 {
    let t = chrono::NaiveDateTime::parse_from_str(s, "%Y-%m-%dT%H:%M:%S%.6fZ")
        .expect("timestamp should parse")
        .and_utc();
    t.timestamp() * 1_000_000 + t.timestamp_subsec_micros() as i64
}

fn record_with_text(text: &str) -> Document {
    Document::Evtx(Record {
        fields: vec![(
            SYSTEM_TIME.to_string(),
            FieldValue::Str("2021-06-01T12:30:00.000000Z".to_string()),
        )],
        text: text.to_string(),
    })
}

fn record_with_event_id(id: FieldValue, text_field: bool) -> Document {
    let id_path = if text_field {
        "Event.System.EventID.#text"
    } else {
        "Event.System.EventID"
    };
    Document::Evtx(Record {
        fields: vec![
            (
                SYSTEM_TIME.to_string(),
                FieldValue::Str("2021-06-01T12:30:00.000000Z".to_string()),
            ),
            (id_path.to_string(), id),
        ],
        text: "svchost record".to_string(),
    })
}

#[test]
fn case_insensitive_pattern_matches_mixed_case_text() {
    let searcher = Searcher::builder()
        .pattern("svchost".to_string())
        .ignore_case(true)
        .build()
        .unwrap();
    let records = vec![
        Ok(record_with_text("C:\\Windows\\System32\\SvcHost.exe")),
        Ok(record_with_text("C:\\Windows\\explorer.exe")),
    ];
    let hits = searcher.search(&records).unwrap();
    assert_eq!(hits.len(), 1);
    let Document::Evtx(r) = &hits[0];
    assert!(r.text.contains("SvcHost.exe"));
}

#[test]
fn case_sensitive_pattern_respects_case() {
    let searcher = Searcher::builder()
        .pattern("svchost".to_string())
        .build()
        .unwrap();
    let records = vec![Ok(record_with_text("C:\\Windows\\System32\\SvcHost.exe"))];
    assert_eq!(searcher.search(&records).unwrap().len(), 0);
}

#[test]
fn record_at_exact_from_is_excluded_from_search() {
    let ts = search_ts_micros("2021-06-01T12:30:00.000000Z");
    let searcher = Searcher::builder()
        .pattern("svchost".to_string())
        .ignore_case(true)
        .from(ts)
        .to(search_ts_micros("2021-06-02T00:00:00.000000Z"))
        .build()
        .unwrap();
    let records = vec![Ok(record_with_text("SvcHost.exe"))];
    assert_eq!(searcher.search(&records).unwrap().len(), 0);
}

#[test]
fn record_at_exact_to_is_excluded_from_search() {
    let ts = search_ts_micros("2021-06-01T12:30:00.000000Z");
    let searcher = Searcher::builder()
        .pattern("svchost".to_string())
        .ignore_case(true)
        .to(ts)
        .build()
        .unwrap();
    let records = vec![Ok(record_with_text("SvcHost.exe"))];
    assert_eq!(searcher.search(&records).unwrap().len(), 0);
}

#[test]
fn record_strictly_between_bounds_is_searched() {
    let searcher = Searcher::builder()
        .pattern("svchost".to_string())
        .ignore_case(true)
        .from(search_ts_micros("2021-06-01T00:00:00.000000Z"))
        .to(search_ts_micros("2021-06-02T00:00:00.000000Z"))
        .build()
        .unwrap();
    let records = vec![Ok(record_with_text("SvcHost.exe"))];
    assert_eq!(searcher.search(&records).unwrap().len(), 1);
}

#[test]
fn regex_filter_matches_serialised_form() {
    let searcher = Searcher::builder()
        .regex("Svc.*exe".to_string())
        .build()
        .unwrap();
    let records = vec![
        Ok(record_with_text("C:\\Windows\\System32\\SvcHost.exe")),
        Ok(record_with_text("C:\\Windows\\explorer.exe")),
    ];
    assert_eq!(searcher.search(&records).unwrap().len(), 1);
}

#[test]
fn invalid_regex_is_rejected_at_build() {
    let r = Searcher::builder().regex("(".to_string()).build();
    assert_eq!(r.err().unwrap(), Error::InvalidRegex);
}

#[test]
fn builder_without_pattern_or_regex_is_rejected() {
    let r = Searcher::builder().ignore_case(true).build();
    assert_eq!(r.err().unwrap(), Error::MissingFilter);
}

#[test]
fn event_id_filter_keeps_only_matching_records() {
    let searcher = Searcher::builder()
        .pattern("svchost".to_string())
        .event_id(4624)
        .build()
        .unwrap();
    let records = vec![
        Ok(record_with_event_id(FieldValue::UInt(4624), false)),
        Ok(record_with_event_id(FieldValue::UInt(4625), false)),
    ];
    assert_eq!(searcher.search(&records).unwrap().len(), 1);
}

#[test]
fn event_id_prefers_the_text_field_over_the_plain_one() {
    let searcher = Searcher::builder()
        .pattern("svchost".to_string())
        .event_id(4624)
        .build()
        .unwrap();
    let records = vec![Ok(Document::Evtx(Record {
        fields: vec![
            (
                SYSTEM_TIME.to_string(),
                FieldValue::Str("2021-06-01T12:30:00.000000Z".to_string()),
            ),
            (
                "Event.System.EventID.#text".to_string(),
                FieldValue::UInt(5),
            ),
            ("Event.System.EventID".to_string(), FieldValue::UInt(4624)),
        ],
        text: "svchost record".to_string(),
    }))];
    assert_eq!(searcher.search(&records).unwrap().len(), 0);
}

#[test]
fn string_event_id_never_equals_the_number_filter() {
    let searcher = Searcher::builder()
        .pattern("svchost".to_string())
        .event_id(4624)
        .build()
        .unwrap();
    let records = vec![Ok(record_with_event_id(
        FieldValue::Str("4624".to_string()),
        true,
    ))];
    assert_eq!(searcher.search(&records).unwrap().len(), 0);
}

#[test]
fn search_timestamp_failure_is_fatal_without_skip_errors() {
    let searcher = Searcher::builder()
        .pattern("svchost".to_string())
        .build()
        .unwrap();
    let records = vec![Ok(Document::Evtx(Record {
        fields: vec![],
        text: "svchost".to_string(),
    }))];
    assert_eq!(searcher.search(&records).unwrap_err(), Error::Timestamp);
}

#[test]
fn search_timestamp_failure_is_skipped_with_skip_errors() {
    let searcher = Searcher::builder()
        .pattern("svchost".to_string())
        .skip_errors(true)
        .build()
        .unwrap();
    let records = vec![Ok(Document::Evtx(Record {
        fields: vec![],
        text: "svchost".to_string(),
    }))];
    assert_eq!(searcher.search(&records).unwrap().len(), 0);
}

#[test]
fn corrupt_record_is_skipped_by_search() {
    let searcher = Searcher::builder()
        .pattern("svchost".to_string())
        .ignore_case(true)
        .build()
        .unwrap();
    let records = vec![Err(Error::Decode), Ok(record_with_text("SvcHost.exe"))];
    assert_eq!(searcher.search(&records).unwrap().len(), 1);
}

#[test]
fn unreadable_timestamp_string_is_a_timestamp_failure() {
    let searcher = Searcher::builder()
        .pattern("svchost".to_string())
        .build()
        .unwrap();
    let records = vec![Ok(Document::Evtx(Record {
        fields: vec![(
            SYSTEM_TIME.to_string(),
            FieldValue::Str("not a timestamp".to_string()),
        )],
        text: "svchost".to_string(),
    }))];
    assert_eq!(searcher.search(&records).unwrap_err(), Error::Timestamp);
}

#[test]
fn searching_one_record_matches_searching_a_stream_of_one() {
    let searcher = Searcher::builder()
        .pattern("svchost".to_string())
        .ignore_case(true)
        .build()
        .unwrap();
    let hit = searcher
        .search_record(&Ok(record_with_text("SvcHost.exe")))
        .unwrap();
    assert!(hit.is_some());
    let miss = searcher
        .search_record(&Ok(record_with_text("explorer.exe")))
        .unwrap();
    assert!(miss.is_none());
    let skipped = searcher.search_record(&Err(Error::Decode)).unwrap();
    assert!(skipped.is_none());
}
