use chainsaw::file::{Document, Record};
use chainsaw::hunt::{Group, Hunter, Kind, Mapping};
use chainsaw::rule::Rule;
use chainsaw::value::FieldValue;
use chainsaw::Error;

const TS_PATH: &str = "Event.System.TimeCreated_attributes.SystemTime";

fn ts_micros(s: &str) -> i64 {
    let t = chrono::NaiveDateTime::parse_from_str(s, "%Y-%m-%dT%H:%M:%S%.6fZ")
        .expect("timestamp should parse")
        .and_utc();
    t.timestamp() * 1_000_000 + t.timestamp_subsec_micros() as i64
}

fn make_rule(tag: &str, field: &str, value: &str) -> Rule {
    let src = format!(
        "detection:\n  A:\n    {}: {}\n  condition: A\ntrue_positives: []\ntrue_negatives: []\n",
        field, value
    );
    Rule::new(tag.to_string(), None, None, None, src).expect("rule should parse")
}

fn evtx_record(fields: Vec<(&str, FieldValue)>, text: &str) -> Document {
    Document::Evtx(Record {
        fields: fields
            .into_iter()
            .map(|(k, v)| (k.to_string(), v))
            .collect(),
        text: text.to_string(),
    })
}

fn logon_mapping(name: &str, exclusions: Vec<&str>) -> Mapping {
    Mapping {
        exclusions: exclusions.into_iter().map(|s| s.to_string()).collect(),
        groups: vec![Group {
            default: None,
            fields: vec![
                ("EventID".to_string(), "Event.System.EventID".to_string()),
                ("User".to_string(), "Event.System.User".to_string()),
            ],
            filters: vec![vec![(
                "Event.System.EventID".to_string(),
                FieldValue::UInt(4624),
            )]],
            name: "logons".to_string(),
        }],
        kind: "evtx".to_string(),
        name: name.to_string(),
    }
}

fn system_logon_record(event_id: u64, user: &str) -> Document {
    let text = format!(
        "{{\"Event\":{{\"System\":{{\"EventID\":{},\"User\":\"{}\"}}}}}}",
        event_id, user
    );
    evtx_record(
        vec![
            (
                TS_PATH,
                FieldValue::Str("2021-01-01T00:00:00.000000Z".to_string()),
            ),
            ("Event.System.EventID", FieldValue::UInt(event_id)),
            ("Event.System.User", FieldValue::Str(user.to_string())),
        ],
        &text,
    )
}

#[test]
fn matching_record_yields_one_detection_with_one_hit() {
    let hunter = Hunter::builder()
        .rules(vec![make_rule("suspicious-logon", "User", "SYSTEM")])
        .mappings(vec![logon_mapping("windows", vec![])])
        .build()
        .unwrap();
    let records = vec![Ok(system_logon_record(4624, "SYSTEM"))];
    let dets = hunter.hunt(&records).unwrap();
    assert_eq!(dets.len(), 1);
    assert_eq!(dets[0].hits.len(), 1);
    assert_eq!(dets[0].hits[0].tag, "suspicious-logon");
    assert_eq!(dets[0].hits[0].group.as_deref(), Some("logons"));
    assert_eq!(dets[0].mapping.as_deref(), Some("windows"));
    assert_eq!(dets[0].timestamp, ts_micros("2021-01-01T00:00:00.000000Z"));
    match &dets[0].kind {
        Kind::Individual { document } => assert_eq!(document.kind, "evtx"),
        Kind::Aggregate { .. } => panic!("expected an individual detection"),
    }
}

#[test]
fn non_matching_event_id_yields_zero_detections() {
    let hunter = Hunter::builder()
        .rules(vec![make_rule("suspicious-logon", "User", "SYSTEM")])
        .mappings(vec![logon_mapping("windows", vec![])])
        .build()
        .unwrap();
    let records = vec![Ok(system_logon_record(4625, "SYSTEM"))];
    let dets = hunter.hunt(&records).unwrap();
    assert_eq!(dets.len(), 0);
}

#[test]
fn unmatched_group_gives_no_hits_even_with_matching_rule() {
    let Document::Evtx(record) = system_logon_record(4624, "SYSTEM");
    let rules = vec![make_rule("suspicious-logon", "User", "SYSTEM")];
    let group = Group {
        default: None,
        fields: vec![("User".to_string(), "Event.System.User".to_string())],
        filters: vec![vec![(
            "Event.System.Nonexistent".to_string(),
            FieldValue::UInt(4624),
        )]],
        name: "logons".to_string(),
    };
    assert!(record.hits(&rules, &vec![], &group).is_none());
}

#[test]
fn clause_fails_when_one_of_its_tests_fails() {
    let Document::Evtx(record) = system_logon_record(4624, "SYSTEM");
    let rules = vec![make_rule("suspicious-logon", "User", "SYSTEM")];
    let both_match = Group {
        default: None,
        fields: vec![],
        filters: vec![vec![
            ("Event.System.EventID".to_string(), FieldValue::UInt(4624)),
            (
                "Event.System.User".to_string(),
                FieldValue::Str("SYSTEM".to_string()),
            ),
        ]],
        name: "g".to_string(),
    };
    let one_unequal = Group {
        default: None,
        fields: vec![],
        filters: vec![vec![
            ("Event.System.EventID".to_string(), FieldValue::UInt(4624)),
            (
                "Event.System.User".to_string(),
                FieldValue::Str("guest".to_string()),
            ),
        ]],
        name: "g".to_string(),
    };
    assert!(record.hits(&rules, &vec![], &both_match).is_some());
    assert!(record.hits(&rules, &vec![], &one_unequal).is_none());
}

#[test]
fn first_alias_path_wins_even_when_fallback_resolves() {
    let doc = evtx_record(
        vec![
            ("Event.System.EventID", FieldValue::UInt(1)),
            ("Event.System.EventID.#text", FieldValue::UInt(2)),
        ],
        "{}",
    );
    let Document::Evtx(record) = doc;
    let key = "Event.System.EventID".to_string();
    match chainsaw::hunt::filter_lookup(&record, &key) {
        Some(FieldValue::UInt(u)) => assert_eq!(*u, 1),
        _ => panic!("the primary path should resolve to 1"),
    }
}

#[test]
fn fallback_path_used_when_primary_is_absent() {
    let doc = evtx_record(
        vec![("Event.System.EventID.#text", FieldValue::UInt(2))],
        "{}",
    );
    let Document::Evtx(record) = doc;
    let key = "Event.System.EventID".to_string();
    match chainsaw::hunt::filter_lookup(&record, &key) {
        Some(FieldValue::UInt(u)) => assert_eq!(*u, 2),
        _ => panic!("the fallback path should resolve to 2"),
    }
}

#[test]
fn record_at_exact_from_boundary_is_excluded() {
    let ts = ts_micros("2021-01-01T00:00:00.000000Z");
    let hunter = Hunter::builder()
        .rules(vec![make_rule("suspicious-logon", "User", "SYSTEM")])
        .mappings(vec![logon_mapping("windows", vec![])])
        .from(ts)
        .build()
        .unwrap();
    let records = vec![Ok(system_logon_record(4624, "SYSTEM"))];
    assert_eq!(hunter.hunt(&records).unwrap().len(), 0);
}

#[test]
fn record_at_exact_to_boundary_is_excluded() {
    let ts = ts_micros("2021-01-01T00:00:00.000000Z");
    let hunter = Hunter::builder()
        .rules(vec![make_rule("suspicious-logon", "User", "SYSTEM")])
        .mappings(vec![logon_mapping("windows", vec![])])
        .to(ts)
        .build()
        .unwrap();
    let records = vec![Ok(system_logon_record(4624, "SYSTEM"))];
    assert_eq!(hunter.hunt(&records).unwrap().len(), 0);
}

#[test]
fn record_strictly_inside_window_is_included() {
    let from = ts_micros("2020-12-31T23:59:59.000000Z");
    let to = ts_micros("2021-01-01T00:00:01.000000Z");
    let hunter = Hunter::builder()
        .rules(vec![make_rule("suspicious-logon", "User", "SYSTEM")])
        .mappings(vec![logon_mapping("windows", vec![])])
        .from(from)
        .to(to)
        .build()
        .unwrap();
    let records = vec![Ok(system_logon_record(4624, "SYSTEM"))];
    assert_eq!(hunter.hunt(&records).unwrap().len(), 1);
}

#[test]
fn hunting_twice_yields_identical_detections() {
    let hunter = Hunter::builder()
        .rules(vec![
            make_rule("suspicious-logon", "User", "SYSTEM"),
            make_rule("any-logon", "EventID", "4624"),
        ])
        .mappings(vec![logon_mapping("windows", vec![])])
        .build()
        .unwrap();
    let records = vec![
        Ok(system_logon_record(4624, "SYSTEM")),
        Ok(system_logon_record(4625, "SYSTEM")),
        Ok(system_logon_record(4624, "guest")),
    ];
    let first = hunter.hunt(&records).unwrap();
    let second = hunter.hunt(&records).unwrap();
    assert_eq!(first.len(), second.len());
    for (a, b) in first.iter().zip(second.iter()) {
        assert_eq!(a.timestamp, b.timestamp);
        assert_eq!(a.mapping, b.mapping);
        assert_eq!(a.hits.len(), b.hits.len());
        for (x, y) in a.hits.iter().zip(b.hits.iter()) {
            assert_eq!(x.tag, y.tag);
            assert_eq!(x.group, y.group);
        }
    }
}

#[test]
fn exclusion_is_scoped_to_its_own_mapping() {
    let hunter = Hunter::builder()
        .rules(vec![make_rule("suspicious-logon", "User", "SYSTEM")])
        .mappings(vec![
            logon_mapping("first", vec!["suspicious-logon"]),
            logon_mapping("second", vec![]),
        ])
        .build()
        .unwrap();
    let records = vec![Ok(system_logon_record(4624, "SYSTEM"))];
    let dets = hunter.hunt(&records).unwrap();
    assert_eq!(dets.len(), 1);
    assert_eq!(dets[0].mapping.as_deref(), Some("second"));
    assert_eq!(dets[0].hits[0].tag, "suspicious-logon");
}

#[test]
fn ungated_mode_runs_rules_against_the_raw_record() {
    let hunter = Hunter::builder()
        .rules(vec![make_rule(
            "system-user",
            "Event.System.User",
            "SYSTEM",
        )])
        .build()
        .unwrap();
    let records = vec![Ok(system_logon_record(4624, "SYSTEM"))];
    let dets = hunter.hunt(&records).unwrap();
    assert_eq!(dets.len(), 1);
    assert_eq!(dets[0].mapping, None);
    assert_eq!(dets[0].hits.len(), 1);
    assert_eq!(dets[0].hits[0].group, None);
}

#[test]
fn mapping_of_another_kind_is_skipped() {
    let mut mapping = logon_mapping("other", vec![]);
    mapping.kind = "json".to_string();
    let hunter = Hunter::builder()
        .rules(vec![make_rule("suspicious-logon", "User", "SYSTEM")])
        .mappings(vec![mapping])
        .build()
        .unwrap();
    let records = vec![Ok(system_logon_record(4624, "SYSTEM"))];
    assert_eq!(hunter.hunt(&records).unwrap().len(), 0);
}

#[test]
fn missing_timestamp_is_fatal_without_skip_errors() {
    let hunter = Hunter::builder()
        .rules(vec![make_rule("suspicious-logon", "User", "SYSTEM")])
        .build()
        .unwrap();
    let records = vec![Ok(evtx_record(
        vec![("Event.System.User", FieldValue::Str("SYSTEM".to_string()))],
        "{}",
    ))];
    assert_eq!(hunter.hunt(&records).unwrap_err(), Error::Timestamp);
}

#[test]
fn missing_timestamp_is_skipped_with_skip_errors() {
    let hunter = Hunter::builder()
        .rules(vec![make_rule("suspicious-logon", "User", "SYSTEM")])
        .skip_errors(true)
        .build()
        .unwrap();
    let records = vec![Ok(evtx_record(
        vec![("Event.System.User", FieldValue::Str("SYSTEM".to_string()))],
        "{}",
    ))];
    assert_eq!(hunter.hunt(&records).unwrap().len(), 0);
}

#[test]
fn corrupt_record_is_always_skipped() {
    let hunter = Hunter::builder()
        .rules(vec![make_rule("suspicious-logon", "User", "SYSTEM")])
        .mappings(vec![logon_mapping("windows", vec![])])
        .build()
        .unwrap();
    let records = vec![
        Err(Error::Decode),
        Ok(system_logon_record(4624, "SYSTEM")),
    ];
    let dets = hunter.hunt(&records).unwrap();
    assert_eq!(dets.len(), 1);
}

#[test]
fn malformed_rule_source_is_rejected_at_load() {
    let r = Rule::new(
        "broken".to_string(),
        None,
        None,
        None,
        "detection:\n  condition: missing-identifier\ntrue_positives: []\ntrue_negatives: []\n"
            .to_string(),
    );
    assert!(r.is_none());
}

#[test]
fn hunter_accessors_return_the_configuration() {
    let hunter = Hunter::builder()
        .rules(vec![make_rule("suspicious-logon", "User", "SYSTEM")])
        .mappings(vec![logon_mapping("windows", vec![])])
        .build()
        .unwrap();
    assert_eq!(hunter.rules().len(), 1);
    assert_eq!(hunter.rules()[0].tag(), "suspicious-logon");
    assert_eq!(hunter.mappings().len(), 1);
    assert_eq!(hunter.mappings()[0].name, "windows");
}

#[test]
fn non_integer_numbers_flow_through_the_alias_view() {
    let mapping = Mapping {
        exclusions: vec![],
        groups: vec![Group {
            default: None,
            fields: vec![("Score".to_string(), "Event.System.Score".to_string())],
            filters: vec![vec![(
                "Event.System.Score".to_string(),
                FieldValue::Num("4.5".to_string()),
            )]],
            name: "scores".to_string(),
        }],
        kind: "evtx".to_string(),
        name: "windows".to_string(),
    };
    let hunter = Hunter::builder()
        .rules(vec![make_rule("high-score", "Score", "4.5")])
        .mappings(vec![mapping])
        .build()
        .unwrap();
    let records = vec![Ok(evtx_record(
        vec![
            (
                TS_PATH,
                FieldValue::Str("2021-01-01T00:00:00.000000Z".to_string()),
            ),
            ("Event.System.Score", FieldValue::Num("4.5".to_string())),
        ],
        "{}",
    ))];
    let dets = hunter.hunt(&records).unwrap();
    assert_eq!(dets.len(), 1);
    assert_eq!(dets[0].hits[0].tag, "high-score");
}

#[test]
fn rule_whose_logic_the_solver_cannot_run_is_rejected() {
    let src = "detection:\n  condition: not int(A)\ntrue_positives: []\ntrue_negatives: []\n";
    let r = Rule::new("bare-cast".to_string(), None, None, None, src.to_string());
    assert!(r.is_none());
}

#[test]
fn rule_metadata_is_reachable_through_accessors() {
    let src = "detection:\n  A:\n    User: SYSTEM\n  condition: A\ntrue_positives: []\ntrue_negatives: []\n";
    let rule = Rule::new(
        "meta".to_string(),
        Some("high".to_string()),
        Some("stable".to_string()),
        Some(vec!["a".to_string(), "b".to_string()]),
        src.to_string(),
    )
    .expect("rule should parse");
    assert_eq!(rule.tag(), "meta");
    assert_eq!(rule.level().as_deref(), Some("high"));
    assert_eq!(rule.status().as_deref(), Some("stable"));
    assert_eq!(rule.authors().as_ref().map(|a| a.len()), Some(2));
    assert!(rule.source().contains("condition"));
}

#[test]
fn hunting_one_record_matches_hunting_a_stream_of_one() {
    let hunter = Hunter::builder()
        .rules(vec![make_rule("suspicious-logon", "User", "SYSTEM")])
        .mappings(vec![logon_mapping("windows", vec![])])
        .build()
        .unwrap();
    let dets = hunter
        .hunt_record(&Ok(system_logon_record(4624, "SYSTEM")))
        .unwrap();
    assert_eq!(dets.len(), 1);
    assert_eq!(dets[0].hits[0].tag, "suspicious-logon");
    let none = hunter
        .hunt_record(&Ok(system_logon_record(4625, "SYSTEM")))
        .unwrap();
    assert_eq!(none.len(), 0);
    let skipped = hunter.hunt_record(&Err(Error::Decode)).unwrap();
    assert_eq!(skipped.len(), 0);
}

#[test]
fn comparison_conditions_are_admitted_and_solved() {
    let src = "detection:\n  A:\n    User: SYSTEM\n  condition: A and int(EventID) >= 4000\ntrue_positives: []\ntrue_negatives: []\n";
    let rule =
        Rule::new("cmp".to_string(), None, None, None, src.to_string()).expect("rule should parse");
    let hunter = Hunter::builder()
        .rules(vec![rule])
        .mappings(vec![logon_mapping("windows", vec![])])
        .build()
        .unwrap();
    let hit = hunter
        .hunt_record(&Ok(system_logon_record(4624, "SYSTEM")))
        .unwrap();
    assert_eq!(hit.len(), 1);
    assert_eq!(hit[0].hits[0].tag, "cmp");
}

#[test]
fn negated_identifiers_are_admitted_and_solved() {
    let src = "detection:\n  A:\n    User: SYSTEM\n  B:\n    User: guest\n  condition: A and not B\ntrue_positives: []\ntrue_negatives: []\n";
    let rule = Rule::new("negated".to_string(), None, None, None, src.to_string())
        .expect("rule should parse");
    let hunter = Hunter::builder()
        .rules(vec![rule])
        .mappings(vec![logon_mapping("windows", vec![])])
        .build()
        .unwrap();
    let hit = hunter
        .hunt_record(&Ok(system_logon_record(4624, "SYSTEM")))
        .unwrap();
    assert_eq!(hit.len(), 1);
}
