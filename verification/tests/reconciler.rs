use ddns::config::{validate_records, Config, RawRecord};
use ddns::errors::DdnsError;
use ddns::machine::{Op, Phase, Reconciler};
use ddns::probe::{clean_probe_body, probe_url};
use ddns::provider::{
    auth_header_value, interpret_list, interpret_single, record_url, records_url, ListEnvelope,
    RecordEnvelope,
};
use ddns::reconcile::{decide, Action, Decision};
use ddns::records::{ApiError, DnsRecord, Family, RecordConfig, RecordPayload};

fn record(id: Option<&str>, name: &str, family: Family, content: &str) -> DnsRecord {
    DnsRecord {
        id: id.map(|s| s.to_string()),
        name: name.to_string(),
        family,
        content: content.to_string(),
        ttl: 1,
        proxied: false,
    }
}

fn spec_a() -> RecordConfig {
    RecordConfig {
        name: "home.example.net".to_string(),
        family: Family::A,
    }
}

#[test]
fn family_text() {
    assert_eq!(Family::A.text(), "A");
    assert_eq!(Family::AAAA.text(), "AAAA");
}

#[test]
fn family_parse_recognizes_both_families() {
    assert!(matches!(Family::parse("A"), Some(Family::A)));
    assert!(matches!(Family::parse("AAAA"), Some(Family::AAAA)));
    assert!(Family::parse("CNAME").is_none());
    assert!(Family::parse("a").is_none());
    assert!(Family::parse("").is_none());
}

#[test]
fn validate_records_keeps_order_and_families() {
    let raw = vec![
        RawRecord {
            name: "home.example.net".to_string(),
            rtype: "A".to_string(),
        },
        RawRecord {
            name: "v6.example.net".to_string(),
            rtype: "AAAA".to_string(),
        },
    ];
    let specs = validate_records(raw).unwrap();
    assert_eq!(specs.len(), 2);
    assert_eq!(specs[0].name, "home.example.net");
    assert!(matches!(specs[0].family, Family::A));
    assert_eq!(specs[1].name, "v6.example.net");
    assert!(matches!(specs[1].family, Family::AAAA));
}

#[test]
fn validate_records_rejects_unknown_type() {
    let raw = vec![
        RawRecord {
            name: "home.example.net".to_string(),
            rtype: "A".to_string(),
        },
        RawRecord {
            name: "mail.example.net".to_string(),
            rtype: "MX".to_string(),
        },
    ];
    match validate_records(raw) {
        Err(DdnsError::UnsupportedFamily(t)) => assert_eq!(t, "MX"),
        _ => panic!("expected UnsupportedFamily"),
    }
}

#[test]
fn probe_urls_differ_per_family() {
    assert_eq!(probe_url(Family::A), "https://ipinfo.io/ip");
    assert_eq!(probe_url(Family::AAAA), "https://ifconfig.me/ip");
}

#[test]
fn probe_body_is_trimmed() {
    assert_eq!(clean_probe_body("203.0.113.7\n").unwrap(), "203.0.113.7");
    assert_eq!(
        clean_probe_body("  203.0.113.7\r\n").unwrap(),
        "203.0.113.7"
    );
    assert_eq!(clean_probe_body("2001:db8::1").unwrap(), "2001:db8::1");
}

#[test]
fn empty_probe_body_is_an_error() {
    assert!(matches!(clean_probe_body(""), Err(DdnsError::EmptyResponse)));
    assert!(matches!(
        clean_probe_body(" \r\n\t"),
        Err(DdnsError::EmptyResponse)
    ));
}

#[test]
fn provider_urls() {
    assert_eq!(
        records_url("zone9"),
        "https://api.cloudflare.com/client/v4/zones/zone9/dns_records"
    );
    assert_eq!(
        record_url("zone9", "r1"),
        "https://api.cloudflare.com/client/v4/zones/zone9/dns_records/r1"
    );
}

#[test]
fn auth_header_carries_bearer_token() {
    assert_eq!(auth_header_value("SECRET-REDACTED"), "Bearer SECRET-REDACTED");
}

#[test]
fn list_envelope_success_yields_records() {
    let env = ListEnvelope {
        success: true,
        result: Some(vec![record(
            Some("r1"),
            "home.example.net",
            Family::A,
            "203.0.113.7",
        )]),
        errors: None,
    };
    let records = interpret_list(env).unwrap();
    assert_eq!(records.len(), 1);
    assert_eq!(records[0].content, "203.0.113.7");
}

#[test]
fn list_envelope_missing_result_is_empty() {
    let env = ListEnvelope {
        success: true,
        result: None,
        errors: None,
    };
    assert!(interpret_list(env).unwrap().is_empty());
}

#[test]
fn list_envelope_failure_carries_errors() {
    let env = ListEnvelope {
        success: false,
        result: None,
        errors: Some(vec![ApiError {
            code: 9103,
            message: "Unauthorized".to_string(),
        }]),
    };
    match interpret_list(env) {
        Err(DdnsError::ProviderApi(es)) => {
            assert_eq!(es.len(), 1);
            assert_eq!(es[0].code, 9103);
            assert_eq!(es[0].message, "Unauthorized");
        }
        _ => panic!("expected ProviderApi"),
    }
}

#[test]
fn list_envelope_failure_without_errors_is_empty_error_list() {
    let env = ListEnvelope {
        success: false,
        result: Some(vec![]),
        errors: None,
    };
    match interpret_list(env) {
        Err(DdnsError::ProviderApi(es)) => assert!(es.is_empty()),
        _ => panic!("expected ProviderApi"),
    }
}

#[test]
fn single_envelope_success_needs_result() {
    let env = RecordEnvelope {
        success: true,
        result: None,
        errors: None,
    };
    assert!(matches!(
        interpret_single(env),
        Err(DdnsError::MissingResult)
    ));
}

#[test]
fn single_envelope_success_yields_record() {
    let env = RecordEnvelope {
        success: true,
        result: Some(record(Some("r1"), "home.example.net", Family::A, "203.0.113.9")),
        errors: None,
    };
    let r = interpret_single(env).unwrap();
    assert_eq!(r.id.as_deref(), Some("r1"));
    assert_eq!(r.content, "203.0.113.9");
}

#[test]
fn decide_matching_content_is_noop() {
    // S1: the listed record already carries the probed address.
    let observed = clean_probe_body("203.0.113.7\n").unwrap();
    let existing = vec![record(
        Some("r1"),
        "home.example.net",
        Family::A,
        "203.0.113.7",
    )];
    assert!(matches!(
        decide(&spec_a(), &observed, &existing),
        Ok(Decision::UpToDate)
    ));
}

#[test]
fn decide_mismatch_is_update_of_first_record() {
    // S2: the listed record carries a stale address.
    let observed = "203.0.113.9".to_string();
    let existing = vec![record(
        Some("r1"),
        "home.example.net",
        Family::A,
        "203.0.113.7",
    )];
    match decide(&spec_a(), &observed, &existing) {
        Ok(Decision::Apply(Action::Update { id, payload })) => {
            assert_eq!(id, "r1");
            assert_eq!(payload.name, "home.example.net");
            assert!(matches!(payload.family, Family::A));
            assert_eq!(payload.content, "203.0.113.9");
            assert_eq!(payload.ttl, 1);
            assert!(!payload.proxied);
        }
        _ => panic!("expected update"),
    }
}

#[test]
fn decide_empty_listing_is_create() {
    // S3: no record exists yet.
    let observed = "203.0.113.9".to_string();
    let existing: Vec<DnsRecord> = vec![];
    match decide(&spec_a(), &observed, &existing) {
        Ok(Decision::Apply(Action::Create { payload })) => {
            assert_eq!(payload.name, "home.example.net");
            assert_eq!(payload.content, "203.0.113.9");
            assert_eq!(payload.ttl, 1);
            assert!(!payload.proxied);
        }
        _ => panic!("expected create"),
    }
}

#[test]
fn decide_only_first_record_counts() {
    let observed = "203.0.113.7".to_string();
    let existing = vec![
        record(Some("r1"), "home.example.net", Family::A, "203.0.113.7"),
        record(Some("r2"), "home.example.net", Family::A, "203.0.113.9"),
    ];
    assert!(matches!(
        decide(&spec_a(), &observed, &existing),
        Ok(Decision::UpToDate)
    ));
}

#[test]
fn decide_update_without_id_is_an_error() {
    let observed = "203.0.113.9".to_string();
    let existing = vec![record(None, "home.example.net", Family::A, "203.0.113.7")];
    assert!(matches!(
        decide(&spec_a(), &observed, &existing),
        Err(DdnsError::MissingRecordId)
    ));
}

#[test]
fn payload_build_fixes_ttl_and_proxied() {
    let p = RecordPayload::build(
        &"v6.example.net".to_string(),
        Family::AAAA,
        &"2001:db8::1".to_string(),
    );
    assert_eq!(p.name, "v6.example.net");
    assert!(matches!(p.family, Family::AAAA));
    assert_eq!(p.content, "2001:db8::1");
    assert_eq!(p.ttl, 1);
    assert!(!p.proxied);
}

#[test]
fn run_noop_scenario() {
    // S1 end to end: probe, list, no mutation, done.
    let mut m = Reconciler::new(vec![spec_a()]);
    assert!(matches!(m.next_op(), Op::Probe { family: Family::A }));
    m.probe_done(Ok("203.0.113.7\n".to_string()));
    match m.next_op() {
        Op::List { name, family } => {
            assert_eq!(name, "home.example.net");
            assert!(matches!(family, Family::A));
        }
        _ => panic!("expected list"),
    }
    m.list_done(Ok(ListEnvelope {
        success: true,
        result: Some(vec![record(
            Some("r1"),
            "home.example.net",
            Family::A,
            "203.0.113.7",
        )]),
        errors: None,
    }));
    assert!(matches!(m.next_op(), Op::Finished));
}

#[test]
fn run_update_scenario() {
    // S2 end to end: stale content leads to exactly one update.
    let mut m = Reconciler::new(vec![spec_a()]);
    m.probe_done(Ok("203.0.113.9".to_string()));
    m.list_done(Ok(ListEnvelope {
        success: true,
        result: Some(vec![record(
            Some("r1"),
            "home.example.net",
            Family::A,
            "203.0.113.7",
        )]),
        errors: None,
    }));
    match m.next_op() {
        Op::Update { id, payload } => {
            assert_eq!(id, "r1");
            assert_eq!(payload.name, "home.example.net");
            assert!(matches!(payload.family, Family::A));
            assert_eq!(payload.content, "203.0.113.9");
            assert_eq!(payload.ttl, 1);
            assert!(!payload.proxied);
        }
        _ => panic!("expected update"),
    }
    m.mutate_done(Ok(RecordEnvelope {
        success: true,
        result: Some(record(Some("r1"), "home.example.net", Family::A, "203.0.113.9")),
        errors: None,
    }));
    assert!(matches!(m.next_op(), Op::Finished));
}

#[test]
fn run_create_scenario() {
    // S3 end to end: an empty listing leads to exactly one create.
    let mut m = Reconciler::new(vec![spec_a()]);
    m.probe_done(Ok("203.0.113.9".to_string()));
    m.list_done(Ok(ListEnvelope {
        success: true,
        result: Some(vec![]),
        errors: None,
    }));
    match m.next_op() {
        Op::Create { payload } => {
            assert_eq!(payload.name, "home.example.net");
            assert_eq!(payload.content, "203.0.113.9");
        }
        _ => panic!("expected create"),
    }
    m.mutate_done(Ok(RecordEnvelope {
        success: true,
        result: Some(record(Some("r9"), "home.example.net", Family::A, "203.0.113.9")),
        errors: None,
    }));
    assert!(matches!(m.next_op(), Op::Finished));
}

#[test]
fn run_aaaa_scenario() {
    // S4: an AAAA intent probes for AAAA and creates with type AAAA.
    let mut m = Reconciler::new(vec![RecordConfig {
        name: "v6.example.net".to_string(),
        family: Family::AAAA,
    }]);
    assert!(matches!(m.next_op(), Op::Probe { family: Family::AAAA }));
    m.probe_done(Ok("2001:db8::1".to_string()));
    m.list_done(Ok(ListEnvelope {
        success: true,
        result: Some(vec![]),
        errors: None,
    }));
    match m.next_op() {
        Op::Create { payload } => {
            assert!(matches!(payload.family, Family::AAAA));
            assert_eq!(payload.content, "2001:db8::1");
        }
        _ => panic!("expected create"),
    }
}

#[test]
fn run_halts_on_provider_failure() {
    // S5: the first record's list reply fails; the second record is never
    // reached.
    let specs = vec![
        spec_a(),
        RecordConfig {
            name: "v6.example.net".to_string(),
            family: Family::AAAA,
        },
    ];
    let mut m = Reconciler::new(specs);
    m.probe_done(Ok("203.0.113.7".to_string()));
    m.list_done(Ok(ListEnvelope {
        success: false,
        result: None,
        errors: Some(vec![ApiError {
            code: 9103,
            message: "Unauthorized".to_string(),
        }]),
    }));
    match m.next_op() {
        Op::Halted { error: DdnsError::ProviderApi(es) } => {
            assert_eq!(es.len(), 1);
            assert_eq!(es[0].code, 9103);
            assert_eq!(es[0].message, "Unauthorized");
        }
        _ => panic!("expected halt"),
    }
    // The machine stays halted; the index never moved past the first record.
    assert_eq!(m.idx, 0);
    assert!(matches!(m.phase, Phase::Failed { .. }));
}

#[test]
fn run_whitespace_trimming_scenario() {
    // S6: surrounding whitespace in the probe body does not cause a
    // mutation.
    let mut m = Reconciler::new(vec![spec_a()]);
    m.probe_done(Ok("  203.0.113.7\r\n".to_string()));
    m.list_done(Ok(ListEnvelope {
        success: true,
        result: Some(vec![record(
            Some("r1"),
            "home.example.net",
            Family::A,
            "203.0.113.7",
        )]),
        errors: None,
    }));
    assert!(matches!(m.next_op(), Op::Finished));
}

#[test]
fn run_probe_transport_failure_halts() {
    let mut m = Reconciler::new(vec![spec_a()]);
    m.probe_done(Err("connection refused".to_string()));
    match m.next_op() {
        Op::Halted { error: DdnsError::ProbeTransport(msg) } => {
            assert_eq!(msg, "connection refused");
        }
        _ => panic!("expected halt"),
    }
}

#[test]
fn run_empty_probe_body_halts() {
    let mut m = Reconciler::new(vec![spec_a()]);
    m.probe_done(Ok("\r\n".to_string()));
    assert!(matches!(
        m.next_op(),
        Op::Halted { error: DdnsError::EmptyResponse }
    ));
}

#[test]
fn run_without_records_finishes_at_once() {
    let m = Reconciler::new(vec![]);
    assert!(matches!(m.next_op(), Op::Finished));
}

#[test]
fn run_two_records_in_declaration_order() {
    // Idempotent pass over two records: two probes, two listings, no
    // mutation, in declaration order.
    let specs = vec![
        spec_a(),
        RecordConfig {
            name: "v6.example.net".to_string(),
            family: Family::AAAA,
        },
    ];
    let mut m = Reconciler::new(specs);
    assert!(matches!(m.next_op(), Op::Probe { family: Family::A }));
    m.probe_done(Ok("203.0.113.7".to_string()));
    m.list_done(Ok(ListEnvelope {
        success: true,
        result: Some(vec![record(
            Some("r1"),
            "home.example.net",
            Family::A,
            "203.0.113.7",
        )]),
        errors: None,
    }));
    assert!(matches!(m.next_op(), Op::Probe { family: Family::AAAA }));
    m.probe_done(Ok("2001:db8::1".to_string()));
    match m.next_op() {
        Op::List { name, family } => {
            assert_eq!(name, "v6.example.net");
            assert!(matches!(family, Family::AAAA));
        }
        _ => panic!("expected list"),
    }
    m.list_done(Ok(ListEnvelope {
        success: true,
        result: Some(vec![record(
            Some("r6"),
            "v6.example.net",
            Family::AAAA,
            "2001:db8::1",
        )]),
        errors: None,
    }));
    assert!(matches!(m.next_op(), Op::Finished));
}

#[test]
fn config_holds_credentials_and_records() {
    let cfg = Config {
        api_token: "SECRET-REDACTED".to_string(),
        zone_id: "zone9".to_string(),
        records: vec![spec_a()],
    };
    assert_eq!(cfg.zone_id, "zone9");
    assert_eq!(cfg.records.len(), 1);
}

#[test]
fn error_kind_names() {
    assert_eq!(
        DdnsError::ConfigParse("x".to_string()).kind_text(),
        "ConfigParseError"
    );
    assert_eq!(
        DdnsError::UnsupportedFamily("MX".to_string()).kind_text(),
        "UnsupportedFamily"
    );
    assert_eq!(
        DdnsError::ProbeTransport("x".to_string()).kind_text(),
        "ProbeTransportError"
    );
    assert_eq!(DdnsError::EmptyResponse.kind_text(), "EmptyResponse");
    assert_eq!(
        DdnsError::ProviderTransport("x".to_string()).kind_text(),
        "ProviderTransportError"
    );
    assert_eq!(
        DdnsError::ProviderApi(vec![]).kind_text(),
        "ProviderApiError"
    );
    assert_eq!(DdnsError::MissingResult.kind_text(), "MissingResult");
    assert_eq!(DdnsError::MissingRecordId.kind_text(), "MissingRecordId");
}

#[test]
fn run_list_transport_failure_halts() {
    let mut m = Reconciler::new(vec![spec_a()]);
    m.probe_done(Ok("203.0.113.7".to_string()));
    m.list_done(Err("connection reset".to_string()));
    match m.next_op() {
        Op::Halted { error: DdnsError::ProviderTransport(msg) } => {
            assert_eq!(msg, "connection reset");
        }
        _ => panic!("expected halt"),
    }
}

#[test]
fn run_mutation_missing_result_halts() {
    let mut m = Reconciler::new(vec![spec_a()]);
    m.probe_done(Ok("203.0.113.9".to_string()));
    m.list_done(Ok(ListEnvelope {
        success: true,
        result: Some(vec![]),
        errors: None,
    }));
    assert!(matches!(m.next_op(), Op::Create { .. }));
    m.mutate_done(Ok(RecordEnvelope {
        success: true,
        result: None,
        errors: None,
    }));
    assert!(matches!(
        m.next_op(),
        Op::Halted { error: DdnsError::MissingResult }
    ));
}

#[test]
fn error_duplicate_keeps_payload() {
    let e = DdnsError::ProviderApi(vec![ApiError {
        code: 9103,
        message: "Unauthorized".to_string(),
    }]);
    match e.duplicate() {
        DdnsError::ProviderApi(es) => {
            assert_eq!(es.len(), 1);
            assert_eq!(es[0].code, 9103);
            assert_eq!(es[0].message, "Unauthorized");
        }
        _ => panic!("expected ProviderApi"),
    }
}
