//! Tests of the batch resolver and the credential store.

use ipinfo::resolve::lookup_headers;
use ipinfo::resolve::lookup_url;
use ipinfo::resolve::merge_addresses;
use ipinfo::resolve::query_parameter;
use ipinfo::resolve::report_plain_lines;
use ipinfo::resolve::resolve_batch;
use ipinfo::resolve::resolve_one;
use ipinfo::resolve::AddressOutcome;
use ipinfo::resolve::TransportOutcome;
use ipinfo::store::decode_credential;
use ipinfo::store::encode_credential;
use ipinfo::store::load_credential;
use ipinfo::store::ConfigError;
use ipinfo::store::Credential;

#[test]
fn success_response_renders_body() {
    let body = "{\"ip\":\"8.8.8.8\",\"country\":\"US\"}".to_string();
    let report = resolve_one("8.8.8.8".to_string(), &TransportOutcome::Response(200, body));
    let lines = report_plain_lines(&report, false);
    assert_eq!(
        lines,
        vec![
            "\u{2714} Success: Fetched data for IP: 8.8.8.8",
            "ip: \"8.8.8.8\"",
            "country: \"US\"",
            "",
        ]
    );
}

#[test]
fn success_response_suppresses_token_details() {
    let body = "{\"tokenDetails\": {\"secret\":\"x\"}, \"ip\":\"1.1.1.1\"}".to_string();
    let report = resolve_one("1.1.1.1".to_string(), &TransportOutcome::Response(200, body));
    let lines = report_plain_lines(&report, false);
    assert_eq!(
        lines,
        vec![
            "\u{2714} Success: Fetched data for IP: 1.1.1.1",
            "ip: \"1.1.1.1\"",
            "",
        ]
    );
}

#[test]
fn rejection_reports_status() {
    let report = resolve_one(
        "not-an-ip".to_string(),
        &TransportOutcome::Response(403, String::new()),
    );
    assert!(matches!(report.outcome, AddressOutcome::RemoteRejection(403)));
    let lines = report_plain_lines(&report, false);
    assert_eq!(
        lines,
        vec![
            "\u{2718} Error: Failed to fetch data for IP not-an-ip. Status: 403",
            "",
        ]
    );
}

#[test]
fn malformed_body_is_parse_error() {
    let report = resolve_one(
        "9.9.9.9".to_string(),
        &TransportOutcome::Response(200, "not json".to_string()),
    );
    assert!(matches!(report.outcome, AddressOutcome::ResponseParseError));
    let lines = report_plain_lines(&report, false);
    assert_eq!(
        lines,
        vec!["\u{2718} Error: Failed to parse data for IP 9.9.9.9.", ""]
    );
}

#[test]
fn transport_failure_is_reported() {
    let report = resolve_one("10.0.0.1".to_string(), &TransportOutcome::Failure);
    assert!(matches!(report.outcome, AddressOutcome::TransportFailure));
    let lines = report_plain_lines(&report, false);
    assert_eq!(
        lines,
        vec![
            "\u{2718} Error: Failed to fetch data for IP 10.0.0.1. Transport failure.",
            "",
        ]
    );
}

#[test]
fn verbose_adds_notice_first() {
    let report = resolve_one("8.8.8.8".to_string(), &TransportOutcome::Failure);
    let lines = report_plain_lines(&report, true);
    assert_eq!(lines[0], "Fetching IP information for: 8.8.8.8");
    assert_eq!(lines.len(), 3);
}

#[test]
fn batch_isolates_failures_and_keeps_order() {
    let addresses = vec![
        "1.1.1.1".to_string(),
        "2.2.2.2".to_string(),
        "3.3.3.3".to_string(),
    ];
    let fetched = vec![
        TransportOutcome::Response(200, "{\"ip\":\"1.1.1.1\"}".to_string()),
        TransportOutcome::Response(500, String::new()),
        TransportOutcome::Response(200, "{\"ip\":\"3.3.3.3\"}".to_string()),
    ];
    let reports = resolve_batch(&addresses, &fetched);
    assert_eq!(reports.len(), 3);
    let rendered = reports
        .iter()
        .filter(|r| matches!(r.outcome, AddressOutcome::Rendered(_)))
        .count();
    let rejected = reports
        .iter()
        .filter(|r| matches!(r.outcome, AddressOutcome::RemoteRejection(_)))
        .count();
    assert_eq!(rendered, 2);
    assert_eq!(rejected, 1);
    for (report, address) in reports.iter().zip(addresses.iter()) {
        assert_eq!(&report.address, address);
    }
    assert!(matches!(reports[1].outcome, AddressOutcome::RemoteRejection(500)));
}

#[test]
fn status_range_bounds_are_2xx() {
    let ok_low = resolve_one("a".to_string(), &TransportOutcome::Response(200, "{}".to_string()));
    assert!(matches!(ok_low.outcome, AddressOutcome::Rendered(_)));
    let ok_high = resolve_one("a".to_string(), &TransportOutcome::Response(299, "{}".to_string()));
    assert!(matches!(ok_high.outcome, AddressOutcome::Rendered(_)));
    let low = resolve_one("a".to_string(), &TransportOutcome::Response(199, "{}".to_string()));
    assert!(matches!(low.outcome, AddressOutcome::RemoteRejection(199)));
    let high = resolve_one("a".to_string(), &TransportOutcome::Response(300, "{}".to_string()));
    assert!(matches!(high.outcome, AddressOutcome::RemoteRejection(300)));
}

#[test]
fn numbers_and_scalars_render_from_parsed_body() {
    let body = "{\"n\": 3.5, \"b\": true, \"z\": null}".to_string();
    let report = resolve_one("x".to_string(), &TransportOutcome::Response(200, body));
    let lines = report_plain_lines(&report, false);
    assert_eq!(
        lines,
        vec![
            "\u{2714} Success: Fetched data for IP: x",
            "n: 3.5",
            "b: true",
            "z: null",
            "",
        ]
    );
}

#[test]
fn credential_round_trip() {
    let c = Credential { token: "token-abc123".to_string() };
    let stored = encode_credential(&c);
    let loaded = decode_credential(&stored).expect("round trip should decode");
    assert_eq!(loaded.token, "token-abc123");
}

#[test]
fn credential_round_trip_with_awkward_token() {
    let c = Credential { token: "a \"quoted\" tok\\en\nwith lines".to_string() };
    let stored = encode_credential(&c);
    let loaded = decode_credential(&stored).expect("round trip should decode");
    assert_eq!(loaded.token, c.token);
}

#[test]
fn missing_config_is_config_missing() {
    let r = load_credential(None);
    assert!(matches!(r, Err(ConfigError::ConfigMissing)));
}

#[test]
fn unparsable_config_is_corrupt() {
    let r = load_credential(Some("not json".to_string()));
    assert!(matches!(r, Err(ConfigError::ConfigCorrupt)));
}

#[test]
fn config_without_cookie_is_corrupt() {
    let r = load_credential(Some("{\"other\": 1}".to_string()));
    assert!(matches!(r, Err(ConfigError::ConfigCorrupt)));
}

#[test]
fn config_with_non_text_cookie_is_corrupt() {
    let r = load_credential(Some("{\"cookie\": 5}".to_string()));
    assert!(matches!(r, Err(ConfigError::ConfigCorrupt)));
}

#[test]
fn config_with_extra_fields_still_loads() {
    let r = load_credential(Some("{\"other\": [1,2], \"cookie\": \"tok\"}".to_string()));
    assert_eq!(r.expect("should load").token, "tok");
}

#[test]
fn merges_positional_then_file_addresses() {
    let merged = merge_addresses(
        vec!["a".to_string(), "b".to_string()],
        Some(vec!["c".to_string(), "d".to_string()]),
    );
    assert_eq!(merged, vec!["a", "b", "c", "d"]);
    let alone = merge_addresses(vec!["a".to_string()], None);
    assert_eq!(alone, vec!["a"]);
}

#[test]
fn request_shape_is_fixed() {
    assert_eq!(lookup_url(), "https://ipinfo.io/account/search");
    assert_eq!(query_parameter(), "query");
    let c = Credential { token: "tok".to_string() };
    let hs = lookup_headers(&c);
    assert_eq!(hs.len(), 8);
    assert_eq!(hs[0], ("cookie".to_string(), "tok".to_string()));
    assert_eq!(hs[1], ("host".to_string(), "ipinfo.io".to_string()));
    assert_eq!(hs[6], ("cache-control".to_string(), "no-cache".to_string()));
    assert_eq!(hs[7], ("te".to_string(), "trailers".to_string()));
}
