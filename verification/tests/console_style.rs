//! Tests of the console styling layer. Color is forced on, so this file
//! holds only this one test: the override is process-global.

use ipinfo::resolve::resolve_one;
use ipinfo::resolve::report_plain_lines;
use ipinfo::resolve::TransportOutcome;
use ipinfo::style::console_report_lines;

#[test]
fn console_lines_carry_plain_parts_inside_style_codes() {
    colored::control::set_override(true);
    let body = "{\"ip\":\"8.8.8.8\"}".to_string();
    let report = resolve_one("8.8.8.8".to_string(), &TransportOutcome::Response(200, body));
    let plain = report_plain_lines(&report, true);
    let console = console_report_lines(&report, true);
    assert_eq!(console.len(), plain.len());
    assert!(console[0].contains("Fetching IP information for: 8.8.8.8"));
    assert_ne!(console[0], plain[0]);
    assert!(console[1].contains("\u{2714} Success:"));
    assert!(console[1].contains("Fetched data for IP: 8.8.8.8"));
    assert!(console[2].contains("ip"));
    assert!(console[2].contains("\"8.8.8.8\""));
    assert_ne!(console[2], plain[2]);
    assert_eq!(console[console.len() - 1], "");
}
