use ud_extract::model::{AggregationEvent, DiscoveryEvent};
use ud_extract::passes::{aggregate, discover, AggregatedRecord, IdentifierSet};
use ud_extract::pattern::{Extractor, Field, Filter, Patterns};
use ud_extract::report::{extract, header, render_report, report_rows, ReportRow};

fn lines(v: &[&str]) -> Vec<String> {
    v.iter().map(|s| s.to_string()).collect()
}

fn run(input: &[&str], m: &str, p: &str) -> Vec<String> {
    extract(&lines(input), m, p).unwrap()
}

#[test]
fn scenario_single_line() {
    let out = run(
        &["merchantA order for productX, traceId: 42, status: \"200\", retCode 0"],
        "merchantA",
        "productX",
    );
    assert_eq!(out, vec!["ID, STATUS, RETCODE".to_string(), "42, 200, 0".to_string()]);
}

#[test]
fn scenario_shared_trace_id() {
    let input = [
        "merchantA buys productX, traceId: 7, step one",
        "downstream, traceId: 7, status: \"404\", retCode: 3",
    ];
    let out = run(&input, "merchantA", "productX");
    assert_eq!(out, vec!["ID, STATUS, RETCODE".to_string(), "7, 404, 3".to_string()]);

    let pats = Patterns::new("merchantA", "productX").unwrap();
    let ls = lines(&input);
    let ids = discover(&pats, &ls);
    let rec = aggregate(&pats, &ids, &ls);
    assert_eq!(rec.len(), 1);
    let (id, text) = rec.entry(0);
    assert_eq!(id, "7");
    assert_eq!(text, &format!("{}{}", input[0], input[1]));
}

#[test]
fn scenario_missing_trace_id() {
    let input = [
        "merchantA productX without an identifier",
        "merchantA productX, traceId: 5, status: \"200\", retCode 1",
    ];
    let pats = Patterns::new("merchantA", "productX").unwrap();
    let mut ids = IdentifierSet::new();
    assert_eq!(ids.observe(&pats, input[0]), DiscoveryEvent::MissingTraceId);
    assert_eq!(ids.len(), 0);
    assert_eq!(ids.observe(&pats, input[1]), DiscoveryEvent::Added);
    assert_eq!(ids.identifiers(), &vec!["5".to_string()]);
    let out = run(&input, "merchantA", "productX");
    assert_eq!(out, vec!["ID, STATUS, RETCODE".to_string(), "5, 200, 1".to_string()]);
}

#[test]
fn scenario_empty_input() {
    let pats = Patterns::new("merchantA", "productX").unwrap();
    let empty: Vec<String> = Vec::new();
    let ids = discover(&pats, &empty);
    assert_eq!(ids.len(), 0);
    let rec = aggregate(&pats, &ids, &empty);
    assert_eq!(rec.len(), 0);
    assert_eq!(run(&[], "merchantA", "productX"), vec!["ID, STATUS, RETCODE".to_string()]);
}

#[test]
fn identifier_set_is_exactly_the_filtered_ids() {
    let input = [
        "merchantA productX traceId: 1,",
        "merchantB productX traceId: 2,",
        "productX then merchantA traceId: 3,",
        "merchantA and productX traceId: 1, again",
        "merchantA, productX, traceId: 4,",
        "traceId: 2, status: \"500\"",
    ];
    let pats = Patterns::new("merchantA", "productX").unwrap();
    let ids = discover(&pats, &lines(&input));
    assert_eq!(ids.identifiers(), &vec!["1".to_string(), "4".to_string()]);
    assert!(ids.contains(&"1".to_string()));
    assert!(!ids.contains(&"2".to_string()));
    assert!(!ids.contains(&"3".to_string()));
    let out = run(&input, "merchantA", "productX");
    assert_eq!(out, vec!["ID, STATUS, RETCODE", "1, nil, nil", "4, nil, nil"]);
}

#[test]
fn records_concatenate_lines_in_order() {
    let input = [
        "merchantA productX traceId: 9, first  ",
        "traceId: 8, unrelated",
        "  traceId: 9, second\twith tab",
        "no id here",
        "traceId: 9, third",
    ];
    let pats = Patterns::new("merchantA", "productX").unwrap();
    let ls = lines(&input);
    let ids = discover(&pats, &ls);
    let rec = aggregate(&pats, &ids, &ls);
    assert_eq!(rec.len(), 1);
    let (id, text) = rec.entry(0);
    assert_eq!(id, "9");
    assert_eq!(text, &format!("{}{}{}", input[0], input[2], input[4]));
}

#[test]
fn record_order_follows_first_appearance() {
    let input = [
        "merchantA productX traceId: 20,",
        "merchantA productX traceId: 10,",
        "traceId: 10, status: \"1\"",
        "traceId: 20, retCode=2",
    ];
    let out = run(&input, "merchantA", "productX");
    assert_eq!(out, vec!["ID, STATUS, RETCODE", "20, nil, 2", "10, 1, nil"]);
}

#[test]
fn running_twice_gives_the_same_output() {
    let input = [
        "merchantA productX traceId: 3, status: \"201\"",
        "merchantA productX traceId: 1, retCode: 4",
        "traceId: 3, retCode: 0",
    ];
    let first = run(&input, "merchantA", "productX");
    let second = run(&input, "merchantA", "productX");
    assert_eq!(first, second);
    assert_eq!(first, vec!["ID, STATUS, RETCODE", "3, 201, 0", "1, nil, 4"]);
}

#[test]
fn absent_fields_render_nil() {
    let out = run(&["merchantA productX traceId: 11, nothing else"], "merchantA", "productX");
    assert_eq!(out, vec!["ID, STATUS, RETCODE", "11, nil, nil"]);
    let row = ReportRow { id: "11".to_string(), status: None, ret_code: Some("5".to_string()) };
    assert_eq!(row.render(), "11, nil, 5");
    let row = ReportRow { id: "12".to_string(), status: Some("200".to_string()), ret_code: None };
    assert_eq!(row.render(), "12, 200, nil");
}

#[test]
fn status_needs_quoted_digits() {
    let pats = Patterns::new("m", "p").unwrap();
    assert_eq!(pats.status("status: \"200\""), Some("200".to_string()));
    assert_eq!(pats.status("status: 200"), None);
    assert_eq!(pats.status("status: \"200"), None);
    assert_eq!(pats.status("status 1 then \"200\""), None);
    assert_eq!(pats.status("status: 1, status: \"302\""), Some("302".to_string()));
    assert_eq!(pats.status("no field"), None);
}

#[test]
fn ret_code_takes_the_first_digit_run() {
    let pats = Patterns::new("m", "p").unwrap();
    assert_eq!(pats.ret_code("retCode 0"), Some("0".to_string()));
    assert_eq!(pats.ret_code("retCode: \"17\" and 5"), Some("17".to_string()));
    assert_eq!(pats.ret_code("retCode: none, x 42"), Some("42".to_string()));
    assert_eq!(pats.ret_code("retCode: none"), None);
    assert_eq!(pats.ret_code("retcode 1"), None);
}

#[test]
fn trace_id_allows_optional_blanks() {
    let pats = Patterns::new("m", "p").unwrap();
    assert_eq!(pats.trace_id("traceId: 42, x"), Some("42".to_string()));
    assert_eq!(pats.trace_id("traceId:42"), Some("42".to_string()));
    assert_eq!(pats.trace_id("traceId: \t 0042x"), Some("0042".to_string()));
    assert_eq!(pats.trace_id("traceId: x, traceId: 8"), Some("8".to_string()));
    assert_eq!(pats.trace_id("traceid: 42"), None);
    assert_eq!(pats.trace_id("traceId: "), None);
}

#[test]
fn filter_takes_identifiers_literally() {
    let pats = Patterns::new("m.a", "p+x").unwrap();
    assert!(pats.filter_matches("m.a then p+x"));
    assert!(pats.filter_matches("m.ap+x"));
    assert!(!pats.filter_matches("mXa then p+x"));
    assert!(!pats.filter_matches("m.a then ppx"));
    assert!(!pats.filter_matches("p+x then m.a"));
    assert!(!pats.filter_matches("m.a\np+x"));
}

#[test]
fn extractor_and_filter_compile() {
    assert!(Extractor::new(Field::TraceId).is_some());
    assert!(Extractor::new(Field::Status).is_some());
    assert!(Extractor::new(Field::RetCode).is_some());
    assert!(Filter::new("(", "[").is_some());
}

#[test]
fn discovery_events() {
    let pats = Patterns::new("merchantA", "productX").unwrap();
    let mut ids = IdentifierSet::new();
    assert_eq!(ids.observe(&pats, "other line traceId: 1,"), DiscoveryEvent::Unrelated);
    assert_eq!(ids.observe(&pats, "merchantA productX traceId: 1,"), DiscoveryEvent::Added);
    assert_eq!(ids.observe(&pats, "merchantA productX traceId: 1,"), DiscoveryEvent::Repeated);
    assert_eq!(ids.len(), 1);
}

#[test]
fn progress_milestone_at_one_thousand() {
    let pats = Patterns::new("merchantA", "productX").unwrap();
    let mut ids = IdentifierSet::new();
    for n in 0..999 {
        let line = format!("merchantA productX traceId: {},", n);
        assert_eq!(ids.observe(&pats, &line), DiscoveryEvent::Added);
    }
    assert_eq!(ids.observe(&pats, "merchantA productX traceId: 5,"), DiscoveryEvent::Repeated);
    assert_eq!(
        ids.observe(&pats, "merchantA productX traceId: 999,"),
        DiscoveryEvent::Milestone
    );
    assert_eq!(ids.len(), 1000);

    let mut rec = AggregatedRecord::new();
    for n in 0..999 {
        let line = format!("traceId: {},", n);
        assert_eq!(rec.observe(&pats, &ids, &line), AggregationEvent::Added);
    }
    assert_eq!(rec.observe(&pats, &ids, "traceId: 3, more"), AggregationEvent::Appended);
    assert_eq!(rec.observe(&pats, &ids, "traceId: 5000,"), AggregationEvent::Untracked);
    assert_eq!(rec.observe(&pats, &ids, "no id"), AggregationEvent::Untracked);
    assert_eq!(rec.observe(&pats, &ids, "traceId: 999,"), AggregationEvent::Milestone);
    assert_eq!(rec.len(), 1000);
}

#[test]
fn report_rows_and_rendering() {
    let input = ["merchantA productX traceId: 6, status: \"301\", retCode: 12"];
    let pats = Patterns::new("merchantA", "productX").unwrap();
    let ls = lines(&input);
    let ids = discover(&pats, &ls);
    let rec = aggregate(&pats, &ids, &ls);
    let rows = report_rows(&pats, &rec);
    assert_eq!(rows.len(), 1);
    assert_eq!(rows[0].id, "6");
    assert_eq!(rows[0].status, Some("301".to_string()));
    assert_eq!(rows[0].ret_code, Some("12".to_string()));
    assert_eq!(render_report(&rows), vec!["ID, STATUS, RETCODE", "6, 301, 12"]);
    assert_eq!(header(), "ID, STATUS, RETCODE");
}
