use log_watcher::state::InspectionState;
use log_watcher::{Line, Style};

fn inspected(text: &str) -> InspectionState {
    let mut inspection = InspectionState::new();
    inspection.inspect(&Line::new(text, Style::Category(1)));
    inspection
}

fn shown(inspection: &InspectionState) -> &str {
    &inspection.text().unwrap().text
}

#[test]
fn new_inspection_shows_nothing() {
    let inspection = InspectionState::new();
    assert!(!inspection.is_initiated());
    assert!(!inspection.is_json_format());
    assert!(inspection.text().is_none());
    assert_eq!(inspection.scroll_value(), 0);
}

#[test]
fn default_inspection_shows_nothing() {
    let inspection = InspectionState::default();
    assert!(!inspection.is_initiated());
    assert!(!inspection.is_json_format());
    assert!(inspection.text().is_none());
    assert_eq!(inspection.scroll_value(), 0);
}

#[test]
fn inspect_expands_json_between_prefix_and_suffix() {
    let inspection = inspected("12:00 [ERR] {\"a\":1,\"b\":[true,null]} done");
    assert!(inspection.is_json_format());
    assert_eq!(
        shown(&inspection),
        "12:00 [ERR] \n{\n  \"a\": 1,\n  \"b\": [\n    true,\n    null\n  ]\n}\n done"
    );
}

#[test]
fn inspect_round_trips_the_payload() {
    let prefix = "2024-01-01 request ";
    let payload = "{\"id\": 7, \"tags\": [\"x\", \"y\"], \"nested\": {\"ok\": false}}";
    let suffix = " (took 3ms)";
    let inspection = inspected(&format!("{}{}{}", prefix, payload, suffix));
    assert!(inspection.is_json_format());
    let text = shown(&inspection);
    let head = format!("{}\n", prefix);
    let tail = format!("\n{}", suffix);
    assert!(text.starts_with(&head));
    assert!(text.ends_with(&tail));
    let middle = &text[head.len()..text.len() - tail.len()];
    let printed: serde_json::Value = serde_json::from_str(middle).unwrap();
    let given: serde_json::Value = serde_json::from_str(payload).unwrap();
    assert_eq!(printed, given);
    assert_ne!(middle, payload);
}

#[test]
fn inspect_keeps_the_style_of_the_line() {
    let mut inspection = InspectionState::new();
    inspection.inspect(&Line::new("{}", Style::Category(4)));
    assert_eq!(inspection.text(), Some(&Line::new("\n{}\n", Style::Category(4))));
    inspection.inspect(&Line::new("plain", Style::Reversed));
    assert_eq!(inspection.text(), Some(&Line::new("plain", Style::Reversed)));
}

#[test]
fn inspect_shows_a_line_without_braces_as_it_is() {
    let inspection = inspected("nothing structured here");
    assert!(!inspection.is_json_format());
    assert_eq!(shown(&inspection), "nothing structured here");
}

#[test]
fn inspect_shows_an_empty_line_as_it_is() {
    let inspection = inspected("");
    assert!(!inspection.is_json_format());
    assert_eq!(shown(&inspection), "");
}

#[test]
fn inspect_falls_back_when_the_payload_is_not_json() {
    let inspection = inspected("got {not json} here");
    assert!(!inspection.is_json_format());
    assert_eq!(shown(&inspection), "got {not json} here");
}

#[test]
fn inspect_falls_back_without_a_closing_brace() {
    for text in ["{", "a{", "ab {\"a\": 1", "{{{"] {
        let inspection = inspected(text);
        assert!(!inspection.is_json_format());
        assert_eq!(shown(&inspection), text);
    }
}

#[test]
fn inspect_falls_back_when_the_last_closing_brace_comes_first() {
    for text in ["} {", "a } b { c", "}{"] {
        let inspection = inspected(text);
        assert!(!inspection.is_json_format());
        assert_eq!(shown(&inspection), text);
    }
}

#[test]
fn inspect_falls_back_without_an_opening_brace() {
    let inspection = inspected("a } b");
    assert!(!inspection.is_json_format());
    assert_eq!(shown(&inspection), "a } b");
}

#[test]
fn inspect_takes_the_first_opening_and_the_last_closing_brace() {
    let inspection = inspected("x {\"a\":{\"b\":{}}} y");
    assert!(inspection.is_json_format());
    assert_eq!(shown(&inspection), "x \n{\n  \"a\": {\n    \"b\": {}\n  }\n}\n y");
    let two = inspected("{\"a\":1} and {\"b\":2}");
    assert!(!two.is_json_format());
    assert_eq!(shown(&two), "{\"a\":1} and {\"b\":2}");
}

#[test]
fn inspect_counts_characters_not_bytes() {
    let inspection = inspected("日本語 {\"k\":\"é\"} ü}x");
    assert!(!inspection.is_json_format());
    let inspection = inspected("日本語 {\"k\":\"é\"} üx");
    assert!(inspection.is_json_format());
    assert_eq!(shown(&inspection), "日本語 \n{\n  \"k\": \"é\"\n}\n üx");
}

#[test]
fn inspect_clears_the_structured_flag_on_a_plain_line() {
    let mut inspection = inspected("{\"a\":1}");
    assert!(inspection.is_json_format());
    inspection.inspect(&Line::new("plain", Style::Category(0)));
    assert!(!inspection.is_json_format());
    assert_eq!(shown(&inspection), "plain");
}

#[test]
fn inspect_leaves_the_inspection_closed_or_open_as_it_was() {
    let mut inspection = InspectionState::new();
    inspection.inspect(&Line::new("{}", Style::Category(0)));
    assert!(!inspection.is_initiated());
    inspection.initiate();
    inspection.inspect(&Line::new("{}", Style::Category(0)));
    assert!(inspection.is_initiated());
}

#[test]
fn scroll_up_stops_at_the_first_line() {
    let mut inspection = inspected("{\"a\":1}");
    inspection.scroll_up();
    assert_eq!(inspection.scroll_value(), 0);
    inspection.scroll_down();
    inspection.scroll_down();
    assert_eq!(inspection.scroll_value(), 2);
    inspection.scroll_up();
    assert_eq!(inspection.scroll_value(), 1);
    inspection.scroll_up();
    inspection.scroll_up();
    assert_eq!(inspection.scroll_value(), 0);
}

#[test]
fn scroll_down_stops_at_the_last_line() {
    let mut inspection = inspected("{\"a\":1}");
    assert_eq!(shown(&inspection), "\n{\n  \"a\": 1\n}\n");
    for expected in [1, 2, 3, 4, 4, 4] {
        inspection.scroll_down();
        assert_eq!(inspection.scroll_value(), expected);
    }
}

#[test]
fn scroll_down_without_text_or_line_breaks_stays() {
    let mut inspection = InspectionState::new();
    inspection.scroll_down();
    assert_eq!(inspection.scroll_value(), 0);
    let mut inspection = inspected("one line");
    inspection.scroll_down();
    assert_eq!(inspection.scroll_value(), 0);
}

#[test]
fn inspect_keeps_the_offset_within_the_new_text() {
    let mut inspection = inspected("{\"a\":1,\"b\":2}");
    for _ in 0..5 {
        inspection.scroll_down();
    }
    assert_eq!(inspection.scroll_value(), 5);
    inspection.inspect(&Line::new("{\"a\":1,\"b\":2}", Style::Category(1)));
    assert_eq!(inspection.scroll_value(), 5);
    inspection.inspect(&Line::new("{\"a\":1}", Style::Category(1)));
    assert_eq!(inspection.scroll_value(), 4);
    inspection.inspect(&Line::new("plain", Style::Category(1)));
    assert_eq!(inspection.scroll_value(), 0);
}

#[test]
fn close_forgets_everything() {
    let mut inspection = inspected("{\"a\":1}");
    inspection.initiate();
    inspection.scroll_down();
    inspection.close();
    assert!(!inspection.is_initiated());
    assert!(!inspection.is_json_format());
    assert!(inspection.text().is_none());
    assert_eq!(inspection.scroll_value(), 0);
}
