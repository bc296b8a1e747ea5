use har_viewer::app::{App, Window};
use har_viewer::model::{Content, Entry, Header, ParsedLog, PostData, Request, Response};
use har_viewer::text::{i64_to_dec, is_json_mime, split_lines, u64_to_dec};
use har_viewer::ui::{
    add_headers, add_raw_text_lines, build_list_items, build_request_text, build_response_text,
    get_request_summary, get_response_content_type, get_response_summary, get_response_text,
    status_class, StatusClass,
};
use har_viewer::util::StatefulList;

fn header(name: &str, value: &str) -> Header {
    Header {
        name: name.to_string(),
        value: value.to_string(),
    }
}

fn entry(
    method: &str,
    url: &str,
    status: i64,
    status_text: &str,
    mime: Option<&str>,
    body: Option<&str>,
) -> Entry {
    Entry {
        request: Request {
            method: method.to_string(),
            url: url.to_string(),
            headers: Vec::new(),
            query_string: Vec::new(),
            post_data: None,
        },
        response: Response {
            status,
            status_text: status_text.to_string(),
            http_version: "HTTP/1.1".to_string(),
            headers: Vec::new(),
            content: Content {
                mime_type: mime.map(|s| s.to_string()),
                text: body.map(|s| s.to_string()),
            },
        },
    }
}

fn app_with(entries: Vec<Entry>) -> App {
    App::new(ParsedLog::Recognized(entries))
}

#[test]
fn advance_full_cycle_returns_to_start() {
    let mut list: StatefulList<u32> = StatefulList::with_items(vec![10, 20, 30]);
    list.select_first();
    assert_eq!(list.selected, Some(0));
    for _ in 0..3 {
        list.next();
    }
    assert_eq!(list.selected, Some(0));
    list.next();
    assert_eq!(list.selected, Some(1));
    for _ in 0..3 {
        list.next();
    }
    assert_eq!(list.selected, Some(1));
}

#[test]
fn advance_wraps_from_last_to_first() {
    let mut list: StatefulList<u32> = StatefulList::with_items(vec![1, 2]);
    list.next();
    assert_eq!(list.selected, Some(0));
    list.next();
    assert_eq!(list.selected, Some(1));
    list.next();
    assert_eq!(list.selected, Some(0));
}

#[test]
fn retreat_at_first_index_stays_there() {
    let mut list: StatefulList<u32> = StatefulList::with_items(vec![1, 2, 3]);
    list.select_first();
    list.prev();
    assert_eq!(list.selected, Some(0));
    list.prev();
    assert_eq!(list.selected, Some(0));
    list.next();
    list.prev();
    assert_eq!(list.selected, Some(0));
}

#[test]
fn selecting_new_entry_resets_both_offsets() {
    let mut app = app_with(vec![
        entry("GET", "/a", 200, "OK", None, None),
        entry("GET", "/b", 200, "OK", None, None),
    ]);
    app.next_window();
    app.down();
    app.down();
    app.next_window();
    app.down();
    assert_eq!(app.request_vertical_offset, 2);
    assert_eq!(app.response_vertical_offset, 1);
    app.next_window();
    assert!(matches!(app.current_window, Window::RequestList));
    app.down();
    assert_eq!(app.log.selected, Some(1));
    assert_eq!(app.request_vertical_offset, 0);
    assert_eq!(app.response_vertical_offset, 0);
}

#[test]
fn scroll_up_floors_at_zero() {
    let mut app = app_with(vec![entry("GET", "/a", 200, "OK", None, None)]);
    app.next_window();
    app.up();
    assert_eq!(app.request_vertical_offset, 0);
    app.down();
    app.up();
    app.up();
    assert_eq!(app.request_vertical_offset, 0);
}

#[test]
fn toggle_headers_twice_restores_flag_and_both_panes() {
    let mut e = entry("GET", "/a", 200, "OK", None, None);
    e.request.headers.push(header("A", "1"));
    e.response.headers.push(header("B", "2"));
    let mut app = app_with(vec![e]);
    let request_before = build_request_text(&app);
    let response_before = build_response_text(&app);
    assert!(!app.show_headers);
    app.toggle_headers();
    assert!(app.show_headers);
    app.toggle_headers();
    assert!(!app.show_headers);
    assert_eq!(build_request_text(&app), request_before);
    assert_eq!(build_response_text(&app), response_before);
}

#[test]
fn hidden_headers_render_as_count_line() {
    let mut lines: Vec<String> = Vec::new();
    let headers = vec![header("A", "1"), header("B", "2")];
    add_headers(&mut lines, &headers, false);
    assert_eq!(lines, vec!["Headers: (2, hidden)".to_string()]);
}

#[test]
fn hidden_headers_line_appears_in_both_panes() {
    let mut e = entry("GET", "/a", 200, "OK", None, None);
    e.request.headers.push(header("A", "1"));
    e.request.headers.push(header("B", "2"));
    e.response.headers.push(header("A", "1"));
    e.response.headers.push(header("B", "2"));
    let app = app_with(vec![e]);
    let request_lines = build_request_text(&app);
    let response_lines = build_response_text(&app);
    assert_eq!(request_lines[1], "Headers: (2, hidden)");
    assert_eq!(response_lines[1], "Headers: (2, hidden)");
}

#[test]
fn shown_headers_render_one_line_each_in_order() {
    let mut lines: Vec<String> = vec!["first".to_string()];
    let headers = vec![header("Content-Type", "text/plain"), header("X-Y", "z")];
    add_headers(&mut lines, &headers, true);
    assert_eq!(
        lines,
        vec![
            "first".to_string(),
            "Content-Type: text/plain".to_string(),
            "X-Y: z".to_string(),
        ]
    );
}

#[test]
fn json_body_pretty_prints_and_round_trips() {
    let e = entry(
        "GET",
        "/a",
        200,
        "OK",
        Some("application/json"),
        Some("{\"a\":1}"),
    );
    let text = get_response_text(&e);
    assert_ne!(text, "{\"a\":1}");
    assert!(text.contains('\n'));
    let reparsed: serde_json::Value = serde_json::from_str(&text).unwrap();
    let original: serde_json::Value = serde_json::from_str("{\"a\":1}").unwrap();
    assert_eq!(reparsed, original);
}

#[test]
fn bad_json_body_falls_back_to_raw_text_with_diagnostic() {
    let e = entry(
        "GET",
        "/a",
        200,
        "OK",
        Some("application/json"),
        Some("{bad json"),
    );
    let text = get_response_text(&e);
    let lines: Vec<&str> = text.split('\n').collect();
    assert_eq!(lines[0], "Can't Parse JSON!");
    assert_eq!(lines[1..].join("\n"), "{bad json");
}

#[test]
fn json_mime_with_parameters_still_pretty_prints() {
    let e = entry(
        "GET",
        "/a",
        200,
        "OK",
        Some("application/json; charset=utf-8"),
        Some("[1,2]"),
    );
    let text = get_response_text(&e);
    assert!(text.contains('\n'));
    let reparsed: serde_json::Value = serde_json::from_str(&text).unwrap();
    let original: serde_json::Value = serde_json::from_str("[1,2]").unwrap();
    assert_eq!(reparsed, original);
}

#[test]
fn non_json_mime_keeps_body_verbatim() {
    let e = entry("GET", "/a", 200, "OK", Some("text/plain"), Some("{\"a\":1}"));
    assert_eq!(get_response_text(&e), "{\"a\":1}");
    let prefixed = entry(
        "GET",
        "/a",
        200,
        "OK",
        Some("application/jsonx"),
        Some("{\"a\":1}"),
    );
    assert_eq!(get_response_text(&prefixed), "{\"a\":1}");
}

#[test]
fn absent_body_renders_no_text() {
    let e = entry("GET", "/a", 200, "OK", None, None);
    assert_eq!(get_response_text(&e), "no text");
    let json_mime_no_body = entry("GET", "/a", 200, "OK", Some("application/json"), None);
    let text = get_response_text(&json_mime_no_body);
    let lines: Vec<&str> = text.split('\n').collect();
    assert_eq!(lines[0], "Can't Parse JSON!");
    assert_eq!(lines[1..].join("\n"), "no text");
}

#[test]
fn json_mime_recognition_is_exact() {
    assert!(is_json_mime("application/json"));
    assert!(is_json_mime("application/json; charset=utf-8"));
    assert!(is_json_mime("application/json;"));
    assert!(!is_json_mime("application/jsonx"));
    assert!(!is_json_mime("application/jso"));
    assert!(!is_json_mime("text/plain"));
    assert!(!is_json_mime(""));
}

#[test]
fn empty_log_is_safe_under_every_command() {
    let mut app = app_with(Vec::new());
    assert_eq!(app.log.selected, None);
    app.down();
    app.up();
    app.next_window();
    app.toggle_headers();
    app.next_entry();
    app.previous_entry();
    assert_eq!(app.log.selected, None);
    app.next_window();
    app.next_window();
    assert!(matches!(app.current_window, Window::RequestList));
    app.down();
    app.up();
    assert_eq!(app.log.selected, None);
    assert!(build_request_text(&app).is_empty());
    assert!(build_response_text(&app).is_empty());
    assert!(build_list_items(&app).is_empty());
}

#[test]
fn unsupported_log_version_yields_no_entries() {
    let app = App::new(ParsedLog::UnsupportedVersion);
    assert_eq!(app.log.list.len(), 0);
    assert_eq!(app.log.selected, None);
}

#[test]
fn end_to_end_two_entry_scenario() {
    let app_entries = vec![
        entry("GET", "/a", 200, "OK", None, None),
        entry("POST", "/b", 404, "Not Found", None, None),
    ];
    let mut app = app_with(app_entries);
    assert_eq!(app.log.selected, Some(0));
    let items = build_list_items(&app);
    assert_eq!(items.len(), 2);
    assert_eq!(items[0].0, "GET /a");
    assert_eq!(items[1].0, "POST /b");
    app.next_entry();
    assert_eq!(app.log.selected, Some(1));
    let response_lines = build_response_text(&app);
    assert_eq!(response_lines[0], "404 Not Found, none");
}

#[test]
fn request_pane_lines_with_post_data() {
    let mut e = entry("POST", "/submit", 200, "OK", None, None);
    e.request.headers.push(header("A", "1"));
    e.request.post_data = Some(PostData {
        mime_type: "text/plain".to_string(),
        text: Some("line one\nline two".to_string()),
    });
    let app = app_with(vec![e]);
    let lines = build_request_text(&app);
    assert_eq!(
        lines,
        vec![
            "POST /submit".to_string(),
            "Headers: (1, hidden)".to_string(),
            "line one".to_string(),
            "line two".to_string(),
        ]
    );
}

#[test]
fn request_pane_absent_post_text_renders_one_empty_line() {
    let mut e = entry("POST", "/submit", 200, "OK", None, None);
    e.request.post_data = Some(PostData {
        mime_type: "text/plain".to_string(),
        text: None,
    });
    let app = app_with(vec![e]);
    let lines = build_request_text(&app);
    assert_eq!(
        lines,
        vec![
            "POST /submit".to_string(),
            "Headers: (0, hidden)".to_string(),
            "".to_string(),
        ]
    );
}

#[test]
fn response_pane_has_blank_line_before_body() {
    let e = entry("GET", "/a", 200, "OK", Some("text/plain"), Some("hello"));
    let app = app_with(vec![e]);
    let lines = build_response_text(&app);
    assert_eq!(
        lines,
        vec![
            "200 OK, text/plain".to_string(),
            "Headers: (0, hidden)".to_string(),
            "".to_string(),
            "hello".to_string(),
        ]
    );
}

#[test]
fn summaries_and_content_type() {
    let e = entry("GET", "/x", 301, "Moved Permanently", Some("text/html"), None);
    assert_eq!(get_request_summary(&e), "GET /x");
    assert_eq!(get_response_summary(&e), "301 Moved Permanently");
    assert_eq!(get_response_content_type(&e), "text/html");
    let absent = entry("GET", "/x", 200, "OK", None, None);
    assert_eq!(get_response_content_type(&absent), "none");
}

#[test]
fn status_classes_at_the_boundaries() {
    assert_eq!(status_class(200), StatusClass::Neutral);
    assert_eq!(status_class(299), StatusClass::Neutral);
    assert_eq!(status_class(300), StatusClass::Redirect);
    assert_eq!(status_class(399), StatusClass::Redirect);
    assert_eq!(status_class(400), StatusClass::Error);
    assert_eq!(status_class(500), StatusClass::Error);
    assert_eq!(status_class(0), StatusClass::Neutral);
    assert_eq!(status_class(-1), StatusClass::Neutral);
}

#[test]
fn decimal_rendering() {
    assert_eq!(u64_to_dec(0), "0");
    assert_eq!(u64_to_dec(7), "7");
    assert_eq!(u64_to_dec(404), "404");
    assert_eq!(u64_to_dec(18446744073709551615), "18446744073709551615");
    assert_eq!(i64_to_dec(200), "200");
    assert_eq!(i64_to_dec(0), "0");
    assert_eq!(i64_to_dec(-12), "-12");
    assert_eq!(i64_to_dec(i64::MIN), "-9223372036854775808");
}

#[test]
fn split_lines_matches_str_split() {
    let cases = ["", "a", "a\nb", "\n", "a\n", "\na", "one\n\ntwo\n"];
    for text in cases {
        let expected: Vec<String> = text.split('\n').map(|s| s.to_string()).collect();
        assert_eq!(split_lines(text), expected);
    }
}

#[test]
fn add_raw_text_lines_appends_split_segments() {
    let mut lines = vec!["head".to_string()];
    add_raw_text_lines(&mut lines, "a\nb");
    assert_eq!(
        lines,
        vec!["head".to_string(), "a".to_string(), "b".to_string()]
    );
}

#[test]
fn list_items_carry_status_classes() {
    let app = app_with(vec![
        entry("GET", "/ok", 200, "OK", None, None),
        entry("GET", "/moved", 302, "Found", None, None),
        entry("GET", "/missing", 404, "Not Found", None, None),
    ]);
    let items = build_list_items(&app);
    assert_eq!(items[0], ("GET /ok".to_string(), StatusClass::Neutral));
    assert_eq!(items[1], ("GET /moved".to_string(), StatusClass::Redirect));
    assert_eq!(
        items[2],
        ("GET /missing".to_string(), StatusClass::Error)
    );
}
