use plugin_host::editor::StyleSpan;
use plugin_host::request::{
    build_request, recognize, Malformed, Method, Request, GET_LINE_METHOD, LINE_COUNT_METHOD,
    PROBE_METHOD, SET_LINE_STYLES_METHOD,
};
use plugin_host::text::str_eq;

fn span(start: u64, end: u64, attr: &str) -> StyleSpan {
    StyleSpan { start, end, attr: attr.to_string() }
}

#[test]
fn str_eq_compares_characters() {
    assert!(str_eq("", ""));
    assert!(str_eq("get_line", "get_line"));
    assert!(!str_eq("get_line", "get_lin"));
    assert!(!str_eq("get_line", "get_linf"));
    assert!(!str_eq("get_line", "Get_line"));
    assert!(!str_eq("", "x"));
    assert!(str_eq("日本語", "日本語"));
    assert!(!str_eq("日本語", "日本誤"));
}

#[test]
fn method_names_are_those_of_the_protocol() {
    assert_eq!(LINE_COUNT_METHOD, "n_lines");
    assert_eq!(GET_LINE_METHOD, "get_line");
    assert_eq!(SET_LINE_STYLES_METHOD, "set_line_fg_spans");
    assert_eq!(PROBE_METHOD, "ping");
}

#[test]
fn recognize_knows_the_three_methods() {
    assert_eq!(recognize("n_lines"), Some(Method::LineCount));
    assert_eq!(recognize("get_line"), Some(Method::GetLine));
    assert_eq!(recognize("set_line_fg_spans"), Some(Method::SetLineStyles));
}

#[test]
fn recognize_knows_nothing_else() {
    assert_eq!(recognize(""), None);
    assert_eq!(recognize("ping"), None);
    assert_eq!(recognize("N_LINES"), None);
    assert_eq!(recognize("get_line "), None);
    assert_eq!(recognize("get_lines"), None);
    assert_eq!(recognize("set_line_fg_span"), None);
}

#[test]
fn queries_are_calls_and_styling_is_a_notification() {
    assert!(Method::LineCount.is_call());
    assert!(Method::GetLine.is_call());
    assert!(!Method::SetLineStyles.is_call());
}

#[test]
fn build_request_for_line_count_needs_no_field() {
    assert_eq!(build_request("n_lines", None, None), Ok(Request::LineCount));
    assert_eq!(
        build_request("n_lines", Some(4), Some(vec![span(0, 1, "x")])),
        Ok(Request::LineCount)
    );
}

#[test]
fn build_request_for_get_line_needs_the_line() {
    assert_eq!(
        build_request("get_line", Some(3), None),
        Ok(Request::GetLine { line: 3 })
    );
    assert_eq!(
        build_request("get_line", Some(u64::MAX), Some(Vec::new())),
        Ok(Request::GetLine { line: u64::MAX })
    );
    assert_eq!(
        build_request("get_line", None, None),
        Err(Malformed { method: Method::GetLine })
    );
    assert_eq!(
        build_request("get_line", None, Some(Vec::new())),
        Err(Malformed { method: Method::GetLine })
    );
}

#[test]
fn build_request_for_styling_needs_line_and_spans() {
    assert_eq!(
        build_request("set_line_fg_spans", Some(0), Some(vec![span(0, 5, "emphasis")])),
        Ok(Request::SetLineStyles { line: 0, spans: vec![span(0, 5, "emphasis")] })
    );
    assert_eq!(
        build_request("set_line_fg_spans", Some(2), Some(Vec::new())),
        Ok(Request::SetLineStyles { line: 2, spans: Vec::new() })
    );
    let malformed = Err(Malformed { method: Method::SetLineStyles });
    assert_eq!(build_request("set_line_fg_spans", None, Some(Vec::new())), malformed);
    assert_eq!(build_request("set_line_fg_spans", Some(0), None), malformed);
    assert_eq!(build_request("set_line_fg_spans", None, None), malformed);
}

#[test]
fn build_request_keeps_the_raw_name_of_an_unknown_method() {
    assert_eq!(
        build_request("frobnicate", Some(1), Some(Vec::new())),
        Ok(Request::Unknown { method: "frobnicate".to_string() })
    );
    assert_eq!(
        build_request("", None, None),
        Ok(Request::Unknown { method: String::new() })
    );
}
