use xdiff::config::{
    filter_json, get_body_text, get_header_text, get_status_text, is_default, DiffProfile, Method,
    NormalizeError, RequestProfile, Response, ResponseExt, ResponseProfile,
};

fn strings(items: &[&str]) -> Vec<String> {
    items.iter().map(|s| s.to_string()).collect()
}

fn response(headers: &[(&str, &str)], body: &str) -> Response {
    Response {
        version: "HTTP/1.1".to_string(),
        status: 200,
        headers: headers.iter().map(|(k, v)| (k.to_string(), v.to_string())).collect(),
        body: body.to_string(),
    }
}

fn request(url: &str) -> RequestProfile {
    RequestProfile::new(Method::Get, url.to_string(), None, Vec::new(), None)
}

#[test]
fn status_line_is_version_and_status() {
    assert_eq!(get_status_text(&response(&[], "")), "HTTP/1.1 200\n");
    let mut res = response(&[], "");
    res.version = "HTTP/2.0".to_string();
    res.status = 404;
    assert_eq!(get_status_text(&res), "HTTP/2.0 404\n");
}

#[test]
fn headers_come_in_the_order_received() {
    let res = response(&[("b", "2"), ("a", "1"), ("b", "3")], "");
    assert_eq!(get_header_text(&res, &[]), "b: 2\na: 1\nb: 3\n");
    assert_eq!(get_header_text(&response(&[], ""), &[]), "");
}

#[test]
fn skipped_header_never_shows_whatever_its_value() {
    let skip = strings(&["X-Request-Id"]);
    for value in ["abc", "", "X-Request-Id: x", "1\n2"] {
        let res = response(&[("date", "today"), ("X-Request-Id", value), ("server", "s")], "");
        let text = get_header_text(&res, &skip);
        assert_eq!(text, "date: today\nserver: s\n");
        assert!(!text.contains("X-Request-Id"));
    }
}

#[test]
fn header_names_are_matched_exactly() {
    let res = response(&[("x-request-id", "1"), ("X-Request-Id", "2"), ("X-Request-Id ", "3")], "");
    assert_eq!(
        get_header_text(&res, &strings(&["X-Request-Id"])),
        "x-request-id: 1\nX-Request-Id : 3\n"
    );
}

#[test]
fn json_body_loses_the_skipped_fields_and_is_indented() {
    assert_eq!(
        filter_json("{\"a\":1,\"b\":2}", &strings(&["a"])),
        Ok("{\n  \"b\": 2\n}".to_string())
    );
    assert_eq!(
        filter_json("{\"b\":{\"a\":[1,{}]},\"a\":1}", &strings(&["a", "zz"])),
        Ok("{\n  \"b\": {\n    \"a\": [\n      1,\n      {}\n    ]\n  }\n}".to_string())
    );
    assert_eq!(filter_json("{\"a\":1}", &strings(&["a"])), Ok("{}".to_string()));
}

#[test]
fn json_body_that_is_no_object_is_indented_only() {
    assert_eq!(filter_json("[{\"a\":1}]", &strings(&["a"])), Ok("[\n  {\n    \"a\": 1\n  }\n]".to_string()));
    assert_eq!(filter_json(" 12 ", &strings(&["a"])), Ok("12".to_string()));
}

#[test]
fn invalid_json_is_an_error() {
    assert_eq!(filter_json("not json", &[]), Err(NormalizeError::InvalidJson));
    assert_eq!(filter_json("", &[]), Err(NormalizeError::InvalidJson));
    let res = response(&[("content-type", "application/json")], "not json");
    assert_eq!(get_body_text(&res, &[]), Err(NormalizeError::InvalidJson));
    assert_eq!(
        ResponseExt(res).filter_text(&ResponseProfile::default()),
        Err(NormalizeError::InvalidJson)
    );
}

#[test]
fn body_is_filtered_only_where_json_is_declared() {
    let skip = strings(&["a"]);
    let body = "{\"a\":1,\"b\":2}";
    for ct in ["application/json", "application/json; charset=utf-8", "Application/JSON;x"] {
        let res = response(&[("Content-Type", ct)], body);
        assert_eq!(get_body_text(&res, &skip), Ok("{\n  \"b\": 2\n}".to_string()));
    }
    for ct in ["text/plain", "application/json ", "application/jsonp", ""] {
        let res = response(&[("content-type", ct)], body);
        assert_eq!(get_body_text(&res, &skip), Ok(body.to_string()));
    }
    assert_eq!(get_body_text(&response(&[], "not json"), &skip), Ok("not json".to_string()));
}

#[test]
fn text_of_a_response_is_status_headers_and_body() {
    let res = response(
        &[("content-type", "application/json"), ("x-trace", "abc")],
        "{\"id\":1,\"time\":5}",
    );
    let profile = ResponseProfile::new(strings(&["x-trace"]), strings(&["time"]));
    assert_eq!(
        ResponseExt(res.clone()).filter_text(&profile),
        Ok("HTTP/1.1 200\ncontent-type: application/json\n{\n  \"id\": 1\n}".to_string())
    );
    assert_eq!(
        ResponseExt(res).filter_text(&ResponseProfile::default()),
        Ok("HTTP/1.1 200\ncontent-type: application/json\nx-trace: abc\n{\n  \"id\": 1,\n  \"time\": 5\n}"
            .to_string())
    );
}

#[test]
fn response_hands_out_its_parts() {
    let res = response(&[("b", "2"), ("a", "1")], "x");
    let ext = ResponseExt(res.clone());
    assert_eq!(ext.get_header_keys(), strings(&["b", "a"]));
    assert_eq!(ext.into_inner(), res);
}

#[test]
fn default_response_profile_skips_nothing() {
    let p = ResponseProfile::default();
    assert!(p.skip_headers.is_empty() && p.skip_body.is_empty());
    assert_eq!(p, ResponseProfile::new(Vec::new(), Vec::new()));
    let q = ResponseProfile::new(strings(&["a"]), strings(&["b", "c"]));
    assert_eq!(q.skip_headers, strings(&["a"]));
    assert_eq!(q.skip_body, strings(&["b", "c"]));
}

#[test]
fn responses_that_differ_in_a_skipped_header_have_an_empty_diff() {
    let profile = DiffProfile::new(
        request("http://host/a?x=1"),
        request("http://host/a?x=2"),
        ResponseProfile::new(strings(&["X-Trace"]), Vec::new()),
    );
    let res1 = response(&[("content-type", "application/json"), ("X-Trace", "abc")], "{\"id\":1}");
    let res2 = response(&[("content-type", "application/json"), ("X-Trace", "def")], "{\"id\":1}");
    for colors in [false, true] {
        assert_eq!(
            profile.diff_responses(ResponseExt(res1.clone()), ResponseExt(res2.clone()), colors),
            Ok(String::new())
        );
    }
}

#[test]
fn responses_that_differ_show_in_the_diff() {
    let profile = DiffProfile::new(
        request("http://host/a"),
        request("http://host/b"),
        ResponseProfile::new(Vec::new(), strings(&["time"])),
    );
    let res1 = response(&[("content-type", "application/json")], "{\"id\":1,\"time\":1}");
    let res2 = response(&[("content-type", "application/json")], "{\"id\":2,\"time\":2}");
    let expected = [
        "1   1    | HTTP/1.1 200\n",
        "2   2    | content-type: application/json\n",
        "3   3    | {\n",
        "4        |-  \"id\": 1\n",
        "    4    |+  \"id\": 2\n",
        "5   5    | }",
    ]
    .join("");
    assert_eq!(
        profile.diff_responses(ResponseExt(res1.clone()), ResponseExt(res2), false),
        Ok(expected)
    );
    let bad = response(&[("content-type", "application/json")], "{");
    assert_eq!(
        profile.diff_responses(ResponseExt(res1.clone()), ResponseExt(bad.clone()), false),
        Err(NormalizeError::InvalidJson)
    );
    assert_eq!(
        profile.diff_responses(ResponseExt(bad), ResponseExt(res1), false),
        Err(NormalizeError::InvalidJson)
    );
}

#[test]
fn response_profiles_are_equal_where_their_lists_are() {
    let a = ResponseProfile::new(strings(&["a"]), strings(&["b"]));
    assert!(a == ResponseProfile::new(strings(&["a"]), strings(&["b"])));
    assert!(a != ResponseProfile::new(strings(&["a"]), Vec::new()));
    assert!(a != ResponseProfile::new(strings(&["A"]), strings(&["b"])));
    assert!(a != ResponseProfile::new(strings(&["a", "a"]), strings(&["b"])));
    let two = ResponseProfile::new(strings(&["a", "b"]), Vec::new());
    assert!(two != ResponseProfile::new(strings(&["b", "a"]), Vec::new()));
}

#[test]
fn default_response_profile_is_told_from_others() {
    assert!(is_default(&ResponseProfile::default()));
    assert!(is_default(&ResponseProfile::new(Vec::new(), Vec::new())));
    assert!(!is_default(&ResponseProfile::new(strings(&["a"]), Vec::new())));
    assert!(!is_default(&ResponseProfile::new(Vec::new(), strings(&["a"]))));
}

#[test]
fn status_code_is_written_in_decimal() {
    let mut res = response(&[], "");
    for (code, line) in [(0u16, "HTTP/1.1 0\n"), (7, "HTTP/1.1 7\n"), (100, "HTTP/1.1 100\n"), (65535, "HTTP/1.1 65535\n")] {
        res.status = code;
        assert_eq!(get_status_text(&res), line);
    }
}
