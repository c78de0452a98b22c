use xdiff::config::{ConfigError, Field, NormalizeError, RequestError, Response, Side};
use xdiff::display::{highlight_text, response_block, DisplayError, DEFAULT_THEME};

fn response(headers: &[(&str, &str)], body: &str) -> Response {
    Response {
        version: "HTTP/1.1".to_string(),
        status: 200,
        headers: headers.iter().map(|(k, v)| (k.to_string(), v.to_string())).collect(),
        body: body.to_string(),
    }
}

fn plain(text: &str) -> String {
    let mut out = String::new();
    let mut rest = text;
    while let Some(at) = rest.find('\u{1b}') {
        out.push_str(&rest[..at]);
        let end = rest[at..].find('m').map(|i| at + i + 1).unwrap_or(rest.len());
        rest = &rest[end..];
    }
    out.push_str(rest);
    out
}

#[test]
fn plain_block_has_url_status_headers_and_body() {
    let res = response(&[("content-type", "application/json"), ("x-a", "1")], "{\"id\":1}");
    assert_eq!(
        response_block("http://host/a?x=1", &res, false),
        Ok("Url: http://host/a?x=1\n\nResult: HTTP/1.1 200\n\ncontent-type: application/json\nx-a: 1\n\n{\n  \"id\": 1\n}"
            .to_string())
    );
}

#[test]
fn plain_block_of_a_response_without_headers_and_body() {
    assert_eq!(
        response_block("u", &response(&[], ""), false),
        Ok("Url: u\n\nResult: HTTP/1.1 200\n\n\n".to_string())
    );
}

#[test]
fn highlighting_adds_colours_and_keeps_the_text() {
    let res = response(&[("content-type", "application/json"), ("x-a", "1")], "{\"id\":1}");
    let shown = response_block("http://host/a", &res, true).unwrap();
    let bare = response_block("http://host/a", &res, false).unwrap();
    assert_ne!(shown, bare);
    assert!(shown.contains("\u{1b}[38;2;"));
    assert_eq!(plain(&shown), bare);
}

#[test]
fn block_of_a_response_with_a_bad_body_is_an_error() {
    let res = response(&[("content-type", "application/json")], "not json");
    for highlight in [false, true] {
        assert_eq!(
            response_block("u", &res, highlight),
            Err(DisplayError::Body(NormalizeError::InvalidJson))
        );
    }
}

#[test]
fn text_is_highlighted_line_by_line() {
    let shown = highlight_text("a: 1\nb: two\n", "yaml", None).unwrap();
    assert_eq!(plain(&shown), "a: 1\nb: two\n");
    assert_ne!(shown, "a: 1\nb: two\n");
    assert_eq!(highlight_text("a: 1\n", "yaml", Some(DEFAULT_THEME)), highlight_text("a: 1\n", "yaml", None));
    assert_ne!(
        highlight_text("a: 1\n", "yaml", Some("InspiredGitHub")),
        highlight_text("a: 1\n", "yaml", None)
    );
    assert_eq!(highlight_text("", "json", None), Some(String::new()));
}

#[test]
fn unknown_syntax_or_theme_gives_nothing() {
    assert_eq!(highlight_text("x", "no-such-extension", None), None);
    assert_eq!(highlight_text("x", "json", Some("no such theme")), None);
}

#[test]
fn faults_of_a_configuration_in_words() {
    let fault = |profile: Option<&str>, side, field| ConfigError {
        profile: profile.map(|s| s.to_string()),
        side,
        field,
    };
    assert_eq!(fault(None, None, Field::Params).message(), "config params error");
    assert_eq!(fault(None, Some(Side::Req2), Field::Body).message(), "req2 error: config body error");
    assert_eq!(
        fault(Some("tasks"), Some(Side::Req1), Field::Params).message(),
        "profile error [tasks]: req1 error: config params error"
    );
    assert_eq!(fault(Some("x"), None, Field::Body).message(), "profile error [x]: config body error");
}

#[test]
fn errors_in_words() {
    let all = [
        RequestError::InvalidUrl,
        RequestError::InvalidValue,
        RequestError::InvalidHeaderName,
        RequestError::InvalidHeaderValue,
        RequestError::UnsupportedContentType,
        RequestError::Unwritable,
    ];
    for (i, a) in all.iter().enumerate() {
        assert!(!a.message().is_empty());
        for b in &all[i + 1..] {
            assert_ne!(a.message(), b.message());
        }
    }
    assert_eq!(RequestError::UnsupportedContentType.message(), "unsupported content type");
    assert_ne!(NormalizeError::InvalidJson.message(), NormalizeError::Unwritable.message());
}
