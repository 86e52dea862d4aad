use workpool::http::{
    build_http_response, error_response, healthy_response, push_decimal, route, route_request, same_text, Route,
    HEALTHY_PAGE, NOT_FOUND_PAGE,
};
use workpool::page::{ok_response, respond, PAGE_TEMPLATE};

#[test]
fn frames_a_small_body() {
    let r = build_http_response("HTTP/1.1 200 OK", "hello".to_string());
    assert_eq!(
        r,
        "HTTP/1.1 200 OK\r\nContent-Length: 5\r\nContent-Type: text/html; charset=utf-8\r\n\r\nhello"
    );
}

#[test]
fn frames_an_empty_body() {
    let r = build_http_response("HTTP/1.1 204 No Content", String::new());
    assert_eq!(
        r,
        "HTTP/1.1 204 No Content\r\nContent-Length: 0\r\nContent-Type: text/html; charset=utf-8\r\n\r\n"
    );
}

#[test]
fn content_length_counts_utf8_bytes() {
    let r = build_http_response("S", "é€".to_string());
    assert_eq!(r, "S\r\nContent-Length: 5\r\nContent-Type: text/html; charset=utf-8\r\n\r\né€");
}

#[test]
fn decimal_digits() {
    for n in [0usize, 7, 10, 99, 100, 1234567890, usize::MAX] {
        let mut s = String::from("x");
        push_decimal(&mut s, n);
        assert_eq!(s, format!("x{}", n));
    }
}

#[test]
fn same_text_compares_characters() {
    assert!(same_text("abc", "abc"));
    assert!(same_text("", ""));
    assert!(!same_text("abc", "abd"));
    assert!(!same_text("abc", "ab"));
}

#[test]
fn routes_request_lines() {
    assert_eq!(route("GET / HTTP/1.1"), Route::Page);
    assert_eq!(route("GET /x86 HTTP/1.1"), Route::Page);
    assert_eq!(route("GET /arm64 HTTP/1.1"), Route::Page);
    assert_eq!(route("GET /ishealthy HTTP/1.1"), Route::Health);
    assert_eq!(route("GET /other HTTP/1.1"), Route::NotFound);
    assert_eq!(route("POST / HTTP/1.1"), Route::NotFound);
    assert_eq!(route(""), Route::NotFound);
}

#[test]
fn routes_by_first_line_of_head() {
    assert_eq!(route_request(&Vec::new()), None);
    let head = vec!["GET /ishealthy HTTP/1.1".to_string(), "Host: localhost".to_string()];
    assert_eq!(route_request(&head), Some(Route::Health));
}

#[test]
fn fixed_responses() {
    let h = healthy_response();
    assert_eq!(h, format!("HTTP/1.1 200 OK\r\nContent-Length: {}\r\nContent-Type: text/html; charset=utf-8\r\n\r\n{}", HEALTHY_PAGE.len(), HEALTHY_PAGE));
    assert!(h.contains("This Rust application is operating normally."));
    let e = error_response();
    assert_eq!(e, format!("HTTP/1.1 404 NOT FOUND\r\nContent-Length: {}\r\nContent-Type: text/html; charset=utf-8\r\n\r\n{}", NOT_FOUND_PAGE.len(), NOT_FOUND_PAGE));
}

#[test]
fn renders_the_architecture_page() {
    let r = ok_response("x86_64").unwrap();
    assert!(r.starts_with("HTTP/1.1 200 OK\r\nContent-Length: "));
    assert!(r.contains("<h1>Response from x86_64 architecture</h1>"));
    assert!(!r.contains("{{architecture}}"));
    let body = r.split("\r\n\r\n").nth(1).unwrap();
    assert!(r.contains(&format!("Content-Length: {}\r\n", body.len())));
    assert!(PAGE_TEMPLATE.contains("{{architecture}}"));
}

#[test]
fn architecture_is_html_escaped() {
    let r = ok_response("<arm>").unwrap();
    assert!(r.contains("Response from &lt;arm&gt; architecture"));
}

#[test]
fn respond_dispatches_on_route() {
    assert_eq!(respond(Route::Health, "aarch64"), Ok(healthy_response()));
    assert_eq!(respond(Route::NotFound, "aarch64"), Ok(error_response()));
    assert_eq!(respond(Route::Page, "aarch64"), ok_response("aarch64"));
    assert!(respond(Route::Page, "aarch64").is_ok());
}
