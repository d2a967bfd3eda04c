use blight::err::{bare_error, BareError, BareErrorCode};
use blight::getxb::{
    get_x_bare_forward_headers, get_x_bare_headers, get_x_bare_pass_headers,
    get_x_bare_pass_statuses, get_x_bare_port, get_x_bare_protocol, get_x_bare_url,
    x_bare_forward_headers_from_json, x_bare_headers_from_json,
};
use blight::headers::HeaderList;
use blight::json::JsonValue;
use blight::parse::{v1_parse_req, v1_parse_req_checked, v3_parse_req, v3_parse_req_checked};
use blight::splitjoin::{join_x_bare_headers, try_split_x_bare_headers_str};
use blight::structs::{BareServerInfo, BareServerVersion};

fn headers(pairs: &[(&str, &str)]) -> HeaderList {
    let mut h = HeaderList::new();
    for (k, v) in pairs {
        h.insert(k.to_string(), v.as_bytes().to_vec());
    }
    h
}

fn text(h: &HeaderList, name: &str) -> Option<String> {
    h.get(name).map(|v| String::from_utf8(v.clone()).unwrap())
}

#[test]
fn error_codes_have_their_names_and_statuses() {
    assert_eq!(BareErrorCode::UNKNOWN.to_str(), "UNKNOWN");
    assert_eq!(BareErrorCode::FORBIDDEN_BARE_HEADER.to_str(), "FORBIDDEN_BARE_HEADER");
    assert_eq!(BareErrorCode::CONNECTION_TIMEOUT.to_status(), 500);
    assert_eq!(BareErrorCode::MISSING_BARE_HEADER.to_status(), 400);
    assert_eq!(BareErrorCode::INVALID_HEADER.to_status(), 400);
    assert_eq!(BareErrorCode::FORBIDDEN_BARE_HEADER.to_status(), 403);
}

#[test]
fn error_json_and_response() {
    let e = BareError {
        code: BareErrorCode::INVALID_BARE_HEADER,
        id: "request.headers.x-bare-port".to_string(),
        message: "say \"hi\"\n".to_string(),
    };
    let json = "{\"code\":\"INVALID_BARE_HEADER\",\"id\":\"request.headers.x-bare-port\",\"message\":\"say \\\"hi\\\"\\n\"}";
    assert_eq!(e.into_json_str(), json);
    assert_eq!(e.to_string(), json);
    let r = e.clone().into_response();
    assert_eq!(r.status, 400);
    assert_eq!(r.body, json);
    assert_eq!(r.headers[0], ("Content-Type".to_string(), "application/json".to_string()));
    assert_eq!(r.headers[1].1, "INVALID_BARE_HEADER");
    assert_eq!(r.headers[2].1, "request.headers.x-bare-port");
    assert_eq!(r.headers[3].1, "say \"hi\"\n");
}

#[test]
fn protocol_header_loses_its_colon() {
    let h = headers(&[("x-bare-protocol", "https:")]);
    assert_eq!(get_x_bare_protocol(&h).unwrap(), "https");
    let bad = headers(&[("x-bare-protocol", "ftp:")]);
    let e = get_x_bare_protocol(&bad).unwrap_err();
    assert_eq!(e.code, BareErrorCode::INVALID_BARE_HEADER);
    assert_eq!(e.id, "request.headers.x-bare-protocol");
    assert_eq!(e.message, "Header was invalid");
    let missing = get_x_bare_protocol(&HeaderList::new()).unwrap_err();
    assert_eq!(missing.code, BareErrorCode::MISSING_BARE_HEADER);
    assert_eq!(missing.message, "Header was not specified.");
}

#[test]
fn port_header_is_a_u16() {
    assert_eq!(get_x_bare_port(&headers(&[("x-bare-port", "8080")])).unwrap(), 8080);
    assert_eq!(get_x_bare_port(&headers(&[("x-bare-port", "+443")])).unwrap(), 443);
    let e = get_x_bare_port(&headers(&[("x-bare-port", "65536")])).unwrap_err();
    assert_eq!(e.code, BareErrorCode::INVALID_BARE_HEADER);
    assert_eq!(e.message, "Header was not a valid integer.");
    let e = get_x_bare_port(&headers(&[("x-bare-port", " 80")])).unwrap_err();
    assert_eq!(e.id, "request.headers.x-bare-port");
}

#[test]
fn url_header_missing_names_the_id_header() {
    let e = get_x_bare_url(&HeaderList::new()).unwrap_err();
    assert_eq!(e.code, BareErrorCode::MISSING_BARE_HEADER);
    assert_eq!(e.id, "request.headers.x-bare-id");
    let u = get_x_bare_url(&headers(&[("x-bare-url", "https://example.com:8443/a?b=c")])).unwrap();
    assert_eq!(u.host.as_deref(), Some("example.com"));
    assert_eq!(u.port, Some(8443));
    assert_eq!(u.path_and_query.as_deref(), Some("/a?b=c"));
}

#[test]
fn pass_statuses_keep_the_untrimmed_code_in_errors() {
    let h = headers(&[("x-bare-pass-status", " 200, 404 ,,")]);
    assert_eq!(get_x_bare_pass_statuses(&h, true).unwrap(), vec![304, 200, 404]);
    assert_eq!(get_x_bare_pass_statuses(&h, false).unwrap(), vec![200, 404]);
    let bad = headers(&[("x-bare-pass-status", "200, abc")]);
    let e = get_x_bare_pass_statuses(&bad, false).unwrap_err();
    assert_eq!(e.message, "Array contained non-number value ' abc.");
    assert_eq!(get_x_bare_pass_statuses(&HeaderList::new(), false).unwrap(), Vec::<u16>::new());
}

#[test]
fn pass_headers_add_to_the_defaults() {
    let h = headers(&[("x-bare-pass-headers", " X-Custom , etag")]);
    let p = get_x_bare_pass_headers(&h, false).unwrap();
    assert_eq!(p, vec!["content-encoding", "content-length", "last-modified", "x-custom", "etag"]);
    let forbidden = headers(&[("x-bare-pass-headers", "vary")]);
    let e = get_x_bare_pass_headers(&forbidden, false).unwrap_err();
    assert_eq!(e.code, BareErrorCode::FORBIDDEN_BARE_HEADER);
    assert_eq!(e.message, "A forbidden header was passed: 'vary'.");
}

#[test]
fn pass_headers_absent_is_empty() {
    assert_eq!(get_x_bare_pass_headers(&HeaderList::new(), false).unwrap(), Vec::<String>::new());
    assert_eq!(get_x_bare_pass_headers(&HeaderList::new(), true).unwrap(), Vec::<String>::new());
    let cached = headers(&[("x-bare-pass-headers", "")]);
    assert_eq!(
        get_x_bare_pass_headers(&cached, true).unwrap(),
        vec!["content-encoding", "content-length", "last-modified", "cache-control", "etag"]
    );
}

#[test]
fn pass_headers_skip_blank_entries() {
    let h = headers(&[("x-bare-pass-headers", "etag, ,x-custom")]);
    assert_eq!(
        get_x_bare_pass_headers(&h, false).unwrap(),
        vec!["content-encoding", "content-length", "last-modified", "etag", "x-custom"]
    );
}

#[test]
fn forward_headers_by_version() {
    let info2 = BareServerInfo { version: BareServerVersion::V2, cache: false };
    let none = get_x_bare_forward_headers(&HeaderList::new(), info2).unwrap();
    assert_eq!(none, vec!["accept-encoding", "accept-language", "sec-websocket-extensions", "sec-websocket-key", "sec-websocket-version"]);
    let info2c = BareServerInfo { version: BareServerVersion::V2, cache: true };
    let cached = get_x_bare_forward_headers(&HeaderList::new(), info2c).unwrap();
    assert_eq!(cached.len(), 8);
    assert_eq!(&cached[5..], &["if-modified-since", "if-none-match", "cache-control"]);
    let two = get_x_bare_forward_headers(&headers(&[("x-bare-forward-headers", "x-a,x-b")]), info2).unwrap();
    assert_eq!(two.len(), 7);
    let e = get_x_bare_forward_headers(&headers(&[("x-bare-forward-headers", "connection")]), info2).unwrap_err();
    assert_eq!(e.code, BareErrorCode::FORBIDDEN_BARE_HEADER);
    let v2 = get_x_bare_forward_headers(&headers(&[("x-bare-forward-headers", "x-a,, ,")]), info2).unwrap();
    assert_eq!(v2, vec!["accept-encoding", "accept-language", "sec-websocket-extensions", "sec-websocket-key", "sec-websocket-version", "x-a"]);
    let info3 = BareServerInfo { version: BareServerVersion::V3, cache: true };
    assert_eq!(get_x_bare_forward_headers(&HeaderList::new(), info3).unwrap(), Vec::<String>::new());
    let v3 = get_x_bare_forward_headers(&headers(&[("x-bare-forward-headers", "x-a")]), info3).unwrap();
    assert_eq!(v3, vec!["accept-encoding", "accept-language", "if-modified-since", "if-none-match", "cache-control", "x-a"]);
    let info1 = BareServerInfo { version: BareServerVersion::V1, cache: false };
    let e = get_x_bare_forward_headers(&HeaderList::new(), info1).unwrap_err();
    assert_eq!(e.code, BareErrorCode::MISSING_BARE_HEADER);
    assert_eq!(e.id, "request.headers.x-bare-forward-headers");
    let e = get_x_bare_forward_headers(&headers(&[("x-bare-forward-headers", "[\"host\"]")]), info1).unwrap_err();
    assert_eq!(e.code, BareErrorCode::FORBIDDEN_BARE_HEADER);
    assert_eq!(e.id, "bare.headers.x-bare-forward-headers");
    assert_eq!(e.message, "A forbidden header was passed: 'host'.");
    let v1 = get_x_bare_forward_headers(&headers(&[("x-bare-forward-headers", "[\"x-b\", 3, \"x-c\"]")]), info1).unwrap();
    assert_eq!(v1, vec!["x-b", "x-c"]);
    let e = get_x_bare_forward_headers(&headers(&[("x-bare-forward-headers", "x-b")]), info1).unwrap_err();
    assert_eq!(e.code, BareErrorCode::INVALID_BARE_HEADER);
    assert_eq!(e.message, "Header was not an array of Strings.");
}

#[test]
fn forward_headers_from_a_given_list() {
    let info1 = BareServerInfo { version: BareServerVersion::V1, cache: false };
    let h = headers(&[("x-bare-forward-headers", "[]")]);
    let list = Some(vec![JsonValue::Str("x-d".to_string()), JsonValue::Null]);
    assert_eq!(x_bare_forward_headers_from_json(&h, info1, &list).unwrap().unwrap(), vec!["x-d"]);
    let e = x_bare_forward_headers_from_json(&h, info1, &None).unwrap().unwrap_err();
    assert_eq!(e.message, "Header was not an array of Strings.");
}

#[test]
fn headers_to_send_from_the_header_text() {
    let info = BareServerInfo { version: BareServerVersion::V1, cache: false };
    let h = headers(&[("x-bare-headers", "{\"Accept\":\"*/*\",\"X-List\":[\"a\",\"b\"]}")]);
    let out = get_x_bare_headers(&h, info).unwrap();
    assert_eq!(text(&out, "accept").as_deref(), Some("*/*"));
    assert_eq!(text(&out, "x-list").as_deref(), Some("[\"a\",\"b\"]"));
    let bad = headers(&[("x-bare-headers", "[\"a\"]")]);
    let e = get_x_bare_headers(&bad, info).unwrap_err();
    assert_eq!(e.code, BareErrorCode::INVALID_BARE_HEADER);
    assert_eq!(e.id, "bare.headers.x-bare-headers");
    assert_eq!(e.message, "Header was not an array of Strings.");
    let forbidden = headers(&[("x-bare-headers", "{\"content-length\":\"3\"}")]);
    let e = get_x_bare_headers(&forbidden, info).unwrap_err();
    assert_eq!(e.code, BareErrorCode::FORBIDDEN_BARE_HEADER);
    assert_eq!(e.message, "A forbidden header was passed: 'content-length'.");
    let e = get_x_bare_headers(&headers(&[("x-bare-headers", "{\"x\":true}")]), info).unwrap_err();
    assert_eq!(e.message, "Header was not a String or Array of Strings.");
    let e = get_x_bare_headers(&headers(&[("x-bare-headers", "{\"x\":[\"a\",1]}")]), info).unwrap_err();
    assert_eq!(e.message, "Header was not an array of Strings.");
    let e = get_x_bare_headers(&HeaderList::new(), info).unwrap_err();
    assert_eq!(e.code, BareErrorCode::MISSING_BARE_HEADER);
    assert_eq!(e.id, "request.headers.x-bare-headers");
}

#[test]
fn headers_to_send_from_joined_pieces() {
    let info = BareServerInfo { version: BareServerVersion::V2, cache: false };
    let h = headers(&[("x-bare-headers-0", ";{\"Accept\":"), ("x-bare-headers-1", ";\"text/plain\"}")]);
    let out = get_x_bare_headers(&h, info).unwrap();
    assert_eq!(text(&out, "accept").as_deref(), Some("text/plain"));
    let bad = headers(&[("x-bare-headers-0", "{}")]);
    let e = get_x_bare_headers(&bad, info).unwrap_err();
    assert_eq!(e.id, "request.headers.x-bare-headers-0");
    assert_eq!(e.message, "Value didn't begin with semi-colon.");
    let e = get_x_bare_headers(&HeaderList::new(), info).unwrap_err();
    assert_eq!(e.code, BareErrorCode::INVALID_BARE_HEADER);
    assert_eq!(e.message, "Header was not an array of Strings.");
}

#[test]
fn headers_to_send_from_json_members() {
    let info = BareServerInfo { version: BareServerVersion::V1, cache: false };
    let h = headers(&[("x-bare-headers", "{\"Accept\":\"*/*\",\"X-List\":[\"a\",\"b\"]}")]);
    let members = Some(vec![
        ("Accept".to_string(), JsonValue::Str("*/*".to_string())),
        ("X-List".to_string(), JsonValue::Array(vec![JsonValue::Str("a".to_string()), JsonValue::Str("b".to_string())])),
    ]);
    let out = x_bare_headers_from_json(&h, info, &members).unwrap().unwrap();
    assert_eq!(text(&out, "accept").as_deref(), Some("*/*"));
    assert_eq!(text(&out, "x-list").as_deref(), Some("[\"a\",\"b\"]"));
    let forbidden = Some(vec![("connection".to_string(), JsonValue::Str("close".to_string()))]);
    let e = x_bare_headers_from_json(&h, info, &forbidden).unwrap().unwrap_err();
    assert_eq!(e.code, BareErrorCode::FORBIDDEN_BARE_HEADER);
    assert_eq!(e.message, "A forbidden header was passed: 'connection'.");
    let number = Some(vec![("x".to_string(), JsonValue::Number(Some(1)))]);
    let e = x_bare_headers_from_json(&h, info, &number).unwrap().unwrap_err();
    assert_eq!(e.message, "Header was not a String or Array of Strings.");
    let e = x_bare_headers_from_json(&h, info, &None).unwrap().unwrap_err();
    assert_eq!(e.message, "Header was not an array of Strings.");
    let e = x_bare_headers_from_json(&HeaderList::new(), info, &None).unwrap().unwrap_err();
    assert_eq!(e.code, BareErrorCode::MISSING_BARE_HEADER);
}

#[test]
fn split_pieces_join_back() {
    assert!(try_split_x_bare_headers_str("short").is_none());
    let long: String = std::iter::repeat("a").take(3072 * 2 + 5).collect();
    let split = try_split_x_bare_headers_str(&long).unwrap();
    assert_eq!(split.entries.len(), 3);
    assert_eq!(split.entries[0].0, "x-bare-headers-0");
    assert_eq!(split.entries[2].0, "x-bare-headers-2");
    assert_eq!(split.entries[0].1.len(), 3073);
    assert_eq!(split.entries[0].1[0], b';');
    assert_eq!(split.entries[2].1.len(), 6);
    let joined = join_x_bare_headers(&split).unwrap();
    assert_eq!(String::from_utf8(joined).unwrap(), long);
    let mixed: String = (0..7000u32).map(|i| char::from(b'a' + (i % 26) as u8)).collect();
    let pieces = try_split_x_bare_headers_str(&mixed).unwrap();
    assert_eq!(join_x_bare_headers(&pieces).unwrap(), mixed.as_bytes().to_vec());
}

#[test]
fn join_refuses_a_piece_without_semicolon() {
    let h = headers(&[("x-bare-headers-0", ";ab"), ("x-bare-headers-1", "cd")]);
    let e = join_x_bare_headers(&h).unwrap_err();
    assert_eq!(e.code, BareErrorCode::INVALID_BARE_HEADER);
    assert_eq!(e.id, "request.headers.x-bare-headers-1");
    assert_eq!(e.message, "Value didn't begin with semi-colon.");
    let gap = headers(&[("x-bare-headers-0", ";ab"), ("x-bare-headers-2", ";cd")]);
    assert_eq!(join_x_bare_headers(&gap).unwrap(), b"ab".to_vec());
}

#[test]
fn version_one_request_parses() {
    let h = headers(&[
        ("x-bare-protocol", "https:"),
        ("x-bare-host", "example.com"),
        ("x-bare-port", "443"),
        ("x-bare-path", "/index.html"),
        ("x-bare-headers", "{\"Accept\":\"text/html\"}"),
        ("x-bare-forward-headers", "[\"accept-language\"]"),
    ]);
    let info = BareServerInfo { version: BareServerVersion::V1, cache: false };
    let d = v1_parse_req(&h, info).unwrap();
    assert_eq!(d.remote.scheme, "https");
    assert_eq!(d.remote.host, "example.com");
    assert_eq!(d.remote.port, 443);
    assert_eq!(d.remote.pathquery, "/index.html");
    assert_eq!(d.forward_headers, vec!["accept-language"]);
    assert!(d.pass_headers.is_empty());
    assert!(d.pass_statuses.is_empty());
    assert_eq!(text(&d.headers, "accept").as_deref(), Some("text/html"));
}

#[test]
fn checked_parsing_reports_unreadable_requests() {
    let info = BareServerInfo { version: BareServerVersion::V1, cache: false };
    let mut h = headers(&[
        ("x-bare-protocol", "https:"),
        ("x-bare-host", "example.com"),
        ("x-bare-port", "443"),
        ("x-bare-path", "/"),
        ("x-bare-headers", "{\"bad name\":\"v\"}"),
        ("x-bare-forward-headers", "[]"),
    ]);
    assert!(v1_parse_req_checked(&h, info).is_none());
    h.insert("x-bare-headers".to_string(), b"{}".to_vec());
    assert!(v1_parse_req_checked(&h, info).unwrap().is_ok());
    h.insert("x-bare-host".to_string(), vec![0xff]);
    assert!(v1_parse_req_checked(&h, info).is_none());
    let info3 = BareServerInfo { version: BareServerVersion::V3, cache: false };
    let e = v3_parse_req_checked(&HeaderList::new(), info3).unwrap().unwrap_err();
    assert_eq!(e.code, BareErrorCode::MISSING_BARE_HEADER);
    let bad_pass = headers(&[("x-bare-url", "http://a.b/"), ("x-bare-headers", "{}"), ("x-bare-pass-headers", "a b")]);
    assert!(v3_parse_req_checked(&bad_pass, info3).is_none());
    let no_host = headers(&[("x-bare-url", "/relative"), ("x-bare-headers", "{}")]);
    assert!(v3_parse_req_checked(&no_host, info3).is_none());
}

#[test]
fn version_three_request_parses() {
    let h = headers(&[
        ("x-bare-url", "http://example.com/a?b"),
        ("x-bare-headers", "{}"),
        ("x-bare-forward-headers", "x-a"),
        ("x-bare-pass-headers", "etag"),
    ]);
    let info = BareServerInfo { version: BareServerVersion::V3, cache: false };
    let d = v3_parse_req(&h, info).unwrap();
    assert_eq!(d.remote.scheme, "http");
    assert_eq!(d.remote.port, 80);
    assert_eq!(d.remote.pathquery, "/a?b");
    assert_eq!(d.forward_headers, vec!["accept-encoding", "accept-language", "x-a"]);
    assert_eq!(d.pass_headers, vec!["content-encoding", "content-length", "last-modified", "etag"]);
}

#[test]
fn bare_error_builder_keeps_its_parts() {
    let e = bare_error(BareErrorCode::UNKNOWN, "response", "m".to_string());
    assert_eq!(e.id, "response");
    assert_eq!(e.message, "m");
}
